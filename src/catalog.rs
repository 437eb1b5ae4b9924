use vstd::prelude::*;

use crate::text::{contains_str, is_substring, lower_of, lowercase};

verus! {

/// One launchable entry.
pub struct App {
    /// Display name.
    pub name: String,
    /// Command line handed whole to the platform shell.
    pub command: String,
    pub icon: Option<String>,
    pub description: Option<String>,
}

/// A named group of apps, in document order.
pub struct Category {
    pub name: String,
    pub icon: Option<String>,
    pub apps: Vec<App>,
}

/// The whole catalog: categories in document order.
pub struct Catalog {
    pub categories: Vec<Category>,
}

/// The categories that a query lets through, as positions in the catalog.
pub struct FilteredView {
    pub indices: Vec<usize>,
}

/// Some app of `c` has a name that, lowercased, contains `q`.
pub open spec fn some_app_matches(q: Seq<char>, c: Category) -> bool {
    exists|j: int| 0 <= j < c.apps@.len() && is_substring(q, lower_of(#[trigger] c.apps@[j].name@))
}

/// A category is shown for `query` when the query is empty, or when the lowercased query
/// occurs in the lowercased name of the category or of one of its apps.
pub open spec fn category_matches(query: Seq<char>, c: Category) -> bool {
    query.len() == 0 || is_substring(lower_of(query), lower_of(c.name@)) || some_app_matches(
        lower_of(query),
        c,
    )
}

/// Positions among the first `k` categories that match `query`, in increasing order.
pub open spec fn matching_prefix(cats: Seq<Category>, query: Seq<char>, k: nat) -> Seq<usize>
    decreases k,
{
    if k == 0 {
        Seq::empty()
    } else {
        let rest = matching_prefix(cats, query, (k - 1) as nat);
        if category_matches(query, cats[k - 1]) {
            rest.push((k - 1) as usize)
        } else {
            rest
        }
    }
}

/// Positions of all categories of `cats` that match `query`, in catalog order.
pub open spec fn matching_indices(cats: Seq<Category>, query: Seq<char>) -> Seq<usize> {
    matching_prefix(cats, query, cats.len())
}

/// Every position of the view names a category of the catalog.
pub open spec fn view_in_range(indices: Seq<usize>, n: nat) -> bool {
    forall|p: int| 0 <= p < indices.len() ==> #[trigger] indices[p] < n
}

/// The categories that the view shows, in its order.
pub open spec fn view_categories(cats: Seq<Category>, indices: Seq<usize>) -> Seq<Category> {
    indices.map_values(|i: usize| cats[i as int])
}

/// Whether one of the apps of `c`, lowercased, contains `q` (already lowercased).
pub fn any_app_contains(c: &Category, q: &str) -> (r: bool)
    ensures
        r == some_app_matches(q@, *c),
{
    let mut j: usize = 0;
    while j < c.apps.len()
        invariant
            j <= c.apps@.len(),
            forall|t: int|
                0 <= t < j ==> !is_substring(q@, lower_of(#[trigger] c.apps@[t].name@)),
        decreases c.apps@.len() - j,
    {
        let name = lowercase(c.apps[j].name.as_str());
        if contains_str(name.as_str(), q) {
            return true;
        }
        j = j + 1;
    }
    false
}

/// Whether `c` is shown for `query`.
pub fn is_shown(c: &Category, query: &str) -> (r: bool)
    ensures
        r == category_matches(query@, *c),
{
    if query.is_empty() {
        return true;
    }
    let q = lowercase(query);
    let name = lowercase(c.name.as_str());
    if contains_str(name.as_str(), q.as_str()) {
        return true;
    }
    any_app_contains(c, q.as_str())
}

/// The categories of `catalog` that `query` lets through, in catalog order.
pub fn filter(catalog: &Catalog, query: &str) -> (r: FilteredView)
    ensures
        r.indices@ == matching_indices(catalog.categories@, query@),
        view_in_range(r.indices@, catalog.categories@.len()),
{
    let mut indices: Vec<usize> = Vec::new();
    let mut k: usize = 0;
    while k < catalog.categories.len()
        invariant
            k <= catalog.categories@.len(),
            indices@ == matching_prefix(catalog.categories@, query@, k as nat),
            view_in_range(indices@, k as nat),
        decreases catalog.categories@.len() - k,
    {
        if is_shown(&catalog.categories[k], query) {
            indices.push(k);
        }
        k = k + 1;
    }
    FilteredView { indices }
}

/// The view that shows every category of `catalog`.
pub fn full_view(catalog: &Catalog) -> (r: FilteredView)
    ensures
        r.indices@.len() == catalog.categories@.len(),
        forall|p: int| 0 <= p < r.indices@.len() ==> #[trigger] r.indices@[p] == p,
{
    let mut indices: Vec<usize> = Vec::new();
    let mut k: usize = 0;
    while k < catalog.categories.len()
        invariant
            k <= catalog.categories@.len(),
            indices@.len() == k,
            forall|p: int| 0 <= p < k ==> #[trigger] indices@[p] == p,
        decreases catalog.categories@.len() - k,
    {
        indices.push(k);
        k = k + 1;
    }
    FilteredView { indices }
}

proof fn lemma_prefix_ordered(cats: Seq<Category>, query: Seq<char>, k: nat)
    requires
        k <= cats.len(),
        cats.len() <= usize::MAX,
    ensures
        forall|p: int|
            0 <= p < matching_prefix(cats, query, k).len() ==> #[trigger] matching_prefix(
                cats,
                query,
                k,
            )[p] < k,
        forall|p: int, q: int|
            0 <= p < q < matching_prefix(cats, query, k).len() ==> matching_prefix(
                cats,
                query,
                k,
            )[p] < matching_prefix(cats, query, k)[q],
    decreases k,
{
    if k > 0 {
        lemma_prefix_ordered(cats, query, (k - 1) as nat);
        let rest = matching_prefix(cats, query, (k - 1) as nat);
        let cur = matching_prefix(cats, query, k);
        if category_matches(query, cats[k - 1]) {
            assert(cur == rest.push((k - 1) as usize));
            assert forall|p: int| 0 <= p < cur.len() implies #[trigger] cur[p] < k by {
                if p < rest.len() {
                    assert(cur[p] == rest[p]);
                }
            }
            assert forall|p: int, q: int| 0 <= p < q < cur.len() implies cur[p] < cur[q] by {
                assert(cur[p] == rest[p]);
                if q < rest.len() {
                    assert(cur[q] == rest[q]);
                }
            }
        }
    }
}

/// Filtering keeps the catalog's order: the view is a subsequence of the catalog. Its
/// positions lie inside the catalog and strictly increase, and the view shows at each place
/// the catalog's category at that position.
pub proof fn lemma_filter_keeps_order(cats: Seq<Category>, query: Seq<char>)
    requires
        cats.len() <= usize::MAX,
    ensures
        view_in_range(matching_indices(cats, query), cats.len()),
        forall|p: int, q: int|
            0 <= p < q < matching_indices(cats, query).len() ==> matching_indices(cats, query)[p]
                < matching_indices(cats, query)[q],
        forall|p: int|
            0 <= p < matching_indices(cats, query).len() ==> #[trigger] view_categories(
                cats,
                matching_indices(cats, query),
            )[p] == cats[matching_indices(cats, query)[p] as int],
{
    lemma_prefix_ordered(cats, query, cats.len());
}

proof fn lemma_empty_prefix(cats: Seq<Category>, query: Seq<char>, k: nat)
    requires
        query.len() == 0,
        k <= cats.len(),
        cats.len() <= usize::MAX,
    ensures
        matching_prefix(cats, query, k).len() == k,
        forall|p: int| 0 <= p < k ==> #[trigger] matching_prefix(cats, query, k)[p] == p,
    decreases k,
{
    if k > 0 {
        lemma_empty_prefix(cats, query, (k - 1) as nat);
    }
}

/// The empty query shows every category of the catalog, in the catalog's order.
pub proof fn lemma_empty_query_shows_all(cats: Seq<Category>, query: Seq<char>)
    requires
        query.len() == 0,
        cats.len() <= usize::MAX,
    ensures
        matching_indices(cats, query).len() == cats.len(),
        forall|p: int| 0 <= p < cats.len() ==> #[trigger] matching_indices(cats, query)[p] == p,
        view_categories(cats, matching_indices(cats, query)) == cats,
{
    lemma_empty_prefix(cats, query, cats.len());
    assert(view_categories(cats, matching_indices(cats, query)) =~= cats);
}

} // verus!
