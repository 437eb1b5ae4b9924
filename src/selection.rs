use vstd::prelude::*;

use crate::launch::{shell_invocation, Invocation, SHELL, SHELL_RUN_SWITCH};
use crate::catalog::{
    filter, full_view, matching_indices, view_in_range, App, Catalog, Category, FilteredView,
};

verus! {

/// The catalog, the view that the current query gives of it, and the category and app
/// picked in that view.
pub struct Launcher {
    catalog: Catalog,
    view: FilteredView,
    category: Option<usize>,
    app: Option<usize>,
}

impl Launcher {
    /// The catalog's categories.
    pub closed spec fn cats(&self) -> Seq<Category> {
        self.catalog.categories@
    }

    /// The catalog positions of the categories that the active view shows.
    pub closed spec fn shown(&self) -> Seq<usize> {
        self.view.indices@
    }

    /// What to run for a launch request: the shell invocation of the resolved app's
    /// command line, or nothing when no app is resolved.
    pub fn on_launch_requested(&self) -> (r: Option<Invocation>)
        requires
            self.wf(),
        ensures
            match self.resolved() {
                Some(app) => r is Some && r->0.program@ == SHELL@ && r->0.args@.len() == 2
                    && r->0.args@[0]@ == SHELL_RUN_SWITCH@ && r->0.args@[1]@ == app.command@,
                None => r is None,
            },
    {
        match self.resolve() {
            Some(app) => Some(shell_invocation(app.command.as_str())),
            None => None,
        }
    }

    /// The picked position in the active view, if any.
    pub closed spec fn selected_category(&self) -> Option<usize> {
        self.category
    }

    /// The picked position in the app list, if any.
    pub closed spec fn selected_app(&self) -> Option<usize> {
        self.app
    }

    /// The category at position `p` of the active view.
    pub open spec fn shown_category(&self, p: int) -> Category {
        self.cats()[self.shown()[p] as int]
    }

    /// The apps listed for the picked category: all of them, in order, or none when no
    /// category of the view is picked.
    pub open spec fn app_list(&self) -> Seq<App> {
        match self.selected_category() {
            Some(c) => if c < self.shown().len() {
                self.shown_category(c as int).apps@
            } else {
                Seq::empty()
            },
            None => Seq::empty(),
        }
    }

    /// The app that both picks designate, if they are both valid.
    pub open spec fn resolved(&self) -> Option<App> {
        match self.selected_app() {
            Some(a) => if a < self.app_list().len() {
                Some(self.app_list()[a as int])
            } else {
                None
            },
            None => None,
        }
    }

    /// The view names categories of the catalog, and each pick lies inside what it picks
    /// from.
    pub open spec fn wf(&self) -> bool {
        &&& view_in_range(self.shown(), self.cats().len())
        &&& match self.selected_category() {
            Some(c) => c < self.shown().len(),
            None => true,
        }
        &&& match self.selected_app() {
            Some(a) => self.selected_category() is Some && a < self.app_list().len(),
            None => true,
        }
    }

    /// The state after a view change: the first category picked if there is one, no app.
    pub open spec fn reset_for(&self, cats: Seq<Category>, shown: Seq<usize>) -> bool {
        &&& self.cats() == cats
        &&& self.shown() == shown
        &&& self.selected_category() == (if shown.len() > 0 {
            Some(0usize)
        } else {
            None
        })
        &&& self.selected_app() is None
    }

    /// Takes ownership of `catalog` and shows all of it, with its first category picked.
    pub fn new(catalog: Catalog) -> (r: Launcher)
        ensures
            r.wf(),
            r.cats() == catalog.categories@,
            r.shown().len() == catalog.categories@.len(),
            forall|p: int| 0 <= p < r.shown().len() ==> #[trigger] r.shown()[p] == p,
            r.selected_category() == (if catalog.categories@.len() > 0 {
                Some(0usize)
            } else {
                None
            }),
            r.selected_app() is None,
    {
        let view = full_view(&catalog);
        let category = if view.indices.len() > 0 {
            Some(0usize)
        } else {
            None
        };
        Launcher { catalog, view, category, app: None }
    }

    /// Makes `view` the active view; picks its first category, if any, and no app.
    pub fn on_view_changed(&mut self, view: FilteredView)
        requires
            old(self).wf(),
            view_in_range(view.indices@, old(self).cats().len()),
        ensures
            final(self).wf(),
            final(self).reset_for(old(self).cats(), view.indices@),
    {
        self.category = if view.indices.len() > 0 {
            Some(0usize)
        } else {
            None
        };
        self.app = None;
        self.view = view;
    }

    /// Filters the catalog by `query` and makes the result the active view.
    pub fn on_query_changed(&mut self, query: &str)
        requires
            old(self).wf(),
        ensures
            final(self).wf(),
            final(self).reset_for(old(self).cats(), matching_indices(old(self).cats(), query@)),
    {
        let view = filter(&self.catalog, query);
        self.on_view_changed(view);
    }

    /// Picks the category at `index` of the active view, or none when it lies outside;
    /// the app list is rebuilt, so no app stays picked.
    pub fn select_category(&mut self, index: usize)
        requires
            old(self).wf(),
        ensures
            final(self).wf(),
            final(self).cats() == old(self).cats(),
            final(self).shown() == old(self).shown(),
            final(self).selected_category() == (if index < old(self).shown().len() {
                Some(index)
            } else {
                None
            }),
            final(self).selected_app() is None,
    {
        self.category = if index < self.view.indices.len() {
            Some(index)
        } else {
            None
        };
        self.app = None;
    }

    /// Picks the app at `index` of the app list, or none when it lies outside.
    pub fn select_app(&mut self, index: usize)
        requires
            old(self).wf(),
        ensures
            final(self).wf(),
            final(self).cats() == old(self).cats(),
            final(self).shown() == old(self).shown(),
            final(self).selected_category() == old(self).selected_category(),
            final(self).selected_app() == (if index < old(self).app_list().len() {
                Some(index)
            } else {
                None
            }),
    {
        let n = self.app_count();
        self.app = if index < n {
            Some(index)
        } else {
            None
        };
    }

    /// How many apps the picked category lists.
    fn app_count(&self) -> (r: usize)
        requires
            self.wf(),
        ensures
            r == self.app_list().len(),
    {
        match self.category {
            Some(c) => self.catalog.categories[self.view.indices[c]].apps.len(),
            None => 0,
        }
    }

    /// The app that the picked category and app designate, if both are picked.
    pub fn resolve(&self) -> (r: Option<&App>)
        requires
            self.wf(),
        ensures
            match r {
                Some(a) => self.resolved() == Some(*a),
                None => self.resolved() is None,
            },
    {
        match (self.category, self.app) {
            (Some(c), Some(a)) => Some(&self.catalog.categories[self.view.indices[c]].apps[a]),
            _ => None,
        }
    }

    /// The names of the categories of the active view, in its order.
    pub fn category_names(&self) -> (r: Vec<String>)
        requires
            self.wf(),
        ensures
            r@.len() == self.shown().len(),
            forall|p: int| 0 <= p < r@.len() ==> #[trigger] r@[p]@ == self.shown_category(p).name@,
    {
        let mut names: Vec<String> = Vec::new();
        let mut p: usize = 0;
        while p < self.view.indices.len()
            invariant
                self.wf(),
                p <= self.shown().len(),
                names@.len() == p,
                forall|q: int| 0 <= q < p ==> #[trigger] names@[q]@ == self.shown_category(q).name@,
            decreases self.shown().len() - p,
        {
            names.push(self.catalog.categories[self.view.indices[p]].name.clone());
            p = p + 1;
        }
        names
    }

    /// The names of the apps of the picked category, in order; empty when none is picked.
    pub fn app_names(&self) -> (r: Vec<String>)
        requires
            self.wf(),
        ensures
            r@.len() == self.app_list().len(),
            forall|p: int| 0 <= p < r@.len() ==> #[trigger] r@[p]@ == self.app_list()[p].name@,
    {
        let mut names: Vec<String> = Vec::new();
        if let Some(c) = self.category {
            let apps = &self.catalog.categories[self.view.indices[c]].apps;
            let mut p: usize = 0;
            while p < apps.len()
                invariant
                    self.wf(),
                    self.selected_category() == Some(c),
                    *apps == self.shown_category(c as int).apps,
                    p <= apps@.len(),
                    names@.len() == p,
                    forall|q: int| 0 <= q < p ==> #[trigger] names@[q]@ == apps@[q].name@,
                decreases apps@.len() - p,
            {
                names.push(apps[p].name.clone());
                p = p + 1;
            }
        }
        names
    }

    /// The picked position in the active view, if any.
    pub fn category_index(&self) -> (r: Option<usize>)
        ensures
            r == self.selected_category(),
    {
        self.category
    }

    /// The picked position in the app list, if any.
    pub fn app_index(&self) -> (r: Option<usize>)
        ensures
            r == self.selected_app(),
    {
        self.app
    }

    /// The catalog.
    pub fn catalog(&self) -> (r: &Catalog)
        ensures
            r.categories@ == self.cats(),
    {
        &self.catalog
    }

    /// The active view.
    pub fn view(&self) -> (r: &FilteredView)
        ensures
            r.indices@ == self.shown(),
    {
        &self.view
    }
}

} // verus!
