use vstd::prelude::*;

verus! {

/// Where the catalog document is looked for first, relative to the working directory.
pub const PRIMARY_PATH: &'static str = "apps.json";

/// Where the catalog document is looked for when the first place has none.
pub const FALLBACK_PATH: &'static str = "src/apps.json";

/// Why no catalog could be loaded.
#[derive(Debug, PartialEq, Eq, Structural)]
pub enum LoadError {
    /// No document could be read at any candidate location.
    NotFound,
    /// A document was read but does not follow the catalog's schema.
    Malformed,
}

/// The document to load, given what could be read at the primary and at the fallback
/// location: the first one read wins.
pub fn choose_document(primary: Option<String>, fallback: Option<String>) -> (r: Result<
    String,
    LoadError,
>)
    ensures
        match primary {
            Some(d) => r == Ok::<String, LoadError>(d),
            None => match fallback {
                Some(d) => r == Ok::<String, LoadError>(d),
                None => r == Err::<String, LoadError>(LoadError::NotFound),
            },
        },
{
    match primary {
        Some(d) => Ok(d),
        None => match fallback {
            Some(d) => Ok(d),
            None => Err(LoadError::NotFound),
        },
    }
}

} // verus!
