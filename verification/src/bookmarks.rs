use crate::shared::str_eq;
use vstd::prelude::*;

verus! {

/// The placeholder address a bookmark carries when its stored address
/// could not be understood.
pub const INVALID_URL: &'static str = "invalid:///";

/// A stored bookmark: the address it points at and the name it is shown
/// under.  The address is kept as text; the shell parses it when the
/// bookmark is opened.
#[derive(Debug)]
pub struct Bookmark {
    pub url: String,
    pub name: String,
}

impl Bookmark {
    /// Whether this bookmark carries the placeholder address instead of
    /// a usable one.
    pub fn is_invalid(&self) -> (res: bool)
        ensures
            res == (self.url@ == "invalid:///"@),
    {
        str_eq(self.url.as_str(), INVALID_URL)
    }
}

/// A user's stored bookmarks.
pub type Bookmarks = Vec<Bookmark>;

} // verus!
