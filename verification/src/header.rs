//! The navigation header. The active location is not read from ambient
//! runtime state: the surrounding program injects it at creation and
//! re-syncs it after each paint, and highlighting asks whether a route
//! fragment occurs in it.

use vstd::prelude::*;

use crate::text::{chars_contain, chars_of, contains_seq};

verus! {

/// The header with the location it was last synced to.
pub struct Header {
    pub current_location: String,
}

impl Header {
    /// Mount the header on the location current at that moment.
    pub fn create(location: String) -> (h: Header)
        ensures
            h.current_location@ == location@,
    {
        Header { current_location: location }
    }

    /// Re-read the location after a paint.
    pub fn re_sync(&mut self, location: String)
        ensures
            final(self).current_location@ == location@,
    {
        self.current_location = location;
    }

    /// Is this route fragment part of the current location? Decides which
    /// navigation entry renders highlighted.
    pub fn is_active(&self, matcher: &str) -> (r: bool)
        ensures
            r == contains_seq(self.current_location@, matcher@),
    {
        let hay = chars_of(self.current_location.as_str());
        let needle = chars_of(matcher);
        chars_contain(&hay, &needle)
    }
}

} // verus!
