use vstd::prelude::*;

verus! {

/// One record returned by a poll of the remote database: a stable opaque
/// id, which alone determines identity, a display URL, and optionally a
/// last-modified timestamp. URL and timestamp are payload only and never
/// take part in identity comparisons.
pub struct Page {
    pub id: String,
    pub url: String,
    pub last_edited: Option<String>,
}

impl Page {
    /// Two pages denote the same record exactly when their ids have the
    /// same characters; the URL and the timestamp are ignored.
    pub open spec fn same_identity(self, other: Page) -> bool {
        self.id@ == other.id@
    }

    pub fn new(id: String, url: String, last_edited: Option<String>) -> (p: Page)
        ensures
            p.id@ == id@,
            p.url@ == url@,
            p.last_edited == last_edited,
    {
        Page { id, url, last_edited }
    }
}

impl PartialEq for Page {
    fn eq(&self, other: &Page) -> (r: bool) {
        self.id == other.id
    }
}

impl Eq for Page {
}

impl vstd::std_specs::cmp::PartialEqSpecImpl for Page {
    open spec fn obeys_eq_spec() -> bool {
        true
    }

    open spec fn eq_spec(&self, other: &Page) -> bool {
        self.same_identity(*other)
    }
}

impl Clone for Page {
    fn clone(&self) -> (r: Page)
        ensures
            r == *self,
    {
        Page {
            id: self.id.clone(),
            url: self.url.clone(),
            last_edited: match &self.last_edited {
                Some(s) => Some(s.clone()),
                None => None,
            },
        }
    }
}

} // verus!
