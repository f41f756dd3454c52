use crate::entry_id::EntryId;
use vstd::prelude::*;

verus! {

/// A blog entry as the server describes it.
#[derive(Debug, PartialEq, Eq)]
pub struct Entry {
    pub id: EntryId,
    pub title: String,
    pub author_name: String,
    /// Category terms, in document order.
    pub categories: Vec<String>,
    pub content: String,
    /// The update time in RFC 3339 form.
    pub updated: String,
    pub draft: bool,
}

impl Entry {
    pub fn new(
        id: EntryId,
        title: String,
        author_name: String,
        categories: Vec<String>,
        content: String,
        updated: String,
        draft: bool,
    ) -> (r: Entry)
        ensures
            r == (Entry { id, title, author_name, categories, content, updated, draft }),
    {
        Entry { id, title, author_name, categories, content, updated, draft }
    }
}

} // verus!
