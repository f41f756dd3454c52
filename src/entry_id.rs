use vstd::prelude::*;
use vstd::string::StringExecFns;

verus! {

/// Identifier of a blog entry: a non-empty string assigned by the server.
#[derive(Clone, Debug, PartialEq, Eq, Hash)]
pub struct EntryId(String);

/// The text given for an entry id was empty.
#[derive(Clone, Copy, Debug, PartialEq, Eq)]
pub struct EntryIdParseError;

impl View for EntryId {
    type V = Seq<char>;

    closed spec fn view(&self) -> Seq<char> {
        self.0@
    }
}

/// Where the last path segment of `s` starts: just after its last `/`, or 0.
pub open spec fn last_segment_start(s: Seq<char>) -> int
    decreases s.len(),
{
    if s.len() == 0 {
        0
    } else if s.last() == '/' {
        s.len() as int
    } else {
        last_segment_start(s.drop_last())
    }
}

/// The text after the last `/` of `s` (all of `s` when it holds no `/`).
pub open spec fn last_segment(s: Seq<char>) -> Seq<char> {
    s.subrange(last_segment_start(s), s.len() as int)
}

/// With no `/` from `j` on, the last segment starts where it starts in `s[..j]`.
proof fn lemma_last_segment_start_prefix(s: Seq<char>, j: int)
    requires
        0 <= j <= s.len(),
        forall|i: int| j <= i < s.len() ==> s[i] != '/',
    ensures
        last_segment_start(s) == last_segment_start(s.subrange(0, j)),
    decreases s.len() - j,
{
    if j < s.len() {
        assert(s.drop_last() =~= s.subrange(0, s.len() - 1));
        lemma_last_segment_start_prefix(s.drop_last(), j);
        assert(s.drop_last().subrange(0, j) =~= s.subrange(0, j));
    } else {
        assert(s.subrange(0, j) =~= s);
    }
}

impl EntryId {
    /// Parses an entry id: any non-empty text is one.
    pub fn from_str(s: &str) -> (r: Result<EntryId, EntryIdParseError>)
        ensures
            s@.len() == 0 <==> r is Err,
            r matches Ok(id) ==> id@ == s@,
    {
        if s.unicode_len() == 0 {
            Err(EntryIdParseError)
        } else {
            Ok(EntryId(String::from_str(s)))
        }
    }

    /// Takes the id from an entry's edit URL: the text after its last `/`,
    /// which must not be empty.
    pub fn from_edit_url(href: &str) -> (r: Result<EntryId, EntryIdParseError>)
        ensures
            last_segment(href@).len() == 0 <==> r is Err,
            r matches Ok(id) ==> id@ == last_segment(href@),
    {
        let n = href.unicode_len();
        let mut j: usize = n;
        while j > 0 && href.get_char(j - 1) != '/'
            invariant
                n == href@.len(),
                j <= n,
                forall|i: int| j <= i < n ==> href@[i] != '/',
            decreases j,
        {
            j = j - 1;
        }
        proof {
            lemma_last_segment_start_prefix(href@, j as int);
            let p = href@.subrange(0, j as int);
            if j > 0 {
                assert(p.last() == '/');
            }
        }
        let segment = href.substring_char(j, n);
        EntryId::from_str(segment)
    }

    /// The id as text.
    pub fn as_str(&self) -> (r: &str)
        ensures
            r@ == self@,
    {
        self.0.as_str()
    }

    /// The id as an owned string.
    pub fn to_string(&self) -> (r: String)
        ensures
            r@ == self@,
    {
        self.0.clone()
    }
}

impl std::str::FromStr for EntryId {
    type Err = EntryIdParseError;

    fn from_str(s: &str) -> Result<EntryId, EntryIdParseError> {
        EntryId::from_str(s)
    }
}

} // verus!
