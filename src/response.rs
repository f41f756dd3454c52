use crate::atom::{
    atom_feed, children_view, elements_view, extensions_view, groups_view, leaves_view, links_view,
    read_feed, AtomFeed, ElementView, EntryView, ExtensionElement, ExtensionLeaf, Extensions,
    ExtensionsView, FeedView, LeafView, Link, LinkView,
};
use crate::entry::Entry;
use crate::entry_id::{last_segment, EntryId};
use crate::entry_params::{entry_xml, EntryParamsView};
use crate::text::{clone_strings, opt_text, texts};
use vstd::prelude::*;
use crate::category_document::{
    document_events_of, document_terms, from_category_document_xml, EventView,
};
use vstd::string::StringExecFns;

verus! {

/// A response body could not be read as the document it should be.
#[derive(Clone, Copy, Debug, PartialEq, Eq)]
pub struct ParseEntry;

/// The value under the first `key` of a list of keyed values.
pub open spec fn lookup<T>(s: Seq<(Seq<char>, T)>, key: Seq<char>) -> Option<T>
    decreases s.len(),
{
    if s.len() == 0 {
        None
    } else if s[0].0 == key {
        Some(s[0].1)
    } else {
        lookup(s.drop_first(), key)
    }
}

/// The first element named `name`.
pub open spec fn first_element(s: Seq<ElementView>, name: Seq<char>) -> Option<ElementView>
    decreases s.len(),
{
    if s.len() == 0 {
        None
    } else if s[0].name == name {
        Some(s[0])
    } else {
        first_element(s.drop_first(), name)
    }
}

/// The first child element named `name`.
pub open spec fn first_leaf(s: Seq<LeafView>, name: Seq<char>) -> Option<LeafView>
    decreases s.len(),
{
    if s.len() == 0 {
        None
    } else if s[0].name == name {
        Some(s[0])
    } else {
        first_leaf(s.drop_first(), name)
    }
}

/// The first link with relation `rel`.
pub open spec fn first_link(s: Seq<LinkView>, rel: Seq<char>) -> Option<LinkView>
    decreases s.len(),
{
    if s.len() == 0 {
        None
    } else if s[0].rel == rel {
        Some(s[0])
    } else {
        first_link(s.drop_first(), rel)
    }
}

/// The `app:draft` element inside the `app:control` element of an entry's
/// extensions, where there is one.
pub open spec fn draft_element(exts: ExtensionsView) -> Option<LeafView> {
    match lookup(exts, "app"@) {
        None => None,
        Some(by_name) => match lookup(by_name, "control"@) {
            None => None,
            Some(controls) => match first_element(controls, "app:control"@) {
                None => None,
                Some(control) => match lookup(control.children, "draft"@) {
                    None => None,
                    Some(drafts) => first_leaf(drafts, "app:draft"@),
                },
            },
        },
    }
}

/// An entry is a draft exactly when its `app:control/app:draft` element
/// holds the text `yes`.
pub open spec fn is_draft(exts: ExtensionsView) -> bool {
    draft_element(exts) matches Some(d) && d.value == Some("yes"@)
}

/// The entry id that an entry's links give: the last path segment of its
/// first `edit` link, where that is not empty.
pub open spec fn entry_id_text(links: Seq<LinkView>) -> Option<Seq<char>> {
    match first_link(links, "edit"@) {
        Some(l) => if last_segment(l.href).len() > 0 {
            Some(last_segment(l.href))
        } else {
            None
        },
        None => None,
    }
}

/// An entry holds all that an `Entry` needs.
pub open spec fn entry_complete(a: EntryView) -> bool {
    &&& entry_id_text(a.links) is Some
    &&& a.authors.len() > 0
    &&& a.content matches Some(c) && c is Some
}

/// `e` is what the complete entry `a` describes.
pub open spec fn entry_from(e: Entry, a: EntryView) -> bool {
    &&& e.id@ == entry_id_text(a.links)->Some_0
    &&& e.title@ == a.title
    &&& e.author_name@ == a.authors[0]
    &&& texts(e.categories@) == a.categories
    &&& e.content@ == a.content->Some_0->Some_0
    &&& e.updated@ == a.updated
    &&& e.draft == is_draft(a.extensions)
}

/// The draft flag is false where the control block or its draft element is
/// missing, true where the draft element holds `yes`, and false for any
/// other value.
pub proof fn lemma_draft_flag(exts: ExtensionsView)
    ensures
        draft_element(exts) is None ==> !is_draft(exts),
        draft_element(exts) matches Some(d) ==> (is_draft(exts) <==> d.value == Some("yes"@)),
{
}

/// An entry without an `edit` link has no id, so it cannot be read as an
/// `Entry`.
pub proof fn lemma_missing_edit_link_fails(a: EntryView)
    requires
        first_link(a.links, "edit"@) is None,
    ensures
        entry_id_text(a.links) is None,
        !entry_complete(a),
{
}

fn find_prefix<'a>(v: &'a Vec<(String, Vec<(String, Vec<ExtensionElement>)>)>, wanted: &str) -> (r: Option<&'a Vec<(String, Vec<ExtensionElement>)>>)
    ensures
        match r {
            Some(x) => lookup(extensions_view(v@), wanted@) == Some(groups_view(x@)),
            None => lookup(extensions_view(v@), wanted@) is None,
        },
{
    let key = String::from_str(wanted);
    let n = v.len();
    let mut i: usize = 0;
    assert(extensions_view(v@).subrange(0, n as int) =~= extensions_view(v@));
    while i < n
        invariant
            n == v@.len(),
            i <= n,
            key@ == wanted@,
            lookup(extensions_view(v@), wanted@) == lookup(extensions_view(v@).subrange(i as int, n as int), wanted@),
        decreases n - i,
    {
        assert(extensions_view(v@).subrange(i as int, n as int).drop_first() =~= extensions_view(v@).subrange(i + 1, n as int));
        assert(extensions_view(v@).subrange(i as int, n as int)[0] == extensions_view(v@)[i as int]);
        if v[i].0 == key {
            return Some(&v[i].1);
        }
        i = i + 1;
    }
    None
}

fn find_local<'a>(v: &'a Vec<(String, Vec<ExtensionElement>)>, wanted: &str) -> (r: Option<&'a Vec<ExtensionElement>>)
    ensures
        match r {
            Some(x) => lookup(groups_view(v@), wanted@) == Some(elements_view(x@)),
            None => lookup(groups_view(v@), wanted@) is None,
        },
{
    let key = String::from_str(wanted);
    let n = v.len();
    let mut i: usize = 0;
    assert(groups_view(v@).subrange(0, n as int) =~= groups_view(v@));
    while i < n
        invariant
            n == v@.len(),
            i <= n,
            key@ == wanted@,
            lookup(groups_view(v@), wanted@) == lookup(groups_view(v@).subrange(i as int, n as int), wanted@),
        decreases n - i,
    {
        assert(groups_view(v@).subrange(i as int, n as int).drop_first() =~= groups_view(v@).subrange(i + 1, n as int));
        assert(groups_view(v@).subrange(i as int, n as int)[0] == groups_view(v@)[i as int]);
        if v[i].0 == key {
            return Some(&v[i].1);
        }
        i = i + 1;
    }
    None
}

fn find_child<'a>(v: &'a Vec<(String, Vec<ExtensionLeaf>)>, wanted: &str) -> (r: Option<&'a Vec<ExtensionLeaf>>)
    ensures
        match r {
            Some(x) => lookup(children_view(v@), wanted@) == Some(leaves_view(x@)),
            None => lookup(children_view(v@), wanted@) is None,
        },
{
    let key = String::from_str(wanted);
    let n = v.len();
    let mut i: usize = 0;
    assert(children_view(v@).subrange(0, n as int) =~= children_view(v@));
    while i < n
        invariant
            n == v@.len(),
            i <= n,
            key@ == wanted@,
            lookup(children_view(v@), wanted@) == lookup(children_view(v@).subrange(i as int, n as int), wanted@),
        decreases n - i,
    {
        assert(children_view(v@).subrange(i as int, n as int).drop_first() =~= children_view(v@).subrange(i + 1, n as int));
        assert(children_view(v@).subrange(i as int, n as int)[0] == children_view(v@)[i as int]);
        if v[i].0 == key {
            return Some(&v[i].1);
        }
        i = i + 1;
    }
    None
}

fn find_element<'a>(v: &'a Vec<ExtensionElement>, wanted: &str) -> (r: Option<&'a ExtensionElement>)
    ensures
        match r {
            Some(x) => first_element(elements_view(v@), wanted@) == Some(x@),
            None => first_element(elements_view(v@), wanted@) is None,
        },
{
    let key = String::from_str(wanted);
    let n = v.len();
    let mut i: usize = 0;
    assert(elements_view(v@).subrange(0, n as int) =~= elements_view(v@));
    while i < n
        invariant
            n == v@.len(),
            i <= n,
            key@ == wanted@,
            first_element(elements_view(v@), wanted@) == first_element(elements_view(v@).subrange(i as int, n as int), wanted@),
        decreases n - i,
    {
        assert(elements_view(v@).subrange(i as int, n as int).drop_first() =~= elements_view(v@).subrange(i + 1, n as int));
        assert(elements_view(v@).subrange(i as int, n as int)[0] == elements_view(v@)[i as int]);
        if v[i].name == key {
            return Some(&v[i]);
        }
        i = i + 1;
    }
    None
}

fn find_leaf<'a>(v: &'a Vec<ExtensionLeaf>, wanted: &str) -> (r: Option<&'a ExtensionLeaf>)
    ensures
        match r {
            Some(x) => first_leaf(leaves_view(v@), wanted@) == Some(x@),
            None => first_leaf(leaves_view(v@), wanted@) is None,
        },
{
    let key = String::from_str(wanted);
    let n = v.len();
    let mut i: usize = 0;
    assert(leaves_view(v@).subrange(0, n as int) =~= leaves_view(v@));
    while i < n
        invariant
            n == v@.len(),
            i <= n,
            key@ == wanted@,
            first_leaf(leaves_view(v@), wanted@) == first_leaf(leaves_view(v@).subrange(i as int, n as int), wanted@),
        decreases n - i,
    {
        assert(leaves_view(v@).subrange(i as int, n as int).drop_first() =~= leaves_view(v@).subrange(i + 1, n as int));
        assert(leaves_view(v@).subrange(i as int, n as int)[0] == leaves_view(v@)[i as int]);
        if v[i].name == key {
            return Some(&v[i]);
        }
        i = i + 1;
    }
    None
}

fn find_link<'a>(v: &'a Vec<Link>, wanted: &str) -> (r: Option<&'a Link>)
    ensures
        match r {
            Some(x) => first_link(links_view(v@), wanted@) == Some(x@),
            None => first_link(links_view(v@), wanted@) is None,
        },
{
    let key = String::from_str(wanted);
    let n = v.len();
    let mut i: usize = 0;
    assert(links_view(v@).subrange(0, n as int) =~= links_view(v@));
    while i < n
        invariant
            n == v@.len(),
            i <= n,
            key@ == wanted@,
            first_link(links_view(v@), wanted@) == first_link(links_view(v@).subrange(i as int, n as int), wanted@),
        decreases n - i,
    {
        assert(links_view(v@).subrange(i as int, n as int).drop_first() =~= links_view(v@).subrange(i + 1, n as int));
        assert(links_view(v@).subrange(i as int, n as int)[0] == links_view(v@)[i as int]);
        if v[i].rel == key {
            return Some(&v[i]);
        }
        i = i + 1;
    }
    None
}

/// Whether an entry's extensions mark it as a draft. A missing or
/// differently shaped control block means it is not one.
pub fn get_draft(exts: &Extensions) -> (r: bool)
    ensures
        r == is_draft(extensions_view(exts@)),
{
    let by_name = match find_prefix(exts, "app") {
        Some(x) => x,
        None => {
            return false;
        },
    };
    let controls = match find_local(by_name, "control") {
        Some(x) => x,
        None => {
            return false;
        },
    };
    let control = match find_element(controls, "app:control") {
        Some(x) => x,
        None => {
            return false;
        },
    };
    let drafts = match find_child(&control.children, "draft") {
        Some(x) => x,
        None => {
            return false;
        },
    };
    let draft = match find_leaf(drafts, "app:draft") {
        Some(x) => x,
        None => {
            return false;
        },
    };
    match &draft.value {
        Some(v) => {
            let yes = String::from_str("yes");
            *v == yes
        },
        None => false,
    }
}

/// The id of an entry, from the last path segment of its `edit` link.
pub fn get_id(links: &Vec<Link>) -> (r: Option<EntryId>)
    ensures
        match entry_id_text(links_view(links@)) {
            Some(t) => r matches Some(id) && id@ == t,
            None => r is None,
        },
{
    match find_link(links, "edit") {
        Some(link) => match EntryId::from_edit_url(link.href.as_str()) {
            Ok(id) => Some(id),
            Err(_) => None,
        },
        None => None,
    }
}

/// The first entry of a feed as an `Entry`. It fails where the feed has no
/// entry, or its first entry has no usable `edit` link, no author, or no
/// content text.
pub fn first_entry(feed: &AtomFeed) -> (r: Result<Entry, ParseEntry>)
    ensures
        r is Ok <==> feed@.entries.len() > 0 && entry_complete(feed@.entries[0]),
        r matches Ok(e) ==> entry_from(e, feed@.entries[0]),
{
    if feed.entries.len() == 0 {
        return Err(ParseEntry);
    }
    let a = &feed.entries[0];
    let id = match get_id(&a.links) {
        Some(id) => id,
        None => {
            return Err(ParseEntry);
        },
    };
    if a.authors.len() == 0 {
        return Err(ParseEntry);
    }
    let content = match &a.content {
        Some(Some(c)) => c.clone(),
        _ => {
            return Err(ParseEntry);
        },
    };
    Ok(
        Entry::new(
            id,
            a.title.clone(),
            a.authors[0].clone(),
            clone_strings(&a.categories),
            content,
            a.updated.clone(),
            get_draft(&a.extensions),
        ),
    )
}

/// The list of entry ids of one page of a collection, with the cursor of
/// the next page where there is one.
pub type PartialList = (Option<String>, Vec<EntryId>);

/// The XML declaration that the server puts before an entry document.
pub open spec fn xml_declaration() -> Seq<char> {
    "<?xml version=\"1.0\" encoding=\"utf-8\"?>"@
}

/// `body` without a leading XML declaration.
pub open spec fn without_declaration(body: Seq<char>) -> Seq<char> {
    let d = xml_declaration();
    if body.len() >= d.len() && body.subrange(0, d.len() as int) == d {
        body.subrange(d.len() as int, body.len() as int)
    } else {
        body
    }
}

/// An entry document wrapped as a feed of that one entry.
pub open spec fn entry_feed_text(body: Seq<char>) -> Seq<char> {
    "<feed>"@ + without_declaration(body) + "</feed>"@
}

/// Whether `s` starts with `prefix`.
fn starts_with(s: &str, prefix: &str) -> (r: bool)
    ensures
        r == (s@.len() >= prefix@.len() && s@.subrange(0, prefix@.len() as int) == prefix@),
{
    let n = s.unicode_len();
    let k = prefix.unicode_len();
    if n < k {
        return false;
    }
    let mut i: usize = 0;
    while i < k
        invariant
            n == s@.len(),
            k == prefix@.len(),
            k <= n,
            i <= k,
            forall|j: int| 0 <= j < i ==> s@[j] == prefix@[j],
        decreases k - i,
    {
        if s.get_char(i) != prefix.get_char(i) {
            assert(s@.subrange(0, k as int)[i as int] != prefix@[i as int]);
            return false;
        }
        i = i + 1;
    }
    assert(s@.subrange(0, k as int) =~= prefix@);
    true
}

/// The text of an entry document wrapped as a feed, so that a feed parser
/// reads it: `<feed>`, the document without its XML declaration, `</feed>`.
pub fn entry_feed_xml(body: &str) -> (r: String)
    ensures
        r@ == entry_feed_text(body@),
{
    let declaration = "<?xml version=\"1.0\" encoding=\"utf-8\"?>";
    let rest = if starts_with(body, declaration) {
        body.substring_char(declaration.unicode_len(), body.unicode_len())
    } else {
        body
    };
    let mut xml = String::from_str("<feed>");
    xml.append(rest);
    xml.append("</feed>");
    xml
}

/// Parses an entry document as a feed of that one entry.
pub fn from_entry_xml(body: &str) -> (r: Result<AtomFeed, ParseEntry>)
    ensures
        match atom_feed(entry_feed_text(body@)) {
            Some(v) => r matches Ok(f) && f@ == v,
            None => r is Err,
        },
{
    let xml = entry_feed_xml(body);
    match read_feed(xml.as_str()) {
        Some(feed) => Ok(feed),
        None => Err(ParseEntry),
    }
}

/// Parses a collection document as a feed.
pub fn from_feed_xml(body: &str) -> (r: Result<AtomFeed, ParseEntry>)
    ensures
        match atom_feed(body@) {
            Some(v) => r matches Ok(f) && f@ == v,
            None => r is Err,
        },
{
    match read_feed(body) {
        Some(feed) => Ok(feed),
        None => Err(ParseEntry),
    }
}

/// The name-value pairs of the query of a URL, decoded; `None` where the
/// text is not an absolute URL.
pub uninterp spec fn url_query_pairs(href: Seq<char>) -> Option<Seq<(Seq<char>, Seq<char>)>>;

pub open spec fn pair_texts(v: Seq<(String, String)>) -> Seq<(Seq<char>, Seq<char>)> {
    v.map_values(|p: (String, String)| (p.0@, p.1@))
}

/// Relies on reqwest's `Url::parse` and `Url::query_pairs` (of the url
/// crate): the decoded pairs of the query, in order.
#[verifier::external_body]
fn query_pairs(href: &str) -> (r: Option<Vec<(String, String)>>)
    ensures
        match r {
            Some(v) => url_query_pairs(href@) == Some(pair_texts(v@)),
            None => url_query_pairs(href@) is None,
        },
{
    let url = reqwest::Url::parse(href).ok()?;
    Some(url.query_pairs().map(|(k, v)| (k.into_owned(), v.into_owned())).collect())
}

/// The value of the first pair named `name`.
pub open spec fn query_value(pairs: Seq<(Seq<char>, Seq<char>)>, name: Seq<char>) -> Option<
    Seq<char>,
>
    decreases pairs.len(),
{
    if pairs.len() == 0 {
        None
    } else if pairs[0].0 == name {
        Some(pairs[0].1)
    } else {
        query_value(pairs.drop_first(), name)
    }
}

/// The cursor of the next page that a feed's links give: the `page` query
/// parameter of its first `next` link.
pub open spec fn next_page(links: Seq<LinkView>) -> Option<Seq<char>> {
    match first_link(links, "next"@) {
        Some(l) => match url_query_pairs(l.href) {
            Some(pairs) => query_value(pairs, "page"@),
            None => None,
        },
        None => None,
    }
}

/// A feed without a `next` link has no next page.
pub proof fn lemma_no_next_link_no_cursor(links: Seq<LinkView>)
    requires
        first_link(links, "next"@) is None,
    ensures
        next_page(links) is None,
{
}

/// A feed whose first `next` link has a query that decodes to a `page`
/// pair of value `v`, with no `page` pair before it, has `v` as the cursor
/// of its next page.
pub proof fn lemma_next_link_page_cursor(
    links: Seq<LinkView>,
    pairs: Seq<(Seq<char>, Seq<char>)>,
    k: int,
    v: Seq<char>,
)
    requires
        first_link(links, "next"@) matches Some(l) && url_query_pairs(l.href) == Some(pairs),
        0 <= k < pairs.len(),
        pairs[k] == ("page"@, v),
        forall|j: int| 0 <= j < k ==> (#[trigger] pairs[j]).0 != "page"@,
    ensures
        next_page(links) == Some(v),
{
    lemma_query_value_first(pairs, "page"@, k);
}

proof fn lemma_query_value_first(pairs: Seq<(Seq<char>, Seq<char>)>, name: Seq<char>, k: int)
    requires
        0 <= k < pairs.len(),
        pairs[k].0 == name,
        forall|j: int| 0 <= j < k ==> (#[trigger] pairs[j]).0 != name,
    ensures
        query_value(pairs, name) == Some(pairs[k].1),
    decreases k,
{
    if k > 0 {
        let rest = pairs.drop_first();
        assert forall|j: int| 0 <= j < k - 1 implies (#[trigger] rest[j]).0 != name by {
            assert(rest[j] == pairs[j + 1]);
        }
        lemma_query_value_first(rest, name, k - 1);
        assert(pairs[0].0 != name);
    }
}

/// The value of the `page` parameter among the decoded pairs of a query.
pub fn page_of_query(pairs: &Vec<(String, String)>) -> (r: Option<String>)
    ensures
        opt_text(r) == query_value(pair_texts(pairs@), "page"@),
{
    let wanted = String::from_str("page");
    let n = pairs.len();
    let mut i: usize = 0;
    proof {
        assert(pairs@.subrange(0, n as int) =~= pairs@);
    }
    while i < n
        invariant
            n == pairs@.len(),
            i <= n,
            wanted@ == "page"@,
            query_value(pair_texts(pairs@), "page"@) == query_value(
                pair_texts(pairs@.subrange(i as int, n as int)),
                "page"@,
            ),
        decreases n - i,
    {
        let ghost rest = pair_texts(pairs@.subrange(i as int, n as int));
        assert(rest.drop_first() =~= pair_texts(pairs@.subrange(i + 1, n as int)));
        assert(rest[0] == (pairs@[i as int].0@, pairs@[i as int].1@));
        if pairs[i].0 == wanted {
            return Some(pairs[i].1.clone());
        }
        i = i + 1;
    }
    None
}

/// The cursor of the next page of a collection, from its links.
pub fn next_page_of(links: &Vec<Link>) -> (r: Option<String>)
    ensures
        opt_text(r) == next_page(links_view(links@)),
{
    match find_link(links, "next") {
        Some(link) => match query_pairs(link.href.as_str()) {
            Some(pairs) => page_of_query(&pairs),
            None => None,
        },
        None => None,
    }
}

/// `r` is the page that feed `f` describes: it fails exactly where an entry
/// has no usable `edit` link, and otherwise holds the next-page cursor and
/// the id of each entry, in order.
pub open spec fn list_outcome(f: FeedView, r: Result<PartialList, ParseEntry>) -> bool {
    &&& r is Ok <==> forall|i: int|
        0 <= i < f.entries.len() ==> (#[trigger] entry_id_text(f.entries[i].links)) is Some
    &&& r matches Ok((page, ids)) ==> {
        &&& opt_text(page) == next_page(f.links)
        &&& ids@.len() == f.entries.len()
        &&& forall|i: int|
            0 <= i < ids@.len() ==> (#[trigger] ids@[i])@ == entry_id_text(f.entries[i].links)->Some_0
    }
}

/// `r` is what a collection body yields, given what the feed parser read
/// from it: an error where it read no feed, else the page of that feed.
pub open spec fn page_outcome(f: Option<FeedView>, r: Result<PartialList, ParseEntry>) -> bool {
    match f {
        None => r is Err,
        Some(f) => list_outcome(f, r),
    }
}

/// `r` is what an entry body yields, given what the feed parser read from
/// its wrapped text: an error where it read no feed, else the first entry
/// of that feed, which must be complete.
pub open spec fn entry_outcome(f: Option<FeedView>, r: Result<Entry, ParseEntry>) -> bool {
    match f {
        None => r is Err,
        Some(f) => {
            &&& r is Ok <==> f.entries.len() > 0 && entry_complete(f.entries[0])
            &&& r matches Ok(e) ==> entry_from(e, f.entries[0])
        },
    }
}

/// One page of a collection: the cursor of the next page and the id of
/// each entry, in order. It fails where an entry has no usable `edit` link.
pub fn partial_list(feed: &AtomFeed) -> (r: Result<PartialList, ParseEntry>)
    ensures
        list_outcome(feed@, r),
{
    let page = next_page_of(&feed.links);
    let n = feed.entries.len();
    let mut ids: Vec<EntryId> = Vec::new();
    let mut i: usize = 0;
    while i < n
        invariant
            n == feed.entries@.len(),
            i <= n,
            ids@.len() == i,
            forall|j: int|
                0 <= j < i ==> (#[trigger] entry_id_text(feed@.entries[j].links)) is Some,
            forall|j: int|
                0 <= j < i ==> (#[trigger] ids@[j])@ == entry_id_text(feed@.entries[j].links)->Some_0,
        decreases n - i,
    {
        match get_id(&feed.entries[i].links) {
            Some(id) => {
                ids.push(id);
            },
            None => {
                assert(feed@.entries[i as int] == feed.entries@[i as int]@);
                assert(entry_id_text(feed@.entries[i as int].links) is None);
                return Err(ParseEntry);
            },
        }
        i = i + 1;
    }
    Ok((page, ids))
}

pub type CreateEntryResponse = MemberResponse;

pub type DeleteEntryResponse = EmptyResponse;

pub type GetEntryResponse = MemberResponse;

pub type ListCategoriesResponse = CategoryDocumentResponse;

pub type ListEntriesResponse = CollectionResponse;

pub type UpdateEntryResponse = MemberResponse;

/// What a category-document body yields, given its events (`None` where
/// they could not be read): its terms where the document gives them, else
/// the one parse error.
pub open spec fn category_response_outcome(evs: Option<Seq<EventView>>, r: Result<Vec<String>, ParseEntry>) -> bool {
    match evs {
        None => r is Err,
        Some(evs) => match document_terms(evs) {
            Some(t) => r matches Ok(v) && texts(v@) == t,
            None => r is Err,
        },
    }
}

/// The body of a response that describes one entry.
#[derive(Debug, PartialEq, Eq)]
pub struct MemberResponse {
    body: String,
}

/// A response whose body means nothing.
#[derive(Debug, PartialEq, Eq)]
pub struct EmptyResponse;

/// The body of a response that holds a category document.
#[derive(Debug, PartialEq, Eq)]
pub struct CategoryDocumentResponse {
    body: String,
}

/// The body of a response that holds one page of the entry collection.
#[derive(Debug, PartialEq, Eq)]
pub struct CollectionResponse {
    body: String,
}

impl View for MemberResponse {
    type V = Seq<char>;

    closed spec fn view(&self) -> Seq<char> {
        self.body@
    }
}

impl View for CategoryDocumentResponse {
    type V = Seq<char>;

    closed spec fn view(&self) -> Seq<char> {
        self.body@
    }
}

impl View for CollectionResponse {
    type V = Seq<char>;

    closed spec fn view(&self) -> Seq<char> {
        self.body@
    }
}

impl MemberResponse {
    pub fn new(body: String) -> (r: MemberResponse)
        ensures
            r@ == body@,
    {
        MemberResponse { body }
    }

    /// The body as it came.
    pub fn to_string(&self) -> (r: String)
        ensures
            r@ == self@,
    {
        self.body.clone()
    }

    pub fn into_string(self) -> (r: String)
        ensures
            r@ == self@,
    {
        self.body
    }

    /// The entry that the body describes; it fails where the body is not an
    /// entry document or the entry lacks an id, an author or content text.
    pub fn into_entry(self) -> (r: Result<Entry, ParseEntry>)
        ensures
            entry_outcome(atom_feed(entry_feed_text(self@)), r),
    {
        let feed = from_entry_xml(self.body.as_str())?;
        first_entry(&feed)
    }
}

impl EmptyResponse {
    /// Drops the body, which means nothing.
    pub fn new(_body: String) -> (r: EmptyResponse) {
        EmptyResponse
    }

    /// The empty text.
    pub fn to_string(&self) -> (r: String)
        ensures
            r@.len() == 0,
    {
        String::new()
    }

    pub fn into_string(self) -> (r: String)
        ensures
            r@.len() == 0,
    {
        String::new()
    }
}

impl CategoryDocumentResponse {
    pub fn new(body: String) -> (r: CategoryDocumentResponse)
        ensures
            r@ == body@,
    {
        CategoryDocumentResponse { body }
    }

    /// The body as it came.
    pub fn to_string(&self) -> (r: String)
        ensures
            r@ == self@,
    {
        self.body.clone()
    }

    pub fn into_string(self) -> (r: String)
        ensures
            r@ == self@,
    {
        self.body
    }

    /// The category terms of the document, in document order.
    pub fn into_categories(self) -> (r: Result<Vec<String>, ParseEntry>)
        ensures
            category_response_outcome(document_events_of(self@), r),
    {
        match from_category_document_xml(self.body.as_str()) {
            Ok(v) => Ok(v),
            Err(_) => Err(ParseEntry),
        }
    }
}

impl CollectionResponse {
    pub fn new(body: String) -> (r: CollectionResponse)
        ensures
            r@ == body@,
    {
        CollectionResponse { body }
    }

    /// The body as it came.
    pub fn to_string(&self) -> (r: String)
        ensures
            r@ == self@,
    {
        self.body.clone()
    }

    pub fn into_string(self) -> (r: String)
        ensures
            r@ == self@,
    {
        self.body
    }

    /// The page that the body describes; it fails where the body is not a
    /// feed or one of its entries lacks an id.
    pub fn into_partial_list(self) -> (r: Result<PartialList, ParseEntry>)
        ensures
            page_outcome(atom_feed(self@), r),
    {
        let feed = from_feed_xml(self.body.as_str())?;
        partial_list(&feed)
    }
}

impl From<String> for MemberResponse {
    fn from(body: String) -> MemberResponse {
        MemberResponse { body }
    }
}

impl vstd::std_specs::convert::FromSpecImpl<String> for MemberResponse {
    open spec fn obeys_from_spec() -> bool {
        true
    }

    closed spec fn from_spec(body: String) -> MemberResponse {
        MemberResponse { body }
    }
}

impl From<String> for EmptyResponse {
    fn from(_body: String) -> EmptyResponse {
        EmptyResponse
    }
}

impl vstd::std_specs::convert::FromSpecImpl<String> for EmptyResponse {
    open spec fn obeys_from_spec() -> bool {
        true
    }

    open spec fn from_spec(_body: String) -> EmptyResponse {
        EmptyResponse
    }
}

impl From<String> for CategoryDocumentResponse {
    fn from(body: String) -> CategoryDocumentResponse {
        CategoryDocumentResponse { body }
    }
}

impl vstd::std_specs::convert::FromSpecImpl<String> for CategoryDocumentResponse {
    open spec fn obeys_from_spec() -> bool {
        true
    }

    closed spec fn from_spec(body: String) -> CategoryDocumentResponse {
        CategoryDocumentResponse { body }
    }
}

impl From<String> for CollectionResponse {
    fn from(body: String) -> CollectionResponse {
        CollectionResponse { body }
    }
}

impl vstd::std_specs::convert::FromSpecImpl<String> for CollectionResponse {
    open spec fn obeys_from_spec() -> bool {
        true
    }

    closed spec fn from_spec(body: String) -> CollectionResponse {
        CollectionResponse { body }
    }
}

/// A rendered entry document starts with the XML declaration, so wrapping
/// it as a feed for the parser takes off exactly that declaration and keeps
/// the rest of the document as rendered.
pub proof fn lemma_rendered_entry_wraps_as_feed(p: EntryParamsView)
    ensures
        entry_feed_text(entry_xml(p)) == "<feed>"@
            + entry_xml(p).subrange(
            xml_declaration().len() as int,
            entry_xml(p).len() as int,
        ) + "</feed>"@,
{
    let x = entry_xml(p);
    let d = xml_declaration();
    reveal_strlit("<?xml version=\"1.0\" encoding=\"utf-8\"?>");
    reveal_strlit(
        "<?xml version=\"1.0\" encoding=\"utf-8\"?>\n<entry xmlns=\"http://www.w3.org/2005/Atom\"\n       xmlns:app=\"http://www.w3.org/2007/app\">\n  <title>",
    );
    let head =
        "<?xml version=\"1.0\" encoding=\"utf-8\"?>\n<entry xmlns=\"http://www.w3.org/2005/Atom\"\n       xmlns:app=\"http://www.w3.org/2007/app\">\n  <title>"@;
    let tail = x.subrange(head.len() as int, x.len() as int);
    assert(x =~= head + tail);
    assert(x.subrange(0, d.len() as int) =~= d);
}

} // verus!
