use crate::text::{opt_text, texts};
use vstd::prelude::*;

verus! {

#[verifier::external_type_specification]
#[verifier::external_body]
pub struct ExFeed(atom_syndication::Feed);

/// A link of a feed or an entry.
#[derive(Clone, Debug, PartialEq, Eq)]
pub struct Link {
    pub rel: String,
    pub href: String,
}

/// An extension element below another one; only its name and text are kept.
#[derive(Clone, Debug, PartialEq, Eq)]
pub struct ExtensionLeaf {
    /// The qualified name, such as `app:draft`.
    pub name: String,
    pub value: Option<String>,
}

/// An extension element of an entry, with its children grouped by local name.
#[derive(Clone, Debug, PartialEq, Eq)]
pub struct ExtensionElement {
    /// The qualified name, such as `app:control`.
    pub name: String,
    pub value: Option<String>,
    pub children: Vec<(String, Vec<ExtensionLeaf>)>,
}

/// The extension elements of an entry, grouped by namespace prefix, then by
/// local name. Each key stands once in its list.
pub type Extensions = Vec<(String, Vec<(String, Vec<ExtensionElement>)>)>;

/// What the logic reads of an Atom entry.
#[derive(Clone, Debug, PartialEq, Eq)]
pub struct AtomEntry {
    pub title: String,
    /// The names of the authors.
    pub authors: Vec<String>,
    /// The terms of the categories.
    pub categories: Vec<String>,
    /// The content element, if present, with its text, if any.
    pub content: Option<Option<String>>,
    /// The update time in RFC 3339 form.
    pub updated: String,
    pub links: Vec<Link>,
    pub extensions: Extensions,
}

/// What the logic reads of an Atom feed.
#[derive(Clone, Debug, PartialEq, Eq)]
pub struct AtomFeed {
    pub links: Vec<Link>,
    pub entries: Vec<AtomEntry>,
}

pub struct LinkView {
    pub rel: Seq<char>,
    pub href: Seq<char>,
}

pub struct LeafView {
    pub name: Seq<char>,
    pub value: Option<Seq<char>>,
}

pub struct ElementView {
    pub name: Seq<char>,
    pub value: Option<Seq<char>>,
    pub children: Seq<(Seq<char>, Seq<LeafView>)>,
}

/// Extension elements by namespace prefix, then by local name.
pub type ExtensionsView = Seq<(Seq<char>, Seq<(Seq<char>, Seq<ElementView>)>)>;

pub struct EntryView {
    pub title: Seq<char>,
    pub authors: Seq<Seq<char>>,
    pub categories: Seq<Seq<char>>,
    pub content: Option<Option<Seq<char>>>,
    pub updated: Seq<char>,
    pub links: Seq<LinkView>,
    pub extensions: ExtensionsView,
}

pub struct FeedView {
    pub links: Seq<LinkView>,
    pub entries: Seq<EntryView>,
}

pub open spec fn links_view(s: Seq<Link>) -> Seq<LinkView> {
    s.map_values(|l: Link| l@)
}

pub open spec fn leaves_view(s: Seq<ExtensionLeaf>) -> Seq<LeafView> {
    s.map_values(|l: ExtensionLeaf| l@)
}

pub open spec fn children_view(s: Seq<(String, Vec<ExtensionLeaf>)>) -> Seq<(Seq<char>, Seq<LeafView>)> {
    s.map_values(|p: (String, Vec<ExtensionLeaf>)| (p.0@, leaves_view(p.1@)))
}

pub open spec fn elements_view(s: Seq<ExtensionElement>) -> Seq<ElementView> {
    s.map_values(|x: ExtensionElement| x@)
}

pub open spec fn groups_view(s: Seq<(String, Vec<ExtensionElement>)>) -> Seq<(Seq<char>, Seq<ElementView>)> {
    s.map_values(|p: (String, Vec<ExtensionElement>)| (p.0@, elements_view(p.1@)))
}

pub open spec fn extensions_view(s: Seq<(String, Vec<(String, Vec<ExtensionElement>)>)>) -> ExtensionsView {
    s.map_values(|p: (String, Vec<(String, Vec<ExtensionElement>)>)| (p.0@, groups_view(p.1@)))
}

pub open spec fn content_view(c: Option<Option<String>>) -> Option<Option<Seq<char>>> {
    match c {
        Some(v) => Some(opt_text(v)),
        None => None,
    }
}

pub open spec fn entries_view(s: Seq<AtomEntry>) -> Seq<EntryView> {
    s.map_values(|e: AtomEntry| e@)
}

impl View for Link {
    type V = LinkView;

    open spec fn view(&self) -> LinkView {
        LinkView { rel: self.rel@, href: self.href@ }
    }
}

impl View for ExtensionLeaf {
    type V = LeafView;

    open spec fn view(&self) -> LeafView {
        LeafView { name: self.name@, value: opt_text(self.value) }
    }
}

impl View for ExtensionElement {
    type V = ElementView;

    open spec fn view(&self) -> ElementView {
        ElementView {
            name: self.name@,
            value: opt_text(self.value),
            children: children_view(self.children@),
        }
    }
}

impl View for AtomEntry {
    type V = EntryView;

    open spec fn view(&self) -> EntryView {
        EntryView {
            title: self.title@,
            authors: texts(self.authors@),
            categories: texts(self.categories@),
            content: content_view(self.content),
            updated: self.updated@,
            links: links_view(self.links@),
            extensions: extensions_view(self.extensions@),
        }
    }
}

impl View for AtomFeed {
    type V = FeedView;

    open spec fn view(&self) -> FeedView {
        FeedView { links: links_view(self.links@), entries: entries_view(self.entries@) }
    }
}

/// What atom_syndication reads from `xml` as an Atom feed, in the terms the
/// logic reads it; `None` where it does not read it as a feed. An entry's
/// `updated` is its update time as chrono's `to_rfc3339` writes it.
pub uninterp spec fn atom_feed(xml: Seq<char>) -> Option<FeedView>;

/// What a parsed atom_syndication feed holds, in the same terms.
pub uninterp spec fn feed_view(f: atom_syndication::Feed) -> FeedView;

/// Relies on atom_syndication's `FromStr` for `Feed`: the feed that `xml`
/// holds, `None` where it is not an Atom feed.
#[verifier::external_body]
fn parse_feed(xml: &str) -> (r: Option<atom_syndication::Feed>)
    ensures
        match r {
            Some(f) => atom_feed(xml@) == Some(feed_view(f)),
            None => atom_feed(xml@) is None,
        },
{
    xml.parse::<atom_syndication::Feed>().ok()
}

/// Relies on atom_syndication's `Feed::links`.
#[verifier::external_body]
fn feed_links(f: &atom_syndication::Feed) -> (r: Vec<Link>)
    ensures
        links_view(r@) == feed_view(*f).links,
{
    f.links().iter().map(|l| Link { rel: l.rel.clone(), href: l.href.clone() }).collect()
}

/// Relies on atom_syndication's `Feed::entries`: how many there are.
#[verifier::external_body]
fn entry_count(f: &atom_syndication::Feed) -> (r: usize)
    ensures
        r == feed_view(*f).entries.len(),
{
    f.entries().len()
}

/// Relies on atom_syndication's `Entry::title`: the text of the title.
#[verifier::external_body]
fn entry_title(f: &atom_syndication::Feed, i: usize) -> (r: String)
    requires
        i < feed_view(*f).entries.len(),
    ensures
        r@ == feed_view(*f).entries[i as int].title,
{
    f.entries()[i].title().value.clone()
}

/// Relies on atom_syndication's `Entry::authors`: their names.
#[verifier::external_body]
fn entry_authors(f: &atom_syndication::Feed, i: usize) -> (r: Vec<String>)
    requires
        i < feed_view(*f).entries.len(),
    ensures
        texts(r@) == feed_view(*f).entries[i as int].authors,
{
    f.entries()[i].authors().iter().map(|p| p.name.clone()).collect()
}

/// Relies on atom_syndication's `Entry::categories`: their terms.
#[verifier::external_body]
fn entry_categories(f: &atom_syndication::Feed, i: usize) -> (r: Vec<String>)
    requires
        i < feed_view(*f).entries.len(),
    ensures
        texts(r@) == feed_view(*f).entries[i as int].categories,
{
    f.entries()[i].categories().iter().map(|c| c.term.clone()).collect()
}

/// Relies on atom_syndication's `Entry::content`: the element and its text.
#[verifier::external_body]
fn entry_content(f: &atom_syndication::Feed, i: usize) -> (r: Option<Option<String>>)
    requires
        i < feed_view(*f).entries.len(),
    ensures
        content_view(r) == feed_view(*f).entries[i as int].content,
{
    f.entries()[i].content().map(|c| c.value.clone())
}

/// Relies on atom_syndication's `Entry::updated` and chrono's
/// `DateTime::to_rfc3339`: the update time as RFC 3339 text.
#[verifier::external_body]
fn entry_updated(f: &atom_syndication::Feed, i: usize) -> (r: String)
    requires
        i < feed_view(*f).entries.len(),
    ensures
        r@ == feed_view(*f).entries[i as int].updated,
{
    f.entries()[i].updated().to_rfc3339()
}

/// Relies on atom_syndication's `Entry::links`.
#[verifier::external_body]
fn entry_links(f: &atom_syndication::Feed, i: usize) -> (r: Vec<Link>)
    requires
        i < feed_view(*f).entries.len(),
    ensures
        links_view(r@) == feed_view(*f).entries[i as int].links,
{
    f.entries()[i].links().iter().map(|l| Link { rel: l.rel.clone(), href: l.href.clone() }).collect()
}

/// Relies on atom_syndication's `Entry::extensions`: the extension map,
/// each element with its name, text and children.
#[verifier::external_body]
fn entry_extensions(f: &atom_syndication::Feed, i: usize) -> (r: Extensions)
    requires
        i < feed_view(*f).entries.len(),
    ensures
        extensions_view(r@) == feed_view(*f).entries[i as int].extensions,
{
    f.entries()[i].extensions().iter().map(|(prefix, by_name)| (prefix.clone(), by_name.iter().map(|(name, xs)| (
        name.clone(),
        xs.iter().map(|x| ExtensionElement {
            name: x.name.clone(),
            value: x.value.clone(),
            children: x.children.iter().map(|(k, cs)| (
                k.clone(),
                cs.iter().map(|c| ExtensionLeaf { name: c.name.clone(), value: c.value.clone() }).collect(),
            )).collect(),
        }).collect(),
    )).collect())).collect()
}

fn entry_model(f: &atom_syndication::Feed, i: usize) -> (r: AtomEntry)
    requires
        i < feed_view(*f).entries.len(),
    ensures
        r@ == feed_view(*f).entries[i as int],
{
    AtomEntry {
        title: entry_title(f, i),
        authors: entry_authors(f, i),
        categories: entry_categories(f, i),
        content: entry_content(f, i),
        updated: entry_updated(f, i),
        links: entry_links(f, i),
        extensions: entry_extensions(f, i),
    }
}

/// Parses an Atom feed document into what the logic reads of it; `None`
/// where atom_syndication does not read it as a feed.
pub fn read_feed(xml: &str) -> (r: Option<AtomFeed>)
    ensures
        match atom_feed(xml@) {
            Some(v) => r matches Some(f) && f@ == v,
            None => r is None,
        },
{
    let feed = parse_feed(xml)?;
    let n = entry_count(&feed);
    let mut entries: Vec<AtomEntry> = Vec::new();
    let mut i: usize = 0;
    while i < n
        invariant
            n == feed_view(feed).entries.len(),
            i <= n,
            entries_view(entries@) =~= feed_view(feed).entries.subrange(0, i as int),
        decreases n - i,
    {
        let e = entry_model(&feed, i);
        let ghost before = entries@;
        let ghost ev = e@;
        entries.push(e);
        assert(entries_view(entries@) =~= entries_view(before).push(ev));
        assert(feed_view(feed).entries.subrange(0, i + 1) =~= feed_view(feed).entries.subrange(
            0,
            i as int,
        ).push(feed_view(feed).entries[i as int]));
        i = i + 1;
    }
    assert(feed_view(feed).entries.subrange(0, n as int) =~= feed_view(feed).entries);
    let r = AtomFeed { links: feed_links(&feed), entries };
    assert(r@.entries =~= feed_view(feed).entries);
    Some(r)
}

} // verus!
