use quick_xml::events::Event;
use quick_xml::Reader;
use crate::text::texts;
use vstd::prelude::*;
use vstd::string::StrSliceExecFns;
use vstd::utf8::{decode_utf8, valid_utf8};

verus! {

/// A streaming scanner over a document, with the buffers it reads into.
/// Verus does not know the `BufRead` bound of quick_xml's `Reader`, so the
/// reader is held in a struct whose fields Verus does not see.
#[verifier::external_body]
pub struct EventReader {
    reader: Reader<std::io::Cursor<Vec<u8>>>,
    buf: Vec<u8>,
    ns_buf: Vec<u8>,
}

/// A namespace-resolved element name.
#[derive(Clone, Debug, PartialEq, Eq)]
pub struct QName {
    /// The namespace URI the name's prefix resolves to, if any.
    pub ns: Option<Vec<u8>>,
    /// The name without its prefix.
    pub local: Vec<u8>,
}

/// One attribute of an element, its value still escaped.
#[derive(Clone, Debug, PartialEq, Eq)]
pub struct XmlAttribute {
    pub key: Vec<u8>,
    pub value: Vec<u8>,
}

/// One event of a streaming XML scan.
#[derive(Clone, Debug, PartialEq, Eq)]
pub enum XmlEvent {
    /// An opening tag.
    Start(QName),
    /// A self-closing tag with its attributes; `None` stands for a malformed attribute.
    Empty(QName, Vec<Option<XmlAttribute>>),
    /// A closing tag.
    End(QName),
    /// The end of the document.
    Eof,
    /// Text, comments, declarations and the like.
    Other,
}

/// A namespace-resolved name, as values.
pub struct QNameView {
    pub ns: Option<Seq<u8>>,
    pub local: Seq<u8>,
}

/// An attribute, as values.
pub struct AttributeView {
    pub key: Seq<u8>,
    pub value: Seq<u8>,
}

/// An event of a streaming XML scan, as values.
pub enum EventView {
    Start(QNameView),
    Empty(QNameView, Seq<Option<AttributeView>>),
    End(QNameView),
    Eof,
    Other,
}

impl View for QName {
    type V = QNameView;

    open spec fn view(&self) -> QNameView {
        QNameView {
            ns: match self.ns {
                Some(n) => Some(n@),
                None => None,
            },
            local: self.local@,
        }
    }
}

impl View for XmlAttribute {
    type V = AttributeView;

    open spec fn view(&self) -> AttributeView {
        AttributeView { key: self.key@, value: self.value@ }
    }
}

pub open spec fn attributes_view(s: Seq<Option<XmlAttribute>>) -> Seq<Option<AttributeView>> {
    s.map_values(
        |a: Option<XmlAttribute>|
            match a {
                Some(a) => Some(a@),
                None => None,
            },
    )
}

impl View for XmlEvent {
    type V = EventView;

    open spec fn view(&self) -> EventView {
        match self {
            XmlEvent::Start(q) => EventView::Start(q@),
            XmlEvent::Empty(q, attrs) => EventView::Empty(q@, attributes_view(attrs@)),
            XmlEvent::End(q) => EventView::End(q@),
            XmlEvent::Eof => EventView::Eof,
            XmlEvent::Other => EventView::Other,
        }
    }
}

pub open spec fn events_view(s: Seq<XmlEvent>) -> Seq<EventView> {
    s.map_values(|e: XmlEvent| e@)
}

/// The category document held no `app:categories` element, more than one,
/// only an out-of-line one, or was not well-formed.
#[derive(Clone, Copy, Debug, PartialEq, Eq)]
pub struct ParseCategory;

/// The bytes of an ASCII text.
pub open spec fn ascii_bytes(s: Seq<char>) -> Seq<u8> {
    Seq::new(s.len(), |i: int| s[i] as u8)
}

pub open spec fn app_ns() -> Seq<u8> {
    ascii_bytes("http://www.w3.org/2007/app"@)
}

pub open spec fn atom_ns() -> Seq<u8> {
    ascii_bytes("http://www.w3.org/2005/Atom"@)
}

/// `q` is the name `local` in namespace `ns`.
pub open spec fn names(q: QNameView, ns: Seq<u8>, local: Seq<char>) -> bool {
    &&& q.ns == Some(ns)
    &&& q.local == ascii_bytes(local)
}

pub open spec fn is_app_categories(q: QNameView) -> bool {
    names(q, app_ns(), "categories"@)
}

pub open spec fn is_atom_category(q: QNameView) -> bool {
    names(q, atom_ns(), "category"@)
}

/// What the XML escape rules turn `raw` into; `None` where it holds a
/// malformed or unknown reference.
pub uninterp spec fn xml_unescaped(raw: Seq<u8>) -> Option<Seq<u8>>;

/// The text of one attribute value, `None` where it cannot be unescaped or
/// is not UTF-8.
pub open spec fn attribute_text(raw: Seq<u8>) -> Option<Seq<char>> {
    match xml_unescaped(raw) {
        Some(u) => if valid_utf8(u) {
            Some(decode_utf8(u))
        } else {
            None
        },
        None => None,
    }
}

/// The `term` values of a category element's attributes, in order; `None`
/// where any attribute is malformed or a term cannot be read.
pub open spec fn category_terms(attrs: Seq<Option<AttributeView>>) -> Option<Seq<Seq<char>>>
    decreases attrs.len(),
{
    if attrs.len() == 0 {
        Some(Seq::empty())
    } else {
        let rest = category_terms(attrs.drop_first());
        match attrs[0] {
            None => None,
            Some(a) => if a.key == ascii_bytes("term"@) {
                match (attribute_text(a.value), rest) {
                    (Some(t), Some(r)) => Some(seq![t] + r),
                    _ => None,
                }
            } else {
                rest
            },
        }
    }
}

/// Where a scan of a category document stands: outside the `app:categories`
/// element (with the terms of the one already read, if any), or inside it
/// with the terms read so far.
pub enum ScanState {
    Outside(Option<Seq<Seq<char>>>),
    Inside(Seq<Seq<char>>),
}

/// The terms of a category document given as events from index `i` on, in
/// state `st`; `None` where the document is refused.
pub open spec fn scan(evs: Seq<EventView>, i: int, st: ScanState) -> Option<Seq<Seq<char>>>
    decreases evs.len() - i,
{
    if i < 0 || i >= evs.len() {
        match st {
            ScanState::Outside(found) => found,
            ScanState::Inside(_) => None,
        }
    } else {
        match st {
            ScanState::Outside(found) => match evs[i] {
                EventView::Start(q) => if is_app_categories(q) {
                    if found is Some {
                        None
                    } else {
                        scan(evs, i + 1, ScanState::Inside(Seq::empty()))
                    }
                } else {
                    scan(evs, i + 1, st)
                },
                EventView::Empty(q, _) => if is_app_categories(q) {
                    None
                } else {
                    scan(evs, i + 1, st)
                },
                EventView::Eof => found,
                _ => scan(evs, i + 1, st),
            },
            ScanState::Inside(acc) => match evs[i] {
                EventView::Empty(q, attrs) => if is_atom_category(q) {
                    match category_terms(attrs) {
                        Some(t) => scan(evs, i + 1, ScanState::Inside(acc + t)),
                        None => None,
                    }
                } else {
                    scan(evs, i + 1, st)
                },
                EventView::End(q) => if is_app_categories(q) {
                    scan(evs, i + 1, ScanState::Outside(Some(acc)))
                } else {
                    scan(evs, i + 1, st)
                },
                EventView::Eof => None,
                _ => scan(evs, i + 1, st),
            },
        }
    }
}

/// The category terms of a document given as its events, in document order:
/// those of the one `app:categories` element. `None` where there is no such
/// element, more than one, a self-closing one, one left open, or a category
/// whose attributes cannot be read.
pub open spec fn document_terms(evs: Seq<EventView>) -> Option<Seq<Seq<char>>> {
    scan(evs, 0, ScanState::Outside(None))
}

/// Relies on quick_xml::escape::unescape, the unescaping that
/// quick_xml's `Attribute::unescaped_value` applies to an attribute value.
#[verifier::external_body]
fn unescape(raw: &[u8]) -> (r: Option<Vec<u8>>)
    ensures
        match r {
            Some(v) => xml_unescaped(raw@) == Some(v@),
            None => xml_unescaped(raw@) is None,
        },
{
    quick_xml::escape::unescape(raw).ok().map(|v| v.into_owned())
}

/// Relies on std's String::from_utf8: it succeeds exactly on valid UTF-8
/// and then holds the characters that the bytes encode.
#[verifier::external_body]
fn string_from_utf8(bytes: Vec<u8>) -> (r: Option<String>)
    ensures
        r is Some <==> valid_utf8(bytes@),
        r matches Some(s) ==> s@ == decode_utf8(bytes@),
{
    String::from_utf8(bytes).ok()
}

/// `a` and `b` hold the same bytes.
fn bytes_eq(a: &[u8], b: &[u8]) -> (r: bool)
    ensures
        r == (a@ == b@),
{
    if a.len() != b.len() {
        return false;
    }
    let mut i: usize = 0;
    while i < a.len()
        invariant
            a@.len() == b@.len(),
            i <= a@.len(),
            forall|k: int| 0 <= k < i ==> a@[k] == b@[k],
        decreases a@.len() - i,
    {
        if a[i] != b[i] {
            return false;
        }
        i = i + 1;
    }
    assert(a@ =~= b@);
    true
}

/// `a` holds the bytes of the ASCII text `s`.
fn ascii_eq(a: &[u8], s: &str) -> (r: bool)
    requires
        vstd::string::is_ascii(s),
    ensures
        r == (a@ == ascii_bytes(s@)),
{
    broadcast use vstd::string::is_ascii_spec_bytes;

    let b = s.as_bytes();
    assert(b@ =~= ascii_bytes(s@));
    bytes_eq(a, b)
}

/// `q` is the name `local` in namespace `ns`, both ASCII.
fn name_is(q: &QName, ns: &str, local: &str) -> (r: bool)
    requires
        vstd::string::is_ascii(ns),
        vstd::string::is_ascii(local),
    ensures
        r == names(q@, ascii_bytes(ns@), local@),
{
    match &q.ns {
        Some(n) => ascii_eq(n.as_slice(), ns) && ascii_eq(q.local.as_slice(), local),
        None => false,
    }
}

fn app_categories(q: &QName) -> (r: bool)
    ensures
        r == is_app_categories(q@),
{
    proof {
        reveal_strlit("http://www.w3.org/2007/app");
        reveal_strlit("categories");
    }
    name_is(q, "http://www.w3.org/2007/app", "categories")
}

fn atom_category(q: &QName) -> (r: bool)
    ensures
        r == is_atom_category(q@),
{
    proof {
        reveal_strlit("http://www.w3.org/2005/Atom");
        reveal_strlit("category");
    }
    name_is(q, "http://www.w3.org/2005/Atom", "category")
}

fn is_term_key(key: &Vec<u8>) -> (r: bool)
    ensures
        r == (key@ == ascii_bytes("term"@)),
{
    proof {
        reveal_strlit("term");
    }
    ascii_eq(key.as_slice(), "term")
}

/// Appends the `term` values of a category element's attributes to `acc`;
/// false where one of them cannot be read.
fn push_category_terms(attrs: &Vec<Option<XmlAttribute>>, acc: &mut Vec<String>) -> (r: bool)
    ensures
        r == category_terms(attributes_view(attrs@)) is Some,
        r ==> texts(final(acc)@) == texts(old(acc)@) + category_terms(attributes_view(attrs@))->Some_0,
{
    let n = attrs.len();
    let mut i: usize = 0;
    proof {
        assert(attributes_view(attrs@).subrange(0, n as int) =~= attributes_view(attrs@));
        assert(texts(acc@) =~= texts(old(acc)@) + Seq::<Seq<char>>::empty());
    }
    while i < n
        invariant
            n == attrs@.len(),
            i <= n,
            match category_terms(attributes_view(attrs@).subrange(i as int, n as int)) {
                Some(t) => category_terms(attributes_view(attrs@)) == Some(texts(acc@).subrange(
                    texts(old(acc)@).len() as int,
                    texts(acc@).len() as int,
                ) + t),
                None => category_terms(attributes_view(attrs@)) is None,
            },
            texts(acc@).subrange(0, texts(old(acc)@).len() as int) == texts(old(acc)@),
            texts(old(acc)@).len() <= texts(acc@).len(),
        decreases n - i,
    {
        let ghost rest = attributes_view(attrs@).subrange(i as int, n as int);
        assert(rest.drop_first() =~= attributes_view(attrs@).subrange(i + 1, n as int));
        assert(rest[0] == attributes_view(attrs@)[i as int]);
        match &attrs[i] {
            None => {
                return false;
            },
            Some(a) => {
                if is_term_key(&a.key) {
                    let unescaped = match unescape(a.value.as_slice()) {
                        Some(u) => u,
                        None => {
                            return false;
                        },
                    };
                    let text = match string_from_utf8(unescaped) {
                        Some(s) => s,
                        None => {
                            return false;
                        },
                    };
                    let ghost before = texts(acc@);
                    acc.push(text);
                    proof {
                        assert(texts(acc@) =~= before.push(text@));
                        assert(texts(acc@).subrange(0, texts(old(acc)@).len() as int)
                            =~= before.subrange(0, texts(old(acc)@).len() as int));
                        let start = texts(old(acc)@).len() as int;
                        assert(texts(acc@).subrange(start, texts(acc@).len() as int)
                            =~= before.subrange(start, before.len() as int).push(text@));
                        match category_terms(attributes_view(attrs@).subrange(i + 1, n as int)) {
                            Some(t) => {
                                assert(before.subrange(start, before.len() as int) + (seq![
                                    text@] + t) =~= before.subrange(start, before.len() as int).push(text@) + t);
                            },
                            None => {},
                        }
                    }
                }
            },
        }
        i = i + 1;
    }
    proof {
        assert(attributes_view(attrs@).subrange(n as int, n as int) =~= Seq::<Option<AttributeView>>::empty());
        let start = texts(old(acc)@).len() as int;
        let whole = texts(acc@);
        assert(whole =~= whole.subrange(0, start) + (whole.subrange(start, whole.len() as int) + Seq::<Seq<char>>::empty()));
    }
    true
}

/// `e` opens an `app:categories` element.
pub open spec fn opens_categories(e: EventView) -> bool {
    e matches EventView::Start(q) && is_app_categories(q)
}

/// Outside of any `app:categories` element and before the first one, a scan
/// either refuses the document or goes on to `j` unchanged.
proof fn lemma_scan_before_categories(evs: Seq<EventView>, i: int, j: int)
    requires
        0 <= i <= j <= evs.len(),
        forall|m: int| i <= m < j ==> !opens_categories(#[trigger] evs[m]),
    ensures
        scan(evs, i, ScanState::Outside(None)) is None || scan(evs, i, ScanState::Outside(None))
            == scan(evs, j, ScanState::Outside(None)),
    decreases j - i,
{
    if i < j {
        lemma_scan_before_categories(evs, i + 1, j);
        assert(!opens_categories(evs[i]));
    }
}

/// A document with no `app:categories` element is refused.
pub proof fn lemma_no_categories_element_is_refused(evs: Seq<EventView>)
    requires
        forall|m: int| 0 <= m < evs.len() ==> !opens_categories(#[trigger] evs[m]),
    ensures
        document_terms(evs) is None,
{
    lemma_scan_before_categories(evs, 0, evs.len() as int);
}

/// A document whose first `app:categories` element is self-closing, one
/// that points to the categories elsewhere, is refused rather than read as
/// empty.
pub proof fn lemma_self_closing_categories_is_refused(evs: Seq<EventView>, k: int)
    requires
        0 <= k < evs.len(),
        evs[k] matches EventView::Empty(q, _) && is_app_categories(q),
        forall|m: int| 0 <= m < k ==> !opens_categories(#[trigger] evs[m]),
    ensures
        document_terms(evs) is None,
{
    lemma_scan_before_categories(evs, 0, k);
}

/// The scan state that the loop of `categories_from_events` holds.
pub open spec fn state_of(found: Option<Vec<String>>, inside: bool, acc: Vec<String>) -> ScanState {
    if inside {
        ScanState::Inside(texts(acc@))
    } else {
        match found {
            Some(v) => ScanState::Outside(Some(texts(v@))),
            None => ScanState::Outside(None),
        }
    }
}

/// Reads the category terms out of the events of a category document.
pub fn categories_from_events(evs: &Vec<XmlEvent>) -> (r: Result<Vec<String>, ParseCategory>)
    ensures
        match document_terms(events_view(evs@)) {
            Some(t) => r matches Ok(v) && texts(v@) == t,
            None => r is Err,
        },
{
    let n = evs.len();
    let mut found: Option<Vec<String>> = None;
    let mut inside = false;
    let mut acc: Vec<String> = Vec::new();
    let mut i: usize = 0;
    while i < n
        invariant
            n == evs@.len(),
            i <= n,
            document_terms(events_view(evs@)) == scan(
                events_view(evs@),
                i as int,
                state_of(found, inside, acc),
            ),
        decreases n - i,
    {
        assert(events_view(evs@)[i as int] == evs@[i as int]@);
        match &evs[i] {
            XmlEvent::Start(q) => {
                if !inside && app_categories(q) {
                    if found.is_some() {
                        return Err(ParseCategory);
                    }
                    inside = true;
                    acc = Vec::new();
                    assert(texts(acc@) =~= Seq::<Seq<char>>::empty());
                }
            },
            XmlEvent::Empty(q, attrs) => {
                if inside {
                    if atom_category(q) {
                        if !push_category_terms(attrs, &mut acc) {
                            return Err(ParseCategory);
                        }
                    }
                } else if app_categories(q) {
                    return Err(ParseCategory);
                }
            },
            XmlEvent::End(q) => {
                if inside && app_categories(q) {
                    found = Some(acc);
                    acc = Vec::new();
                    inside = false;
                }
            },
            XmlEvent::Eof => {
                if inside {
                    return Err(ParseCategory);
                }
                return match found {
                    Some(v) => Ok(v),
                    None => Err(ParseCategory),
                };
            },
            XmlEvent::Other => {},
        }
        i = i + 1;
    }
    if inside {
        return Err(ParseCategory);
    }
    match found {
        Some(v) => Ok(v),
        None => Err(ParseCategory),
    }
}

/// The `k`-th result, counting from 0, that quick_xml's `Reader` over
/// `xml` (leaving out the whitespace around text) gives when asked for
/// namespaced events one after another; `None` where that read fails.
pub uninterp spec fn xml_event_at(xml: Seq<char>, k: nat) -> Option<EventView>;

/// The document that a reader scans.
pub uninterp spec fn reader_text(r: EventReader) -> Seq<char>;

/// How many events a reader has handed out.
pub uninterp spec fn events_read(r: EventReader) -> nat;

pub open spec fn opt_event_view(e: Option<XmlEvent>) -> Option<EventView> {
    match e {
        Some(e) => Some(e@),
        None => None,
    }
}

impl EventReader {
    /// Relies on quick_xml's `Reader::from_reader` and `Reader::trim_text`:
    /// a reader over `xml` that leaves out the whitespace around text.
    #[verifier::external_body]
    fn new(xml: &str) -> (r: EventReader)
        ensures
            reader_text(r) == xml@,
            events_read(r) == 0,
    {
        let mut reader = Reader::from_reader(std::io::Cursor::new(xml.as_bytes().to_vec()));
        reader.trim_text(true);
        EventReader { reader, buf: Vec::new(), ns_buf: Vec::new() }
    }

    /// Relies on std's `Vec::clear`: empties the buffer that the next event
    /// is read into, which the events that follow do not depend on.
    #[verifier::external_body]
    fn clear_buffer(&mut self)
        ensures
            reader_text(*final(self)) == reader_text(*old(self)),
            events_read(*final(self)) == events_read(*old(self)),
    {
        self.buf.clear()
    }

    /// Relies on quick_xml's `Reader::read_namespaced_event`: the next event
    /// of the document, with names resolved against the namespaces in scope;
    /// `None` where the document is not well-formed.
    #[verifier::external_body]
    fn next_event(&mut self) -> (r: Option<XmlEvent>)
        ensures
            reader_text(*final(self)) == reader_text(*old(self)),
            events_read(*final(self)) == events_read(*old(self)) + 1,
            opt_event_view(r) == xml_event_at(reader_text(*old(self)), events_read(*old(self))),
    {
        let (ns, event) = self.reader.read_namespaced_event(&mut self.buf, &mut self.ns_buf).ok()?;
        let name = |local: &[u8]| QName { ns: ns.map(Vec::from), local: local.into() };
        Some(match event {
            Event::Start(e) => XmlEvent::Start(name(e.local_name())),
            Event::Empty(e) => XmlEvent::Empty(
                name(e.local_name()),
                e.attributes().map(|a| a.ok().map(|a| XmlAttribute { key: a.key.into(), value: a.value.into_owned() })).collect(),
            ),
            Event::End(e) => XmlEvent::End(name(e.local_name())),
            Event::Eof => XmlEvent::Eof,
            _ => XmlEvent::Other,
        })
    }
}

/// The events that a reader over `xml` gives from its `k`-th on, up to and
/// including the end of the document, when that end comes within
/// `remaining + 1` events and no read fails before it.
pub open spec fn events_from(xml: Seq<char>, k: nat, remaining: nat) -> Option<Seq<EventView>>
    decreases remaining,
{
    match xml_event_at(xml, k) {
        None => None,
        Some(EventView::Eof) => Some(seq![EventView::Eof]),
        Some(e) => if remaining == 0 {
            None
        } else {
            match events_from(xml, k + 1, (remaining - 1) as nat) {
                Some(rest) => Some(seq![e] + rest),
                None => None,
            }
        },
    }
}

/// The events of a category document. Every event before the end takes at
/// least one character, so the end comes within `xml.len() + 1` events.
pub open spec fn document_events_of(xml: Seq<char>) -> Option<Seq<EventView>> {
    events_from(xml, 0, xml.len())
}

/// The state of a scan of events: what remains to read from the `k`-th
/// event on, after `done`.
pub open spec fn scan_rest(xml: Seq<char>, k: nat, remaining: nat, done: Seq<EventView>) -> Option<
    Seq<EventView>,
> {
    match events_from(xml, k, remaining) {
        Some(rest) => Some(done + rest),
        None => None,
    }
}

/// Scans a category document into its events, up to and including the end
/// of the document; `None` where it is not well-formed.
fn document_events(xml: &str) -> (r: Option<Vec<XmlEvent>>)
    ensures
        match document_events_of(xml@) {
            Some(evs) => r matches Some(v) && events_view(v@) == evs,
            None => r is None,
        },
{
    let mut reader = EventReader::new(xml);
    let mut events: Vec<XmlEvent> = Vec::new();
    let mut remaining: usize = xml.unicode_len();
    proof {
        match events_from(xml@, 0, remaining as nat) {
            Some(rest) => {
                assert(events_view(events@) + rest =~= rest);
            },
            None => {},
        }
    }
    loop
        invariant
            reader_text(reader) == xml@,
            document_events_of(xml@) == scan_rest(
                xml@,
                events_read(reader),
                remaining as nat,
                events_view(events@),
            ),
        decreases remaining,
    {
        reader.clear_buffer();
        let ghost k = events_read(reader);
        let ghost before = events_view(events@);
        match reader.next_event() {
            None => {
                return None;
            },
            Some(XmlEvent::Eof) => {
                events.push(XmlEvent::Eof);
                assert(events_view(events@) =~= before + seq![EventView::Eof]);
                return Some(events);
            },
            Some(e) => {
                let ghost ev = e@;
                events.push(e);
                assert(events_view(events@) =~= before.push(ev));
                if remaining == 0 {
                    return None;
                }
                proof {
                    match events_from(xml@, k + 1, (remaining - 1) as nat) {
                        Some(rest) => {
                            assert(before + (seq![ev] + rest) =~= before.push(ev) + rest);
                        },
                        None => {},
                    }
                }
            },
        }
        remaining = remaining - 1;
    }
}

/// The outcome of reading the category terms of a document whose events
/// are `evs` (`None` where they could not be read): the terms of its one
/// `app:categories` element, or an error.
pub open spec fn category_outcome(evs: Option<Seq<EventView>>, r: Result<Vec<String>, ParseCategory>) -> bool {
    match evs {
        None => r is Err,
        Some(evs) => match document_terms(evs) {
            Some(t) => r matches Ok(v) && texts(v@) == t,
            None => r is Err,
        },
    }
}

/// Reads the category terms of a category document, in document order.
pub fn from_category_document_xml(xml: &str) -> (r: Result<Vec<String>, ParseCategory>)
    ensures
        category_outcome(document_events_of(xml@), r),
{
    match document_events(xml) {
        Some(evs) => categories_from_events(&evs),
        None => Err(ParseCategory),
    }
}

} // verus!
