use crate::text::{clone_strings, texts};
use vstd::prelude::*;
use vstd::string::StringExecFns;

verus! {

/// What a request to create or update an entry sends.
#[derive(Clone, Debug, PartialEq, Eq)]
pub struct EntryParams {
    author_name: String,
    title: String,
    content: String,
    updated: String,
    categories: Vec<String>,
    draft: bool,
}

/// The values of an `EntryParams`.
pub struct EntryParamsView {
    pub author_name: Seq<char>,
    pub title: Seq<char>,
    pub content: Seq<char>,
    pub updated: Seq<char>,
    pub categories: Seq<Seq<char>>,
    pub draft: bool,
}

impl View for EntryParams {
    type V = EntryParamsView;

    closed spec fn view(&self) -> EntryParamsView {
        EntryParamsView {
            author_name: self.author_name@,
            title: self.title@,
            content: self.content@,
            updated: self.updated@,
            categories: texts(self.categories@),
            draft: self.draft,
        }
    }
}

/// What HTML escaping makes of one character.
pub open spec fn escape_char(c: char) -> Seq<char> {
    if c == '<' {
        "&lt;"@
    } else if c == '>' {
        "&gt;"@
    } else if c == '"' {
        "&quot;"@
    } else if c == '&' {
        "&amp;"@
    } else if c == '\'' {
        "&#x27;"@
    } else if c == '`' {
        "&#x60;"@
    } else if c == '=' {
        "&#x3D;"@
    } else {
        seq![c]
    }
}

/// `s` with each character escaped for HTML.
pub open spec fn html_escaped(s: Seq<char>) -> Seq<char>
    decreases s.len(),
{
    if s.len() == 0 {
        Seq::empty()
    } else {
        html_escaped(s.drop_last()) + escape_char(s.last())
    }
}

/// One `category` element for each term, in order.
pub open spec fn categories_xml(terms: Seq<Seq<char>>) -> Seq<char>
    decreases terms.len(),
{
    if terms.len() == 0 {
        Seq::empty()
    } else {
        categories_xml(terms.drop_last()) + "<category term=\""@ + html_escaped(terms.last())
            + "\" />"@
    }
}

/// The AtomPub entry document for `p`.
pub open spec fn entry_xml(p: EntryParamsView) -> Seq<char> {
    "<?xml version=\"1.0\" encoding=\"utf-8\"?>\n<entry xmlns=\"http://www.w3.org/2005/Atom\"\n       xmlns:app=\"http://www.w3.org/2007/app\">\n  <title>"@
        + html_escaped(p.title) + "</title>\n  <author><name>"@ + html_escaped(p.author_name)
        + "</name></author>\n  <content type=\"text/plain\">"@ + html_escaped(p.content)
        + "</content>\n  <updated>"@ + html_escaped(p.updated) + "</updated>\n  "@
        + categories_xml(p.categories) + "\n  <app:control>\n    <app:draft>"@ + (if p.draft {
        "yes"@
    } else {
        "no"@
    }) + "</app:draft>\n  </app:control>\n</entry>"@
}

/// Relies on handlebars::html_escape, the escaping that handlebars applies
/// to each `{{value}}` of a template: it maps `<`, `>`, `"`, `&`, `'`, `` ` ``
/// and `=` to their character references and keeps every other character.
#[verifier::external_body]
fn html_escape(s: &str) -> (r: String)
    ensures
        r@ == html_escaped(s@),
{
    handlebars::html_escape(s)
}

impl EntryParams {
    pub fn new(
        author_name: String,
        title: String,
        content: String,
        updated: String,
        categories: Vec<String>,
        draft: bool,
    ) -> (r: EntryParams)
        ensures
            r@ == (EntryParamsView {
                author_name: author_name@,
                title: title@,
                content: content@,
                updated: updated@,
                categories: texts(categories@),
                draft,
            }),
    {
        EntryParams { author_name, title, content, updated, categories, draft }
    }

    /// The category terms, in order.
    pub fn categories(&self) -> (r: Vec<String>)
        ensures
            texts(r@) == self@.categories,
    {
        clone_strings(&self.categories)
    }

    /// Renders the AtomPub entry document that a create or update request
    /// sends: the fields, HTML-escaped, in a fixed template, one `category`
    /// element per term, and a draft flag of `yes` or `no`.
    pub fn into_xml(self) -> (r: String)
        ensures
            r@ == entry_xml(self@),
    {
        let mut xml = String::from_str(
            "<?xml version=\"1.0\" encoding=\"utf-8\"?>\n<entry xmlns=\"http://www.w3.org/2005/Atom\"\n       xmlns:app=\"http://www.w3.org/2007/app\">\n  <title>",
        );
        xml.append(html_escape(self.title.as_str()).as_str());
        xml.append("</title>\n  <author><name>");
        xml.append(html_escape(self.author_name.as_str()).as_str());
        xml.append("</name></author>\n  <content type=\"text/plain\">");
        xml.append(html_escape(self.content.as_str()).as_str());
        xml.append("</content>\n  <updated>");
        xml.append(html_escape(self.updated.as_str()).as_str());
        xml.append("</updated>\n  ");
        let ghost head = xml@;
        let n = self.categories.len();
        let mut i: usize = 0;
        while i < n
            invariant
                n == self.categories@.len(),
                i <= n,
                xml@ == head + categories_xml(texts(self.categories@.subrange(0, i as int))),
            decreases n - i,
        {
            let ghost before = xml@;
            xml.append("<category term=\"");
            xml.append(html_escape(self.categories[i].as_str()).as_str());
            xml.append("\" />");
            proof {
                let t = texts(self.categories@.subrange(0, i + 1));
                assert(t.drop_last() =~= texts(self.categories@.subrange(0, i as int)));
                assert(t.last() == self.categories@[i as int]@);
            }
            i = i + 1;
        }
        assert(self.categories@.subrange(0, n as int) =~= self.categories@);
        xml.append("\n  <app:control>\n    <app:draft>");
        if self.draft {
            xml.append("yes");
        } else {
            xml.append("no");
        }
        xml.append("</app:draft>\n  </app:control>\n</entry>");
        assert(xml@ =~= entry_xml(self@));
        xml
    }
}

} // verus!
