use hatena_blog::{
    first_entry, from_category_document_xml, from_entry_xml, from_feed_xml, get_draft, get_id,
    next_page_of, page_of_query, partial_list, CategoryDocumentResponse, CollectionResponse,
    Entry, EntryId, EntryParams, Link, MemberResponse, ParseEntry,
};

const GET_ENTRY_RESPONSE_XML: &str = r#"<?xml version="1.0" encoding="utf-8"?>
<entry xmlns="http://www.w3.org/2005/Atom"
       xmlns:app="http://www.w3.org/2007/app">
  <id>tag:blog.hatena.ne.jp,2013:blog-{はてなID}-20000000000000-3000000000000000</id>
  <link rel="edit" href="https://blog.hatena.ne.jp/{はてなID}/{ブログID}/atom/edit/2500000000"/>
  <link rel="alternate" type="text/html" href="http://{ブログID}/entry/2013/09/02/112823"/>
  <author><name>{はてなID}</name></author>
  <title>記事タイトル</title>
  <updated>2013-09-02T11:28:23+09:00</updated>
  <published>2013-09-02T11:28:23+09:00</published>
  <app:edited>2013-09-02T11:28:23+09:00</app:edited>
  <summary type="text"> 記事本文 リスト1 リスト2 内容 </summary>
  <content type="text/x-hatena-syntax">
    ** 記事本文
    - リスト1
    - リスト2
    内容
  </content>
  <hatena:formatted-content type="text/html" xmlns:hatena="http://www.hatena.ne.jp/info/xmlns#">
    &lt;div class=&quot;section&quot;&gt;
    &lt;h4&gt;記事本文&lt;/h4&gt;

    &lt;ul&gt;
    &lt;li&gt;リスト1&lt;/li&gt;
    &lt;li&gt;リスト2&lt;/li&gt;
    &lt;/ul&gt;&lt;p&gt;内容&lt;/p&gt;
    &lt;/div&gt;
  </hatena:formatted-content>
  <category term="Scala" />
  <category term="Perl" />
  <app:control>
    <app:draft>no</app:draft>
  </app:control>
</entry>"#;

const CATEGORY_DOCUMENT_XML: &str = r#"<?xml version="1.0" encoding="utf-8"?>
    <app:categories
        xmlns:app="http://www.w3.org/2007/app"
        xmlns:atom="http://www.w3.org/2005/Atom"
        fixed="no">
      <atom:category term="Perl" />
      <atom:category term="Scala" />
    </app:categories>"#;

#[test]
fn from_entry_xml_test() {
    let feed = from_entry_xml(GET_ENTRY_RESPONSE_XML).unwrap();
    assert_eq!(
        first_entry(&feed),
        Ok(Entry::new(
            "2500000000".parse::<EntryId>().unwrap(),
            "記事タイトル".to_string(),
            "{はてなID}".to_string(),
            vec!["Scala".to_string(), "Perl".to_string()],
            "\n    ** 記事本文\n    - リスト1\n    - リスト2\n    内容\n  ".to_string(),
            "2013-09-02T11:28:23+09:00".to_string(),
            false,
        ))
    );
}

#[test]
fn atom_syndication_parse_from_get_entry_xml() {
    let feed = from_entry_xml(GET_ENTRY_RESPONSE_XML).unwrap();
    assert_eq!(feed.entries.len(), 1);
    let entry = feed.entries[0].clone();
    assert_eq!(entry.title.as_str(), "記事タイトル");
    assert_eq!(entry.updated, "2013-09-02T11:28:23+09:00");
    assert_eq!(entry.authors, vec!["{はてなID}".to_string()]);
    assert_eq!(entry.categories, vec!["Scala".to_string(), "Perl".to_string()]);
    assert_eq!(
        entry.links,
        vec![
            Link {
                href: "https://blog.hatena.ne.jp/{はてなID}/{ブログID}/atom/edit/2500000000"
                    .to_string(),
                rel: "edit".to_string(),
            },
            Link {
                href: "http://{ブログID}/entry/2013/09/02/112823".to_string(),
                rel: "alternate".to_string(),
            }
        ]
    );
    assert_eq!(
        entry.content,
        Some(Some(
            "\n    ** 記事本文\n    - リスト1\n    - リスト2\n    内容\n  ".to_string()
        ))
    );
    let prefixes: Vec<&str> = entry.extensions.iter().map(|(p, _)| p.as_str()).collect();
    assert_eq!(prefixes, vec!["app", "hatena"]);
    let app = &entry.extensions[0].1;
    let names: Vec<&str> = app.iter().map(|(n, _)| n.as_str()).collect();
    assert_eq!(names, vec!["control", "edited"]);
    let control = &app[0].1[0];
    assert_eq!(control.name, "app:control");
    assert_eq!(control.children.len(), 1);
    assert_eq!(control.children[0].0, "draft");
    assert_eq!(control.children[0].1[0].name, "app:draft");
    assert_eq!(control.children[0].1[0].value, Some("no".to_string()));
    assert_eq!(app[1].1[0].value, Some("2013-09-02T11:28:23+09:00".to_string()));
    assert!(!get_draft(&entry.extensions));
}

#[test]
fn category_document_test() {
    let categories = from_category_document_xml(CATEGORY_DOCUMENT_XML).unwrap();
    assert_eq!(
        categories,
        ["Perl", "Scala"]
            .iter()
            .map(|s| s.to_string())
            .collect::<Vec<String>>()
    );
}

#[test]
fn member_response_into_entry() {
    let entry = MemberResponse::from(GET_ENTRY_RESPONSE_XML.to_string())
        .into_entry()
        .unwrap();
    assert_eq!(entry.id.as_str(), "2500000000");
    assert_eq!(entry.title, "記事タイトル");
    assert!(!entry.draft);
}

#[test]
fn member_response_keeps_body() {
    let response = MemberResponse::from("BODY".to_string());
    assert_eq!(response.to_string(), "BODY");
    assert_eq!(response.into_string(), "BODY");
}

#[test]
fn category_document_response_into_categories() {
    let response = CategoryDocumentResponse::from(CATEGORY_DOCUMENT_XML.to_string());
    assert_eq!(
        response.into_categories(),
        Ok(vec!["Perl".to_string(), "Scala".to_string()])
    );
    let bad = CategoryDocumentResponse::from("<x/>".to_string());
    assert_eq!(bad.into_categories(), Err(ParseEntry));
}

fn entry_xml_with(links: &str, extra: &str) -> String {
    format!(
        r#"<?xml version="1.0" encoding="utf-8"?>
<entry xmlns="http://www.w3.org/2005/Atom"
       xmlns:app="http://www.w3.org/2007/app">
  {links}
  <author><name>AUTHOR</name></author>
  <title>TITLE</title>
  <updated>2013-09-02T11:28:23+09:00</updated>
  <content type="text/plain">CONTENT</content>
  {extra}
</entry>"#
    )
}

fn draft_of(extra: &str) -> bool {
    let xml = entry_xml_with(
        r#"<link rel="edit" href="https://blog.hatena.ne.jp/h/b/atom/entry/1"/>"#,
        extra,
    );
    first_entry(&from_entry_xml(&xml).unwrap()).unwrap().draft
}

#[test]
fn draft_absent_control_block_is_false() {
    assert!(!draft_of(""));
}

#[test]
fn draft_yes_is_true() {
    assert!(draft_of("<app:control><app:draft>yes</app:draft></app:control>"));
}

#[test]
fn draft_other_values_are_false() {
    assert!(!draft_of("<app:control><app:draft>no</app:draft></app:control>"));
    assert!(!draft_of("<app:control><app:draft>YES</app:draft></app:control>"));
    assert!(!draft_of("<app:control></app:control>"));
}

#[test]
fn entry_id_from_edit_link() {
    let xml = entry_xml_with(
        r#"<link rel="edit" href="https://blog.hatena.ne.jp/h/b/atom/entry/2500000000"/>"#,
        "",
    );
    let feed = from_entry_xml(&xml).unwrap();
    assert_eq!(get_id(&feed.entries[0].links).unwrap().as_str(), "2500000000");
    assert_eq!(first_entry(&feed).unwrap().id.as_str(), "2500000000");
}

#[test]
fn missing_edit_link_is_a_parse_failure() {
    let xml = entry_xml_with(
        r#"<link rel="alternate" href="http://example.com/entry/2500000000"/>"#,
        "",
    );
    let feed = from_entry_xml(&xml).unwrap();
    assert_eq!(get_id(&feed.entries[0].links), None);
    assert_eq!(first_entry(&feed), Err(ParseEntry));
}

#[test]
fn missing_author_or_content_is_a_parse_failure() {
    let no_author = r#"<entry xmlns="http://www.w3.org/2005/Atom">
  <link rel="edit" href="https://blog.hatena.ne.jp/h/b/atom/entry/1"/>
  <title>T</title><updated>2013-09-02T11:28:23+09:00</updated>
  <content type="text/plain">C</content></entry>"#;
    assert_eq!(first_entry(&from_entry_xml(no_author).unwrap()), Err(ParseEntry));
    let no_content = r#"<entry xmlns="http://www.w3.org/2005/Atom">
  <link rel="edit" href="https://blog.hatena.ne.jp/h/b/atom/entry/1"/>
  <author><name>A</name></author>
  <title>T</title><updated>2013-09-02T11:28:23+09:00</updated></entry>"#;
    assert_eq!(first_entry(&from_entry_xml(no_content).unwrap()), Err(ParseEntry));
}

#[test]
fn feed_without_entries_has_no_first_entry() {
    let feed = from_feed_xml(r#"<feed xmlns="http://www.w3.org/2005/Atom"></feed>"#).unwrap();
    assert_eq!(first_entry(&feed), Err(ParseEntry));
}

fn collection(next: &str) -> String {
    format!(
        r#"<?xml version="1.0" encoding="utf-8"?>
<feed xmlns="http://www.w3.org/2005/Atom" xmlns:app="http://www.w3.org/2007/app">
  <link rel="first" href="https://blog.hatena.ne.jp/h/b/atom/entry" />
  {next}
  <title>BLOG</title>
  <updated>2013-09-02T11:28:23+09:00</updated>
  <entry>
    <link rel="edit" href="https://blog.hatena.ne.jp/h/b/atom/entry/2500000000"/>
    <title>ONE</title>
    <updated>2013-09-02T11:28:23+09:00</updated>
  </entry>
  <entry>
    <link rel="edit" href="https://blog.hatena.ne.jp/h/b/atom/entry/2500000001"/>
    <title>TWO</title>
    <updated>2013-09-02T11:28:23+09:00</updated>
  </entry>
</feed>"#
    )
}

#[test]
fn pagination_next_link_gives_cursor() {
    let body = collection(
        r#"<link rel="next" href="https://blog.hatena.ne.jp/h/b/atom/entry?page=abc" />"#,
    );
    let (page, ids) = CollectionResponse::from(body).into_partial_list().unwrap();
    assert_eq!(page, Some("abc".to_string()));
    let ids: Vec<&str> = ids.iter().map(|id| id.as_str()).collect();
    assert_eq!(ids, vec!["2500000000", "2500000001"]);
}

#[test]
fn pagination_without_next_link_gives_none() {
    let feed = from_feed_xml(&collection("")).unwrap();
    let (page, ids) = partial_list(&feed).unwrap();
    assert_eq!(page, None);
    assert_eq!(ids.len(), 2);
}

#[test]
fn pagination_cursor_is_decoded() {
    let links = vec![Link {
        rel: "next".to_string(),
        href: "https://example.com/atom/entry?x=1&page=a%20b%2Fc".to_string(),
    }];
    assert_eq!(next_page_of(&links), Some("a b/c".to_string()));
    let relative = vec![Link {
        rel: "next".to_string(),
        href: "/atom/entry?page=abc".to_string(),
    }];
    assert_eq!(next_page_of(&relative), None);
}

#[test]
fn page_of_query_takes_first_page_pair() {
    let pairs = vec![
        ("x".to_string(), "1".to_string()),
        ("page".to_string(), "p1".to_string()),
        ("page".to_string(), "p2".to_string()),
    ];
    assert_eq!(page_of_query(&pairs), Some("p1".to_string()));
    assert_eq!(page_of_query(&pairs[..1].to_vec()), None);
}

#[test]
fn entry_without_id_fails_the_page() {
    let body = r#"<feed xmlns="http://www.w3.org/2005/Atom">
  <title>BLOG</title><updated>2013-09-02T11:28:23+09:00</updated>
  <entry><title>NO ID</title><updated>2013-09-02T11:28:23+09:00</updated></entry>
</feed>"#;
    assert_eq!(CollectionResponse::from(body.to_string()).into_partial_list(), Err(ParseEntry));
}

#[test]
fn categories_are_kept_in_order_with_duplicates() {
    let xml = r#"<app:categories xmlns:app="http://www.w3.org/2007/app" xmlns:atom="http://www.w3.org/2005/Atom">
  <atom:category term="B"/><atom:category term="A"/><atom:category term="B"/>
</app:categories>"#;
    assert_eq!(
        from_category_document_xml(xml).unwrap(),
        vec!["B".to_string(), "A".to_string(), "B".to_string()]
    );
}

#[test]
fn category_terms_are_unescaped() {
    let xml = r#"<app:categories xmlns:app="http://www.w3.org/2007/app" xmlns:atom="http://www.w3.org/2005/Atom">
  <atom:category term="C&amp;C++"/><atom:category term="&lt;b&gt;"/>
</app:categories>"#;
    assert_eq!(
        from_category_document_xml(xml).unwrap(),
        vec!["C&C++".to_string(), "<b>".to_string()]
    );
}

#[test]
fn no_categories_element_is_an_error() {
    let xml = r#"<?xml version="1.0" encoding="utf-8"?><service xmlns="http://www.w3.org/2007/app"/>"#;
    assert!(from_category_document_xml(xml).is_err());
}

#[test]
fn self_closing_categories_element_is_an_error() {
    let xml = r#"<app:categories xmlns:app="http://www.w3.org/2007/app" href="http://example.com/cats"/>"#;
    assert!(from_category_document_xml(xml).is_err());
}

#[test]
fn empty_categories_element_gives_empty_list() {
    let xml = r#"<app:categories xmlns:app="http://www.w3.org/2007/app"></app:categories>"#;
    assert_eq!(from_category_document_xml(xml).unwrap(), Vec::<String>::new());
}

#[test]
fn two_categories_elements_are_an_error() {
    let xml = r#"<root xmlns:app="http://www.w3.org/2007/app">
  <app:categories></app:categories><app:categories></app:categories>
</root>"#;
    assert!(from_category_document_xml(xml).is_err());
}

#[test]
fn unterminated_categories_element_is_an_error() {
    let xml = r#"<app:categories xmlns:app="http://www.w3.org/2007/app" xmlns:atom="http://www.w3.org/2005/Atom"><atom:category term="A"/>"#;
    assert!(from_category_document_xml(xml).is_err());
}

#[test]
fn categories_print_as_json_array() {
    let categories = CategoryDocumentResponse::from(CATEGORY_DOCUMENT_XML.to_string())
        .into_categories()
        .unwrap();
    assert_eq!(
        format!("{}\n", serde_json::to_string(&categories).unwrap()),
        "[\"Perl\",\"Scala\"]\n"
    );
}

#[test]
fn rendered_entry_parses_back() {
    let params = EntryParams::new(
        "AUTHOR <a&b>".to_string(),
        "TITLE \"quoted\" 'x' = `y`".to_string(),
        "line 1\nline 2 & more".to_string(),
        "2020-02-07T09:00:00+09:00".to_string(),
        vec!["Rust".to_string(), "C&C".to_string(), "Rust".to_string()],
        true,
    );
    let echoed = params.clone().into_xml().replacen(
        "<title>",
        r#"<link rel="edit" href="https://blog.hatena.ne.jp/h/b/atom/entry/42"/>
  <title>"#,
        1,
    );
    let entry = MemberResponse::from(echoed).into_entry().unwrap();
    assert_eq!(entry.title, "TITLE \"quoted\" 'x' = `y`");
    assert_eq!(entry.author_name, "AUTHOR <a&b>");
    assert_eq!(entry.content, "line 1\nline 2 & more");
    assert_eq!(entry.updated, "2020-02-07T09:00:00+09:00");
    assert_eq!(entry.categories, params.categories());
    assert!(entry.draft);
    assert_eq!(entry.id.as_str(), "42");
}

#[test]
fn rendered_entry_without_draft_parses_back() {
    let params = EntryParams::new(
        "A".to_string(),
        "T".to_string(),
        "C".to_string(),
        "2020-02-07T00:00:00Z".to_string(),
        vec![],
        false,
    );
    let echoed = params.into_xml().replacen(
        "<title>",
        r#"<link rel="edit" href="https://blog.hatena.ne.jp/h/b/atom/entry/7"/><title>"#,
        1,
    );
    let entry = MemberResponse::from(echoed).into_entry().unwrap();
    assert!(!entry.draft);
    assert!(entry.categories.is_empty());
    assert_eq!(entry.updated, "2020-02-07T00:00:00+00:00");
}
