use hatena_blog::{check_status, Client, ClientError, Config, EntryId, EntryParams, Method};

fn config() -> Config {
    Config::new("HATENA_ID", Some("BASE_URL"), "BLOG_ID", "API_KEY")
}

fn params() -> EntryParams {
    EntryParams::new(
        "AUTHOR_NAME".to_string(),
        "TITLE".to_string(),
        "CONTENT".to_string(),
        "2020-02-07T00:00:00Z".to_string(),
        vec!["CATEGORY".to_string()],
        true,
    )
}

#[test]
fn new() {
    let config = config();
    assert_eq!(Client::new(&config).config(), &config)
}

#[test]
fn collection_uri() {
    let client = Client::new(&config());
    assert_eq!(
        client.collection_uri(None),
        "BASE_URL/HATENA_ID/BLOG_ID/atom/entry"
    )
}

#[test]
fn collection_uri_with_page() {
    let client = Client::new(&config());
    assert_eq!(
        client.collection_uri(Some("abc")),
        "BASE_URL/HATENA_ID/BLOG_ID/atom/entry?page=abc"
    )
}

#[test]
fn member_uri() {
    let client = Client::new(&config());
    let entry_id = "ENTRY_ID".parse::<EntryId>().unwrap();
    assert_eq!(
        client.member_uri(&entry_id),
        "BASE_URL/HATENA_ID/BLOG_ID/atom/entry/ENTRY_ID"
    );
}

#[test]
fn category_document_uri() {
    let client = Client::new(&config());
    assert_eq!(
        client.category_document_uri(),
        "BASE_URL/HATENA_ID/BLOG_ID/atom/category"
    );
}

#[test]
fn create_entry() {
    let client = Client::new(&config());
    let request = client.create_entry_request(params());
    assert_eq!(request.method, Method::Post);
    assert_eq!(request.url, "BASE_URL/HATENA_ID/BLOG_ID/atom/entry");
    assert_eq!(request.body, Some(params().into_xml()));
}

#[test]
fn delete_entry() {
    let client = Client::new(&config());
    let entry_id = EntryId::from_str("1").unwrap();
    let request = client.delete_entry_request(&entry_id);
    assert_eq!(request.method, Method::Delete);
    assert_eq!(request.url, "BASE_URL/HATENA_ID/BLOG_ID/atom/entry/1");
    assert_eq!(request.body, None);
}

#[test]
fn get_entry() {
    let client = Client::new(&config());
    let entry_id = EntryId::from_str("2").unwrap();
    let request = client.get_entry_request(&entry_id);
    assert_eq!(request.method, Method::Get);
    assert_eq!(request.url, "BASE_URL/HATENA_ID/BLOG_ID/atom/entry/2");
    assert_eq!(request.body, None);
}

#[test]
fn client_list_categories() {
    let client = Client::new(&config());
    let request = client.list_categories_request();
    assert_eq!(request.method, Method::Get);
    assert_eq!(request.url, "BASE_URL/HATENA_ID/BLOG_ID/atom/category");
    assert_eq!(request.body, None);
}

#[test]
fn list_entries_in_page() {
    let client = Client::new(&config());
    let first = client.list_entries_in_page_request(None);
    assert_eq!(first.method, Method::Get);
    assert_eq!(first.url, "BASE_URL/HATENA_ID/BLOG_ID/atom/entry");
    let next = client.list_entries_in_page_request(Some("1600000000"));
    assert_eq!(next.url, "BASE_URL/HATENA_ID/BLOG_ID/atom/entry?page=1600000000");
    assert_eq!(next.body, None);
}

#[test]
fn update_entry() {
    let client = Client::new(&config());
    let entry_id = EntryId::from_str("3").unwrap();
    let request = client.update_entry_request(&entry_id, params());
    assert_eq!(request.method, Method::Put);
    assert_eq!(request.url, "BASE_URL/HATENA_ID/BLOG_ID/atom/entry/3");
    assert_eq!(request.body, Some(params().into_xml()));
}

#[test]
fn status_codes_map_to_errors() {
    assert!(matches!(check_status(400), Err(ClientError::BadRequest)));
    assert!(matches!(check_status(401), Err(ClientError::Unauthorized)));
    assert!(matches!(check_status(404), Err(ClientError::NotFound)));
    assert!(matches!(check_status(405), Err(ClientError::MethodNotAllowed)));
    assert!(matches!(check_status(500), Err(ClientError::InternalServerError)));
    assert!(matches!(check_status(418), Err(ClientError::UnknownStatusCode)));
    assert!(matches!(check_status(199), Err(ClientError::UnknownStatusCode)));
    assert!(matches!(check_status(300), Err(ClientError::UnknownStatusCode)));
}

#[test]
fn every_2xx_status_is_success() {
    for status in 200..=299u16 {
        assert!(check_status(status).is_ok());
    }
}

#[test]
fn client_error_messages() {
    assert_eq!(ClientError::NotFound.to_string(), "not found");
    assert_eq!(ClientError::UnknownStatusCode.to_string(), "unknown status code");
}
