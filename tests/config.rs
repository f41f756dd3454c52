use hatena_blog::Config;

#[test]
fn config_new() {
    assert_eq!(
        Config::new("HATENA_ID", Some("BASE_URL"), "BLOG_ID", "API_KEY"),
        Config {
            api_key: "API_KEY".into(),
            base_url: "BASE_URL".into(),
            blog_id: "BLOG_ID".into(),
            hatena_id: "HATENA_ID".into(),
        }
    );
}

#[test]
fn config_config_new() {
    assert_eq!(
        Config::new("HATENA_ID", None, "BLOG_ID", "API_KEY"),
        Config {
            api_key: "API_KEY".into(),
            base_url: "https://blog.hatena.ne.jp".into(),
            blog_id: "BLOG_ID".into(),
            hatena_id: "HATENA_ID".into(),
        }
    );
}
