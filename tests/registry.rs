use cold_start_metrics::registry::{get_function_urls, Registry};

fn pairs(r: &Registry) -> Vec<(String, String)> {
    r.entries.iter().map(|e| (e.name.clone(), e.url.clone())).collect()
}

#[test]
fn no_configured_url_gives_empty_registry() {
    let r = get_function_urls(Registry::new(), None, None, None, None, None);
    assert_eq!(r.len(), 0);
}

#[test]
fn configured_urls_are_registered_by_name() {
    let r = get_function_urls(
        Registry::new(),
        Some("https://lambda.example/".to_string()),
        None,
        Some("https://lwa.example/".to_string()),
        Some("https://hono.example/".to_string()),
        Some("https://sh.example/".to_string()),
    );
    assert_eq!(
        pairs(&r),
        vec![
            ("aws".to_string(), "https://lambda.example/".to_string()),
            ("lwa".to_string(), "https://lwa.example/".to_string()),
            ("hono".to_string(), "https://hono.example/".to_string()),
            ("serverless_http".to_string(), "https://sh.example/".to_string()),
        ]
    );
}

#[test]
fn configured_url_replaces_earlier_entry() {
    let mut start = Registry::new();
    start.insert("vercel".to_string(), "https://old.example/".to_string());
    start.insert("other".to_string(), "https://other.example/".to_string());
    let r = get_function_urls(start, None, Some("https://new.example/".to_string()), None, None, None);
    assert_eq!(
        pairs(&r),
        vec![
            ("vercel".to_string(), "https://new.example/".to_string()),
            ("other".to_string(), "https://other.example/".to_string()),
        ]
    );
}

#[test]
fn insert_keeps_names_unique() {
    let mut r = Registry::new();
    r.insert("a".to_string(), "1".to_string());
    r.insert("b".to_string(), "2".to_string());
    r.insert("a".to_string(), "3".to_string());
    assert_eq!(r.len(), 2);
    assert_eq!(pairs(&r), vec![("a".to_string(), "3".to_string()), ("b".to_string(), "2".to_string())]);
}

#[test]
fn insert_if_set_ignores_missing_url() {
    let mut r = Registry::new();
    r.insert_if_set("aws", None);
    assert_eq!(r.len(), 0);
    r.insert_if_set("aws", Some("u".to_string()));
    assert_eq!(pairs(&r), vec![("aws".to_string(), "u".to_string())]);
}
