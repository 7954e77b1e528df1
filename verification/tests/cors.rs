use http_server_rs::config::cors::{AllowedOrigins, CorsConfig, HttpMethod};

/// Builds CORS settings from their JSON text with the library's readings of
/// each field: the methods by their upper-case names, an origin text through
/// `AllowedOrigins::from_text`, a list of origins as a list.
fn cors_config_from_json(json: &str) -> CorsConfig {
    let v: serde_json::Value = serde_json::from_str(json).unwrap();
    let allowed_origin = match &v["allowed_origin"] {
        serde_json::Value::String(s) => AllowedOrigins::from_text(s.clone()),
        serde_json::Value::Array(items) => AllowedOrigins::List(
            items.iter().map(|i| i.as_str().unwrap().to_string()).collect(),
        ),
        other => panic!("unexpected origin setting {other}"),
    };
    let allowed_methods = v["allowed_methods"]
        .as_array()
        .unwrap()
        .iter()
        .map(|m| HttpMethod::parse(m.as_str().unwrap()).unwrap())
        .collect();
    CorsConfig { allowed_origin, allowed_methods, max_age: v["max_age"].as_u64().unwrap() }
}

#[test]
fn test_http_method_deserialize() {
    let json = r#""GET""#;
    let v: serde_json::Value = serde_json::from_str(json).unwrap();
    let method = HttpMethod::parse(v.as_str().unwrap()).unwrap();
    assert_eq!(method, HttpMethod::Get);
}

#[test]
fn test_cors_config_single_origin() {
    let json = r#"
    {
        "allowed_origin": "http://localhost:3000",
        "allowed_methods": ["GET", "POST"],
        "max_age": 3600
    }
    "#;

    let config = cors_config_from_json(json);
    assert_eq!(
        config.allowed_origin,
        AllowedOrigins::Single("http://localhost:3000".to_string())
    );
    assert!(config.allowed_origin.is_allowed("http://localhost:3000"));
}

#[test]
fn test_cors_config_list_origin() {
    let json = r#"
    {
        "allowed_origin": ["http://localhost:3000", "https://app.com"],
        "allowed_methods": ["GET"],
        "max_age": 60
    }
    "#;

    let config = cors_config_from_json(json);
    assert!(config.allowed_origin.is_allowed("https://app.com"));
    assert!(!config.allowed_origin.is_allowed("https://evil.com"));
}

#[test]
fn test_cors_config_any_origin() {
    let json = r#"
    {
        "allowed_origin": "any",
        "allowed_methods": ["OPTIONS"],
        "max_age": 0
    }
    "#;

    let config = cors_config_from_json(json);
    assert_eq!(config.allowed_origin, AllowedOrigins::Any);
    assert!(config.allowed_origin.is_allowed("cokolwiek"));
}

#[test]
fn star_means_any_origin() {
    assert_eq!(AllowedOrigins::from_text("*".to_string()), AllowedOrigins::Any);
    assert_eq!(
        AllowedOrigins::from_text("anything".to_string()),
        AllowedOrigins::Single("anything".to_string())
    );
}

#[test]
fn single_origin_is_exact() {
    let o = AllowedOrigins::Single("http://a".to_string());
    assert!(o.is_allowed("http://a"));
    assert!(!o.is_allowed("http://a/"));
    assert!(!o.is_allowed(""));
}

#[test]
fn origins_as_list() {
    assert_eq!(AllowedOrigins::Any.to_vec(), vec!["*".to_string()]);
    assert_eq!(AllowedOrigins::Single("x".to_string()).to_vec(), vec!["x".to_string()]);
    let l = vec!["a".to_string(), "b".to_string()];
    assert_eq!(AllowedOrigins::List(l.clone()).to_vec(), l);
    assert!(!AllowedOrigins::List(vec![]).is_allowed("a"));
}

#[test]
fn method_names() {
    for (name, m) in [
        ("GET", HttpMethod::Get),
        ("POST", HttpMethod::Post),
        ("PUT", HttpMethod::Put),
        ("DELETE", HttpMethod::Delete),
        ("PATCH", HttpMethod::Patch),
        ("OPTIONS", HttpMethod::Options),
    ] {
        assert_eq!(HttpMethod::parse(name), Some(m));
        assert_eq!(m.as_str(), name);
    }
    assert_eq!(HttpMethod::parse("get"), None);
    assert_eq!(HttpMethod::parse("HEAD"), None);
}

#[test]
fn any_origin_flag() {
    assert!(AllowedOrigins::Any.allows_any());
    assert!(!AllowedOrigins::Single("*x".to_string()).allows_any());
    assert!(!AllowedOrigins::List(vec!["*".to_string()]).allows_any());
}
