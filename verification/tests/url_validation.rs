use button_attach_bot::keyboard::validate_url;

#[test]
fn test_https_urls_are_valid() {
    assert!(validate_url("https://example.com"));
    assert!(validate_url("https://example.com/path?query=1"));
    assert!(validate_url("HTTPS://EXAMPLE.COM"));
}

#[test]
fn test_http_urls_are_valid() {
    assert!(validate_url("http://example.com"));
    assert!(validate_url("http://localhost:8080"));
    assert!(validate_url("HTTP://EXAMPLE.COM"));
}

#[test]
fn test_telegram_urls_are_valid() {
    assert!(validate_url("tg://resolve?domain=username"));
    assert!(validate_url("tg://join?invite=hash"));
    assert!(validate_url("TG://RESOLVE"));
}

#[test]
fn test_invalid_urls() {
    assert!(!validate_url("ftp://example.com"));
    assert!(!validate_url("javascript:alert(1)"));
    assert!(!validate_url("mailto:test@example.com"));
    assert!(!validate_url("example.com"));
    assert!(!validate_url("not a url"));
    assert!(!validate_url(""));
}

#[test]
fn test_url_prefix_case_mixed_and_short() {
    assert!(validate_url("hTtPs://Example.com"));
    assert!(validate_url("Tg://x"));
    assert!(!validate_url("http:/"));
    assert!(!validate_url("tg:"));
    assert!(!validate_url(" https://example.com"));
    assert!(!validate_url("httpx://example.com"));
}
