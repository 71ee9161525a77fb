use backend::cookies::{generate_cookie, get_cookie, set_cookie_headers, SetCookie};

fn view(c: &[SetCookie]) -> Vec<(String, String, i64)> {
    c.iter().map(|c| (c.name.clone(), c.value.clone(), c.max_age)).collect()
}

#[test]
fn a_flow_cookie_replaces_its_cleared_entry() {
    let jar = generate_cookie("auth_id", "abc", 600);
    assert_eq!(
        view(&jar),
        vec![
            ("session_id".to_string(), String::new(), 0),
            ("forgot_id".to_string(), String::new(), 0),
            ("update".to_string(), String::new(), 0),
            ("auth_id".to_string(), "abc".to_string(), 600),
        ]
    );
}

#[test]
fn another_cookie_comes_after_the_cleared_ones() {
    let jar = generate_cookie("other", "v", 5);
    assert_eq!(jar.len(), 5);
    assert_eq!(jar[4].name, "other");
    assert_eq!(jar[4].value, "v");
    assert_eq!(jar[4].max_age, 5);
}

#[test]
fn request_cookies_are_found_by_name() {
    let cookies = vec![("a".to_string(), "1".to_string()), ("b".to_string(), "2".to_string()), ("a".to_string(), "3".to_string())];
    assert_eq!(get_cookie(&cookies, "a"), Some("1".to_string()));
    assert_eq!(get_cookie(&cookies, "b"), Some("2".to_string()));
    assert_eq!(get_cookie(&cookies, "c"), None);
}

#[test]
fn headers_carry_the_attributes() {
    let headers = set_cookie_headers(&generate_cookie("session_id", "xyz", 3600));
    assert_eq!(headers.len(), 4);
    let session = &headers[0];
    assert!(session.starts_with("session_id=xyz"));
    assert!(session.contains("HttpOnly"));
    assert!(session.contains("Secure"));
    assert!(session.contains("SameSite=Strict"));
    assert!(session.contains("Path=/"));
    assert!(session.contains("Max-Age=3600"));
    assert!(headers[1].starts_with("forgot_id="));
    assert!(headers[1].contains("Max-Age=0"));
}

#[test]
fn header_text_is_exact() {
    let headers = set_cookie_headers(&generate_cookie("auth_id", "abc", 600));
    assert_eq!(headers[0], "session_id=; HttpOnly; SameSite=Strict; Secure; Path=/; Max-Age=0");
    assert_eq!(headers[3], "auth_id=abc; HttpOnly; SameSite=Strict; Secure; Path=/; Max-Age=600");
}
