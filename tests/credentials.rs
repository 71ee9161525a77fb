use backend::credentials::{
    hash_password, validate_account, validate_code, validate_email, validate_password, verify_password, AppError,
};

#[test]
fn campus_addresses_are_accepted() {
    assert_eq!(validate_email("a@purdue.edu"), Ok(()));
    assert_eq!(validate_email("first.last+x@purdue.edu"), Ok(()));
}

#[test]
fn other_addresses_are_refused() {
    assert_eq!(validate_email("a@gmail.com"), Err("Email must be a Purdue address"));
    assert_eq!(validate_email("@purdue.edu"), Err("Email must be a Purdue address"));
    assert_eq!(validate_email("a\n@purdue.edu"), Err("Email must be a Purdue address"));
    assert_eq!(validate_email("a@purdue.edu.evil"), Err("Email must be a Purdue address"));
    assert_eq!(validate_email("a@purdueXedu"), Err("Email must be a Purdue address"));
    assert_eq!(validate_email(""), Err("Email must be a Purdue address"));
}

#[test]
fn long_addresses_are_refused_first() {
    let long = format!("{}@purdue.edu", "a".repeat(89));
    assert_eq!(long.len(), 100);
    assert_eq!(validate_email(&long), Ok(()));
    let too_long = format!("{}@purdue.edu", "a".repeat(90));
    assert_eq!(validate_email(&too_long), Err("Too many chars"));
}

#[test]
fn passwords_must_be_short_and_present() {
    assert_eq!(validate_password("pw1"), Ok(()));
    assert_eq!(validate_password(""), Err("Password cannot be empty"));
    assert_eq!(validate_password(&"x".repeat(100)), Ok(()));
    assert_eq!(validate_password(&"x".repeat(101)), Err("Too many chars"));
}

#[test]
fn accounts_check_the_address_first() {
    assert_eq!(validate_account("a@purdue.edu", "pw1"), Ok(()));
    assert_eq!(validate_account("a@gmail.com", ""), Err("Email must be a Purdue address"));
    assert_eq!(validate_account("a@purdue.edu", ""), Err("Password cannot be empty"));
}

#[test]
fn codes_are_six_digits() {
    assert!(validate_code("123456"));
    assert!(validate_code("000000"));
    assert!(!validate_code("12345"));
    assert!(!validate_code("1234567"));
    assert!(!validate_code("12a456"));
    assert!(!validate_code(""));
}

#[test]
fn hash_round_trip() {
    let hash = hash_password("correct horse").unwrap();
    assert!(hash.starts_with("$argon2id$v=19$m=65536,t=3,p=1$"));
    assert_eq!(verify_password("correct horse", &hash), Ok(true));
    assert_eq!(verify_password("wrong horse", &hash), Ok(false));
}

#[test]
fn malformed_hashes_are_an_error() {
    assert_eq!(verify_password("pw", "not a hash"), Err(AppError::Config));
}

#[test]
fn api_tokens_come_by_header_or_cookie() {
    let s = |v: &str| Some(v.to_string());
    assert!(backend::credentials::validate_api_token(s("tok"), None, "tok"));
    assert!(backend::credentials::validate_api_token(s("bad"), s("tok"), "tok"));
    assert!(!backend::credentials::validate_api_token(s("bad"), s("worse"), "tok"));
    assert!(!backend::credentials::validate_api_token(None, None, "tok"));
    assert!(backend::credentials::validate_api_token(None, None, ""));
}
