use vstd::prelude::*;
use argon2::{PasswordHasher, PasswordVerifier};

verus! {

/// Failures of the hashing subsystem; the caller answers them with a server error.
#[derive(PartialEq, Eq, Structural, Clone, Copy, Debug)]
pub enum AppError {
    /// The hashing parameters were refused, or hashing itself failed.
    Config,
}

/// Whether the regular expression `pattern` matches somewhere in `text`.
pub uninterp spec fn regex_match(pattern: Seq<char>, text: Seq<char>) -> bool;

/// Whether `hash` parses as a PHC string.
pub uninterp spec fn is_phc(hash: Seq<char>) -> bool;

/// The head of a PHC string of Argon2id, version 19, 64 MiB, three passes, one lane.
pub open spec fn phc_prefix() -> Seq<char> {
    "$argon2id$v=19$m=65536,t=3,p=1$"@
}

/// Whether `hash` is a PHC string that verifies `password`.
pub uninterp spec fn password_matches(password: Seq<char>, hash: Seq<char>) -> bool;

/// The pattern of a campus address.
pub open spec fn email_pattern() -> Seq<char> {
    "^.+@purdue\\.edu$"@
}

/// The pattern of a one-time code.
pub open spec fn code_pattern() -> Seq<char> {
    "^\\d+$"@
}

pub open spec fn campus_suffix() -> Seq<char> {
    "@purdue.edu"@
}

/// What the campus pattern accepts: at least one character other than a
/// line break, then `@purdue.edu`, then the end.
pub open spec fn is_campus_address(t: Seq<char>) -> bool {
    let n = campus_suffix().len();
    &&& t.len() > n
    &&& t.subrange(t.len() - n, t.len() as int) == campus_suffix()
    &&& forall|i: int| 0 <= i < t.len() - n ==> t[i] != '\n'
}

pub open spec fn is_ascii_digits(t: Seq<char>) -> bool {
    forall|i: int| 0 <= i < t.len() ==> '0' <= #[trigger] t[i] <= '9'
}

/// The length of `s` in UTF-8 bytes.
pub open spec fn byte_len(s: Seq<char>) -> usize {
    vstd::utf8::encode_utf8(s).len() as usize
}

/// Relies on regex's `Regex::new` and `Regex::is_match`: `None` where the
/// pattern does not compile. `.` is any character but a line break, `\d`
/// holds every ASCII digit, `^` and `$` anchor at the ends of the text; both
/// patterns of this module compile.
#[verifier::external_body]
fn regex_is_match(pattern: &str, text: &str) -> (r: Option<bool>)
    ensures
        r matches Some(b) ==> b == regex_match(pattern@, text@),
        pattern@ == email_pattern() ==> r == Some(is_campus_address(text@)),
        pattern@ == code_pattern() ==> r is Some,
        pattern@ == code_pattern() && text@.len() > 0 && is_ascii_digits(text@) ==> r == Some(true),
{
    regex::Regex::new(pattern).ok().map(|re| re.is_match(text))
}

/// Relies on argon2's `Argon2::hash_password` (Argon2id, version 0x13, the
/// given costs, a salt from the operating system): `None` where the costs are
/// refused or hashing fails. A hash it returns verifies its password, since
/// `verify_password` recomputes it from the salt and costs that it carries.
#[verifier::external_body]
fn argon2_hash(password: &str, m_cost: u32, t_cost: u32, p_cost: u32) -> (r: Option<String>)
    ensures
        r matches Some(h) ==> password_matches(password@, h@) && is_phc(h@),
        m_cost == 65536 && t_cost == 3 && p_cost == 1 ==> (r matches Some(h) ==> phc_prefix().is_prefix_of(h@)),
{
    let params = argon2::Params::new(m_cost, t_cost, p_cost, None).ok()?;
    let hasher = argon2::Argon2::new(argon2::Algorithm::Argon2id, argon2::Version::V0x13, params);
    let salt = argon2::password_hash::SaltString::generate(&mut rand::rngs::OsRng);
    hasher.hash_password(password.as_bytes(), &salt).ok().map(|h| h.to_string())
}

/// Relies on argon2's `PasswordHash::new` and `Argon2::verify_password`:
/// `None` exactly where `hash` is no PHC string (the empty string is none),
/// else whether it verifies `password`. A hash that `argon2_hash` returns is
/// one, and its text begins with the algorithm, version and costs.
#[verifier::external_body]
fn argon2_verify(password: &str, hash: &str) -> (r: Option<bool>)
    ensures
        r is Some == is_phc(hash@),
        r matches Some(b) ==> b == password_matches(password@, hash@),
        password_matches(password@, hash@) ==> r == Some(true),
        hash@.len() == 0 ==> r is None,
{
    let parsed = argon2::PasswordHash::new(hash).ok()?;
    Some(argon2::Argon2::default().verify_password(password.as_bytes(), &parsed).is_ok())
}

/// The first complaint about an email address, if any.
pub open spec fn email_error(email: Seq<char>) -> Option<Seq<char>> {
    if byte_len(email) > 100 {
        Some("Too many chars"@)
    } else if !is_campus_address(email) {
        Some("Email must be a Purdue address"@)
    } else {
        None
    }
}

/// The first complaint about a password, if any.
pub open spec fn password_error(password: Seq<char>) -> Option<Seq<char>> {
    if byte_len(password) > 100 {
        Some("Too many chars"@)
    } else if password.len() == 0 {
        Some("Password cannot be empty"@)
    } else {
        None
    }
}

/// The first complaint about a sign-up or login request, if any.
pub open spec fn account_error(email: Seq<char>, password: Seq<char>) -> Option<Seq<char>> {
    if email_error(email) is Some {
        email_error(email)
    } else {
        password_error(password)
    }
}

pub open spec fn as_check(e: Option<Seq<char>>, r: Result<(), &'static str>) -> bool {
    match e {
        None => r is Ok,
        Some(m) => r matches Err(x) && x@ == m,
    }
}

/// Accepts an address of at most 100 bytes that the campus pattern matches.
pub fn validate_email(email: &str) -> (r: Result<(), &'static str>)
    ensures
        as_check(email_error(email@), r),
{
    if email.len() > 100 {
        return Err("Too many chars");
    }
    match regex_is_match("^.+@purdue\\.edu$", email) {
        Some(true) => Ok(()),
        _ => Err("Email must be a Purdue address"),
    }
}

/// Accepts a non-empty password of at most 100 bytes.
pub fn validate_password(password: &str) -> (r: Result<(), &'static str>)
    ensures
        as_check(password_error(password@), r),
{
    if password.len() > 100 {
        return Err("Too many chars");
    }
    if password.is_empty() {
        return Err("Password cannot be empty");
    }
    Ok(())
}

/// Checks the address, then the password.
pub fn validate_account(email: &str, password: &str) -> (r: Result<(), &'static str>)
    ensures
        as_check(account_error(email@, password@), r),
{
    validate_email(email)?;
    validate_password(password)?;
    Ok(())
}

/// Whether `code` has the shape of a one-time code: six bytes that the
/// code pattern matches.
pub open spec fn code_shape_ok(code: Seq<char>) -> bool {
    byte_len(code) == 6 && regex_match(code_pattern(), code)
}

/// Checks the shape of a submitted one-time code.
pub fn validate_code(code: &str) -> (r: bool)
    ensures
        r == code_shape_ok(code@),
        byte_len(code@) == 6 && code@.len() > 0 && is_ascii_digits(code@) ==> r,
{
    if code.len() != 6 {
        return false;
    }
    match regex_is_match("^\\d+$", code) {
        Some(b) => b,
        None => false,
    }
}

/// What `hash_password` promises: a hash it returns verifies the password.
pub open spec fn hash_post(password: Seq<char>, r: Result<String, AppError>) -> bool {
    r matches Ok(h) ==> password_matches(password, h@) && is_phc(h@) && phc_prefix().is_prefix_of(h@)
}

/// What `verify_password` promises of `password` and `hash`.
pub open spec fn verify_password_post(password: Seq<char>, hash: Seq<char>, r: Result<bool, AppError>) -> bool {
    &&& r is Ok == is_phc(hash)
    &&& r matches Ok(b) ==> b == password_matches(password, hash)
    &&& password_matches(password, hash) ==> r == Ok::<bool, AppError>(true)
    &&& hash.len() == 0 ==> r is Err
}

/// Hashes a password with Argon2id (64 MiB, three passes, one lane) and a
/// fresh salt. A hash it returns verifies the password.
pub fn hash_password(password: &str) -> (r: Result<String, AppError>)
    ensures
        hash_post(password@, r),
{
    match argon2_hash(password, 65536, 3, 1) {
        Some(h) => Ok(h),
        None => Err(AppError::Config),
    }
}

/// Whether `password_hash` verifies `password`; an error where it is no
/// PHC string.
pub fn verify_password(password: &str, password_hash: &str) -> (r: Result<bool, AppError>)
    ensures
        verify_password_post(password@, password_hash@, r),
{
    match argon2_verify(password, password_hash) {
        Some(b) => Ok(b),
        None => Err(AppError::Config),
    }
}

/// Whether a request carries the API token `expected`: in its `Authorization`
/// header, else in its `api_token` cookie, a missing cookie counting as empty.
pub open spec fn api_token_ok(authorization: Option<String>, cookie_token: Option<String>, expected: Seq<char>) -> bool {
    (authorization matches Some(a) && a@ == expected) || match cookie_token {
        Some(c) => c@ == expected,
        None => expected.len() == 0,
    }
}

/// Checks the API token of a request, given its `Authorization` header and
/// its `api_token` cookie.
pub fn validate_api_token(authorization: Option<String>, cookie_token: Option<String>, real_api_token: &str) -> (r: bool)
    ensures
        r == api_token_ok(authorization, cookie_token, real_api_token@),
{
    let expected = real_api_token.to_owned();
    let header_ok = match &authorization {
        Some(a) => *a == expected,
        None => false,
    };
    if header_ok {
        return true;
    }
    match cookie_token {
        Some(c) => c == expected,
        None => real_api_token.is_empty(),
    }
}

} // verus!
