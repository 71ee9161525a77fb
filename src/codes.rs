use vstd::prelude::*;

verus! {

/// Relies on rand's `thread_rng().gen_range(0..n)`: a number below `n`
/// (the range must not be empty).
#[verifier::external_body]
fn random_below(n: u32) -> (r: u32)
    requires
        n > 0,
    ensures
        r < n,
{
    rand::Rng::gen_range(&mut rand::thread_rng(), 0..n)
}

/// Relies on uuid's `Uuid::new_v4` and its hyphenated text form, which is
/// 36 characters long.
#[verifier::external_body]
fn random_uuid() -> (r: String)
    ensures
        r@.len() == 36,
{
    uuid::Uuid::new_v4().to_string()
}

/// Relies on chrono's `Utc::now().timestamp_millis()`: the time now, in
/// milliseconds since the epoch.
#[verifier::external_body]
fn clock_millis() -> (r: i64) {
    chrono::Utc::now().timestamp_millis()
}

/// The decimal digit `d`.
pub open spec fn digit_char(d: int) -> char {
    (('0' as int) + d) as char
}

/// `n` written with exactly six decimal digits, leading zeros included.
pub open spec fn six_digits(n: int) -> Seq<char> {
    seq![
        digit_char(n / 100000 % 10),
        digit_char(n / 10000 % 10),
        digit_char(n / 1000 % 10),
        digit_char(n / 100 % 10),
        digit_char(n / 10 % 10),
        digit_char(n % 10),
    ]
}

fn digit_str(d: u32) -> (r: &'static str)
    requires
        d < 10,
    ensures
        r@ == seq![digit_char(d as int)],
{
    proof {
        reveal_strlit("0");
        reveal_strlit("1");
        reveal_strlit("2");
        reveal_strlit("3");
        reveal_strlit("4");
        reveal_strlit("5");
        reveal_strlit("6");
        reveal_strlit("7");
        reveal_strlit("8");
        reveal_strlit("9");
    }
    match d {
        0 => "0",
        1 => "1",
        2 => "2",
        3 => "3",
        4 => "4",
        5 => "5",
        6 => "6",
        7 => "7",
        8 => "8",
        _ => "9",
    }
}

/// Writes `n` as a six-digit code.
pub fn format_code(n: u32) -> (r: String)
    requires
        n < 1000000,
    ensures
        r@ == six_digits(n as int),
{
    let mut r = String::new();
    r.append(digit_str(n / 100000 % 10));
    r.append(digit_str(n / 10000 % 10));
    r.append(digit_str(n / 1000 % 10));
    r.append(digit_str(n / 100 % 10));
    r.append(digit_str(n / 10 % 10));
    r.append(digit_str(n % 10));
    assert(r@ =~= six_digits(n as int));
    r
}

/// A fresh one-time code: six random decimal digits.
pub fn generate_code() -> (r: String)
    ensures
        exists|n: int| 0 <= n < 1000000 && r@ == six_digits(n),
{
    let n = random_below(1000000);
    format_code(n)
}

/// A fresh opaque identifier: a random version-4 UUID in hyphenated form.
pub fn new_identifier() -> (r: String)
    ensures
        r@.len() == 36,
{
    random_uuid()
}

/// The time now, in milliseconds since the epoch.
pub fn now_millis() -> i64 {
    clock_millis()
}

} // verus!
