use vstd::prelude::*;
use crate::codes::now_millis;
use sha2::Digest;

verus! {

/// A day of the week.
#[derive(PartialEq, Eq, Structural, Clone, Copy, Debug)]
pub enum Weekday {
    Mon,
    Tue,
    Wed,
    Thu,
    Fri,
    Sat,
    Sun,
}

impl Weekday {
    pub open spec fn spec_number_from_monday(self) -> int {
        match self {
            Weekday::Mon => 1,
            Weekday::Tue => 2,
            Weekday::Wed => 3,
            Weekday::Thu => 4,
            Weekday::Fri => 5,
            Weekday::Sat => 6,
            Weekday::Sun => 7,
        }
    }

    /// Monday is 1, Sunday is 7.
    pub fn number_from_monday(&self) -> (r: i64)
        ensures
            r == self.spec_number_from_monday(),
    {
        match self {
            Weekday::Mon => 1,
            Weekday::Tue => 2,
            Weekday::Wed => 3,
            Weekday::Thu => 4,
            Weekday::Fri => 5,
            Weekday::Sat => 6,
            Weekday::Sun => 7,
        }
    }
}

pub const SECONDS_PER_DAY: i64 = 86400;

/// A whole number of weeks, added to an instant so that it can be divided
/// as a non-negative number.
pub const WEEKS_SHIFT: i64 = 4233600000000000000;

/// The day (counted from the epoch) of instant `t`, in seconds.
pub open spec fn epoch_day(t: int) -> int {
    t / 86400
}

/// The weekday of epoch day `d`, Monday being 1: the epoch was a Thursday.
pub open spec fn weekday_number(d: int) -> int {
    (d + 3) % 7 + 1
}

/// The number of days from weekday `today` to the next `target`, 1 to 7.
pub open spec fn days_ahead(today: int, target: int) -> int {
    let d = (target - today + 7) % 7;
    if d == 0 { 7 } else { d }
}

/// The last second (23:59:59 UTC) of the next `target` day after instant `now`.
pub open spec fn target_timestamp(now: int, target: int) -> int {
    let d = epoch_day(now);
    (d + days_ahead(weekday_number(d), target)) * 86400 + 86399
}

/// The last second (23:59:59 UTC) of the next `target_day` strictly after
/// the day of `now_secs`, a week ahead if today is that day.
pub fn target_timestamp_at(target_day: Weekday, now_secs: i64) -> (r: i64)
    requires
        -4000000000000000000 <= now_secs <= 4000000000000000000,
    ensures
        r == target_timestamp(now_secs as int, target_day.spec_number_from_monday()),
        now_secs < r < now_secs + 8 * 86400,
{
    let shifted = now_secs + WEEKS_SHIFT;
    let day = shifted / SECONDS_PER_DAY;
    let today = (day + 3) % 7 + 1;
    let target = target_day.number_from_monday();
    let mut ahead = (target - today + 7) % 7;
    if ahead == 0 {
        ahead = 7;
    }
    proof {
        let k: int = WEEKS_SHIFT as int / 86400;
        assert(k * 86400 == WEEKS_SHIFT);
        assert(k % 7 == 0);
        let n = now_secs as int;
        assert(day == (n + k * 86400) / 86400);
        assert((n + k * 86400) / 86400 == n / 86400 + k) by (nonlinear_arith)
            requires k * 86400 == 4233600000000000000int, n + k * 86400 >= 0;
        assert((day + 3) % 7 == (n / 86400 + 3) % 7) by (nonlinear_arith)
            requires day == n / 86400 + k, k % 7 == 0;
        assert(0 <= n - (n / 86400) * 86400 < 86400) by (nonlinear_arith);
    }
    (day - WEEKS_SHIFT / SECONDS_PER_DAY + ahead) * SECONDS_PER_DAY + 86399
}

/// The last second (23:59:59 UTC) of the next `target_day`, seen from now.
pub fn get_target_timestamp(target_day: Weekday) -> (r: Option<i64>)
    ensures
        r matches Some(t) ==> exists|now: int| t == target_timestamp(now, target_day.spec_number_from_monday()),
{
    let now_secs = now_millis() / 1000;
    if now_secs < -4000000000000000000 || now_secs > 4000000000000000000 {
        return None;
    }
    Some(target_timestamp_at(target_day, now_secs))
}

/// The seconds from `now_secs` to the last second of the next `target_day`.
pub fn seconds_until_at(target_day: Weekday, now_secs: i64) -> (r: i32)
    requires
        -4000000000000000000 <= now_secs <= 4000000000000000000,
    ensures
        r == target_timestamp(now_secs as int, target_day.spec_number_from_monday()) - now_secs,
        0 < r < 8 * 86400,
{
    (target_timestamp_at(target_day, now_secs) - now_secs) as i32
}

/// The seconds from now to the last second of the next `target_day`.
pub fn get_seconds_until(target_day: Weekday) -> (r: Option<i32>)
    ensures
        r matches Some(s) ==> 0 < s < 8 * 86400,
{
    let now_secs = now_millis() / 1000;
    if now_secs < -4000000000000000000 || now_secs > 4000000000000000000 {
        return None;
    }
    Some(seconds_until_at(target_day, now_secs))
}

/// The lowercase hex SHA-256 digest of the UTF-8 bytes of `text`.
pub uninterp spec fn sha256_hex(text: Seq<char>) -> Seq<char>;

/// Relies on sha2's `Sha256::digest` and the lowercase hex form of its
/// 32-byte output: 64 characters.
#[verifier::external_body]
fn sha256_hex_of(text: &str) -> (r: String)
    ensures
        r@ == sha256_hex(text@),
        r@.len() == 64,
{
    format!("{:x}", sha2::Sha256::digest(text.as_bytes()))
}

/// The text of `s` before its first comma; all of it where it has none.
pub open spec fn first_field(s: Seq<char>) -> Seq<char>
    decreases s.len(),
{
    if s.len() == 0 {
        s
    } else if s[0] == ',' {
        Seq::empty()
    } else {
        seq![s[0]] + first_field(s.drop_first())
    }
}

/// `s` without leading and trailing white space.
pub uninterp spec fn trimmed(s: Seq<char>) -> Seq<char>;

/// Relies on std's `str::split_once(',')`: the text before the first comma,
/// `None` where there is none.
#[verifier::external_body]
fn before_first_comma(s: &str) -> (r: Option<String>)
    ensures
        r matches Some(a) ==> a@ == first_field(s@),
        r is None ==> first_field(s@) == s@,
{
    s.split_once(',').map(|(a, _)| a.to_owned())
}

/// Relies on std's `str::trim`: `s` without leading and trailing white space.
#[verifier::external_body]
fn trim_white_space(s: &str) -> (r: String)
    ensures
        r@ == trimmed(s@),
{
    s.trim().to_owned()
}

/// The first entry of an `x-forwarded-for` header, trimmed.
pub fn first_forwarded(forwarded_for: &str) -> (r: String)
    ensures
        r@ == trimmed(first_field(forwarded_for@)),
{
    match before_first_comma(forwarded_for) {
        Some(a) => trim_white_space(a.as_str()),
        None => trim_white_space(forwarded_for),
    }
}

/// The address a request comes from: the proxy's `cf-connecting-ip`, else
/// the first entry of `x-forwarded-for`, else the peer's own address.
pub open spec fn client_ip(cf_connecting_ip: Option<String>, forwarded_for: Option<String>, direct_ip: Seq<char>) -> Seq<char> {
    match cf_connecting_ip {
        Some(ip) => ip@,
        None => match forwarded_for {
            Some(f) => trimmed(first_field(f@)),
            None => direct_ip,
        },
    }
}

/// The hex SHA-256 digest of the client's address, a key that does not
/// hold the address itself; `forwarded_for` is the whole header.
pub fn get_hashed_ip(cf_connecting_ip: Option<String>, forwarded_for: Option<String>, direct_ip: &str) -> (r: String)
    ensures
        r@ == sha256_hex(client_ip(cf_connecting_ip, forwarded_for, direct_ip@)),
        r@.len() == 64,
{
    let ghost chosen = client_ip(cf_connecting_ip, forwarded_for, direct_ip@);
    let ip = match cf_connecting_ip {
        Some(ip) => ip,
        None => match forwarded_for {
            Some(f) => first_forwarded(f.as_str()),
            None => direct_ip.to_owned(),
        },
    };
    proof {
        assert(ip@ == chosen);
    }
    sha256_hex_of(ip.as_str())
}

} // verus!
