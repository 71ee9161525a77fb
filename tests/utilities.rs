use backend::utilities::{get_hashed_ip, get_seconds_until, get_target_timestamp, seconds_until_at, target_timestamp_at, Weekday};
use chrono::{DateTime, Datelike, Duration, Utc};

fn chrono_target(now_secs: i64, target: chrono::Weekday) -> i64 {
    let now: DateTime<Utc> = DateTime::from_timestamp(now_secs, 0).unwrap();
    let today = now.weekday().number_from_monday() as i64;
    let target_num = target.number_from_monday() as i64;
    let mut days = (target_num - today + 7) % 7;
    if days == 0 {
        days = 7;
    }
    (now.date_naive() + Duration::days(days)).and_hms_opt(23, 59, 59).unwrap().and_utc().timestamp()
}

#[test]
fn the_epoch_was_a_thursday() {
    assert_eq!(target_timestamp_at(Weekday::Thu, 0), 7 * 86400 + 86399);
    assert_eq!(target_timestamp_at(Weekday::Mon, 0), 4 * 86400 + 86399);
    assert_eq!(target_timestamp_at(Weekday::Fri, 0), 86400 + 86399);
    assert_eq!(target_timestamp_at(Weekday::Thu, -1), 86399);
    assert_eq!(seconds_until_at(Weekday::Thu, -1), 86400);
}

#[test]
fn agrees_with_chrono() {
    let days = [
        (Weekday::Mon, chrono::Weekday::Mon),
        (Weekday::Tue, chrono::Weekday::Tue),
        (Weekday::Wed, chrono::Weekday::Wed),
        (Weekday::Thu, chrono::Weekday::Thu),
        (Weekday::Fri, chrono::Weekday::Fri),
        (Weekday::Sat, chrono::Weekday::Sat),
        (Weekday::Sun, chrono::Weekday::Sun),
    ];
    for now in [0i64, 1_700_000_000, 1_700_086_399, 1_700_086_400, -86_401, 4_102_444_800] {
        for (ours, theirs) in days {
            assert_eq!(target_timestamp_at(ours, now), chrono_target(now, theirs));
        }
    }
}

#[test]
fn from_now_is_within_eight_days() {
    let t = get_target_timestamp(Weekday::Thu).unwrap();
    let now = Utc::now().timestamp();
    assert!(t > now && t < now + 8 * 86400);
    let s = get_seconds_until(Weekday::Thu).unwrap();
    assert!(s > 0 && s < 8 * 86400);
}

fn hex_sha(text: &str) -> String {
    let out = <sha2::Sha256 as sha2::Digest>::digest(text.as_bytes());
    out.iter().map(|b| format!("{:02x}", b)).collect()
}

#[test]
fn client_keys_hash_the_chosen_address() {
    let direct = get_hashed_ip(None, None, "127.0.0.1");
    assert_eq!(direct, hex_sha("127.0.0.1"));
    assert_eq!(direct.len(), 64);
    let proxied = get_hashed_ip(Some("1.2.3.4".to_string()), Some("5.6.7.8".to_string()), "127.0.0.1");
    assert_eq!(proxied, hex_sha("1.2.3.4"));
    let forwarded = get_hashed_ip(None, Some(" 5.6.7.8 , 9.9.9.9".to_string()), "127.0.0.1");
    assert_eq!(forwarded, hex_sha("5.6.7.8"));
}

#[test]
fn the_first_forwarded_entry_is_trimmed() {
    assert_eq!(backend::utilities::first_forwarded(" 1.1.1.1 , 2.2.2.2,3.3.3.3"), "1.1.1.1");
    assert_eq!(backend::utilities::first_forwarded("4.4.4.4"), "4.4.4.4");
    assert_eq!(backend::utilities::first_forwarded(",5.5.5.5"), "");
}
