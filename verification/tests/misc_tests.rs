use following_feed::decimal::{i64_text, parse_i32, parse_i64, u64_text};
use following_feed::feedgen::models::Post;
use following_feed::feedgen::order::sort_by_indexed_time;
use following_feed::janitor::{backfill_update, next_cleanup, BackfillState};

#[test]
fn decimal_text_and_parse() {
    assert_eq!(u64_text(0), "0");
    assert_eq!(u64_text(1234567890), "1234567890");
    assert_eq!(i64_text(-42), "-42");
    assert_eq!(i64_text(i64::MIN), "-9223372036854775808");
    assert_eq!(i64_text(i64::MAX), "9223372036854775807");
    assert_eq!(parse_i64("9223372036854775807"), Some(i64::MAX));
    assert_eq!(parse_i64("9223372036854775808"), None);
    assert_eq!(parse_i64("-9223372036854775808"), Some(i64::MIN));
    assert_eq!(parse_i64("+12"), Some(12));
    assert_eq!(parse_i64("-"), None);
    assert_eq!(parse_i64(""), None);
    assert_eq!(parse_i64("1 "), None);
    assert_eq!(parse_i64("0007"), Some(7));
    assert_eq!(parse_i32("2147483648"), None);
    assert_eq!(parse_i32("-2147483648"), Some(i32::MIN));
    for n in [0i64, 5, -5, 1697796000000, i64::MIN, i64::MAX] {
        assert_eq!(parse_i64(&i64_text(n)), Some(n));
        assert_eq!(i64_text(n), n.to_string());
        assert_eq!(parse_i64(&n.to_string()), n.to_string().parse::<i64>().ok());
    }
}

#[test]
fn janitor_schedule() {
    let now: i64 = 1697796000 + 10;
    let step = next_cleanup("0 0 * * * *", now).unwrap();
    assert_eq!(step.wait_seconds, Some(3600 - 10));
    let fallback = next_cleanup("not a schedule", now).unwrap();
    assert_eq!(fallback.wait_seconds, Some(3600 - 10));
    let every_second = next_cleanup("* * * * * *", now).unwrap();
    assert_eq!(every_second.wait_seconds, Some(1));
}

#[test]
fn backfill_outcomes() {
    assert_eq!(backfill_update(true, 3).state, BackfillState::Completed);
    let failed = backfill_update(false, 10);
    assert_eq!(failed.state, BackfillState::Failed);
    assert_eq!(failed.attempts, Some(11));
    assert_eq!(failed.last_error, Some("Max retries exceeded"));
    let retry = backfill_update(false, 2);
    assert_eq!(retry.state, BackfillState::Pending);
    assert_eq!(retry.attempts, Some(3));
    assert_eq!(retry.last_error, Some("Failed to backfill"));
}

fn at(uri: &str, time: &str) -> Post {
    Post { uri: uri.to_string(), indexed_at: time.to_string(), ..Default::default() }
}

#[test]
fn sort_by_indexed_time_newest_first() {
    let posts = vec![
        at("old", "2023-10-20T10:00:00.000000+00:00"),
        at("new", "2023-10-21T10:00:00.000000+00:00"),
        at("same-second", "2023-10-20T10:00:00.900000+00:00"),
    ];
    let sorted = sort_by_indexed_time(posts).unwrap();
    let uris: Vec<&str> = sorted.iter().map(|p| p.uri.as_str()).collect();
    assert_eq!(uris, vec!["new", "old", "same-second"]);
    assert!(sort_by_indexed_time(vec![at("bad", "yesterday")]).is_none());
}
