use covey::visits::{kept_visits, MAX_AGE_NANOS};

const DAY: u128 = 24 * 3600 * 1_000_000_000;

#[test]
fn short_histories_are_kept_whole() {
    let now = 1000 * DAY;
    let old: Vec<u128> = (0..30).map(|i| (100 - i) * DAY).collect();
    assert_eq!(kept_visits(&old, now), 30);
    assert_eq!(kept_visits(&vec![], now), 0);
}

#[test]
fn old_entries_past_the_first_hundred_are_dropped() {
    let now = 1000 * DAY;
    // 120 recent entries, then 30 old ones
    let mut visits: Vec<u128> = (0..120).map(|i| now - i * 1_000_000).collect();
    visits.extend((0..30).map(|i| 900 * DAY - i));
    assert_eq!(kept_visits(&visits, now), 120);
    // only old entries: exactly the first hundred stay
    let old: Vec<u128> = (0..150).map(|i| 800 * DAY - i).collect();
    assert_eq!(kept_visits(&old, now), 100);
}

#[test]
fn fifty_days_is_still_recent() {
    let now = 1000 * DAY;
    let mut visits: Vec<u128> = vec![now; 100];
    visits.push(now - MAX_AGE_NANOS);
    visits.push(now - MAX_AGE_NANOS - 1);
    assert_eq!(kept_visits(&visits, now), 101);
    assert_eq!(MAX_AGE_NANOS, 50 * DAY);
}

#[test]
fn future_visits_count_as_new() {
    let now = 10 * DAY;
    let visits: Vec<u128> = vec![now + DAY; 150];
    assert_eq!(kept_visits(&visits, now), 150);
}
