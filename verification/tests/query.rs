use pr_weekly::gh::query::{
    open_week_query, search_query, week_query, week_query_at, MAX_TIMESTAMP, MIN_TIMESTAMP,
    WEEK_SECONDS,
};

#[test]
fn week_query_for_mid_march_2024() {
    let query = week_query_at("acme/widgets", false, 1_710_460_800).unwrap();
    assert_eq!(query, "repo:acme/widgets is:pr created:>2024-03-08");
    assert!(query.ends_with("created:>2024-03-08"));
}

#[test]
fn open_week_query_for_mid_march_2024() {
    let query = week_query_at("acme/widgets", true, 1_710_460_800).unwrap();
    assert_eq!(query, "repo:acme/widgets is:pr is:open created:>2024-03-08");
}

#[test]
fn search_query_follows_the_grammar() {
    assert_eq!(search_query("o/n", false, "2001-02-03"), "repo:o/n is:pr created:>2001-02-03");
    assert_eq!(
        search_query("o/n", true, "2001-02-03"),
        "repo:o/n is:pr is:open created:>2001-02-03"
    );
    assert_eq!(search_query("", false, ""), "repo: is:pr created:>");
}

#[test]
fn the_day_is_that_of_the_instant_one_week_before() {
    // The last second of a day and the first of the next, one week later.
    let last = week_query_at("r", false, WEEK_SECONDS + 86_399).unwrap();
    let first = week_query_at("r", false, WEEK_SECONDS + 86_400).unwrap();
    assert_eq!(last, "repo:r is:pr created:>1970-01-01");
    assert_eq!(first, "repo:r is:pr created:>1970-01-02");
    // A week that begins before the epoch, and one that crosses a leap day.
    assert_eq!(week_query_at("r", false, 0).unwrap(), "repo:r is:pr created:>1969-12-25");
    assert_eq!(
        week_query_at("r", false, 1_709_596_800).unwrap(),
        "repo:r is:pr created:>2024-02-27"
    );
}

#[test]
fn week_length_is_seven_days() {
    assert_eq!(WEEK_SECONDS, 7 * 24 * 60 * 60);
}

#[test]
fn instants_without_a_date_give_no_query() {
    assert!(week_query_at("r", false, i64::MIN).is_none());
    assert!(week_query_at("r", false, i64::MAX).is_none());
    assert!(week_query_at("r", false, MIN_TIMESTAMP + WEEK_SECONDS - 1).is_none());
    assert!(week_query_at("r", false, MAX_TIMESTAMP + WEEK_SECONDS + 1).is_none());
}

#[test]
fn the_first_and_the_last_instant_with_a_date_give_a_query() {
    assert_eq!(
        week_query_at("r", false, MIN_TIMESTAMP + WEEK_SECONDS).unwrap(),
        "repo:r is:pr created:>-262143-01-01"
    );
    assert_eq!(
        week_query_at("r", false, MAX_TIMESTAMP + WEEK_SECONDS).unwrap(),
        "repo:r is:pr created:>+262142-12-31"
    );
}

fn is_day(text: &str) -> bool {
    let bytes = text.as_bytes();
    bytes.len() == 10
        && bytes.iter().enumerate().all(|(i, b)| {
            if i == 4 || i == 7 {
                *b == b'-'
            } else {
                b.is_ascii_digit()
            }
        })
}

#[test]
fn week_query_by_the_clock_has_the_shape() {
    let query = week_query("acme/widgets");
    let day = query.strip_prefix("repo:acme/widgets is:pr created:>").unwrap();
    assert!(is_day(day));
    assert!(day > "2024-01-01");
}

#[test]
fn open_week_query_by_the_clock_has_the_shape() {
    let query = open_week_query("acme/widgets");
    let day = query.strip_prefix("repo:acme/widgets is:pr is:open created:>").unwrap();
    assert!(is_day(day));
}
