use cargo_supply_chain::api_client::{pause_before_request, Retry, RetryStep};
use cargo_supply_chain::authors::Author;
use cargo_supply_chain::time::Duration;

#[test]
fn the_first_request_does_not_wait() {
    assert_eq!(pause_before_request(None), None);
}

#[test]
fn a_request_waits_for_what_is_missing_to_a_second() {
    assert_eq!(
        pause_before_request(Some(Duration::new(0, 250_000_000).unwrap())),
        Some(Duration::new(0, 750_000_000).unwrap())
    );
    assert_eq!(pause_before_request(Some(Duration::from_secs(0))), Some(Duration::from_secs(1)));
    assert_eq!(
        pause_before_request(Some(Duration::new(0, 999_999_999).unwrap())),
        Some(Duration::new(0, 1).unwrap())
    );
    assert_eq!(pause_before_request(Some(Duration::from_secs(1))), None);
    assert_eq!(pause_before_request(Some(Duration::from_secs(3600))), None);
}

#[test]
fn a_failing_request_is_tried_three_more_times_with_growing_waits() {
    let mut retry = Retry::new(3);
    assert_eq!(retry.next(503), RetryStep::WaitAndRetry(5));
    assert_eq!(retry.next(500), RetryStep::WaitAndRetry(15));
    assert_eq!(retry.next(404), RetryStep::WaitAndRetry(45));
    assert_eq!(retry.next(503), RetryStep::Settle);
    assert_eq!(retry.next(503), RetryStep::Settle);
}

#[test]
fn success_settles_at_once() {
    let mut retry = Retry::new(3);
    assert_eq!(retry.next(200), RetryStep::Settle);
    assert_eq!(retry, Retry::new(3));
    assert_eq!(retry.next(429), RetryStep::WaitAndRetry(5));
    assert_eq!(retry.next(200), RetryStep::Settle);
    assert_eq!(Retry::new(0).next(500), RetryStep::Settle);
}

#[test]
fn waits_stop_growing_where_they_cannot_be_written_down() {
    let mut retry = Retry::new(255);
    let mut last = 0;
    for _ in 0..255 {
        match retry.next(500) {
            RetryStep::WaitAndRetry(wait) => {
                assert!(wait >= last);
                last = wait;
            }
            RetryStep::Settle => panic!("tries were left"),
        }
    }
    assert_eq!(last, u64::MAX);
    assert_eq!(retry.next(500), RetryStep::Settle);
}

#[test]
fn authors_are_shown_with_where_they_are_known_from() {
    let full = Author::CratesUser {
        id: 1,
        login: "ann".to_string(),
        name: Some("Ann Example".to_string()),
        mail: Some("ann@example.org".to_string()),
    };
    assert_eq!(full.describe(), "Ann Example\tann@example.org\tcrates.io");
    let bare = Author::CratesUser { id: 2, login: "bob".to_string(), name: None, mail: None };
    assert_eq!(bare.describe(), "bob\t\tcrates.io");
    assert_eq!(Author::Local { name: "Me <me@here>".to_string() }.describe(), "Me <me@here>\t\tlocal");
    assert_eq!(
        Author::Foreign { name: "Them".to_string() }.describe(),
        "Them\t\tunknown registry"
    );
    assert_eq!(
        Author::CrateError { crate_: "serde".to_string(), version: "1.0.0".to_string() }.describe(),
        "Error resolving crate `serde: 1.0.0`"
    );
}
