use shiny_live_history_diagram::fetcher::FetchAction;
use shiny_live_history_diagram::fetcher::FetchEvent;
use shiny_live_history_diagram::fetcher::Phase;
use shiny_live_history_diagram::fetcher::DEFAULT_THROTTLE;
use shiny_live_history_diagram::fetcher::MAX_ATTEMPTS;
use shiny_live_history_diagram::fetcher::SECOND;
use shiny_live_history_diagram::PageTitle;
use shiny_live_history_diagram::WikiFetcher;

const MILLI: u64 = 1_000_000;

fn title() -> PageTitle {
    PageTitle::new("Foo".to_string())
}

fn wait_of_send(action: &FetchAction) -> u64 {
    match action {
        FetchAction::Send { wait, .. } => *wait,
        other => panic!("expected a send, got {:?}", other),
    }
}

/// Runs one fetch that succeeds at its first attempt. Returns the time at
/// which the response came back.
fn fetch_once(fetcher: &mut WikiFetcher, start: u64, request_takes: u64) -> u64 {
    let action = fetcher.fetch(&title(), start);
    let wait = wait_of_send(&action);
    let back = start + wait + request_takes;
    let action = fetcher
        .advance(FetchEvent::Responded {
            now: back,
            status: 200,
        })
        .unwrap();
    assert!(matches!(action, FetchAction::ReadBody));
    let action = fetcher
        .advance(FetchEvent::BodyRead {
            body: "<html></html>".to_string(),
        })
        .unwrap();
    match action {
        FetchAction::Deliver { html } => assert_eq!(html, "<html></html>"),
        other => panic!("expected the page, got {:?}", other),
    }
    back
}

#[test]
fn default_fetcher_is_idle_with_one_second() {
    let fetcher = WikiFetcher::default();
    assert_eq!(fetcher.throttle(), DEFAULT_THROTTLE);
    assert_eq!(fetcher.throttle(), 1_000_000_000);
    assert_eq!(fetcher.last_fetch(), None);
    assert_eq!(fetcher.phase(), Phase::Idle);
    assert_eq!(MAX_ATTEMPTS, 5);
}

#[test]
fn first_send_goes_out_at_once_to_the_page_address() {
    let mut fetcher = WikiFetcher::default();
    let action = fetcher.fetch(&PageTitle::new("全曲一覧".to_string()), 123);
    match action {
        FetchAction::Send { url, wait } => {
            assert_eq!(wait, 0);
            assert_eq!(
                url,
                "https://music765plus.com/index.php?title=%E5%85%A8%E6%9B%B2%E4%B8%80%E8%A6%A7&action=view"
            );
        }
        other => panic!("expected a send, got {:?}", other),
    }
    assert_eq!(fetcher.phase(), Phase::AwaitingResponse);
}

#[test]
fn transport_that_always_fails_exhausts_after_five_attempts() {
    let mut fetcher = WikiFetcher::default();
    let mut now: u64 = 0;
    let mut sends = 0;
    let mut rests: Vec<u64> = vec![];
    let mut action = fetcher.fetch(&title(), now);
    loop {
        match action {
            FetchAction::Send { wait, .. } => {
                sends += 1;
                now += wait + 3 * MILLI;
                action = fetcher.advance(FetchEvent::Unreachable { now }).unwrap();
            }
            FetchAction::Backoff { wait } => {
                rests.push(wait);
                now += wait;
                action = fetcher.advance(FetchEvent::Rested { now }).unwrap();
            }
            FetchAction::GiveUp => break,
            other => panic!("unexpected {:?}", other),
        }
    }
    assert_eq!(sends, 5);
    assert_eq!(
        rests,
        vec![SECOND, 2 * SECOND, 4 * SECOND, 8 * SECOND, 16 * SECOND]
    );
    assert_eq!(fetcher.phase(), Phase::Idle);
    assert_eq!(fetcher.last_fetch(), None);
}

#[test]
fn failure_statuses_are_retried_like_transport_failures() {
    let mut fetcher = WikiFetcher::default();
    let mut now: u64 = 0;
    let mut sends = 0;
    let mut rests: Vec<u64> = vec![];
    let mut action = fetcher.fetch(&title(), now);
    loop {
        match action {
            FetchAction::Send { wait, .. } => {
                sends += 1;
                now += wait + MILLI;
                action = fetcher
                    .advance(FetchEvent::Responded { now, status: 503 })
                    .unwrap();
            }
            FetchAction::Backoff { wait } => {
                rests.push(wait);
                now += wait;
                action = fetcher.advance(FetchEvent::Rested { now }).unwrap();
            }
            FetchAction::GiveUp => break,
            other => panic!("unexpected {:?}", other),
        }
    }
    assert_eq!(sends, 5);
    assert_eq!(
        rests,
        vec![
            1_000_000_000,
            2_000_000_000,
            4_000_000_000,
            8_000_000_000,
            16_000_000_000
        ]
    );
    assert!(fetcher.last_fetch().is_some());
}

#[test]
fn success_after_two_failures_delivers_the_page() {
    let mut fetcher = WikiFetcher::default();
    let action = fetcher.fetch(&title(), 0);
    assert_eq!(wait_of_send(&action), 0);
    let action = fetcher.advance(FetchEvent::Unreachable { now: 1 }).unwrap();
    assert!(matches!(action, FetchAction::Backoff { wait } if wait == SECOND));
    let action = fetcher
        .advance(FetchEvent::Rested { now: SECOND + 1 })
        .unwrap();
    assert_eq!(wait_of_send(&action), 0);
    let action = fetcher
        .advance(FetchEvent::Responded {
            now: SECOND + 2,
            status: 404,
        })
        .unwrap();
    assert!(matches!(action, FetchAction::Backoff { wait } if wait == 2 * SECOND));
    let action = fetcher
        .advance(FetchEvent::Rested {
            now: 3 * SECOND + 2,
        })
        .unwrap();
    assert_eq!(wait_of_send(&action), 0);
    let action = fetcher
        .advance(FetchEvent::Responded {
            now: 3 * SECOND + 3,
            status: 200,
        })
        .unwrap();
    assert!(matches!(action, FetchAction::ReadBody));
    let action = fetcher
        .advance(FetchEvent::BodyRead {
            body: "page".to_string(),
        })
        .unwrap();
    assert!(matches!(action, FetchAction::Deliver { html } if html == "page"));
    assert_eq!(fetcher.phase(), Phase::Idle);
    assert_eq!(fetcher.last_fetch(), Some(3 * SECOND + 3));
}

#[test]
fn body_that_cannot_be_read_is_a_failure() {
    let mut fetcher = WikiFetcher::default();
    fetcher.fetch(&title(), 0);
    let action = fetcher
        .advance(FetchEvent::Responded { now: 5, status: 200 })
        .unwrap();
    assert!(matches!(action, FetchAction::ReadBody));
    let action = fetcher.advance(FetchEvent::BodyFailed).unwrap();
    assert!(matches!(action, FetchAction::Backoff { wait } if wait == SECOND));
    assert_eq!(fetcher.phase(), Phase::BackingOff);
}

#[test]
fn success_status_is_two_hundred_to_two_ninety_nine() {
    for (status, success) in [
        (199u16, false),
        (200, true),
        (204, true),
        (299, true),
        (300, false),
        (404, false),
        (0, false),
    ] {
        let mut fetcher = WikiFetcher::default();
        fetcher.fetch(&title(), 0);
        let action = fetcher
            .advance(FetchEvent::Responded { now: 1, status })
            .unwrap();
        assert_eq!(matches!(action, FetchAction::ReadBody), success);
    }
}

#[test]
fn consecutive_fetches_are_spaced_by_the_throttle() {
    let mut fetcher = WikiFetcher::default();
    let first_back = fetch_once(&mut fetcher, 0, 10 * MILLI);
    assert_eq!(first_back, 10 * MILLI);
    assert_eq!(fetcher.last_fetch(), Some(10 * MILLI));

    let action = fetcher.fetch(&title(), 300 * MILLI);
    assert_eq!(wait_of_send(&action), 710 * MILLI);
    let second_back = 300 * MILLI + 710 * MILLI + 20 * MILLI;
    fetcher
        .advance(FetchEvent::Responded {
            now: second_back,
            status: 200,
        })
        .unwrap();
    assert!(second_back - first_back >= fetcher.throttle());
    assert_eq!(fetcher.last_fetch(), Some(second_back));
}

#[test]
fn no_wait_once_the_throttle_has_passed() {
    let mut fetcher = WikiFetcher::with_throttle(2 * SECOND);
    let back = fetch_once(&mut fetcher, 0, MILLI);
    let action = fetcher.fetch(&title(), back + 2 * SECOND);
    assert_eq!(wait_of_send(&action), 0);
    let mut fetcher = WikiFetcher::with_throttle(2 * SECOND);
    let back = fetch_once(&mut fetcher, 0, MILLI);
    let action = fetcher.fetch(&title(), back + 2 * SECOND - 1);
    assert_eq!(wait_of_send(&action), 1);
    let mut fetcher = WikiFetcher::with_throttle(2 * SECOND);
    let back = fetch_once(&mut fetcher, 0, MILLI);
    let action = fetcher.fetch(&title(), back + 5 * SECOND);
    assert_eq!(wait_of_send(&action), 0);
}

#[test]
fn clock_that_went_back_waits_the_whole_throttle() {
    let mut fetcher = WikiFetcher::default();
    fetch_once(&mut fetcher, 10 * SECOND, MILLI);
    let action = fetcher.fetch(&title(), 5 * SECOND);
    assert_eq!(wait_of_send(&action), SECOND);
}

#[test]
fn retries_are_throttled_too() {
    let mut fetcher = WikiFetcher::with_throttle(3 * SECOND);
    fetcher.fetch(&title(), 0);
    let action = fetcher
        .advance(FetchEvent::Responded {
            now: 100 * MILLI,
            status: 500,
        })
        .unwrap();
    assert!(matches!(action, FetchAction::Backoff { wait } if wait == SECOND));
    let action = fetcher
        .advance(FetchEvent::Rested {
            now: 1100 * MILLI,
        })
        .unwrap();
    assert_eq!(wait_of_send(&action), 2 * SECOND);
}

#[test]
fn transport_failure_leaves_the_time_stamp() {
    let mut fetcher = WikiFetcher::default();
    let back = fetch_once(&mut fetcher, 0, MILLI);
    fetcher.fetch(&title(), 5 * SECOND);
    fetcher
        .advance(FetchEvent::Unreachable { now: 6 * SECOND })
        .unwrap();
    assert_eq!(fetcher.last_fetch(), Some(back));
}

#[test]
fn reports_out_of_turn_change_nothing() {
    let mut fetcher = WikiFetcher::default();
    assert!(fetcher
        .advance(FetchEvent::Responded { now: 1, status: 200 })
        .is_none());
    assert!(fetcher.advance(FetchEvent::Rested { now: 1 }).is_none());
    assert!(fetcher.advance(FetchEvent::BodyFailed).is_none());
    assert!(fetcher
        .advance(FetchEvent::BodyRead {
            body: String::new()
        })
        .is_none());
    assert!(fetcher.advance(FetchEvent::Unreachable { now: 1 }).is_none());
    assert_eq!(fetcher.phase(), Phase::Idle);
    assert_eq!(fetcher.last_fetch(), None);
    fetcher.fetch(&title(), 0);
    assert!(fetcher.advance(FetchEvent::Rested { now: 1 }).is_none());
    assert!(fetcher.advance(FetchEvent::BodyFailed).is_none());
    assert_eq!(fetcher.phase(), Phase::AwaitingResponse);
}

#[test]
fn a_new_fetch_starts_the_count_again() {
    let mut fetcher = WikiFetcher::default();
    fetcher.fetch(&title(), 0);
    fetcher.advance(FetchEvent::Unreachable { now: 1 }).unwrap();
    fetcher.advance(FetchEvent::Rested { now: 2 }).unwrap();
    let action = fetcher.advance(FetchEvent::Unreachable { now: 3 }).unwrap();
    assert!(matches!(action, FetchAction::Backoff { wait } if wait == 2 * SECOND));
    fetcher.fetch(&title(), 4);
    let action = fetcher.advance(FetchEvent::Unreachable { now: 5 }).unwrap();
    assert!(matches!(action, FetchAction::Backoff { wait } if wait == SECOND));
}
