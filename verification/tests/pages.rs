use thread_triage::pages::{check_status, get_pages, page_count, Failure, Thread, PAGE_SIZE};

#[test]
fn no_replies_fill_no_page() {
    assert_eq!(page_count(0), 0);
}

#[test]
fn a_full_page_is_one_page() {
    assert_eq!(page_count(40), 1);
}

#[test]
fn one_reply_more_opens_a_second_page() {
    assert_eq!(page_count(41), 2);
}

#[test]
fn page_count_rounds_up() {
    assert_eq!(page_count(1), 1);
    assert_eq!(page_count(39), 1);
    assert_eq!(page_count(79), 2);
    assert_eq!(page_count(80), 2);
    assert_eq!(page_count(81), 3);
    assert_eq!(page_count(4000), 100);
    assert_eq!(page_count(4001), 101);
}

#[test]
fn page_count_of_the_largest_reply_count() {
    assert_eq!(page_count(i32::MAX), 53_687_092);
}

#[test]
fn a_negative_reply_count_fills_no_page() {
    assert_eq!(page_count(-1), 0);
    assert_eq!(page_count(-40), 0);
    assert_eq!(page_count(i32::MIN), 0);
}

#[test]
fn page_count_is_the_least_that_holds_all_replies() {
    let size = i64::from(PAGE_SIZE);
    for replies in 0..2000 {
        let pages = i64::from(page_count(replies));
        assert!(pages >= 0);
        assert!(pages * size >= i64::from(replies));
        assert!((pages - 1) * size < i64::from(replies));
    }
}

#[test]
fn status_200_is_success() {
    assert_eq!(check_status(200), Ok(()));
}

#[test]
fn status_401_is_a_refusal_of_the_credentials() {
    assert_eq!(check_status(401), Err(Failure::Unauthorized));
}

#[test]
fn any_other_status_is_unexpected() {
    assert_eq!(check_status(404), Err(Failure::Unexpected(404)));
    assert_eq!(check_status(500), Err(Failure::Unexpected(500)));
    assert_eq!(check_status(201), Err(Failure::Unexpected(201)));
    assert_eq!(check_status(403), Err(Failure::Unexpected(403)));
    assert_eq!(check_status(0), Err(Failure::Unexpected(0)));
}

#[test]
fn pages_come_from_the_reply_count_of_the_thread() {
    assert_eq!(get_pages(&Ok(Thread { reply_count: 0 })), 0);
    assert_eq!(get_pages(&Ok(Thread { reply_count: 40 })), 1);
    assert_eq!(get_pages(&Ok(Thread { reply_count: 41 })), 2);
    assert_eq!(get_pages(&Ok(Thread { reply_count: 123 })), 4);
}

#[test]
fn an_authentication_failure_counts_as_no_pages() {
    assert_eq!(get_pages(&Err(Failure::Unauthorized)), 0);
}

#[test]
fn an_unexpected_status_counts_as_no_pages() {
    assert_eq!(get_pages(&Err(Failure::Unexpected(503))), 0);
}

#[test]
fn failures_are_reported_in_one_line() {
    assert_eq!(Failure::Unauthorized.notice(), "Status: Authentication failed.");
    assert_eq!(Failure::Unexpected(404).notice(), "Unexpected status code: 404");
    assert_eq!(Failure::Unexpected(0).notice(), "Unexpected status code: 0");
    assert_eq!(Failure::Unexpected(65535).notice(), "Unexpected status code: 65535");
}
