use thread_triage::config::{Config, Setting};
use thread_triage::headers::HeaderError;
use thread_triage::pages::Failure;
use thread_triage::requests::{mark_as_read, marked_notice, posts_request, thread_request};

fn config(thread_id: i32) -> Config {
    Config {
        gh_auth_token: String::from("token"),
        gh_owner: String::from("owner"),
        gh_repo: String::from("repo"),
        thread_id,
        api_key: String::from("key"),
        api_user_id: String::from("12"),
        base_url: String::from("https://forum.example/api"),
        username: String::from("operator"),
    }
}

#[test]
fn the_thread_is_asked_about_under_its_identifier() {
    let request = thread_request(&config(4711)).unwrap();
    assert_eq!(request.url, "https://forum.example/api/threads/4711");
    assert_eq!(request.headers.len(), 3);
    assert_eq!(request.headers.get("xf-api-user").unwrap().as_bytes(), b"12");
    assert_eq!(request.headers.get("xf-api-key").unwrap().as_bytes(), b"key");
    assert_eq!(request.headers.get("content-type").unwrap().as_bytes(), b"applications/json");
}

#[test]
fn a_page_of_replies_is_asked_for_by_its_number() {
    let request = posts_request(&config(4711), 3).unwrap();
    assert_eq!(request.url, "https://forum.example/api/threads/4711/posts/?page=3");
    assert_eq!(request.headers.len(), 3);
    let request = posts_request(&config(-1), 120).unwrap();
    assert_eq!(request.url, "https://forum.example/api/threads/-1/posts/?page=120");
}

#[test]
fn marking_read_goes_to_the_thread_with_the_moment_of_the_call() {
    let request = mark_as_read(&config(4711), 1_700_000_000_123).unwrap();
    assert_eq!(request.url, "https://forum.example/api/threads/4711/mark-read");
    assert_eq!(request.headers.len(), 4);
    assert_eq!(request.headers.get("date").unwrap().as_bytes(), b"1700000000123");
    assert_eq!(request.headers.get("xf-api-user").unwrap().as_bytes(), b"12");
}

#[test]
fn no_request_is_made_from_a_key_that_cannot_be_sent() {
    let mut bad = config(1);
    bad.api_key = String::from("k\ney");
    assert_eq!(thread_request(&bad).unwrap_err(), HeaderError::Unsendable(Setting::ApiKey));
    assert_eq!(posts_request(&bad, 1).unwrap_err(), HeaderError::Unsendable(Setting::ApiKey));
    assert_eq!(mark_as_read(&bad, 1).unwrap_err(), HeaderError::Unsendable(Setting::ApiKey));
}

#[test]
fn the_answer_to_marking_read_is_reported() {
    assert_eq!(marked_notice(Ok(())), "All messages marked as read.");
    assert_eq!(marked_notice(Err(Failure::Unauthorized)), "Status: Authentication failed.");
    assert_eq!(marked_notice(Err(Failure::Unexpected(418))), "Unexpected status code: 418");
}
