use reqwest::header::HeaderMap;
use thread_triage::config::{Config, Setting};
use thread_triage::headers::{create_headers, mark_read_headers, HeaderError};

fn config(api_user_id: &str, api_key: &str) -> Config {
    Config {
        gh_auth_token: String::from("token"),
        gh_owner: String::from("owner"),
        gh_repo: String::from("repo"),
        thread_id: 77,
        api_key: String::from(api_key),
        api_user_id: String::from(api_user_id),
        base_url: String::from("https://forum.example/api"),
        username: String::from("operator"),
    }
}

fn field(headers: &HeaderMap, name: &str) -> Vec<u8> {
    let values: Vec<_> = headers.get_all(name).iter().collect();
    assert_eq!(values.len(), 1, "{}", name);
    values[0].as_bytes().to_vec()
}

#[test]
fn every_request_names_the_user_the_key_and_the_content_type() {
    let headers = create_headers(&config("12", "s3cr3t-key")).unwrap();
    assert_eq!(headers.len(), 3);
    assert_eq!(headers.keys_len(), 3);
    assert_eq!(field(&headers, "xf-api-user"), b"12");
    assert_eq!(field(&headers, "xf-api-key"), b"s3cr3t-key");
    assert_eq!(field(&headers, "content-type"), b"applications/json");
}

#[test]
fn header_names_are_held_in_lower_case() {
    let headers = create_headers(&config("12", "key")).unwrap();
    let mut names: Vec<String> = headers.keys().map(|k| k.as_str().to_string()).collect();
    names.sort();
    assert_eq!(names, vec!["content-type", "xf-api-key", "xf-api-user"]);
    assert_eq!(field(&headers, "XF-Api-User"), b"12");
}

#[test]
fn a_value_may_hold_blanks_tabs_and_text_beyond_ascii() {
    let headers = create_headers(&config("a b\tc", "cl\u{e9}")).unwrap();
    assert_eq!(field(&headers, "xf-api-user"), b"a b\tc");
    assert_eq!(field(&headers, "xf-api-key"), "cl\u{e9}".as_bytes());
}

#[test]
fn an_empty_value_is_sent_as_it_is() {
    let headers = create_headers(&config("", "")).unwrap();
    assert_eq!(field(&headers, "xf-api-user"), b"");
    assert_eq!(field(&headers, "xf-api-key"), b"");
}

#[test]
fn a_user_with_a_control_character_is_refused() {
    assert_eq!(
        create_headers(&config("1\n2", "key")).unwrap_err(),
        HeaderError::Unsendable(Setting::ApiUserId)
    );
    assert_eq!(
        create_headers(&config("\u{7f}", "key")).unwrap_err(),
        HeaderError::Unsendable(Setting::ApiUserId)
    );
}

#[test]
fn a_key_with_a_control_character_is_refused() {
    assert_eq!(
        create_headers(&config("12", "key\r")).unwrap_err(),
        HeaderError::Unsendable(Setting::ApiKey)
    );
    assert_eq!(
        create_headers(&config("12", "\u{0}")).unwrap_err(),
        HeaderError::Unsendable(Setting::ApiKey)
    );
}

#[test]
fn the_user_is_checked_before_the_key() {
    assert_eq!(
        create_headers(&config("\n", "\n")).unwrap_err(),
        HeaderError::Unsendable(Setting::ApiUserId)
    );
}

#[test]
fn marking_read_adds_the_moment_of_the_call() {
    let headers = mark_read_headers(&config("12", "key"), 1_700_000_000_123).unwrap();
    assert_eq!(headers.len(), 4);
    assert_eq!(field(&headers, "date"), b"1700000000123");
    assert_eq!(field(&headers, "xf-api-user"), b"12");
    assert_eq!(field(&headers, "xf-api-key"), b"key");
    assert_eq!(field(&headers, "content-type"), b"applications/json");
}

#[test]
fn the_moment_may_be_zero_or_very_late() {
    let headers = mark_read_headers(&config("12", "key"), 0).unwrap();
    assert_eq!(field(&headers, "date"), b"0");
    let headers = mark_read_headers(&config("12", "key"), u128::MAX).unwrap();
    assert_eq!(field(&headers, "date"), b"340282366920938463463374607431768211455");
}

#[test]
fn marking_read_fails_as_every_request_does() {
    assert_eq!(
        mark_read_headers(&config("12", "k\ney"), 5).unwrap_err(),
        HeaderError::Unsendable(Setting::ApiKey)
    );
}
