use thread_triage::config::Config;
use thread_triage::posts::{unread_posts, Post, PostObject};

fn config() -> Config {
    Config {
        gh_auth_token: String::from("token"),
        gh_owner: String::from("owner"),
        gh_repo: String::from("repo"),
        thread_id: 77,
        api_key: String::from("key"),
        api_user_id: String::from("1"),
        base_url: String::from("https://forum.example/api"),
        username: String::from("operator"),
    }
}

fn post(is_unread: bool, username: &str, post_id: i32) -> Post {
    Post {
        is_unread,
        message: format!("message {}", post_id),
        username: String::from(username),
        post_id,
        position: post_id - 100,
    }
}

fn shown(username: &str, post_id: i32) -> PostObject {
    PostObject {
        message: format!("message {}", post_id),
        username: String::from(username),
        post_id,
        position: post_id - 100,
    }
}

#[test]
fn an_empty_page_shows_nothing() {
    assert_eq!(unread_posts(Vec::new(), &config()), Vec::new());
}

#[test]
fn unread_replies_of_others_are_shown_in_page_order() {
    let page = vec![post(true, "alice", 103), post(true, "bob", 101), post(true, "alice", 102)];
    assert_eq!(
        unread_posts(page, &config()),
        vec![shown("alice", 103), shown("bob", 101), shown("alice", 102)]
    );
}

#[test]
fn replies_that_were_read_are_not_shown() {
    let page = vec![post(false, "alice", 101), post(true, "bob", 102), post(false, "carol", 103)];
    assert_eq!(unread_posts(page, &config()), vec![shown("bob", 102)]);
}

#[test]
fn the_operators_own_replies_are_not_shown() {
    let page =
        vec![post(true, "operator", 101), post(true, "bob", 102), post(true, "operator", 103)];
    assert_eq!(unread_posts(page, &config()), vec![shown("bob", 102)]);
}

#[test]
fn names_are_compared_letter_for_letter() {
    let page = vec![post(true, "Operator", 101), post(true, "operator ", 102), post(true, "", 103)];
    assert_eq!(
        unread_posts(page, &config()),
        vec![shown("Operator", 101), shown("operator ", 102), shown("", 103)]
    );
}

#[test]
fn a_page_of_read_and_own_replies_shows_nothing() {
    let page =
        vec![post(false, "alice", 101), post(true, "operator", 102), post(false, "operator", 103)];
    assert_eq!(unread_posts(page, &config()), Vec::new());
}

#[test]
fn a_full_page_is_filtered_reply_by_reply() {
    let mut page = Vec::new();
    let mut expected = Vec::new();
    for i in 0..40 {
        let unread = i % 2 == 0;
        let name = if i % 3 == 0 { "operator" } else { "dora" };
        page.push(post(unread, name, i));
        if unread && i % 3 != 0 {
            expected.push(shown(name, i));
        }
    }
    let chosen = unread_posts(page, &config());
    assert_eq!(chosen, expected);
    assert!(chosen.iter().all(|p| p.username != "operator"));
}
