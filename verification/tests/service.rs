use microblog::handlers::{hello, login, posts, register, user_post};
use microblog::store::{CredentialStore, FeedStore};

#[test]
fn greeting_defaults_to_plain_world() {
    let r = hello(&None, &None);
    assert_eq!(r.status, 200);
    assert_eq!(r.body, "Hello, world!");
}

#[test]
fn greeting_plain_named() {
    let r = hello(&Some("tester".to_string()), &Some("text/plain".to_string()));
    assert_eq!(r.status, 200);
    assert_eq!(r.body, "Hello, tester!");
}

#[test]
fn greeting_html() {
    let r = hello(&Some("tester".to_string()), &Some("text/html".to_string()));
    assert_eq!(r.status, 200);
    assert_eq!(r.body, "<p>Hello, tester!</p>");
}

#[test]
fn greeting_json_for_tester() {
    let r = hello(&Some("tester".to_string()), &Some("application/json".to_string()));
    assert_eq!(r.status, 200);
    assert_eq!(r.body, "{\"message\":\"Hello, tester!\"}");
}

#[test]
fn greeting_json_escapes_the_agent() {
    let r = hello(&Some("a\"b\\c".to_string()), &Some("application/json".to_string()));
    assert_eq!(r.status, 200);
    assert_eq!(r.body, "{\"message\":\"Hello, a\\\"b\\\\c!\"}");
}

#[test]
fn greeting_unknown_accept_rejected() {
    let r = hello(&Some("tester".to_string()), &Some("text/xml".to_string()));
    assert_eq!(r.status, 400);
    assert_eq!(r.body, "");
}

#[test]
fn fresh_feed_plain_text() {
    let feed = FeedStore::with_examples();
    let r = posts(&feed, &Some("text/plain".to_string()));
    assert_eq!(r.status, 200);
    assert_eq!(
        r.body,
        "example1: \"hello, world!\"\nexample2: \"greetings, earth!\"\nexample3: \"howdy, land!\"\nexample4: \"hey\"\n"
    );
}

#[test]
fn fresh_feed_defaults_to_plain_text() {
    let feed = FeedStore::with_examples();
    let r = posts(&feed, &None);
    assert_eq!(r.status, 200);
    assert_eq!(
        r.body,
        "example1: \"hello, world!\"\nexample2: \"greetings, earth!\"\nexample3: \"howdy, land!\"\nexample4: \"hey\"\n"
    );
}

#[test]
fn fresh_feed_html() {
    let feed = FeedStore::with_examples();
    let r = posts(&feed, &Some("text/html".to_string()));
    assert_eq!(r.status, 200);
    assert_eq!(
        r.body,
        "<div class=\"post\">example1: \"hello, world!\"</div>\n<div class=\"post\">example2: \"greetings, earth!\"</div>\n<div class=\"post\">example3: \"howdy, land!\"</div>\n<div class=\"post\">example4: \"hey\"</div>\n"
    );
}

#[test]
fn empty_feed_json_is_empty_array() {
    let feed = FeedStore::new();
    let r = posts(&feed, &Some("application/json".to_string()));
    assert_eq!(r.status, 200);
    assert_eq!(r.body, "[]");
}

#[test]
fn feed_unknown_accept_rejected() {
    let feed = FeedStore::with_examples();
    let r = posts(&feed, &Some("application/xml".to_string()));
    assert_eq!(r.status, 400);
    assert_eq!(r.body, "");
}

#[test]
fn register_alice_then_conflict() {
    let mut users = CredentialStore::new();
    let body = "{\"username\":\"alice\",\"password\":\"pw\"}";
    let r = register(&mut users, body);
    assert_eq!(r.status, 201);
    let v: serde_json::Value = serde_json::from_str(&r.body).unwrap();
    assert_eq!(v.get("username").unwrap().as_str().unwrap(), "alice");
    let token = v.get("token").unwrap().as_str().unwrap();
    assert_eq!(token.len(), 16);
    assert!(token.ends_with("=="));
    assert!(token.chars().all(|c| c.is_ascii_alphanumeric() || c == '+' || c == '/' || c == '='));
    let r2 = register(&mut users, body);
    assert_eq!(r2.status, 403);
    assert_eq!(r2.body, "username already exists");
}

#[test]
fn register_twice_different_password_conflicts() {
    let mut users = CredentialStore::new();
    let r = register(&mut users, "{\"username\":\"alice\",\"password\":\"pw\"}");
    assert_eq!(r.status, 201);
    let r2 = register(&mut users, "{\"username\":\"alice\",\"password\":\"other\"}");
    assert_eq!(r2.status, 403);
    assert_eq!(r2.body, "username already exists");
}

#[test]
fn register_malformed_body_rejected() {
    let mut users = CredentialStore::new();
    let r = register(&mut users, "not json at all");
    assert_eq!(r.status, 400);
    assert_eq!(r.body, "Request failed to parse");
    let r2 = register(&mut users, "{\"username\":\"alice\"}");
    assert_eq!(r2.status, 400);
    assert_eq!(r2.body, "Request failed to parse");
}

#[test]
fn login_returns_registration_token() {
    let mut users = CredentialStore::new();
    let r = register(&mut users, "{\"username\":\"alice\",\"password\":\"pw\"}");
    assert_eq!(r.status, 201);
    let v: serde_json::Value = serde_json::from_str(&r.body).unwrap();
    let token = v.get("token").unwrap().as_str().unwrap().to_string();
    let r2 = login(&users, "{\"username\":\"alice\",\"password\":\"pw\"}");
    assert_eq!(r2.status, 200);
    assert_eq!(r2.body, format!("{{\"username\":\"alice\",\"token\":\"{}\"}}", token));
    let r3 = login(&users, "{\"username\":\"alice\",\"password\":\"pw\"}");
    assert_eq!(r3.body, r2.body);
}

#[test]
fn login_wrong_password_unauthorized() {
    let mut users = CredentialStore::new();
    register(&mut users, "{\"username\":\"alice\",\"password\":\"pw\"}");
    let r = login(&users, "{\"username\":\"alice\",\"password\":\"wrong\"}");
    assert_eq!(r.status, 401);
    assert_eq!(r.body, "Invalid credentials");
}

#[test]
fn login_unknown_user_unauthorized() {
    let users = CredentialStore::new();
    let r = login(&users, "{\"username\":\"nobody\",\"password\":\"pw\"}");
    assert_eq!(r.status, 401);
    assert_eq!(r.body, "User not found");
}

#[test]
fn login_malformed_body_rejected() {
    let users = CredentialStore::new();
    let r = login(&users, "{\"username\":3}");
    assert_eq!(r.status, 400);
    assert_eq!(r.body, "Request failed to parse");
}

#[test]
fn post_with_valid_token_appends_one() {
    let mut users = CredentialStore::new();
    let r = register(&mut users, "{\"username\":\"alice\",\"password\":\"pw\"}");
    let v: serde_json::Value = serde_json::from_str(&r.body).unwrap();
    let token = v.get("token").unwrap().as_str().unwrap().to_string();
    let mut feed = FeedStore::with_examples();
    let r2 = user_post(&users, &mut feed, &Some(token), "{\"message\":\"hi there\"}");
    assert_eq!(r2.status, 201);
    assert_eq!(r2.body, "");
    assert_eq!(feed.len(), 5);
    let listed = feed.list();
    assert_eq!(listed[4].poster, "alice");
    assert_eq!(listed[4].contents, "hi there");
}

#[test]
fn post_with_unknown_token_rejected() {
    let users = CredentialStore::new();
    let mut feed = FeedStore::with_examples();
    let r = user_post(&users, &mut feed, &Some("nope".to_string()), "{\"message\":\"hi\"}");
    assert_eq!(r.status, 401);
    assert_eq!(r.body, "Invalid Authorization");
    assert_eq!(feed.len(), 4);
}

#[test]
fn post_without_authorization_rejected() {
    let users = CredentialStore::new();
    let mut feed = FeedStore::with_examples();
    let r = user_post(&users, &mut feed, &None, "{\"message\":\"hi\"}");
    assert_eq!(r.status, 401);
    assert_eq!(r.body, "Authorization required");
    assert_eq!(feed.len(), 4);
}

#[test]
fn post_malformed_body_rejected() {
    let users = CredentialStore::new();
    let mut feed = FeedStore::with_examples();
    let r = user_post(&users, &mut feed, &Some("tok".to_string()), "{\"message\":7}");
    assert_eq!(r.status, 400);
    assert_eq!(r.body, "");
    assert_eq!(feed.len(), 4);
}

#[test]
fn feed_json_lists_every_post_in_order() {
    let mut users = CredentialStore::new();
    let r = register(&mut users, "{\"username\":\"alice\",\"password\":\"pw\"}");
    let v: serde_json::Value = serde_json::from_str(&r.body).unwrap();
    let token = v.get("token").unwrap().as_str().unwrap().to_string();
    let mut feed = FeedStore::with_examples();
    user_post(&users, &mut feed, &Some(token), "{\"message\":\"latest\"}");
    let r2 = posts(&feed, &Some("application/json".to_string()));
    assert_eq!(r2.status, 200);
    let arr: serde_json::Value = serde_json::from_str(&r2.body).unwrap();
    let arr = arr.as_array().unwrap();
    assert_eq!(arr.len(), 5);
    assert_eq!(arr[0].get("poster").unwrap().as_str().unwrap(), "example1");
    assert_eq!(arr[0].get("contents").unwrap().as_str().unwrap(), "hello, world!");
    assert_eq!(arr[3].get("poster").unwrap().as_str().unwrap(), "example4");
    assert_eq!(arr[4].get("poster").unwrap().as_str().unwrap(), "alice");
    assert_eq!(arr[4].get("contents").unwrap().as_str().unwrap(), "latest");
}
