use mattermost_client::error::MattermostError;
use mattermost_client::session::MattermostSession;
use mattermost_client::text::strip_quotes;

fn user_id_of(body: &str) -> String {
    MattermostSession::from_login_response("h", "u", 200, Some("t".to_string()), body.to_string())
        .expect("login should succeed")
        .user_id
}

#[test]
fn strip_quotes_removes_the_surrounding_quotes() {
    assert_eq!(strip_quotes("\"abc123\""), "abc123");
}

#[test]
fn strip_quotes_removes_every_quote() {
    assert_eq!(strip_quotes("a\"b\"\"c"), "abc");
    assert_eq!(strip_quotes("\"\""), "");
    assert_eq!(strip_quotes(""), "");
    assert_eq!(strip_quotes("plain"), "plain");
}

#[test]
fn success_body_must_be_json() {
    assert!(MattermostSession::handle_response(200, "{\"a\":1}".to_string()).is_ok());
    assert!(MattermostSession::handle_response(200, "[1,2,3]".to_string()).is_ok());
    assert!(MattermostSession::handle_response(200, "null".to_string()).is_ok());
    match MattermostSession::handle_response(200, "{\"a\":}".to_string()) {
        Err(MattermostError::Protocol { .. }) => {}
        _ => panic!("expected the protocol error"),
    }
    match MattermostSession::handle_response(200, "".to_string()) {
        Err(MattermostError::Protocol { .. }) => {}
        _ => panic!("expected the protocol error"),
    }
}

#[test]
fn id_member_is_found_among_others() {
    assert_eq!(user_id_of("{\"name\":\"alice\",\"id\":\"u7\",\"extra\":[1]}"), "u7");
}

#[test]
fn missing_id_member_reads_as_null() {
    assert_eq!(user_id_of("{\"name\":\"bob\"}"), "null");
    assert_eq!(user_id_of("[1,2]"), "null");
}

#[test]
fn non_string_id_keeps_its_text() {
    assert_eq!(user_id_of("{\"id\":5}"), "5");
    assert_eq!(user_id_of("{\"id\":[\"a\",\"b\"]}"), "[a,b]");
}
