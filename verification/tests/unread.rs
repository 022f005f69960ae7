use mattermost_client::error::MattermostError;
use mattermost_client::session::MattermostSession;
use mattermost_client::unread::{sum_msg_counts, TeamsUnreadDataItems};

#[test]
fn scenario_two_teams_sum_to_eight() {
    let body = "[{\"team_id\":\"A\",\"msg_count\":3,\"mention_count\":1},\
                {\"team_id\":\"B\",\"msg_count\":5,\"mention_count\":0}]";
    let n = MattermostSession::unread_count_from_response(200, body.to_string())
        .expect("a well-shaped array must sum");
    assert_eq!(n, 8);
}

#[test]
fn empty_array_sums_to_zero() {
    let n = MattermostSession::unread_count_from_response(200, "[]".to_string()).unwrap();
    assert_eq!(n, 0);
}

#[test]
fn mention_counts_are_ignored() {
    let body = "[{\"team_id\":\"A\",\"msg_count\":0,\"mention_count\":9}]";
    let n = MattermostSession::unread_count_from_response(200, body.to_string()).unwrap();
    assert_eq!(n, 0);
}

#[test]
fn unread_failure_status_keeps_the_body() {
    let r = MattermostSession::unread_count_from_response(404, "no such user".to_string());
    match r {
        Err(MattermostError::Api { msg }) => assert_eq!(msg, "no such user"),
        _ => panic!("expected the api error"),
    }
}

#[test]
fn unread_rejects_a_non_array_body() {
    let r = MattermostSession::unread_count_from_response(200, "{\"a\":1}".to_string());
    match r {
        Err(MattermostError::Protocol { .. }) => {}
        _ => panic!("expected the protocol error"),
    }
}

#[test]
fn unread_rejects_an_item_without_msg_count() {
    let body = "[{\"team_id\":\"A\",\"mention_count\":1}]";
    let r = MattermostSession::unread_count_from_response(200, body.to_string());
    match r {
        Err(MattermostError::Protocol { .. }) => {}
        _ => panic!("expected the protocol error"),
    }
}

#[test]
fn unread_tolerates_extra_members_and_whitespace() {
    let body = " [ {\"msg_count\": 2, \"team_id\": \"A\", \"mention_count\": 0, \"extra\": [1, 2]} ] ";
    let n = MattermostSession::unread_count_from_response(200, body.to_string()).unwrap();
    assert_eq!(n, 2);
}

#[test]
fn counts_that_do_not_fit_are_rejected() {
    for body in [
        "[{\"team_id\":\"A\",\"msg_count\":4294967296,\"mention_count\":0}]",
        "[{\"team_id\":\"A\",\"msg_count\":-1,\"mention_count\":0}]",
        "[{\"team_id\":\"A\",\"msg_count\":1.5,\"mention_count\":0}]",
        "[{\"team_id\":7,\"msg_count\":1,\"mention_count\":0}]",
    ] {
        match MattermostSession::unread_count_from_response(200, body.to_string()) {
            Err(MattermostError::Protocol { .. }) => {}
            _ => panic!("expected the protocol error for {body}"),
        }
    }
}

#[test]
fn sum_reports_overflow() {
    let items = vec![
        TeamsUnreadDataItems { team_id: "A".to_string(), msg_count: u32::MAX, mention_count: 0 },
        TeamsUnreadDataItems { team_id: "B".to_string(), msg_count: 1, mention_count: 0 },
    ];
    assert!(sum_msg_counts(&items).is_none());
    let r = MattermostSession::unread_count_from_response(
        200,
        "[{\"team_id\":\"A\",\"msg_count\":4294967295,\"mention_count\":0},\
          {\"team_id\":\"B\",\"msg_count\":1,\"mention_count\":0}]"
            .to_string(),
    );
    match r {
        Err(MattermostError::Protocol { .. }) => {}
        _ => panic!("expected the protocol error"),
    }
}

#[test]
fn sum_adds_the_message_counts_exactly() {
    let items = vec![
        TeamsUnreadDataItems { team_id: "A".to_string(), msg_count: 7, mention_count: 2 },
        TeamsUnreadDataItems { team_id: "B".to_string(), msg_count: 0, mention_count: 5 },
        TeamsUnreadDataItems { team_id: "C".to_string(), msg_count: 11, mention_count: 0 },
    ];
    assert_eq!(sum_msg_counts(&items), Some(18));
    assert_eq!(sum_msg_counts(&Vec::new()), Some(0));
}
