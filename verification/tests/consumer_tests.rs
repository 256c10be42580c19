use master_server::consumer::{on_receive, ConsumerAction, Received, TARGET_LANGUAGE};
use master_server::routes::{test_in_routes, Test};

#[test]
fn failed_receive_stops() {
    assert_eq!(
        on_receive(Received::Failed("broker down".to_string())),
        ConsumerAction::Stop { error: "broker down".to_string() }
    );
}

#[test]
fn message_is_handled_and_committed() {
    assert_eq!(
        on_receive(Received::Message { text: Some("hello".to_string()) }),
        ConsumerAction::HandleAndCommit { text: Some("hello".to_string()) }
    );
    assert_eq!(
        on_receive(Received::Message { text: None }),
        ConsumerAction::HandleAndCommit { text: None }
    );
    assert_eq!(TARGET_LANGUAGE, "fr");
}

#[test]
fn routes_helpers() {
    test_in_routes();
    let t = Test { name: "smename".to_string(), age: 11 };
    assert_eq!(t.age, 11);
}
