use plane::typed_unix_socket::{deliver_to_client, deliver_to_server, ClientDelivery, PendingRequests, ServerDelivery, WrappedMessage};

#[test]
fn responses_go_to_their_request_once() {
    let mut pending = PendingRequests::new();
    pending.register("r1".to_string());
    pending.register("r1".to_string());
    assert!(pending.contains("r1"));
    let msg = WrappedMessage::request("r1".to_string(), "hello".to_string());
    match deliver_to_client(msg, &mut pending) {
        ClientDelivery::Response { id, message } => {
            assert_eq!(id, "r1");
            assert_eq!(message, "hello");
        }
        _ => panic!("expected a response"),
    }
    assert!(!pending.contains("r1"));
    let again = WrappedMessage::request("r1".to_string(), "late".to_string());
    assert!(matches!(deliver_to_client(again, &mut pending), ClientDelivery::Orphan { id } if id == "r1"));
    let event = WrappedMessage::event("ping".to_string());
    assert!(matches!(deliver_to_client(event, &mut pending), ClientDelivery::Event(m) if m == "ping"));
}

#[test]
fn server_sorts_requests_and_events() {
    let req = WrappedMessage::request("q".to_string(), 5u32);
    match deliver_to_server(req) {
        ServerDelivery::Request(m) => {
            let reply = WrappedMessage::response_to(&m, "five".to_string());
            assert_eq!(reply.id.as_deref(), Some("q"));
            assert_eq!(reply.message, "five");
        }
        ServerDelivery::Event(_) => panic!("expected a request"),
    }
    assert!(matches!(deliver_to_server(WrappedMessage::event(1u32)), ServerDelivery::Event(1)));
}

#[test]
fn take_reports_whether_awaited() {
    let mut pending = PendingRequests::new();
    assert!(!pending.take("x"));
    pending.register("a".to_string());
    pending.register("b".to_string());
    assert!(pending.take("a"));
    assert!(!pending.take("a"));
    assert!(pending.contains("b"));
}
