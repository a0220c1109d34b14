use kernel_sidecar::actions::Action;
use kernel_sidecar::client::prepare_request;
use kernel_sidecar::request::ExecuteRequest;
use kernel_sidecar::response::Response;
use kernel_sidecar::router::Router;
use kernel_sidecar::wire_protocol::WireProtocol;

fn inbound_response(msg_type: &str, parent_id: Option<&str>, content: &str) -> Response {
    let header = format!(
        "{{\"msg_id\":\"m-1\",\"session\":\"s\",\"username\":\"kernel\",\"date\":\"d\",\"msg_type\":\"{}\",\"version\":\"5.3\"}}",
        msg_type
    );
    let parent = match parent_id {
        Some(id) => format!(
            "{{\"msg_id\":\"{}\",\"session\":\"s\",\"username\":\"kernel\",\"date\":\"d\",\"msg_type\":\"x\",\"version\":\"5.3\"}}",
            id
        ),
        None => "{}".to_string(),
    };
    let frames = vec![
        b"<IDS|MSG>".to_vec(),
        b"00".to_vec(),
        header.into_bytes(),
        parent.into_bytes(),
        b"{}".to_vec(),
        content.as_bytes().to_vec(),
    ];
    let wp = WireProtocol::from_frames(frames).unwrap();
    Response::decode(wp).unwrap()
}

fn stream(parent_id: &str, text: &str) -> Response {
    inbound_response(
        "stream",
        Some(parent_id),
        &format!("{{\"name\":\"stdout\",\"text\":\"{}\"}}", text),
    )
}

fn stream_texts(msgs: &[Response]) -> Vec<String> {
    msgs.iter()
        .map(|m| match m {
            Response::Stream(s) => s.content.text.clone(),
            _ => panic!("expected stream responses"),
        })
        .collect()
}

#[test]
fn test_per_request_fifo() {
    // Interleaved deliveries for two requests land on each queue in
    // arrival order.
    let mut router = Router::new();
    router.register("a".to_string());
    router.register("b".to_string());
    let msgs = vec![
        stream("a", "a1"),
        stream("b", "b1"),
        stream("a", "a2"),
        stream("b", "b2"),
        stream("a", "a3"),
    ];
    router.deliver_all(msgs);
    let queue_a = router.deregister("a").unwrap();
    let queue_b = router.deregister("b").unwrap();
    assert_eq!(stream_texts(&queue_a), vec!["a1", "a2", "a3"]);
    assert_eq!(stream_texts(&queue_b), vec!["b1", "b2"]);
}

#[test]
fn test_unknown_parent_is_dropped() {
    let mut router = Router::new();
    router.register("a".to_string());
    assert!(!router.deliver(stream("unknown", "x")));
    assert!(router.deliver(stream("a", "y")));
    let queue = router.deregister("a").unwrap();
    assert_eq!(stream_texts(&queue), vec!["y"]);
}

#[test]
fn test_response_without_parent_is_dropped() {
    let mut router = Router::new();
    router.register("a".to_string());
    let orphan = inbound_response("status", None, "{\"execution_state\":\"busy\"}");
    assert!(!router.deliver(orphan));
    assert_eq!(router.deregister("a").unwrap().len(), 0);
}

#[test]
fn test_deregister_unknown_id() {
    let mut router = Router::new();
    router.register("a".to_string());
    assert!(router.deregister("b").is_none());
    assert!(router.deregister("a").is_some());
    assert!(router.deregister("a").is_none());
}

#[test]
fn test_registration_is_checked() {
    let mut router = Router::new();
    assert!(!router.is_registered("a"));
    router.register("a".to_string());
    assert!(router.is_registered("a"));
}

#[test]
fn test_prepare_request_registers_before_framing() {
    let mut router = Router::new();
    let request = ExecuteRequest::new("2 + 2".to_string()).into_request();
    let id = request.msg_id();
    let frames = prepare_request(&mut router, &request, "secret");
    assert!(router.is_registered(&id));
    assert_eq!(frames.len(), 7);
    assert_eq!(frames[1], b"<IDS|MSG>".to_vec());
}

#[test]
fn test_concurrent_actions_complete_independently() {
    // Two in-flight requests: each action completes from its own queue,
    // whatever arrived for the other.
    let mut router = Router::new();
    let request_a = ExecuteRequest::new("print('a')".to_string()).into_request();
    let request_b = ExecuteRequest::new("print('b')".to_string()).into_request();
    let id_a = request_a.msg_id();
    let id_b = request_b.msg_id();
    router.register(id_a.clone());
    router.register(id_b.clone());
    let mut action_a = Action::new(request_a, vec![]);
    let mut action_b = Action::new(request_b, vec![]);

    // Only request A's terminal messages arrive, interleaved with output
    // for request B.
    let msgs = vec![
        inbound_response("status", Some(&id_a), "{\"execution_state\":\"busy\"}"),
        stream(&id_b, "noise"),
        inbound_response("execute_reply", Some(&id_a), "{\"status\":\"ok\"}"),
        stream(&id_b, "more noise"),
        inbound_response("status", Some(&id_a), "{\"execution_state\":\"idle\"}"),
    ];
    router.deliver_all(msgs);
    let queue_a = router.deregister(&id_a).unwrap();
    let queue_b = router.deregister(&id_b).unwrap();
    action_a.process_responses(&queue_a);
    action_b.process_responses(&queue_b);
    assert!(action_a.is_complete());
    assert!(!action_b.is_complete());
}
