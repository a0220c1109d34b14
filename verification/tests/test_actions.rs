use kernel_sidecar::actions::Action;
use kernel_sidecar::actions::ExpectedReplyType;
use kernel_sidecar::handlers::Handler;
use kernel_sidecar::handlers::MessageCountHandler;
use kernel_sidecar::request::ExecuteRequest;
use kernel_sidecar::request::KernelInfoRequest;
use kernel_sidecar::response::Response;
use kernel_sidecar::wire_protocol::WireProtocol;

fn inbound_response(msg_type: &str, parent_id: &str, content: &str) -> Response {
    let header = format!(
        "{{\"msg_id\":\"m-1\",\"session\":\"s\",\"username\":\"kernel\",\"date\":\"d\",\"msg_type\":\"{}\",\"version\":\"5.3\"}}",
        msg_type
    );
    let parent = format!(
        "{{\"msg_id\":\"{}\",\"session\":\"s\",\"username\":\"kernel\",\"date\":\"d\",\"msg_type\":\"x\",\"version\":\"5.3\"}}",
        parent_id
    );
    let frames = vec![
        b"<IDS|MSG>".to_vec(),
        b"00".to_vec(),
        header.into_bytes(),
        parent.into_bytes(),
        b"{}".to_vec(),
        content.as_bytes().to_vec(),
    ];
    let wp = WireProtocol::from_frames(frames).unwrap();
    Response::decode(wp).unwrap()
}

fn status(parent_id: &str, state: &str) -> Response {
    inbound_response(
        "status",
        parent_id,
        &format!("{{\"execution_state\":\"{}\"}}", state),
    )
}

fn counts_of(action: &Action) -> &MessageCountHandler {
    match &action.handlers[0] {
        Handler::MessageCount(h) => h,
        _ => panic!("expected the counting observer first"),
    }
}

#[test]
fn test_kernel_info() {
    // Simulated kernel-info exchange: status busy, the reply, status idle.
    let request = KernelInfoRequest::new().into_request();
    let id = request.msg_id();
    let handlers = vec![Handler::MessageCount(MessageCountHandler::new())];
    let mut action = Action::new(request, handlers);
    let msgs = vec![
        status(&id, "busy"),
        inbound_response("kernel_info_reply", &id, "{\"status\":\"ok\"}"),
        status(&id, "idle"),
    ];
    let completed_at = action.process_responses(&msgs);
    assert!(action.is_complete());
    assert_eq!(completed_at, Some(2));
    let counts = counts_of(&action);
    assert_eq!(counts.get("status"), 2);
    assert_eq!(counts.get("kernel_info_reply"), 1);
    assert_eq!(counts.get("stream"), 0);
}

#[test]
fn test_execute_request() {
    // Simulated print execution: status busy, execute_input, stream,
    // status idle, execute_reply.
    let request = ExecuteRequest::new("print('hello')".to_string()).into_request();
    let id = request.msg_id();
    let handlers = vec![
        Handler::MessageCount(MessageCountHandler::new()),
        Handler::SimpleOutput(kernel_sidecar::handlers::SimpleOutputHandler::new()),
    ];
    let mut action = Action::new(request, handlers);
    let msgs = vec![
        status(&id, "busy"),
        inbound_response("execute_input", &id, "{\"code\":\"print('hello')\",\"execution_count\":1}"),
        inbound_response("stream", &id, "{\"name\":\"stdout\",\"text\":\"hello\\n\"}"),
        status(&id, "idle"),
        inbound_response("execute_reply", &id, "{\"status\":\"ok\",\"execution_count\":1}"),
    ];
    let completed_at = action.process_responses(&msgs);
    assert!(action.is_complete());
    assert_eq!(completed_at, Some(4));
    let counts = counts_of(&action);
    assert_eq!(counts.get("status"), 2);
    assert_eq!(counts.get("execute_input"), 1);
    assert_eq!(counts.get("stream"), 1);
    assert_eq!(counts.get("execute_reply"), 1);
    match &action.handlers[1] {
        Handler::SimpleOutput(h) => {
            assert_eq!(h.output.len(), 1);
            match &h.output[0] {
                kernel_sidecar::notebook::Output::Stream(s) => {
                    assert!(matches!(
                        s.name,
                        kernel_sidecar::response::StreamName::Stdout
                    ));
                    assert_eq!(s.text, "hello\n");
                }
                _ => panic!("expected stream output"),
            }
        }
        _ => panic!("expected the aggregating observer second"),
    }
}

#[test]
fn test_expected_reply_of_request_kind() {
    let kernel_info = KernelInfoRequest::new().into_request();
    assert_eq!(
        ExpectedReplyType::from_request(&kernel_info),
        ExpectedReplyType::KernelInfo
    );
    let execute = ExecuteRequest::new("1".to_string()).into_request();
    assert_eq!(ExpectedReplyType::from_request(&execute), ExpectedReplyType::Execute);
}

#[test]
fn test_reply_alone_does_not_complete() {
    let request = ExecuteRequest::new("1".to_string()).into_request();
    let id = request.msg_id();
    let mut action = Action::new(request, vec![]);
    let just = action.handle_response(&inbound_response(
        "execute_reply",
        &id,
        "{\"status\":\"ok\"}",
    ));
    assert!(!just);
    assert!(!action.is_complete());
}

#[test]
fn test_idle_alone_does_not_complete() {
    let request = ExecuteRequest::new("1".to_string()).into_request();
    let id = request.msg_id();
    let mut action = Action::new(request, vec![]);
    let just = action.handle_response(&status(&id, "idle"));
    assert!(!just);
    assert!(!action.is_complete());
}

#[test]
fn test_busy_status_never_counts_as_terminal() {
    let request = ExecuteRequest::new("1".to_string()).into_request();
    let id = request.msg_id();
    let mut action = Action::new(request, vec![]);
    action.handle_response(&status(&id, "busy"));
    action.handle_response(&status(&id, "idle"));
    assert!(!action.is_complete());
}

#[test]
fn test_wrong_reply_kind_does_not_complete() {
    // A kernel-info reply is no terminal for an execute request.
    let request = ExecuteRequest::new("1".to_string()).into_request();
    let id = request.msg_id();
    let mut action = Action::new(request, vec![]);
    action.handle_response(&status(&id, "idle"));
    action.handle_response(&inbound_response("kernel_info_reply", &id, "{\"status\":\"ok\"}"));
    assert!(!action.is_complete());
    action.handle_response(&inbound_response("execute_reply", &id, "{\"status\":\"ok\"}"));
    assert!(action.is_complete());
}

#[test]
fn test_completion_happens_exactly_once() {
    let request = ExecuteRequest::new("1".to_string()).into_request();
    let id = request.msg_id();
    let mut action = Action::new(request, vec![]);
    let first = action.handle_response(&status(&id, "idle"));
    let second = action.handle_response(&inbound_response(
        "execute_reply",
        &id,
        "{\"status\":\"ok\"}",
    ));
    let third = action.handle_response(&status(&id, "idle"));
    assert!(!first);
    assert!(second);
    assert!(!third);
    assert!(action.is_complete());
}

#[test]
fn test_both_orders_complete() {
    // Idle then reply, and reply then idle, both complete the action.
    let request = ExecuteRequest::new("1".to_string()).into_request();
    let id = request.msg_id();
    let mut idle_first = Action::new(request, vec![]);
    idle_first.handle_response(&status(&id, "idle"));
    idle_first.handle_response(&inbound_response("execute_reply", &id, "{\"status\":\"ok\"}"));
    assert!(idle_first.is_complete());

    let request2 = ExecuteRequest::new("1".to_string()).into_request();
    let id2 = request2.msg_id();
    let mut reply_first = Action::new(request2, vec![]);
    reply_first.handle_response(&inbound_response("execute_reply", &id2, "{\"status\":\"ok\"}"));
    reply_first.handle_response(&status(&id2, "idle"));
    assert!(reply_first.is_complete());
}
