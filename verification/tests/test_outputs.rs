use kernel_sidecar::actions::Action;
use kernel_sidecar::handlers::Handler;
use kernel_sidecar::handlers::SimpleOutputHandler;
use kernel_sidecar::notebook::Output;
use kernel_sidecar::request::ExecuteRequest;
use kernel_sidecar::response::Response;
use kernel_sidecar::response::StreamName;
use kernel_sidecar::wire_protocol::WireProtocol;

fn inbound_response(msg_type: &str, parent_id: &str, content: &str) -> Response {
    let header = format!(
        "{{\"msg_id\":\"m-1\",\"session\":\"s\",\"username\":\"kernel\",\"date\":\"d\",\"msg_type\":\"{}\",\"version\":\"5.3\"}}",
        msg_type
    );
    let parent = format!(
        "{{\"msg_id\":\"{}\",\"session\":\"s\",\"username\":\"kernel\",\"date\":\"d\",\"msg_type\":\"x\",\"version\":\"5.3\"}}",
        parent_id
    );
    let frames = vec![
        b"<IDS|MSG>".to_vec(),
        b"00".to_vec(),
        header.into_bytes(),
        parent.into_bytes(),
        b"{}".to_vec(),
        content.as_bytes().to_vec(),
    ];
    let wp = WireProtocol::from_frames(frames).unwrap();
    Response::decode(wp).unwrap()
}

fn status(parent_id: &str, state: &str) -> Response {
    inbound_response(
        "status",
        parent_id,
        &format!("{{\"execution_state\":\"{}\"}}", state),
    )
}

fn stream(parent_id: &str, text: &str) -> Response {
    inbound_response(
        "stream",
        parent_id,
        &format!("{{\"name\":\"stdout\",\"text\":\"{}\"}}", text),
    )
}

fn clear_output(parent_id: &str, wait: bool) -> Response {
    inbound_response("clear_output", parent_id, &format!("{{\"wait\":{}}}", wait))
}

fn run_execute(code: &str, msgs_for: impl Fn(&str) -> Vec<Response>) -> Vec<Output> {
    let request = ExecuteRequest::new(code.to_string()).into_request();
    let id = request.msg_id();
    let handlers = vec![Handler::SimpleOutput(SimpleOutputHandler::new())];
    let mut action = Action::new(request, handlers);
    let msgs = msgs_for(&id);
    action.process_responses(&msgs);
    assert!(action.is_complete());
    match action.handlers.into_iter().next().unwrap() {
        Handler::SimpleOutput(h) => h.output,
        _ => panic!("expected the aggregating observer"),
    }
}

#[test]
fn test_mixed_outputs() {
    // Stream text and an execute result mix in arrival order.
    let output = run_execute("print(\"foo\")\nprint(\"bar\")\n2 + 2", |id| {
        vec![
            status(id, "busy"),
            stream(id, "foo\\nbar\\n"),
            inbound_response(
                "execute_result",
                id,
                "{\"execution_count\":1,\"data\":{\"text/plain\":\"4\"},\"metadata\":{}}",
            ),
            inbound_response("execute_reply", id, "{\"status\":\"ok\"}"),
            status(id, "idle"),
        ]
    });
    assert_eq!(output.len(), 2);
    match &output[0] {
        Output::Stream(s) => {
            assert!(matches!(s.name, StreamName::Stdout));
            assert_eq!(s.text, "foo\nbar\n");
        }
        _ => panic!("expected stream output first"),
    }
    match &output[1] {
        Output::ExecuteResult(er) => {
            let v: serde_json::Value = serde_json::from_slice(&er.data).unwrap();
            assert_eq!(v["text/plain"], "4");
        }
        _ => panic!("expected execute_result output second"),
    }
}

#[test]
fn test_error_output() {
    let output = run_execute("1 / 0", |id| {
        vec![
            status(id, "busy"),
            inbound_response(
                "error",
                id,
                "{\"ename\":\"ZeroDivisionError\",\"evalue\":\"division by zero\",\"traceback\":[\"tb\"]}",
            ),
            inbound_response("execute_reply", id, "{\"status\":\"error\"}"),
            status(id, "idle"),
        ]
    });
    assert_eq!(output.len(), 1);
    match &output[0] {
        Output::Error(e) => {
            assert_eq!(e.ename, "ZeroDivisionError");
            assert_eq!(e.evalue, "division by zero");
            assert!(!e.traceback.is_empty());
        }
        _ => panic!("expected error output"),
    }
}

#[test]
fn test_display_data() {
    let output = run_execute("display(\"foo\")", |id| {
        vec![
            status(id, "busy"),
            inbound_response(
                "display_data",
                id,
                "{\"data\":{\"text/plain\":\"'foo'\"},\"metadata\":{},\"transient\":{}}",
            ),
            inbound_response("execute_reply", id, "{\"status\":\"ok\"}"),
            status(id, "idle"),
        ]
    });
    assert_eq!(output.len(), 1);
    match &output[0] {
        Output::DisplayData(dd) => {
            let v: serde_json::Value = serde_json::from_slice(&dd.data).unwrap();
            assert_eq!(v["text/plain"], "'foo'");
            assert!(dd.transient.is_none());
        }
        _ => panic!("expected display_data output"),
    }
}

#[test]
fn test_clear_output_wait_false() {
    // Print, clear at once, print again: only the later text stays.
    let output = run_execute("print('a'); clear_output(); print('b')", |id| {
        vec![
            status(id, "busy"),
            stream(id, "a\\n"),
            clear_output(id, false),
            stream(id, "b\\n"),
            inbound_response("execute_reply", id, "{\"status\":\"ok\"}"),
            status(id, "idle"),
        ]
    });
    assert_eq!(output.len(), 1);
    match &output[0] {
        Output::Stream(s) => assert_eq!(s.text, "b\n"),
        _ => panic!("expected stream output"),
    }
}

#[test]
fn test_clear_output() {
    // Three concurrent executions with their own aggregators: a trailing
    // immediate clear leaves nothing; a trailing deferred clear keeps the
    // text; a deferred clear followed by output keeps only the new text.
    let output_a = run_execute("print('foo'); clear_output()", |id| {
        vec![
            status(id, "busy"),
            stream(id, "foo\\n"),
            clear_output(id, false),
            inbound_response("execute_reply", id, "{\"status\":\"ok\"}"),
            status(id, "idle"),
        ]
    });
    let output_b = run_execute("print('bar'); clear_output(wait=True)", |id| {
        vec![
            status(id, "busy"),
            stream(id, "bar\\n"),
            clear_output(id, true),
            inbound_response("execute_reply", id, "{\"status\":\"ok\"}"),
            status(id, "idle"),
        ]
    });
    let output_c = run_execute("print('baz'); clear_output(wait=True); print('qux')", |id| {
        vec![
            status(id, "busy"),
            stream(id, "baz\\n"),
            clear_output(id, true),
            stream(id, "qux\\n"),
            inbound_response("execute_reply", id, "{\"status\":\"ok\"}"),
            status(id, "idle"),
        ]
    });
    assert_eq!(output_a.len(), 0);
    assert_eq!(output_b.len(), 1);
    match &output_b[0] {
        Output::Stream(s) => assert_eq!(s.text, "bar\n"),
        _ => panic!("expected stream output"),
    }
    assert_eq!(output_c.len(), 1);
    match &output_c[0] {
        Output::Stream(s) => assert_eq!(s.text, "qux\n"),
        _ => panic!("expected stream output"),
    }
}

#[test]
fn test_clear_now_twice_equals_once() {
    // Two immediate clears in a row end in the same state as one.
    let mut once = SimpleOutputHandler::new();
    let mut twice = SimpleOutputHandler::new();
    let id = "req-1";
    let msgs = vec![stream(id, "x\\n"), clear_output(id, false)];
    for m in &msgs {
        once.handle(m);
        twice.handle(m);
    }
    twice.handle(&clear_output(id, false));
    assert_eq!(once.output.len(), 0);
    assert_eq!(twice.output.len(), 0);
    assert_eq!(once.clear_on_next_output, twice.clear_on_next_output);
}

#[test]
fn test_deferred_clear_ignores_non_output() {
    // An armed deferred clear does not fire on a response that carries no
    // output.
    let mut h = SimpleOutputHandler::new();
    let id = "req-1";
    h.handle(&stream(id, "kept\\n"));
    h.handle(&clear_output(id, true));
    h.handle(&status(id, "busy"));
    assert_eq!(h.output.len(), 1);
    match &h.output[0] {
        Output::Stream(s) => assert_eq!(s.text, "kept\n"),
        _ => panic!("expected stream output"),
    }
    assert!(h.clear_on_next_output);
}
