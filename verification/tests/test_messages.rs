use kernel_sidecar::header::Header;
use kernel_sidecar::request::ExecuteRequest;
use kernel_sidecar::request::KernelInfoRequest;
use kernel_sidecar::request::Request;
use kernel_sidecar::response::Response;
use kernel_sidecar::response::KernelStatus;
use kernel_sidecar::response::StreamName;
use kernel_sidecar::wire_protocol::WireProtocol;

fn sample_header(msg_id: &str, msg_type: &str) -> Header {
    Header::from_parts(
        msg_id.to_string(),
        "session-1".to_string(),
        "tester".to_string(),
        "2024-01-01T00:00:00Z".to_string(),
        msg_type.to_string(),
        "5.3".to_string(),
    )
}

fn inbound_response(msg_type: &str, parent_id: Option<&str>, content: &str) -> Response {
    let header = format!(
        "{{\"msg_id\":\"m-1\",\"session\":\"s\",\"username\":\"kernel\",\"date\":\"d\",\"msg_type\":\"{}\",\"version\":\"5.3\"}}",
        msg_type
    );
    let parent = match parent_id {
        Some(id) => format!(
            "{{\"msg_id\":\"{}\",\"session\":\"s\",\"username\":\"kernel\",\"date\":\"d\",\"msg_type\":\"x\",\"version\":\"5.3\"}}",
            id
        ),
        None => "{}".to_string(),
    };
    let frames = vec![
        b"<IDS|MSG>".to_vec(),
        b"00".to_vec(),
        header.into_bytes(),
        parent.into_bytes(),
        b"{}".to_vec(),
        content.as_bytes().to_vec(),
    ];
    let wp = WireProtocol::from_frames(frames).unwrap();
    Response::decode(wp).unwrap()
}

#[test]
fn test_header_json_parses_back() {
    let h = sample_header("abc-123", "execute_request");
    let bytes = h.to_json_bytes();
    let parsed = Header::parse(&bytes).unwrap();
    assert_eq!(parsed.msg_id, "abc-123");
    assert_eq!(parsed.session, "session-1");
    assert_eq!(parsed.username, "tester");
    assert_eq!(parsed.date, "2024-01-01T00:00:00Z");
    assert_eq!(parsed.msg_type, "execute_request");
    assert_eq!(parsed.version, "5.3");
}

#[test]
fn test_header_json_escapes_specials() {
    let h = sample_header("id-\"quoted\"\\slash\n", "t");
    let bytes = h.to_json_bytes();
    let parsed = Header::parse(&bytes).unwrap();
    assert_eq!(parsed.msg_id, "id-\"quoted\"\\slash\n");
}

#[test]
fn test_execute_request_json_fields() {
    let er = ExecuteRequest::new("print('hello')".to_string());
    let bytes = er.to_json_bytes();
    let v: serde_json::Value = serde_json::from_slice(&bytes).unwrap();
    assert_eq!(v["code"], "print('hello')");
    assert_eq!(v["silent"], false);
    assert_eq!(v["store_history"], true);
    assert_eq!(v["allow_stdin"], true);
    assert_eq!(v["stop_on_error"], true);
    assert!(v["user_expressions"].as_object().unwrap().is_empty());
}

#[test]
fn test_execute_request_json_with_unicode_code() {
    let er = ExecuteRequest::new("print(\"héllo\nwörld\")".to_string());
    let bytes = er.to_json_bytes();
    let v: serde_json::Value = serde_json::from_slice(&bytes).unwrap();
    assert_eq!(v["code"], "print(\"héllo\nwörld\")");
}

#[test]
fn test_request_msg_id_and_wire_form() {
    let request = ExecuteRequest::new("2 + 2".to_string()).into_request();
    let msg_id = request.msg_id();
    assert_eq!(msg_id.len(), 36);
    let wp = request.into_wire_protocol("secret-key");
    let parsed = Header::parse(&wp.header).unwrap();
    assert_eq!(parsed.msg_id, msg_id);
    assert_eq!(parsed.msg_type, "execute_request");
    let v: serde_json::Value = serde_json::from_slice(&wp.content).unwrap();
    assert_eq!(v["code"], "2 + 2");
    assert_eq!(wp.parent_header, b"{}".to_vec());
}

#[test]
fn test_kernel_info_request_content_is_empty_object() {
    let request = KernelInfoRequest::new().into_request();
    assert!(matches!(request, Request::KernelInfo(_)));
    let wp = request.into_wire_protocol("k");
    assert_eq!(wp.content, b"{}".to_vec());
}

#[test]
fn test_decode_status_idle() {
    let r = inbound_response("status", Some("req-1"), "{\"execution_state\":\"idle\"}");
    match &r {
        Response::Status(m) => {
            assert!(matches!(m.content.execution_state, KernelStatus::Idle));
        }
        _ => panic!("expected a status response"),
    }
    assert_eq!(r.msg_type(), "status");
    assert_eq!(r.parent_msg_id(), Some("req-1".to_string()));
}

#[test]
fn test_decode_stream() {
    let r = inbound_response("stream", Some("req-1"), "{\"name\":\"stdout\",\"text\":\"hello\\n\"}");
    match &r {
        Response::Stream(m) => {
            assert!(matches!(m.content.name, StreamName::Stdout));
            assert_eq!(m.content.text, "hello\n");
        }
        _ => panic!("expected a stream response"),
    }
}

#[test]
fn test_decode_error_content() {
    let r = inbound_response(
        "error",
        Some("req-1"),
        "{\"ename\":\"ZeroDivisionError\",\"evalue\":\"division by zero\",\"traceback\":[\"line1\",\"line2\"]}",
    );
    match &r {
        Response::Error(m) => {
            assert_eq!(m.content.ename, "ZeroDivisionError");
            assert_eq!(m.content.evalue, "division by zero");
            assert_eq!(m.content.traceback, vec!["line1".to_string(), "line2".to_string()]);
        }
        _ => panic!("expected an error response"),
    }
}

#[test]
fn test_decode_execute_result_data() {
    let r = inbound_response(
        "execute_result",
        Some("req-1"),
        "{\"execution_count\":3,\"data\":{\"text/plain\":\"4\"},\"metadata\":{}}",
    );
    match &r {
        Response::ExecuteResult(m) => {
            assert_eq!(m.content.execution_count, 3);
            let v: serde_json::Value = serde_json::from_slice(&m.content.data).unwrap();
            assert_eq!(v["text/plain"], "4");
        }
        _ => panic!("expected an execute_result response"),
    }
}

#[test]
fn test_decode_unknown_type_is_unmodeled() {
    let r = inbound_response("execute_input", Some("req-1"), "{\"code\":\"1\",\"execution_count\":1}");
    assert!(matches!(r, Response::Unmodeled(_)));
    assert_eq!(r.msg_type(), "execute_input");
}

#[test]
fn test_empty_object_parent_decodes_to_absent() {
    let r = inbound_response("status", None, "{\"execution_state\":\"busy\"}");
    assert_eq!(r.parent_msg_id(), None);
    let with_parent = inbound_response("status", Some("req-9"), "{\"execution_state\":\"busy\"}");
    assert_eq!(with_parent.parent_msg_id(), Some("req-9".to_string()));
}

#[test]
fn test_decode_clear_output_wait() {
    let r = inbound_response("clear_output", Some("req-1"), "{\"wait\":true}");
    match r {
        Response::ClearOutput(m) => assert!(m.content.wait),
        _ => panic!("expected a clear_output response"),
    }
}

#[test]
fn test_unknown_execution_state_is_dropped() {
    let frames = vec![
        b"<IDS|MSG>".to_vec(),
        b"00".to_vec(),
        b"{\"msg_id\":\"m\",\"session\":\"s\",\"username\":\"u\",\"date\":\"d\",\"msg_type\":\"status\",\"version\":\"5.3\"}"
            .to_vec(),
        b"{}".to_vec(),
        b"{}".to_vec(),
        b"{\"execution_state\":\"dreaming\"}".to_vec(),
    ];
    let wp = WireProtocol::from_frames(frames).unwrap();
    assert!(Response::decode(wp).is_none());
}

#[test]
fn test_execute_result_without_data_is_dropped() {
    let frames = vec![
        b"<IDS|MSG>".to_vec(),
        b"00".to_vec(),
        b"{\"msg_id\":\"m\",\"session\":\"s\",\"username\":\"u\",\"date\":\"d\",\"msg_type\":\"execute_result\",\"version\":\"5.3\"}"
            .to_vec(),
        b"{}".to_vec(),
        b"{}".to_vec(),
        b"{\"execution_count\":1,\"metadata\":{}}".to_vec(),
    ];
    let wp = WireProtocol::from_frames(frames).unwrap();
    assert!(Response::decode(wp).is_none());
}

#[test]
fn test_display_data_with_display_id() {
    let r = inbound_response(
        "display_data",
        Some("req-1"),
        "{\"data\":{\"text/plain\":\"x\"},\"metadata\":{},\"transient\":{\"display_id\":\"disp-7\"}}",
    );
    match r {
        Response::DisplayData(m) => {
            assert_eq!(m.content.transient.unwrap().display_id, "disp-7");
        }
        _ => panic!("expected a display_data response"),
    }
}

#[test]
fn test_malformed_header_is_dropped() {
    let frames = vec![
        b"<IDS|MSG>".to_vec(),
        b"00".to_vec(),
        b"{\"msg_id\":\"m\"}".to_vec(),
        b"{}".to_vec(),
        b"{}".to_vec(),
        b"{}".to_vec(),
    ];
    let wp = WireProtocol::from_frames(frames).unwrap();
    assert!(Response::decode(wp).is_none());
}

#[test]
fn test_outgoing_request_decodes_back() {
    // An encoded request, decoded with the inbound machinery, carries the
    // same header fields and an absent parent header.
    let request = ExecuteRequest::new("x = 1".to_string()).into_request();
    let msg_id = request.msg_id();
    let wp = request.into_wire_protocol("key");
    let frames = wp.to_frames();
    let back = WireProtocol::from_frames(frames).unwrap();
    let r = Response::decode(back).unwrap();
    assert!(matches!(r, Response::Unmodeled(_)));
    assert_eq!(r.msg_type(), "execute_request");
    assert_eq!(r.parent_msg_id(), None);
    match r {
        Response::Unmodeled(m) => assert_eq!(m.header.msg_id, msg_id),
        _ => unreachable!(),
    }
}
