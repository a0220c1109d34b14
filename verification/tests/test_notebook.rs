use kernel_sidecar::handlers::Handler;
use kernel_sidecar::handlers::OutputHandler;
use kernel_sidecar::notebook::Cell;
use kernel_sidecar::notebook::Notebook;
use kernel_sidecar::notebook::Output;
use kernel_sidecar::notebook::join_source_lines;
use kernel_sidecar::response::Response;
use kernel_sidecar::response::Stream;
use kernel_sidecar::response::StreamName;
use kernel_sidecar::wire_protocol::WireProtocol;

fn inbound_response(msg_type: &str, parent_id: &str, content: &str) -> Response {
    let header = format!(
        "{{\"msg_id\":\"m-1\",\"session\":\"s\",\"username\":\"kernel\",\"date\":\"d\",\"msg_type\":\"{}\",\"version\":\"5.3\"}}",
        msg_type
    );
    let parent = format!(
        "{{\"msg_id\":\"{}\",\"session\":\"s\",\"username\":\"kernel\",\"date\":\"d\",\"msg_type\":\"x\",\"version\":\"5.3\"}}",
        parent_id
    );
    let frames = vec![
        b"<IDS|MSG>".to_vec(),
        b"00".to_vec(),
        header.into_bytes(),
        parent.into_bytes(),
        b"{}".to_vec(),
        content.as_bytes().to_vec(),
    ];
    let wp = WireProtocol::from_frames(frames).unwrap();
    Response::decode(wp).unwrap()
}

fn stream_output(text: &str) -> Output {
    Output::Stream(Stream { name: StreamName::Stdout, text: text.to_string() })
}

#[test]
fn test_new_notebook_format() {
    let nb = Notebook::new();
    assert_eq!(nb.cells.len(), 0);
    assert_eq!(nb.nbformat, 4);
    assert_eq!(nb.nbformat_minor, 5);
    assert!(nb.signature.is_none());
    assert!(nb.metadata.is_none());
}

#[test]
fn test_add_and_get_code_cell() {
    let mut nb = Notebook::new();
    let id = nb.add_code_cell("2 + 3");
    assert_eq!(id.len(), 36);
    let cell = nb.get_cell(&id).unwrap();
    assert_eq!(cell.id(), id);
    assert_eq!(cell.source(), "2 + 3");
    assert!(nb.get_cell("no-such-id").is_none());
}

#[test]
fn test_add_markdown_cell() {
    let mut nb = Notebook::new();
    let id = nb.add_markdown_cell("# Title");
    let cell = nb.get_cell(&id).unwrap();
    assert!(matches!(cell, Cell::Markdown(_)));
    assert_eq!(cell.source(), "# Title");
}

#[test]
fn test_add_and_clear_cell_output() {
    let mut nb = Notebook::new();
    let id = nb.add_code_cell("print('x')");
    nb.add_cell_output(&id, stream_output("x\n"));
    nb.add_cell_output(&id, stream_output("y\n"));
    match nb.get_cell(&id).unwrap() {
        Cell::Code(c) => assert_eq!(c.outputs.len(), 2),
        _ => panic!("expected a code cell"),
    }
    nb.clear_cell_output(&id);
    match nb.get_cell(&id).unwrap() {
        Cell::Code(c) => assert_eq!(c.outputs.len(), 0),
        _ => panic!("expected a code cell"),
    }
}

#[test]
fn test_output_on_markdown_cell_is_ignored() {
    let mut nb = Notebook::new();
    let id = nb.add_markdown_cell("text");
    nb.add_cell_output(&id, stream_output("x\n"));
    assert!(matches!(nb.get_cell(&id).unwrap(), Cell::Markdown(_)));
}

#[test]
fn test_replace_cell_by_id() {
    let mut nb = Notebook::new();
    let id = nb.add_code_cell("old");
    let replacement = Cell::Code(kernel_sidecar::notebook::CodeCell {
        id: id.clone(),
        source: "new".to_string(),
        metadata: None,
        execution_count: Some(7),
        outputs: vec![],
    });
    nb.replace_cell(replacement);
    let cell = nb.get_cell(&id).unwrap();
    assert_eq!(cell.source(), "new");
}

#[test]
fn test_join_source_lines() {
    let parts = vec!["import math".to_string(), "math.pi".to_string()];
    assert_eq!(join_source_lines(&parts), "import math\nmath.pi");
    assert_eq!(join_source_lines(&vec![]), "");
    assert_eq!(join_source_lines(&vec!["one".to_string()]), "one");
}

#[test]
fn test_output_handler_records_into_cell() {
    let mut nb = Notebook::new();
    let id = nb.add_code_cell("print('hello')");
    let mut handler = OutputHandler::new(nb, id.clone());
    handler.handle(&inbound_response(
        "stream",
        "req-1",
        "{\"name\":\"stdout\",\"text\":\"hello\\n\"}",
    ));
    handler.handle(&inbound_response("status", "req-1", "{\"execution_state\":\"idle\"}"));
    match handler.notebook.get_cell(&id).unwrap() {
        Cell::Code(c) => {
            assert_eq!(c.outputs.len(), 1);
            match &c.outputs[0] {
                Output::Stream(s) => assert_eq!(s.text, "hello\n"),
                _ => panic!("expected stream output"),
            }
        }
        _ => panic!("expected a code cell"),
    }
    handler.handle(&inbound_response("clear_output", "req-1", "{\"wait\":false}"));
    match handler.notebook.get_cell(&id).unwrap() {
        Cell::Code(c) => assert_eq!(c.outputs.len(), 0),
        _ => panic!("expected a code cell"),
    }
}

#[test]
fn test_output_handler_as_action_observer() {
    let mut nb = Notebook::new();
    let id = nb.add_code_cell("1 / 0");
    let handler = Handler::NotebookOutput(OutputHandler::new(nb, id.clone()));
    let mut handlers = vec![handler];
    let msg = inbound_response(
        "error",
        "req-1",
        "{\"ename\":\"ZeroDivisionError\",\"evalue\":\"division by zero\",\"traceback\":[]}",
    );
    match &mut handlers[0] {
        Handler::NotebookOutput(h) => h.handle(&msg),
        _ => unreachable!(),
    }
    match &handlers[0] {
        Handler::NotebookOutput(h) => match h.notebook.get_cell(&id).unwrap() {
            Cell::Code(c) => {
                assert_eq!(c.outputs.len(), 1);
                assert!(matches!(&c.outputs[0], Output::Error(_)));
            }
            _ => panic!("expected a code cell"),
        },
        _ => unreachable!(),
    }
}
