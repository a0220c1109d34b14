//! The typed messages a kernel sends back.
//!
//! Each inbound wire message is decoded into a tagged `Response` by
//! switching on the `msg_type` field of its header. Unknown types map to
//! `Unmodeled`, which keeps the raw content JSON. The parent message id —
//! the id of the originating request — is the `msg_id` of the parent
//! header, absent exactly when the parent frame is the canonical empty
//! object.

use vstd::prelude::*;

use crate::header::Header;
use crate::header::parsed_header;
use crate::jsontext::empty_object_bytes;
use crate::jsontext::is_empty_object;
use crate::jsonvalue::get_bool_field;
use crate::jsonvalue::get_raw_field;
use crate::jsonvalue::get_str_field;
use crate::jsonvalue::get_str_list_field;
use crate::jsonvalue::get_u64_field;
use crate::jsonvalue::json_bool_field;
use crate::jsonvalue::json_raw_field;
use crate::jsonvalue::json_str_field;
use crate::jsonvalue::json_str_list_field;
use crate::jsonvalue::json_u64_field;
use crate::textfmt::string_eq_str;
use crate::wire_protocol::WireProtocol;
use crate::wire_protocol::WireProtocolView;

verus! {

/// A typed message: header, optional parent header, optional metadata
/// bytes, and a typed content body.
pub struct Message<T> {
    pub header: Header,
    pub parent_header: Option<Header>,
    pub metadata: Option<Vec<u8>>,
    pub content: T,
}

/// The execution state a kernel reports on its broadcast channel.
#[derive(PartialEq, Eq, Structural, Clone, Copy, Debug)]
pub enum KernelStatus {
    Busy,
    Idle,
    Starting,
}

/// The wire text of an execution state.
pub open spec fn kernel_status_chars(k: KernelStatus) -> Seq<char> {
    match k {
        KernelStatus::Busy => "busy"@,
        KernelStatus::Idle => "idle"@,
        KernelStatus::Starting => "starting"@,
    }
}

/// Content of a `status` message.
pub struct Status {
    pub execution_state: KernelStatus,
}

/// Whether status content can be read from the bytes.
pub open spec fn status_parse_ok(b: Seq<u8>) -> bool {
    json_str_field(b, "execution_state"@) matches Some(s) && (s == "busy"@ || s == "idle"@
        || s == "starting"@)
}

/// Whether `st` is the status content held in the bytes.
pub open spec fn status_matches(st: Status, b: Seq<u8>) -> bool {
    json_str_field(b, "execution_state"@) == Some(kernel_status_chars(st.execution_state))
}

impl Status {
    /// The status content held in a JSON frame.
    pub fn parse(b: &[u8]) -> (r: Option<Status>)
        ensures
            r is Some <==> status_parse_ok(b@),
            r matches Some(st) ==> status_matches(st, b@),
    {
        let s = match get_str_field(b, "execution_state") {
            Some(s) => s,
            None => { return None },
        };
        if string_eq_str(&s, "busy") {
            Some(Status { execution_state: KernelStatus::Busy })
        } else if string_eq_str(&s, "idle") {
            Some(Status { execution_state: KernelStatus::Idle })
        } else if string_eq_str(&s, "starting") {
            Some(Status { execution_state: KernelStatus::Starting })
        } else {
            None
        }
    }
}

/// The stream a piece of text was written to.
#[derive(PartialEq, Eq, Structural, Clone, Copy, Debug)]
pub enum StreamName {
    Stdout,
    Stderr,
}

/// The wire text of a stream name.
pub open spec fn stream_name_chars(n: StreamName) -> Seq<char> {
    match n {
        StreamName::Stdout => "stdout"@,
        StreamName::Stderr => "stderr"@,
    }
}

/// Content of a `stream` message: a run of output text.
pub struct Stream {
    pub name: StreamName,
    pub text: String,
}

/// The mathematical content of stream content.
#[verifier::ext_equal]
pub ghost struct StreamView {
    pub name: StreamName,
    pub text: Seq<char>,
}

impl View for Stream {
    type V = StreamView;

    open spec fn view(&self) -> StreamView {
        StreamView { name: self.name, text: self.text@ }
    }
}

impl Clone for Stream {
    /// A copy with the same content.
    fn clone(&self) -> (r: Self)
        ensures
            r@ == self@,
    {
        Stream { name: self.name, text: self.text.clone() }
    }
}

/// Whether stream content can be read from the bytes.
pub open spec fn stream_parse_ok(b: Seq<u8>) -> bool {
    &&& json_str_field(b, "name"@) matches Some(n) && (n == "stdout"@ || n == "stderr"@)
    &&& json_str_field(b, "text"@) is Some
}

/// Whether `s` is the stream content held in the bytes.
pub open spec fn stream_matches(s: Stream, b: Seq<u8>) -> bool {
    &&& json_str_field(b, "name"@) == Some(stream_name_chars(s.name))
    &&& json_str_field(b, "text"@) == Some(s.text@)
}

impl Stream {
    /// The stream content held in a JSON frame.
    pub fn parse(b: &[u8]) -> (r: Option<Stream>)
        ensures
            r is Some <==> stream_parse_ok(b@),
            r matches Some(s) ==> stream_matches(s, b@),
    {
        let name = match get_str_field(b, "name") {
            Some(n) => n,
            None => { return None },
        };
        let text = match get_str_field(b, "text") {
            Some(t) => t,
            None => { return None },
        };
        if string_eq_str(&name, "stdout") {
            Some(Stream { name: StreamName::Stdout, text })
        } else if string_eq_str(&name, "stderr") {
            Some(Stream { name: StreamName::Stderr, text })
        } else {
            None
        }
    }
}

/// Content of an `error` message.
pub struct Error {
    pub ename: String,
    pub evalue: String,
    pub traceback: Vec<String>,
}

/// The mathematical content of error content.
#[verifier::ext_equal]
pub ghost struct ErrorView {
    pub ename: Seq<char>,
    pub evalue: Seq<char>,
    pub traceback: Seq<Seq<char>>,
}

impl View for Error {
    type V = ErrorView;

    open spec fn view(&self) -> ErrorView {
        ErrorView { ename: self.ename@, evalue: self.evalue@, traceback: self.traceback.deep_view() }
    }
}

impl Clone for Error {
    /// A copy with the same content.
    fn clone(&self) -> (r: Self)
        ensures
            r@ == self@,
    {
        let r = Error {
            ename: self.ename.clone(),
            evalue: self.evalue.clone(),
            traceback: self.traceback.clone(),
        };
        proof {
            assert(r.traceback.deep_view() =~~= self.traceback.deep_view());
        }
        r
    }
}

/// Whether error content can be read from the bytes.
pub open spec fn error_parse_ok(b: Seq<u8>) -> bool {
    &&& json_str_field(b, "ename"@) is Some
    &&& json_str_field(b, "evalue"@) is Some
    &&& json_str_list_field(b, "traceback"@) is Some
}

/// Whether `e` is the error content held in the bytes.
pub open spec fn error_matches(e: Error, b: Seq<u8>) -> bool {
    &&& json_str_field(b, "ename"@) == Some(e.ename@)
    &&& json_str_field(b, "evalue"@) == Some(e.evalue@)
    &&& json_str_list_field(b, "traceback"@) == Some(e.traceback.deep_view())
}

impl Error {
    /// The error content held in a JSON frame.
    pub fn parse(b: &[u8]) -> (r: Option<Error>)
        ensures
            r is Some <==> error_parse_ok(b@),
            r matches Some(e) ==> error_matches(e, b@),
    {
        let ename = match get_str_field(b, "ename") {
            Some(s) => s,
            None => { return None },
        };
        let evalue = match get_str_field(b, "evalue") {
            Some(s) => s,
            None => { return None },
        };
        let traceback = match get_str_list_field(b, "traceback") {
            Some(t) => t,
            None => { return None },
        };
        Some(Error { ename, evalue, traceback })
    }
}

/// Content of an `execute_result` message. The mime bundle and its
/// metadata are kept as compact JSON bytes.
pub struct ExecuteResult {
    pub execution_count: u32,
    pub data: Vec<u8>,
    pub metadata: Vec<u8>,
}

/// The mathematical content of execute-result content.
#[verifier::ext_equal]
pub ghost struct ExecuteResultView {
    pub execution_count: u32,
    pub data: Seq<u8>,
    pub metadata: Seq<u8>,
}

impl View for ExecuteResult {
    type V = ExecuteResultView;

    open spec fn view(&self) -> ExecuteResultView {
        ExecuteResultView {
            execution_count: self.execution_count,
            data: self.data@,
            metadata: self.metadata@,
        }
    }
}

impl Clone for ExecuteResult {
    /// A copy with the same content.
    fn clone(&self) -> (r: Self)
        ensures
            r@ == self@,
    {
        let r = ExecuteResult {
            execution_count: self.execution_count,
            data: self.data.clone(),
            metadata: self.metadata.clone(),
        };
        proof {
            assert(r.data@ =~= self.data@);
            assert(r.metadata@ =~= self.metadata@);
        }
        r
    }
}

/// Whether execute-result content can be read from the bytes.
pub open spec fn execute_result_parse_ok(b: Seq<u8>) -> bool {
    &&& json_u64_field(b, "execution_count"@) matches Some(n) && n <= u32::MAX
    &&& json_raw_field(b, "data"@) is Some
    &&& json_raw_field(b, "metadata"@) is Some
}

/// Whether `er` is the execute-result content held in the bytes.
pub open spec fn execute_result_matches(er: ExecuteResult, b: Seq<u8>) -> bool {
    &&& json_u64_field(b, "execution_count"@) == Some(er.execution_count as u64)
    &&& json_raw_field(b, "data"@) == Some(er.data@)
    &&& json_raw_field(b, "metadata"@) == Some(er.metadata@)
}

impl ExecuteResult {
    /// The execute-result content held in a JSON frame.
    pub fn parse(b: &[u8]) -> (r: Option<ExecuteResult>)
        ensures
            r is Some <==> execute_result_parse_ok(b@),
            r matches Some(er) ==> execute_result_matches(er, b@),
    {
        let n = match get_u64_field(b, "execution_count") {
            Some(n) => n,
            None => { return None },
        };
        if n > u32::MAX as u64 {
            return None;
        }
        let data = match get_raw_field(b, "data") {
            Some(d) => d,
            None => { return None },
        };
        let metadata = match get_raw_field(b, "metadata") {
            Some(m) => m,
            None => { return None },
        };
        Some(ExecuteResult { execution_count: n as u32, data, metadata })
    }
}

/// The transient routing hints of a display message.
pub struct Transient {
    pub display_id: String,
}

/// The mathematical content of the transient hints.
#[verifier::ext_equal]
pub ghost struct TransientView {
    pub display_id: Seq<char>,
}

impl View for Transient {
    type V = TransientView;

    open spec fn view(&self) -> TransientView {
        TransientView { display_id: self.display_id@ }
    }
}

impl Clone for Transient {
    /// A copy with the same content.
    fn clone(&self) -> (r: Self)
        ensures
            r@ == self@,
    {
        Transient { display_id: self.display_id.clone() }
    }
}

/// Whether the optional transient member can be read from the bytes: it is
/// absent, the empty object, or an object holding a `display_id` string.
pub open spec fn transient_parse_ok(b: Seq<u8>) -> bool {
    match json_raw_field(b, "transient"@) {
        Option::None => true,
        Option::Some(tb) => tb == empty_object_bytes() || json_str_field(tb, "display_id"@)
            is Some,
    }
}

/// Whether `t` is the transient member held in the bytes: `None` stands
/// for an absent or empty-object member.
pub open spec fn transient_matches(t: Option<Transient>, b: Seq<u8>) -> bool {
    match t {
        Option::None => json_raw_field(b, "transient"@) is None || json_raw_field(b, "transient"@)
            == Some(empty_object_bytes()),
        Option::Some(tr) => json_raw_field(b, "transient"@) matches Some(tb) && tb
            != empty_object_bytes() && json_str_field(tb, "display_id"@) == Some(tr.display_id@),
    }
}

/// The transient member held in a JSON frame; the outer `Option` reports
/// whether it could be read, the inner one whether it was there.
fn parse_transient(b: &[u8]) -> (r: Option<Option<Transient>>)
    ensures
        r is Some <==> transient_parse_ok(b@),
        r matches Some(t) ==> transient_matches(t, b@),
{
    let tb = match get_raw_field(b, "transient") {
        Some(tb) => tb,
        None => { return Some(None) },
    };
    if is_empty_object(tb.as_slice()) {
        return Some(None);
    }
    match get_str_field(tb.as_slice(), "display_id") {
        Some(id) => Some(Some(Transient { display_id: id })),
        None => None,
    }
}

/// Content of a `display_data` message.
pub struct DisplayData {
    pub data: Vec<u8>,
    pub metadata: Vec<u8>,
    pub transient: Option<Transient>,
}

/// The mathematical content of display-data content.
#[verifier::ext_equal]
pub ghost struct DisplayDataView {
    pub data: Seq<u8>,
    pub metadata: Seq<u8>,
    pub transient: Option<TransientView>,
}

impl View for DisplayData {
    type V = DisplayDataView;

    open spec fn view(&self) -> DisplayDataView {
        DisplayDataView {
            data: self.data@,
            metadata: self.metadata@,
            transient: match self.transient {
                Option::Some(t) => Some(t@),
                Option::None => None,
            },
        }
    }
}

impl Clone for DisplayData {
    /// A copy with the same content.
    fn clone(&self) -> (r: Self)
        ensures
            r@ == self@,
    {
        let transient = match &self.transient {
            Some(t) => Some(t.clone()),
            None => None,
        };
        let r = DisplayData { data: self.data.clone(), metadata: self.metadata.clone(), transient };
        proof {
            assert(r.data@ =~= self.data@);
            assert(r.metadata@ =~= self.metadata@);
        }
        r
    }
}

/// Whether display-data content can be read from the bytes.
pub open spec fn display_data_parse_ok(b: Seq<u8>) -> bool {
    &&& json_raw_field(b, "data"@) is Some
    &&& json_raw_field(b, "metadata"@) is Some
    &&& transient_parse_ok(b)
}

/// Whether `dd` is the display-data content held in the bytes.
pub open spec fn display_data_matches(dd: DisplayData, b: Seq<u8>) -> bool {
    &&& json_raw_field(b, "data"@) == Some(dd.data@)
    &&& json_raw_field(b, "metadata"@) == Some(dd.metadata@)
    &&& transient_matches(dd.transient, b)
}

impl DisplayData {
    /// The display-data content held in a JSON frame.
    pub fn parse(b: &[u8]) -> (r: Option<DisplayData>)
        ensures
            r is Some <==> display_data_parse_ok(b@),
            r matches Some(dd) ==> display_data_matches(dd, b@),
    {
        let data = match get_raw_field(b, "data") {
            Some(d) => d,
            None => { return None },
        };
        let metadata = match get_raw_field(b, "metadata") {
            Some(m) => m,
            None => { return None },
        };
        let transient = match parse_transient(b) {
            Some(t) => t,
            None => { return None },
        };
        Some(DisplayData { data, metadata, transient })
    }
}

/// Content of an `update_display_data` message.
pub struct UpdateDisplayData {
    pub data: Vec<u8>,
    pub metadata: Vec<u8>,
    pub transient: Option<Transient>,
}

/// Whether `ud` is the update-display-data content held in the bytes.
pub open spec fn update_display_data_matches(ud: UpdateDisplayData, b: Seq<u8>) -> bool {
    &&& json_raw_field(b, "data"@) == Some(ud.data@)
    &&& json_raw_field(b, "metadata"@) == Some(ud.metadata@)
    &&& transient_matches(ud.transient, b)
}

impl UpdateDisplayData {
    /// The update-display-data content held in a JSON frame.
    pub fn parse(b: &[u8]) -> (r: Option<UpdateDisplayData>)
        ensures
            r is Some <==> display_data_parse_ok(b@),
            r matches Some(ud) ==> update_display_data_matches(ud, b@),
    {
        let data = match get_raw_field(b, "data") {
            Some(d) => d,
            None => { return None },
        };
        let metadata = match get_raw_field(b, "metadata") {
            Some(m) => m,
            None => { return None },
        };
        let transient = match parse_transient(b) {
            Some(t) => t,
            None => { return None },
        };
        Some(UpdateDisplayData { data, metadata, transient })
    }
}

/// Content of a `clear_output` message: with `wait` the sequence is
/// cleared only when the next output arrives.
#[derive(Clone, Copy)]
pub struct ClearOutput {
    pub wait: bool,
}

/// Whether clear-output content can be read from the bytes.
pub open spec fn clear_output_parse_ok(b: Seq<u8>) -> bool {
    json_bool_field(b, "wait"@) is Some
}

/// Whether `c` is the clear-output content held in the bytes.
pub open spec fn clear_output_matches(c: ClearOutput, b: Seq<u8>) -> bool {
    json_bool_field(b, "wait"@) == Some(c.wait)
}

impl ClearOutput {
    /// The clear-output content held in a JSON frame.
    pub fn parse(b: &[u8]) -> (r: Option<ClearOutput>)
        ensures
            r is Some <==> clear_output_parse_ok(b@),
            r matches Some(c) ==> clear_output_matches(c, b@),
    {
        match get_bool_field(b, "wait") {
            Some(wait) => Some(ClearOutput { wait }),
            None => None,
        }
    }
}

/// Content of an `execute_reply` message on the shell channel.
pub struct ExecuteReply {
    pub status: String,
    pub execution_count: Option<u64>,
}

/// Whether execute-reply content can be read from the bytes.
pub open spec fn execute_reply_parse_ok(b: Seq<u8>) -> bool {
    json_str_field(b, "status"@) is Some
}

/// Whether `er` is the execute-reply content held in the bytes.
pub open spec fn execute_reply_matches(er: ExecuteReply, b: Seq<u8>) -> bool {
    &&& json_str_field(b, "status"@) == Some(er.status@)
    &&& er.execution_count == json_u64_field(b, "execution_count"@)
}

impl ExecuteReply {
    /// The execute-reply content held in a JSON frame.
    pub fn parse(b: &[u8]) -> (r: Option<ExecuteReply>)
        ensures
            r is Some <==> execute_reply_parse_ok(b@),
            r matches Some(er) ==> execute_reply_matches(er, b@),
    {
        let status = match get_str_field(b, "status") {
            Some(s) => s,
            None => { return None },
        };
        let execution_count = get_u64_field(b, "execution_count");
        Some(ExecuteReply { status, execution_count })
    }
}

/// Content of a `kernel_info_reply` message, kept as raw JSON bytes.
pub struct KernelInfoReply {
    pub raw: Vec<u8>,
}

/// Raw JSON content of a message whose type is not modelled.
pub struct UnmodeledContent(pub Vec<u8>);

/// A typed inbound message.
pub enum Response {
    Status(Message<Status>),
    KernelInfo(Message<KernelInfoReply>),
    Execute(Message<ExecuteReply>),
    Stream(Message<Stream>),
    ExecuteResult(Message<ExecuteResult>),
    DisplayData(Message<DisplayData>),
    UpdateDisplayData(Message<UpdateDisplayData>),
    Error(Message<Error>),
    ClearOutput(Message<ClearOutput>),
    Unmodeled(Message<UnmodeledContent>),
}

/// Whether a message type is one of the modelled ones.
pub open spec fn known_msg_type(t: Seq<char>) -> bool {
    ||| t == "status"@
    ||| t == "kernel_info_reply"@
    ||| t == "execute_reply"@
    ||| t == "stream"@
    ||| t == "execute_result"@
    ||| t == "display_data"@
    ||| t == "update_display_data"@
    ||| t == "error"@
    ||| t == "clear_output"@
}

/// Whether the parent frame is admissible: the canonical empty object, or
/// a parseable header.
pub open spec fn parent_frame_ok(p: Seq<u8>) -> bool {
    p == empty_object_bytes() || parsed_header(p) is Some
}

/// Whether content bytes can be read at the given message type.
pub open spec fn content_parse_ok(t: Seq<char>, b: Seq<u8>) -> bool {
    if t == "status"@ {
        status_parse_ok(b)
    } else if t == "kernel_info_reply"@ {
        true
    } else if t == "execute_reply"@ {
        execute_reply_parse_ok(b)
    } else if t == "stream"@ {
        stream_parse_ok(b)
    } else if t == "execute_result"@ {
        execute_result_parse_ok(b)
    } else if t == "display_data"@ {
        display_data_parse_ok(b)
    } else if t == "update_display_data"@ {
        display_data_parse_ok(b)
    } else if t == "error"@ {
        error_parse_ok(b)
    } else if t == "clear_output"@ {
        clear_output_parse_ok(b)
    } else {
        true
    }
}

/// Whether a wire message decodes to a typed response: its header parses,
/// its parent frame is admissible, and its content parses at its type.
pub open spec fn wire_parse_ok(w: WireProtocolView) -> bool {
    &&& parsed_header(w.header) matches Some(h) && content_parse_ok(h.msg_type, w.content)
    &&& parent_frame_ok(w.parent_header)
}

/// Whether the envelope of a typed message (header, parent header,
/// metadata) is the one held in the wire frames.
pub open spec fn envelope_matches<T>(m: Message<T>, w: WireProtocolView) -> bool {
    &&& parsed_header(w.header) == Some(m.header@)
    &&& match m.parent_header {
        Option::None => w.parent_header == empty_object_bytes(),
        Option::Some(ph) => w.parent_header != empty_object_bytes() && parsed_header(
            w.parent_header,
        ) == Some(ph@),
    }
    &&& m.metadata matches Some(md) && md@ == w.metadata
}

/// Whether a typed response is the decoding of the wire frames: the
/// envelope matches, the variant agrees with the header's message type,
/// and the content is the one held in the content frame.
pub open spec fn response_matches_wire(r: Response, w: WireProtocolView) -> bool {
    match r {
        Response::Status(m) => envelope_matches(m, w) && m.header.msg_type@ == "status"@
            && status_matches(m.content, w.content),
        Response::KernelInfo(m) => envelope_matches(m, w) && m.header.msg_type@
            == "kernel_info_reply"@ && m.content.raw@ == w.content,
        Response::Execute(m) => envelope_matches(m, w) && m.header.msg_type@ == "execute_reply"@
            && execute_reply_matches(m.content, w.content),
        Response::Stream(m) => envelope_matches(m, w) && m.header.msg_type@ == "stream"@
            && stream_matches(m.content, w.content),
        Response::ExecuteResult(m) => envelope_matches(m, w) && m.header.msg_type@
            == "execute_result"@ && execute_result_matches(m.content, w.content),
        Response::DisplayData(m) => envelope_matches(m, w) && m.header.msg_type@ == "display_data"@
            && display_data_matches(m.content, w.content),
        Response::UpdateDisplayData(m) => envelope_matches(m, w) && m.header.msg_type@
            == "update_display_data"@ && update_display_data_matches(m.content, w.content),
        Response::Error(m) => envelope_matches(m, w) && m.header.msg_type@ == "error"@
            && error_matches(m.content, w.content),
        Response::ClearOutput(m) => envelope_matches(m, w) && m.header.msg_type@ == "clear_output"@
            && clear_output_matches(m.content, w.content),
        Response::Unmodeled(m) => envelope_matches(m, w) && !known_msg_type(m.header.msg_type@)
            && m.content.0@ == w.content,
    }
}

impl Response {
    /// The message type named in this response's header.
    pub open spec fn spec_msg_type(&self) -> Seq<char> {
        match self {
            Response::Status(m) => m.header.msg_type@,
            Response::KernelInfo(m) => m.header.msg_type@,
            Response::Execute(m) => m.header.msg_type@,
            Response::Stream(m) => m.header.msg_type@,
            Response::ExecuteResult(m) => m.header.msg_type@,
            Response::DisplayData(m) => m.header.msg_type@,
            Response::UpdateDisplayData(m) => m.header.msg_type@,
            Response::Error(m) => m.header.msg_type@,
            Response::ClearOutput(m) => m.header.msg_type@,
            Response::Unmodeled(m) => m.header.msg_type@,
        }
    }

    /// The id of the originating request, if a parent header is present.
    pub open spec fn spec_parent_msg_id(&self) -> Option<Seq<char>> {
        match self.spec_parent_header() {
            Option::Some(ph) => Some(ph.msg_id@),
            Option::None => None,
        }
    }

    /// The parent header of this response, if present.
    pub open spec fn spec_parent_header(&self) -> Option<Header> {
        match self {
            Response::Status(m) => m.parent_header,
            Response::KernelInfo(m) => m.parent_header,
            Response::Execute(m) => m.parent_header,
            Response::Stream(m) => m.parent_header,
            Response::ExecuteResult(m) => m.parent_header,
            Response::DisplayData(m) => m.parent_header,
            Response::UpdateDisplayData(m) => m.parent_header,
            Response::Error(m) => m.parent_header,
            Response::ClearOutput(m) => m.parent_header,
            Response::Unmodeled(m) => m.parent_header,
        }
    }

    /// The message type from this response's header.
    pub fn msg_type(&self) -> (t: String)
        ensures
            t@ == self.spec_msg_type(),
    {
        match self {
            Response::Status(m) => m.header.msg_type.clone(),
            Response::KernelInfo(m) => m.header.msg_type.clone(),
            Response::Execute(m) => m.header.msg_type.clone(),
            Response::Stream(m) => m.header.msg_type.clone(),
            Response::ExecuteResult(m) => m.header.msg_type.clone(),
            Response::DisplayData(m) => m.header.msg_type.clone(),
            Response::UpdateDisplayData(m) => m.header.msg_type.clone(),
            Response::Error(m) => m.header.msg_type.clone(),
            Response::ClearOutput(m) => m.header.msg_type.clone(),
            Response::Unmodeled(m) => m.header.msg_type.clone(),
        }
    }

    /// The id of the originating request, from the parent header.
    pub fn parent_msg_id(&self) -> (r: Option<String>)
        ensures
            match r {
                Some(s) => self.spec_parent_msg_id() == Some(s@),
                None => self.spec_parent_msg_id() is None,
            },
    {
        let ph = match self {
            Response::Status(m) => &m.parent_header,
            Response::KernelInfo(m) => &m.parent_header,
            Response::Execute(m) => &m.parent_header,
            Response::Stream(m) => &m.parent_header,
            Response::ExecuteResult(m) => &m.parent_header,
            Response::DisplayData(m) => &m.parent_header,
            Response::UpdateDisplayData(m) => &m.parent_header,
            Response::Error(m) => &m.parent_header,
            Response::ClearOutput(m) => &m.parent_header,
            Response::Unmodeled(m) => &m.parent_header,
        };
        match ph {
            Some(h) => Some(h.msg_id.clone()),
            None => None,
        }
    }

    /// Decode a wire message into a typed response. `None` exactly when
    /// the header does not parse, the parent frame is neither the empty
    /// object nor a header, or the content does not parse at the header's
    /// message type.
    pub fn decode(wp: WireProtocol) -> (r: Option<Response>)
        ensures
            r is Some <==> wire_parse_ok(wp@),
            r matches Some(resp) ==> response_matches_wire(resp, wp@),
    {
        let ghost w = wp@;
        let WireProtocol {
            identity: _identity,
            delimiter: _delimiter,
            hmac_signature: _hmac_signature,
            header: header_frame,
            parent_header: parent_frame,
            metadata: metadata_frame,
            content: content_frame,
        } = wp;
        let header = match Header::parse(header_frame.as_slice()) {
            Some(h) => h,
            None => { return None },
        };
        let parent_header: Option<Header> = if is_empty_object(parent_frame.as_slice()) {
            None
        } else {
            match Header::parse(parent_frame.as_slice()) {
                Some(h) => Some(h),
                None => { return None },
            }
        };
        let metadata = Some(metadata_frame);
        if string_eq_str(&header.msg_type, "status") {
            match Status::parse(content_frame.as_slice()) {
                Some(content) => Some(
                    Response::Status(Message { header, parent_header, metadata, content }),
                ),
                None => None,
            }
        } else if string_eq_str(&header.msg_type, "kernel_info_reply") {
            let content = KernelInfoReply { raw: content_frame };
            Some(Response::KernelInfo(Message { header, parent_header, metadata, content }))
        } else if string_eq_str(&header.msg_type, "execute_reply") {
            match ExecuteReply::parse(content_frame.as_slice()) {
                Some(content) => Some(
                    Response::Execute(Message { header, parent_header, metadata, content }),
                ),
                None => None,
            }
        } else if string_eq_str(&header.msg_type, "stream") {
            match Stream::parse(content_frame.as_slice()) {
                Some(content) => Some(
                    Response::Stream(Message { header, parent_header, metadata, content }),
                ),
                None => None,
            }
        } else if string_eq_str(&header.msg_type, "execute_result") {
            match ExecuteResult::parse(content_frame.as_slice()) {
                Some(content) => Some(
                    Response::ExecuteResult(Message { header, parent_header, metadata, content }),
                ),
                None => None,
            }
        } else if string_eq_str(&header.msg_type, "display_data") {
            match DisplayData::parse(content_frame.as_slice()) {
                Some(content) => Some(
                    Response::DisplayData(Message { header, parent_header, metadata, content }),
                ),
                None => None,
            }
        } else if string_eq_str(&header.msg_type, "update_display_data") {
            match UpdateDisplayData::parse(content_frame.as_slice()) {
                Some(content) => Some(
                    Response::UpdateDisplayData(
                        Message { header, parent_header, metadata, content },
                    ),
                ),
                None => None,
            }
        } else if string_eq_str(&header.msg_type, "error") {
            match Error::parse(content_frame.as_slice()) {
                Some(content) => Some(
                    Response::Error(Message { header, parent_header, metadata, content }),
                ),
                None => None,
            }
        } else if string_eq_str(&header.msg_type, "clear_output") {
            match ClearOutput::parse(content_frame.as_slice()) {
                Some(content) => Some(
                    Response::ClearOutput(Message { header, parent_header, metadata, content }),
                ),
                None => None,
            }
        } else {
            let content = UnmodeledContent(content_frame);
            Some(Response::Unmodeled(Message { header, parent_header, metadata, content }))
        }
    }
}

/// Empty-object sentinel: in a decoded response, the parent header is
/// absent exactly when the parent frame is the two-byte canonical empty
/// object; any other parseable frame decodes to a present parent header
/// with its fields.
pub proof fn lemma_empty_object_sentinel(r: Response, w: WireProtocolView)
    requires
        response_matches_wire(r, w),
    ensures
        r.spec_parent_header() is None <==> w.parent_header == empty_object_bytes(),
        r.spec_parent_header() matches Some(ph) ==> parsed_header(w.parent_header) == Some(ph@),
{
}

} // verus!
