//! The requests a client sends to the kernel.
//!
//! A request carries a fresh header and a typed content payload. Encoding
//! a request produces the signed wire frames: the header and content as
//! compact JSON, canonical empty objects for parent header and metadata,
//! and the HMAC signature under the connection's signing key.

use vstd::prelude::*;
use vstd::utf8::encode_utf8;

use crate::header::Header;
use crate::header::header_json_of;
use crate::jsontext::empty_object_bytes;
use crate::jsontext::json_bool_of;
use crate::jsontext::json_member;
use crate::jsontext::json_string_of_chars;
use crate::jsontext::push_json_bool;
use crate::jsontext::push_json_string;
use crate::jsontext::push_member_bool;
use crate::jsontext::push_member_str;
use crate::response::Message;
use crate::wire_protocol::WireProtocol;
use crate::wire_protocol::encoded_wire;

verus! {

/// Content of an `execute_request` message.
pub struct ExecuteRequest {
    pub code: String,
    pub silent: bool,
    pub store_history: bool,
    pub user_expressions: Vec<(String, String)>,
    pub allow_stdin: bool,
    pub stop_on_error: bool,
}

/// Content of a `kernel_info_request` message: the empty object.
pub struct KernelInfoRequest {
}

/// One `"name":"expression"` member of the user-expressions object.
pub open spec fn user_expression_member(p: (String, String)) -> Seq<u8> {
    json_member(p.0@, json_string_of_chars(p.1@))
}

/// The members of the user-expressions object, joined by commas.
pub open spec fn user_expression_members(ue: Seq<(String, String)>) -> Seq<u8>
    decreases ue.len(),
{
    if ue.len() == 0 {
        Seq::empty()
    } else if ue.len() == 1 {
        user_expression_member(ue.first())
    } else {
        user_expression_member(ue.first()) + seq![44u8] + user_expression_members(ue.drop_first())
    }
}

/// The user-expressions mapping as a compact JSON object.
pub open spec fn user_expressions_json(ue: Seq<(String, String)>) -> Seq<u8> {
    seq![123u8] + user_expression_members(ue) + seq![125u8]
}

/// The compact JSON object of execute-request content, member by member.
pub open spec fn execute_request_json(er: ExecuteRequest) -> Seq<u8> {
    seq![123u8] + json_member("code"@, json_string_of_chars(er.code@)) + seq![44u8]
        + json_member("silent"@, json_bool_of(er.silent)) + seq![44u8]
        + json_member("store_history"@, json_bool_of(er.store_history)) + seq![44u8]
        + json_member("user_expressions"@, user_expressions_json(er.user_expressions@))
        + seq![44u8] + json_member("allow_stdin"@, json_bool_of(er.allow_stdin)) + seq![44u8]
        + json_member("stop_on_error"@, json_bool_of(er.stop_on_error)) + seq![125u8]
}

proof fn lemma_user_expression_members_push(ue: Seq<(String, String)>, p: (String, String))
    ensures
        user_expression_members(ue.push(p)) == if ue.len() == 0 {
            user_expression_member(p)
        } else {
            user_expression_members(ue) + seq![44u8] + user_expression_member(p)
        },
    decreases ue.len(),
{
    if ue.len() == 0 {
        assert(ue.push(p).len() == 1);
        assert(ue.push(p).first() == p);
    } else {
        assert(ue.push(p).drop_first() =~= ue.drop_first().push(p));
        lemma_user_expression_members_push(ue.drop_first(), p);
        assert(user_expression_members(ue.push(p)) =~= user_expression_members(ue) + seq![44u8]
            + user_expression_member(p));
    }
}

impl ExecuteRequest {
    /// Execute-request content for a piece of source code, with the
    /// defaults used for interactive execution: not silent, history
    /// stored, no user expressions, stdin allowed, stop on error.
    pub fn new(code: String) -> (r: ExecuteRequest)
        ensures
            r.code@ == code@,
            r.silent == false,
            r.store_history == true,
            r.user_expressions@ == Seq::<(String, String)>::empty(),
            r.allow_stdin == true,
            r.stop_on_error == true,
    {
        ExecuteRequest {
            code,
            silent: false,
            store_history: true,
            user_expressions: Vec::new(),
            allow_stdin: true,
            stop_on_error: true,
        }
    }

    /// This content as a compact JSON object.
    #[verifier::rlimit(60)]
    pub fn to_json_bytes(&self) -> (r: Vec<u8>)
        ensures
            r@ == execute_request_json(*self),
    {
        let mut out: Vec<u8> = Vec::new();
        out.push(123);
        push_member_str(&mut out, "code", self.code.as_str());
        out.push(44);
        push_member_bool(&mut out, "silent", self.silent);
        out.push(44);
        push_member_bool(&mut out, "store_history", self.store_history);
        out.push(44);
        push_json_string(&mut out, "user_expressions");
        out.push(58);
        out.push(123);
        let ghost before_members = out@;
        let n = self.user_expressions.len();
        for i in 0..n
            invariant
                n == self.user_expressions@.len(),
                out@ == before_members + user_expression_members(self.user_expressions@.take(i as int)),
        {
            if i > 0 {
                out.push(44);
            }
            let pair = &self.user_expressions[i];
            push_member_str(&mut out, pair.0.as_str(), pair.1.as_str());
            proof {
                lemma_user_expression_members_push(
                    self.user_expressions@.take(i as int),
                    self.user_expressions@[i as int],
                );
                assert(self.user_expressions@.take(i as int).push(self.user_expressions@[i as int])
                    =~= self.user_expressions@.take(i + 1));
                assert(out@ =~= before_members + user_expression_members(
                    self.user_expressions@.take(i + 1),
                ));
            }
        }
        proof {
            assert(self.user_expressions@.take(n as int) =~= self.user_expressions@);
        }
        out.push(125);
        out.push(44);
        push_member_bool(&mut out, "allow_stdin", self.allow_stdin);
        out.push(44);
        push_member_bool(&mut out, "stop_on_error", self.stop_on_error);
        out.push(125);
        proof {
            assert(out@ =~= execute_request_json(*self));
        }
        out
    }

    /// Wrap this content in a fresh `execute_request` message.
    pub fn into_request(self) -> (r: Request)
        ensures
            r matches Request::Execute(m) && m.content == self && m.header.msg_type@
                == "execute_request"@ && m.parent_header is None && m.metadata is None
                && m.header.msg_id@.len() == 36,
    {
        let header = Header::new("execute_request".to_owned());
        Request::Execute(Message { header, parent_header: None, metadata: None, content: self })
    }
}

impl KernelInfoRequest {
    /// Kernel-info-request content; the wire form is the empty object.
    pub fn new() -> (r: KernelInfoRequest) {
        KernelInfoRequest {  }
    }

    /// Wrap this content in a fresh `kernel_info_request` message.
    pub fn into_request(self) -> (r: Request)
        ensures
            r matches Request::KernelInfo(m) && m.header.msg_type@ == "kernel_info_request"@
                && m.parent_header is None && m.metadata is None && m.header.msg_id@.len() == 36,
    {
        let header = Header::new("kernel_info_request".to_owned());
        Request::KernelInfo(Message { header, parent_header: None, metadata: None, content: self })
    }
}

/// A request to the kernel, tagged by kind.
pub enum Request {
    KernelInfo(Message<KernelInfoRequest>),
    Execute(Message<ExecuteRequest>),
}

/// The header of a request.
pub open spec fn request_header(rq: Request) -> Header {
    match rq {
        Request::KernelInfo(m) => m.header,
        Request::Execute(m) => m.header,
    }
}

/// The content of a request as compact JSON bytes.
pub open spec fn request_content_json(rq: Request) -> Seq<u8> {
    match rq {
        Request::KernelInfo(_) => empty_object_bytes(),
        Request::Execute(m) => execute_request_json(m.content),
    }
}

impl Request {
    /// The message id under which this request is routed.
    pub open spec fn spec_msg_id(&self) -> Seq<char> {
        request_header(*self).msg_id@
    }

    /// The message id from this request's header.
    pub fn msg_id(&self) -> (r: String)
        ensures
            r@ == self.spec_msg_id(),
    {
        match self {
            Request::KernelInfo(m) => m.header.msg_id.clone(),
            Request::Execute(m) => m.header.msg_id.clone(),
        }
    }

    /// Frame this request for the wire: header and content as compact
    /// JSON, signed under the ASCII bytes of the signing key.
    pub fn into_wire_protocol(&self, hmac_signing_key: &str) -> (r: WireProtocol)
        ensures
            r@ == encoded_wire(
                header_json_of(request_header(*self)@),
                request_content_json(*self),
                encode_utf8(hmac_signing_key@),
            ),
    {
        let header_bytes: Vec<u8>;
        let content_bytes: Vec<u8>;
        match self {
            Request::KernelInfo(m) => {
                header_bytes = m.header.to_json_bytes();
                content_bytes = crate::jsontext::empty_dict_as_bytes();
            },
            Request::Execute(m) => {
                header_bytes = m.header.to_json_bytes();
                content_bytes = m.content.to_json_bytes();
            },
        }
        WireProtocol::new(header_bytes, content_bytes, hmac_signing_key)
    }
}

} // verus!
