//! Per-message header metadata.
//!
//! Every message carries a header: a unique message id, a session id, a
//! username, an ISO-8601 timestamp, the message type, and the protocol
//! version. Outgoing headers are generated fresh; inbound headers are
//! parsed verbatim from their JSON frame.

use vstd::prelude::*;

use crate::jsontext::json_member;
use crate::jsontext::json_string_of_chars;
use crate::jsontext::push_member_str;
use crate::jsonvalue::get_str_field;
use crate::jsonvalue::json_str_field;
use crate::textfmt::iso8601_chars;
use crate::textfmt::iso8601_utc;

verus! {

/// Per-message metadata.
pub struct Header {
    pub msg_id: String,
    pub session: String,
    pub username: String,
    pub date: String,
    pub msg_type: String,
    pub version: String,
}

/// The mathematical content of a `Header`: its six fields as character
/// sequences.
#[verifier::ext_equal]
pub ghost struct HeaderView {
    pub msg_id: Seq<char>,
    pub session: Seq<char>,
    pub username: Seq<char>,
    pub date: Seq<char>,
    pub msg_type: Seq<char>,
    pub version: Seq<char>,
}

impl View for Header {
    type V = HeaderView;

    open spec fn view(&self) -> HeaderView {
        HeaderView {
            msg_id: self.msg_id@,
            session: self.session@,
            username: self.username@,
            date: self.date@,
            msg_type: self.msg_type@,
            version: self.version@,
        }
    }
}

/// The compact JSON object of a header, member by member.
pub open spec fn header_json_of(h: HeaderView) -> Seq<u8> {
    seq![123u8] + json_member("msg_id"@, json_string_of_chars(h.msg_id)) + seq![44u8]
        + json_member("session"@, json_string_of_chars(h.session)) + seq![44u8]
        + json_member("username"@, json_string_of_chars(h.username)) + seq![44u8]
        + json_member("date"@, json_string_of_chars(h.date)) + seq![44u8]
        + json_member("msg_type"@, json_string_of_chars(h.msg_type)) + seq![44u8]
        + json_member("version"@, json_string_of_chars(h.version)) + seq![125u8]
}

/// The header recovered from the string fields of a JSON object, if all six
/// are present.
pub open spec fn parsed_header(b: Seq<u8>) -> Option<HeaderView> {
    if json_str_field(b, "msg_id"@) matches Some(msg_id)
        && json_str_field(b, "session"@) matches Some(session)
        && json_str_field(b, "username"@) matches Some(username)
        && json_str_field(b, "date"@) matches Some(date)
        && json_str_field(b, "msg_type"@) matches Some(msg_type)
        && json_str_field(b, "version"@) matches Some(version) {
        Some(
            HeaderView {
                msg_id: json_str_field(b, "msg_id"@)->Some_0,
                session: json_str_field(b, "session"@)->Some_0,
                username: json_str_field(b, "username"@)->Some_0,
                date: json_str_field(b, "date"@)->Some_0,
                msg_type: json_str_field(b, "msg_type"@)->Some_0,
                version: json_str_field(b, "version"@)->Some_0,
            },
        )
    } else {
        None
    }
}

/// Relies on `uuid::Uuid::new_v4` and its `Display` form: a fresh random
/// version-4 UUID in hyphenated form, 36 ASCII characters. The value is
/// random, so nothing more is stated of it.
#[verifier::external_body]
pub fn new_uuid_string() -> (r: String)
    ensures
        r@.len() == 36,
{
    uuid::Uuid::new_v4().to_string()
}

/// Relies on `std::time::SystemTime::now`, read as a duration since
/// `std::time::UNIX_EPOCH` in whole seconds. The value depends on the
/// clock, so nothing is stated of it.
#[verifier::external_body]
pub fn unix_time_seconds() -> (r: u64) {
    match std::time::SystemTime::now().duration_since(std::time::UNIX_EPOCH) {
        Ok(d) => d.as_secs(),
        Err(_) => 0,
    }
}

impl Header {
    /// A fresh header for an outgoing message of the given type: a new
    /// random message id and session id, the library's username, the
    /// current UTC time, and the protocol version spoken here.
    pub fn new(msg_type: String) -> (r: Header)
        ensures
            r.msg_type@ == msg_type@,
            r.username@ == "kernel_sidecar"@,
            r.version@ == "5.3"@,
            r.msg_id@.len() == 36,
            r.session@.len() == 36,
            exists|secs: u64| r.date@ == iso8601_chars(secs as nat),
    {
        let now = unix_time_seconds();
        let date = iso8601_utc(now);
        let r = Header {
            msg_id: new_uuid_string(),
            session: new_uuid_string(),
            username: "kernel_sidecar".to_owned(),
            date,
            msg_type,
            version: "5.3".to_owned(),
        };
        proof {
            assert(r.date@ == iso8601_chars(now as nat));
        }
        r
    }

    /// This header as a compact JSON object.
    pub fn to_json_bytes(&self) -> (r: Vec<u8>)
        ensures
            r@ == header_json_of(self@),
    {
        let mut out: Vec<u8> = Vec::new();
        out.push(123);
        push_member_str(&mut out, "msg_id", self.msg_id.as_str());
        out.push(44);
        push_member_str(&mut out, "session", self.session.as_str());
        out.push(44);
        push_member_str(&mut out, "username", self.username.as_str());
        out.push(44);
        push_member_str(&mut out, "date", self.date.as_str());
        out.push(44);
        push_member_str(&mut out, "msg_type", self.msg_type.as_str());
        out.push(44);
        push_member_str(&mut out, "version", self.version.as_str());
        out.push(125);
        proof {
            assert(out@ =~= header_json_of(self@));
        }
        out
    }

    /// The header held in a JSON frame, if all six fields are present as
    /// strings.
    pub fn parse(b: &[u8]) -> (r: Option<Header>)
        ensures
            match r {
                Some(h) => parsed_header(b@) == Some(h@),
                None => parsed_header(b@) is None,
            },
    {
        let msg_id = get_str_field(b, "msg_id");
        let session = get_str_field(b, "session");
        let username = get_str_field(b, "username");
        let date = get_str_field(b, "date");
        let msg_type = get_str_field(b, "msg_type");
        let version = get_str_field(b, "version");
        match (msg_id, session, username, date, msg_type, version) {
            (Some(msg_id), Some(session), Some(username), Some(date), Some(msg_type), Some(
                version,
            )) => Some(Header { msg_id, session, username, date, msg_type, version }),
            _ => None,
        }
    }

    /// A header value built from its six fields.
    pub fn from_parts(
        msg_id: String,
        session: String,
        username: String,
        date: String,
        msg_type: String,
        version: String,
    ) -> (r: Header)
        ensures
            r.msg_id@ == msg_id@,
            r.session@ == session@,
            r.username@ == username@,
            r.date@ == date@,
            r.msg_type@ == msg_type@,
            r.version@ == version@,
    {
        Header { msg_id, session, username, date, msg_type, version }
    }
}

} // verus!
