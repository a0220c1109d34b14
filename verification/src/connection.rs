//! The connection record for a running kernel.
//!
//! A connection file names the transport, the address, the port of each
//! socket, and the HMAC signing key. The record is immutable once built;
//! the socket addresses are derived from it as `transport://ip:port`.

use vstd::prelude::*;

use crate::jsonvalue::get_str_field;
use crate::jsonvalue::get_u64_field;
use crate::jsonvalue::json_str_field;
use crate::jsonvalue::json_u64_field;
use crate::textfmt::dec_chars;
use crate::textfmt::push_dec_u64;

verus! {

/// Connection parameters for one kernel: transport, address, ports, and
/// the HMAC signing key.
pub struct ConnectionInfo {
    pub ip: String,
    pub transport: String,
    pub shell_port: u16,
    pub iopub_port: u16,
    pub hb_port: u16,
    pub key: String,
}

/// The address `transport://ip:port` of one socket.
pub open spec fn address_chars(transport: Seq<char>, ip: Seq<char>, port: u16) -> Seq<char> {
    transport + "://"@ + ip + ":"@ + dec_chars(port as nat)
}

/// Whether a connection record can be read from the JSON bytes: all six
/// fields present, the ports within range.
pub open spec fn connection_info_parse_ok(b: Seq<u8>) -> bool {
    &&& json_str_field(b, "ip"@) is Some
    &&& json_str_field(b, "transport"@) is Some
    &&& json_str_field(b, "key"@) is Some
    &&& json_u64_field(b, "shell_port"@) matches Some(p) && p <= u16::MAX
    &&& json_u64_field(b, "iopub_port"@) matches Some(p) && p <= u16::MAX
    &&& json_u64_field(b, "hb_port"@) matches Some(p) && p <= u16::MAX
}

/// Whether `c` is the connection record held in the JSON bytes.
pub open spec fn connection_info_matches(c: ConnectionInfo, b: Seq<u8>) -> bool {
    &&& json_str_field(b, "ip"@) == Some(c.ip@)
    &&& json_str_field(b, "transport"@) == Some(c.transport@)
    &&& json_str_field(b, "key"@) == Some(c.key@)
    &&& json_u64_field(b, "shell_port"@) == Some(c.shell_port as u64)
    &&& json_u64_field(b, "iopub_port"@) == Some(c.iopub_port as u64)
    &&& json_u64_field(b, "hb_port"@) == Some(c.hb_port as u64)
}

impl Clone for ConnectionInfo {
    /// A copy with the same fields.
    fn clone(&self) -> (r: Self)
        ensures
            r == *self,
    {
        ConnectionInfo {
            ip: self.ip.clone(),
            transport: self.transport.clone(),
            shell_port: self.shell_port,
            iopub_port: self.iopub_port,
            hb_port: self.hb_port,
            key: self.key.clone(),
        }
    }
}

impl ConnectionInfo {
    /// The connection record held in a JSON connection file, if all six
    /// fields are present and the ports fit.
    pub fn parse(b: &[u8]) -> (r: Option<ConnectionInfo>)
        ensures
            r is Some <==> connection_info_parse_ok(b@),
            r matches Some(c) ==> connection_info_matches(c, b@),
    {
        let ip = match get_str_field(b, "ip") {
            Some(s) => s,
            None => { return None },
        };
        let transport = match get_str_field(b, "transport") {
            Some(s) => s,
            None => { return None },
        };
        let key = match get_str_field(b, "key") {
            Some(s) => s,
            None => { return None },
        };
        let shell_port = match Self::parse_port(b, "shell_port") {
            Some(p) => p,
            None => { return None },
        };
        let iopub_port = match Self::parse_port(b, "iopub_port") {
            Some(p) => p,
            None => { return None },
        };
        let hb_port = match Self::parse_port(b, "hb_port") {
            Some(p) => p,
            None => { return None },
        };
        Some(ConnectionInfo { ip, transport, shell_port, iopub_port, hb_port, key })
    }

    /// One port field, when present and within range.
    fn parse_port(b: &[u8], field: &str) -> (r: Option<u16>)
        ensures
            r matches Some(p) ==> json_u64_field(b@, field@) == Some(p as u64),
            r is None <==> !(json_u64_field(b@, field@) matches Some(p) && p <= u16::MAX),
    {
        match get_u64_field(b, field) {
            Some(p) => if p <= u16::MAX as u64 {
                Some(p as u16)
            } else {
                None
            },
            None => None,
        }
    }

    /// The address of one socket as `transport://ip:port`.
    fn address_of(&self, port: u16) -> (r: String)
        ensures
            r@ == address_chars(self.transport@, self.ip@, port),
    {
        let mut out = String::new();
        out.append(self.transport.as_str());
        out.append("://");
        out.append(self.ip.as_str());
        out.append(":");
        push_dec_u64(&mut out, port as u64);
        proof {
            assert(out@ =~= address_chars(self.transport@, self.ip@, port));
        }
        out
    }

    /// The address of the iopub (broadcast) socket.
    pub fn iopub_address(&self) -> (r: String)
        ensures
            r@ == address_chars(self.transport@, self.ip@, self.iopub_port),
    {
        self.address_of(self.iopub_port)
    }

    /// The address of the shell (request/reply) socket.
    pub fn shell_address(&self) -> (r: String)
        ensures
            r@ == address_chars(self.transport@, self.ip@, self.shell_port),
    {
        self.address_of(self.shell_port)
    }

    /// The address of the heartbeat socket.
    pub fn heartbeat_address(&self) -> (r: String)
        ensures
            r@ == address_chars(self.transport@, self.ip@, self.hb_port),
    {
        self.address_of(self.hb_port)
    }
}

} // verus!
