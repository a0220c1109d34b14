//! The verified half of the client facade.
//!
//! Submitting a request has a fixed discipline: the request's id is
//! registered in the router before anything is transmitted — so no reply
//! can arrive ahead of its route — and the signed wire frames are derived
//! from the request and the connection's signing key. The sockets that
//! carry the frames live outside the library.

use vstd::prelude::*;
use vstd::utf8::encode_utf8;

use crate::header::header_json_of;
use crate::request::Request;
use crate::request::request_content_json;
use crate::request::request_header;
use crate::router::Router;
use crate::router::route_index;
use crate::wire_protocol::encoded_wire;
use crate::wire_protocol::wire_frames;

verus! {

/// Register a request in the router and frame it for the wire. The
/// route exists before the frames do, and the frames are exactly the
/// signed encoding of the request under the key.
pub fn prepare_request(router: &mut Router, request: &Request, hmac_signing_key: &str) -> (frames:
    Vec<Vec<u8>>)
    requires
        old(router).wf(),
        route_index(old(router).routes@, request.spec_msg_id()) == -1,
    ensures
        final(router).wf(),
        final(router).routes@.len() == old(router).routes@.len() + 1,
        final(router).routes@.take(old(router).routes@.len() as int) == old(router).routes@,
        final(router).routes@.last().0@ == request.spec_msg_id(),
        final(router).routes@.last().1@ == Seq::<crate::response::Response>::empty(),
        frames.deep_view() == wire_frames(
            encoded_wire(
                header_json_of(request_header(*request)@),
                request_content_json(*request),
                encode_utf8(hmac_signing_key@),
            ),
        ),
{
    let msg_id = request.msg_id();
    router.register(msg_id);
    let wp = request.into_wire_protocol(hmac_signing_key);
    wp.to_frames()
}

} // verus!
