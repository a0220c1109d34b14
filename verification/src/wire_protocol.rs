//! The signed multipart wire form of a message.
//!
//! A message travels as an ordered list of byte frames: an identity frame,
//! the literal delimiter `<IDS|MSG>`, a lowercase-hex HMAC-SHA256 signature,
//! and the four JSON frames `header`, `parent_header`, `metadata`, `content`.
//! The signature is computed over the concatenation of the four JSON frames,
//! with no separators, keyed by the connection's signing key.

use vstd::prelude::*;
use vstd::string::StringSliceAdditionalSpecFns;
use vstd::utf8::encode_utf8;

use crate::jsontext::empty_object_bytes;
use crate::jsontext::hex_digit_lower;

verus! {

/// The HMAC-SHA256 tag of `msg` under `key`. The tag is a pure function of
/// the key and the message; its bytes are named here and computed by the
/// `ring` crate below.
pub uninterp spec fn hmac_sha256(key: Seq<u8>, msg: Seq<u8>) -> Seq<u8>;

/// The lowercase hexadecimal encoding of a byte sequence, two digits per
/// byte, high nibble first.
pub open spec fn hex_bytes_of(bs: Seq<u8>) -> Seq<u8>
    decreases bs.len(),
{
    if bs.len() == 0 {
        Seq::empty()
    } else {
        seq![
            hex_digit_lower((bs.first() / 16) as u8),
            hex_digit_lower((bs.first() % 16) as u8),
        ] + hex_bytes_of(bs.drop_first())
    }
}

/// Relies on `ring::hmac::sign` with `ring::hmac::HMAC_SHA256` (the key is
/// built with `ring::hmac::Key::new`): the returned tag is the HMAC-SHA256
/// of `msg` under `key`, a 32-byte digest.
#[verifier::external_body]
fn hmac_sha256_sign(key: &[u8], msg: &[u8]) -> (r: Vec<u8>)
    ensures
        r@ == hmac_sha256(key@, msg@),
        r@.len() == 32,
{
    let k = ring::hmac::Key::new(ring::hmac::HMAC_SHA256, key);
    ring::hmac::sign(&k, msg).as_ref().to_vec()
}

/// Relies on `hex::encode`: lowercase hexadecimal, two digits per byte,
/// high nibble first.
#[verifier::external_body]
fn hex_encode_lower(b: &[u8]) -> (r: Vec<u8>)
    ensures
        r@ == hex_bytes_of(b@),
{
    hex::encode(b).into_bytes()
}

/// The signature frame for the four JSON frames of a message.
pub open spec fn wire_signature(
    key: Seq<u8>,
    header: Seq<u8>,
    parent_header: Seq<u8>,
    metadata: Seq<u8>,
    content: Seq<u8>,
) -> Seq<u8> {
    hex_bytes_of(hmac_sha256(key, header + parent_header + metadata + content))
}

/// The literal delimiter frame.
pub open spec fn delimiter_frame() -> Seq<u8> {
    encode_utf8("<IDS|MSG>"@)
}

/// The identity frame placed on outgoing messages.
pub open spec fn outbound_identity() -> Seq<u8> {
    encode_utf8("kernel"@)
}

/// The identity frame synthesised for inbound messages that arrived
/// without one.
pub open spec fn placeholder_identity() -> Seq<u8> {
    encode_utf8("missing identity header"@)
}

/// A message in wire form: the seven frames.
pub struct WireProtocol {
    pub identity: Vec<u8>,
    pub delimiter: Vec<u8>,
    pub hmac_signature: Vec<u8>,
    pub header: Vec<u8>,
    pub parent_header: Vec<u8>,
    pub metadata: Vec<u8>,
    pub content: Vec<u8>,
}

/// The mathematical content of a `WireProtocol` value: its frames as byte
/// sequences.
#[verifier::ext_equal]
pub ghost struct WireProtocolView {
    pub identity: Seq<u8>,
    pub delimiter: Seq<u8>,
    pub hmac_signature: Seq<u8>,
    pub header: Seq<u8>,
    pub parent_header: Seq<u8>,
    pub metadata: Seq<u8>,
    pub content: Seq<u8>,
}

impl View for WireProtocol {
    type V = WireProtocolView;

    open spec fn view(&self) -> WireProtocolView {
        WireProtocolView {
            identity: self.identity@,
            delimiter: self.delimiter@,
            hmac_signature: self.hmac_signature@,
            header: self.header@,
            parent_header: self.parent_header@,
            metadata: self.metadata@,
            content: self.content@,
        }
    }
}

/// The wire form of an outgoing message: fresh header and content frames,
/// canonical empty objects for `parent_header` and `metadata`, and a
/// signature over the four JSON frames.
pub open spec fn encoded_wire(header: Seq<u8>, content: Seq<u8>, key: Seq<u8>) -> WireProtocolView {
    WireProtocolView {
        identity: outbound_identity(),
        delimiter: delimiter_frame(),
        hmac_signature: wire_signature(
            key,
            header,
            empty_object_bytes(),
            empty_object_bytes(),
            content,
        ),
        header: header,
        parent_header: empty_object_bytes(),
        metadata: empty_object_bytes(),
        content: content,
    }
}

/// The frame list of a message in wire form.
pub open spec fn wire_frames(w: WireProtocolView) -> Seq<Seq<u8>> {
    seq![
        w.identity,
        w.delimiter,
        w.hmac_signature,
        w.header,
        w.parent_header,
        w.metadata,
        w.content,
    ]
}

/// The wire form recovered from an inbound frame list. With exactly seven
/// frames the first is the identity; with six or more the identity frame is
/// taken to be missing and a placeholder stands in; with fewer than six
/// frames the message is malformed.
pub open spec fn decoded_wire(frames: Seq<Seq<u8>>) -> Option<WireProtocolView> {
    if frames.len() < 6 {
        None
    } else if frames.len() == 7 {
        Some(
            WireProtocolView {
                identity: frames[0],
                delimiter: frames[1],
                hmac_signature: frames[2],
                header: frames[3],
                parent_header: frames[4],
                metadata: frames[5],
                content: frames[6],
            },
        )
    } else {
        Some(
            WireProtocolView {
                identity: placeholder_identity(),
                delimiter: frames[0],
                hmac_signature: frames[1],
                header: frames[2],
                parent_header: frames[3],
                metadata: frames[4],
                content: frames[5],
            },
        )
    }
}

/// The signature frame computed for the four JSON frames under the signing
/// key, as lowercase hex bytes.
pub fn gen_hmac_sig(
    key: &[u8],
    header: &Vec<u8>,
    parent_header: &Vec<u8>,
    metadata: &Vec<u8>,
    content: &Vec<u8>,
) -> (r: Vec<u8>)
    ensures
        r@ == wire_signature(key@, header@, parent_header@, metadata@, content@),
{
    let mut msg: Vec<u8> = Vec::new();
    msg.extend_from_slice(header.as_slice());
    msg.extend_from_slice(parent_header.as_slice());
    msg.extend_from_slice(metadata.as_slice());
    msg.extend_from_slice(content.as_slice());
    proof {
        assert(msg@ =~= header@ + parent_header@ + metadata@ + content@);
    }
    let tag = hmac_sha256_sign(key, msg.as_slice());
    hex_encode_lower(tag.as_slice())
}

impl WireProtocol {
    /// Frame an outgoing message: the given header and content JSON bytes,
    /// canonical empty objects for parent header and metadata, and the
    /// signature under the ASCII bytes of the signing key.
    pub fn new(header: Vec<u8>, content: Vec<u8>, hmac_signing_key: &str) -> (r: Self)
        ensures
            r@ == encoded_wire(header@, content@, encode_utf8(hmac_signing_key@)),
    {
        let parent_header = crate::jsontext::empty_dict_as_bytes();
        let metadata = crate::jsontext::empty_dict_as_bytes();
        let key = hmac_signing_key.as_bytes();
        let hmac_signature = gen_hmac_sig(key, &header, &parent_header, &metadata, &content);
        let identity = "kernel".as_bytes_vec();
        let delimiter = "<IDS|MSG>".as_bytes_vec();
        WireProtocol { identity, delimiter, hmac_signature, header, parent_header, metadata, content }
    }

    /// The seven frames of this message, in wire order.
    pub fn to_frames(self) -> (r: Vec<Vec<u8>>)
        ensures
            r.deep_view() == wire_frames(self@),
    {
        let ghost w = self@;
        let WireProtocol { identity, delimiter, hmac_signature, header, parent_header, metadata, content } =
            self;
        let mut frames: Vec<Vec<u8>> = Vec::new();
        frames.push(identity);
        frames.push(delimiter);
        frames.push(hmac_signature);
        frames.push(header);
        frames.push(parent_header);
        frames.push(metadata);
        frames.push(content);
        proof {
            assert(frames.deep_view() =~~= wire_frames(w));
        }
        frames
    }

    /// Recover the wire form from an inbound frame list, if it holds enough
    /// frames.
    pub fn from_frames(frames: Vec<Vec<u8>>) -> (r: Option<Self>)
        ensures
            match r {
                Some(w) => decoded_wire(frames.deep_view()) == Some(w@),
                None => decoded_wire(frames.deep_view()) is None,
            },
    {
        let ghost df = frames.deep_view();
        let ghost g = frames@;
        proof {
            assert forall|i: int| 0 <= i < g.len() implies df[i] == g[i]@ by {
                assert(g[i].deep_view() =~= g[i]@);
            }
        }
        let mut frames = frames;
        if frames.len() < 6 {
            return None;
        }
        let skip_identity = frames.len() == 7;
        let identity: Vec<u8> = if skip_identity {
            frames.remove(0)
        } else {
            "missing identity header".as_bytes_vec()
        };
        let delimiter = frames.remove(0);
        let hmac_signature = frames.remove(0);
        let header = frames.remove(0);
        let parent_header = frames.remove(0);
        let metadata = frames.remove(0);
        let content = frames.remove(0);
        let w = WireProtocol {
            identity,
            delimiter,
            hmac_signature,
            header,
            parent_header,
            metadata,
            content,
        };
        proof {
            let target = decoded_wire(df);
            assert(target matches Some(v) && v =~~= w@);
        }
        Some(w)
    }
}

/// Whether two byte strings hold the same bytes.
fn bytes_eq(a: &[u8], b: &[u8]) -> (r: bool)
    ensures
        r == (a@ == b@),
{
    if a.len() != b.len() {
        proof {
            assert(a@ != b@);
        }
        return false;
    }
    let n = a.len();
    for i in 0..n
        invariant
            n == a@.len(),
            n == b@.len(),
            forall|j: int| 0 <= j < i ==> a@[j] == b@[j],
    {
        if a[i] != b[i] {
            proof {
                assert(a@ != b@);
            }
            return false;
        }
    }
    proof {
        assert(a@ =~= b@);
    }
    true
}

impl WireProtocol {
    /// Whether the signature frame is the HMAC signature of the four JSON
    /// frames under the given key. Inbound verification is optional; a
    /// deployment that enables it drops any message for which this check
    /// fails.
    pub fn signature_matches(&self, hmac_signing_key: &str) -> (r: bool)
        ensures
            r == (self.hmac_signature@ == wire_signature(
                encode_utf8(hmac_signing_key@),
                self.header@,
                self.parent_header@,
                self.metadata@,
                self.content@,
            )),
    {
        let expected = gen_hmac_sig(
            hmac_signing_key.as_bytes(),
            &self.header,
            &self.parent_header,
            &self.metadata,
            &self.content,
        );
        bytes_eq(self.hmac_signature.as_slice(), expected.as_slice())
    }
}

/// Framing then decoding reproduces the message: for any header and content
/// bytes and any key, the decoded wire form holds the same header, content,
/// and canonical empty parent header, and its signature frame is exactly
/// the signature recomputed over the decoded JSON frames.
pub proof fn lemma_encode_decode_round_trip(header: Seq<u8>, content: Seq<u8>, key: Seq<u8>)
    ensures
        decoded_wire(wire_frames(encoded_wire(header, content, key))) matches Some(w)
            && w == encoded_wire(header, content, key)
            && w.header == header
            && w.content == content
            && w.parent_header == empty_object_bytes()
            && w.hmac_signature == wire_signature(
                key, w.header, w.parent_header, w.metadata, w.content,
            ),
{
    let frames = wire_frames(encoded_wire(header, content, key));
    assert(frames.len() == 7);
}

/// Identity-frame tolerance: an inbound list of six frames decodes to the
/// same message as the same list with an identity frame prefixed; only the
/// identity differs, and it is the placeholder in the six-frame case.
pub proof fn lemma_identity_frame_tolerance(frames: Seq<Seq<u8>>, identity: Seq<u8>)
    requires
        frames.len() == 6,
    ensures
        decoded_wire(frames) matches Some(bare),
        decoded_wire(seq![identity] + frames) matches Some(with_id)
            && (decoded_wire(frames) matches Some(bare) ==> {
                &&& with_id.identity == identity
                &&& bare.identity == placeholder_identity()
                &&& with_id.delimiter == bare.delimiter
                &&& with_id.hmac_signature == bare.hmac_signature
                &&& with_id.header == bare.header
                &&& with_id.parent_header == bare.parent_header
                &&& with_id.metadata == bare.metadata
                &&& with_id.content == bare.content
            }),
{
    let prefixed = seq![identity] + frames;
    assert(prefixed.len() == 7);
    assert(prefixed[0] == identity);
    assert forall|i: int| 0 <= i < 6 implies prefixed[i + 1] == frames[i] by {}
}

} // verus!
