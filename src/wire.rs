//! The translation boundary: wire bytes to a message mirror, and back.

use vstd::prelude::*;
use hickory_proto::op::Message;
use crate::canonical::{message_from_wire, message_to_wire, wire_decoded, wire_encodes};
use crate::mirror::{lemma_mirror_model, lemma_rebuilt_model, MyMessage};

verus! {

/// What can go wrong at the boundary, each with a description.
#[derive(Debug, Clone, PartialEq, Eq)]
pub enum MirrorError {
    /// The wire decoder rejected the bytes.
    ProtocolDecode(String),
    /// A structured value does not have the shape of a message mirror.
    StructuredValue(String),
    /// The wire encoder rejected the rebuilt message.
    ProtocolEncode(String),
}

/// The mirror of what the wire decoder returned: the mirror of a decoded
/// message, or its error as a decode error. No mapping of a field fails.
pub fn mirror_decoded(decoded: Result<Message, String>) -> (r: Result<MyMessage, MirrorError>)
    ensures
        match decoded {
            Ok(msg) => r is Ok && r->Ok_0.mirrors(msg),
            Err(e) => r == Err::<MyMessage, MirrorError>(MirrorError::ProtocolDecode(e)),
        },
{
    match decoded {
        Ok(msg) => Ok(MyMessage::serdeify(msg)),
        Err(e) => Err(MirrorError::ProtocolDecode(e)),
    }
}

/// Decodes a DNS message from wire bytes into its mirror. A buffer shorter
/// than a header is refused; no partial mirror is ever returned. The mirror
/// says of the message what the decoder read from the bytes.
pub fn decode(data: &[u8]) -> (r: Result<MyMessage, MirrorError>)
    ensures
        r is Ok <==> wire_decoded(data@) is Some,
        r is Ok ==> wire_decoded(data@) == Some(r->Ok_0.model()),
        r is Ok ==> exists|msg: Message| r->Ok_0.mirrors(msg),
        data@.len() < 12 ==> r is Err,
        r is Err ==> r->Err_0 is ProtocolDecode,
{
    let decoded = message_from_wire(data);
    let ghost read = decoded;
    let r = mirror_decoded(decoded);
    proof {
        if r is Ok {
            lemma_mirror_model(read->Ok_0, r->Ok_0);
        }
    }
    r
}

/// The bytes that the wire encoder returned, or its error as an encode error.
pub fn encoded_bytes(encoded: Result<Vec<u8>, String>) -> (r: Result<Vec<u8>, MirrorError>)
    ensures
        match encoded {
            Ok(b) => r == Ok::<Vec<u8>, MirrorError>(b),
            Err(e) => r == Err::<Vec<u8>, MirrorError>(MirrorError::ProtocolEncode(e)),
        },
{
    match encoded {
        Ok(b) => Ok(b),
        Err(e) => Err(MirrorError::ProtocolEncode(e)),
    }
}

/// Rebuilds the canonical message that a mirror stands for and encodes it to
/// wire bytes. Whether it succeeds depends on the mirror's rebuilt model
/// alone, so its EDNS options play no part; the bytes start with the header,
/// led by the mirror's id in network order.
pub fn encode(msg: MyMessage) -> (r: Result<Vec<u8>, MirrorError>)
    ensures
        r is Ok <==> wire_encodes(msg.rebuilt_model()),
        r is Ok ==> r->Ok_0@.len() >= 12,
        r is Ok ==> r->Ok_0@[0] == (msg.header.id / 256) as u8,
        r is Ok ==> r->Ok_0@[1] == (msg.header.id % 256) as u8,
        r is Err ==> r->Err_0 is ProtocolEncode,
{
    let ghost mirror = msg;
    let message = msg.into_proto();
    proof {
        lemma_rebuilt_model(mirror, message);
    }
    encoded_bytes(message_to_wire(&message))
}

/// Two mirrors that differ at most in the options of their EDNS records are
/// rebuilt into the same model, so encoding succeeds for both or for
/// neither: the options never reach the encoder.
pub proof fn lemma_encode_ignores_options(a: MyMessage, b: MyMessage)
    requires
        a.header == b.header,
        a.queries@ == b.queries@,
        a.answers == b.answers,
        a.name_servers == b.name_servers,
        a.additionals == b.additionals,
        a.signature == b.signature,
        a.edns is Some <==> b.edns is Some,
        a.edns is Some ==> {
            let (x, y) = (a.edns->Some_0, b.edns->Some_0);
            &&& x.rcode_high == y.rcode_high
            &&& x.version == y.version
            &&& x.dnssec_ok == y.dnssec_ok
            &&& x.max_payload == y.max_payload
        },
    ensures
        a.rebuilt_model() == b.rebuilt_model(),
        wire_encodes(a.rebuilt_model()) == wire_encodes(b.rebuilt_model()),
{
}

} // verus!
