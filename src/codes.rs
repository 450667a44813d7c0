//! Mirrors of the three header enumerations: message type, op-code and
//! response code, each with a total mapping in both directions.

use vstd::prelude::*;
use hickory_proto::op::{MessageType, OpCode, ResponseCode};

verus! {

/// Whether a message is a request or a response.
#[derive(Debug, Clone, Copy, PartialEq, Eq, Structural)]
pub enum MyMessageType {
    /// Queries are client requests: queries or updates.
    Query,
    /// Response message from a server or an upstream resolver.
    Response,
}

/// The canonical message type that a mirror stands for.
pub open spec fn message_type_to_canonical(t: MyMessageType) -> MessageType {
    match t {
        MyMessageType::Query => MessageType::Query,
        MyMessageType::Response => MessageType::Response,
    }
}

/// The mirror of a canonical message type.
pub open spec fn message_type_from_canonical(t: MessageType) -> MyMessageType {
    match t {
        MessageType::Query => MyMessageType::Query,
        MessageType::Response => MyMessageType::Response,
    }
}

impl MyMessageType {
    /// The mirror of a canonical message type.
    pub fn serdeify(msg_type: MessageType) -> (r: Self)
        ensures
            r == message_type_from_canonical(msg_type),
    {
        match msg_type {
            MessageType::Query => MyMessageType::Query,
            MessageType::Response => MyMessageType::Response,
        }
    }

    /// The canonical message type this mirror stands for.
    pub fn into_proto(self) -> (r: MessageType)
        ensures
            r == message_type_to_canonical(self),
    {
        match self {
            MyMessageType::Query => MessageType::Query,
            MyMessageType::Response => MessageType::Response,
        }
    }
}

/// The operation a message asks for.
#[derive(Debug, Clone, Copy, PartialEq, Eq, Structural)]
pub enum MyOpCode {
    /// Query request (RFC 1035).
    Query,
    /// Status message (RFC 1035).
    Status,
    /// Notify of change (RFC 1996).
    Notify,
    /// Update message (RFC 2136).
    Update,
}

/// The canonical op-code that a mirror stands for.
pub open spec fn op_code_to_canonical(c: MyOpCode) -> OpCode {
    match c {
        MyOpCode::Query => OpCode::Query,
        MyOpCode::Status => OpCode::Status,
        MyOpCode::Notify => OpCode::Notify,
        MyOpCode::Update => OpCode::Update,
    }
}

/// The mirror of a canonical op-code.
pub open spec fn op_code_from_canonical(c: OpCode) -> MyOpCode {
    match c {
        OpCode::Query => MyOpCode::Query,
        OpCode::Status => MyOpCode::Status,
        OpCode::Notify => MyOpCode::Notify,
        OpCode::Update => MyOpCode::Update,
    }
}

impl MyOpCode {
    /// The mirror of a canonical op-code.
    pub fn serdeify(op_code: OpCode) -> (r: Self)
        ensures
            r == op_code_from_canonical(op_code),
    {
        match op_code {
            OpCode::Query => MyOpCode::Query,
            OpCode::Status => MyOpCode::Status,
            OpCode::Notify => MyOpCode::Notify,
            OpCode::Update => MyOpCode::Update,
        }
    }

    /// The canonical op-code this mirror stands for.
    pub fn into_proto(self) -> (r: OpCode)
        ensures
            r == op_code_to_canonical(self),
    {
        match self {
            MyOpCode::Query => OpCode::Query,
            MyOpCode::Status => OpCode::Status,
            MyOpCode::Notify => OpCode::Notify,
            MyOpCode::Update => OpCode::Update,
        }
    }
}


/// A response code: the named codes of the RFCs, and `Unknown` with the raw
/// value of any other code.
#[allow(non_camel_case_types, clippy::upper_case_acronyms)]
#[derive(Debug, Clone, Copy, PartialEq, Eq, Structural)]
pub enum MyResponseCode {
    NoError,
    FormErr,
    ServFail,
    NXDomain,
    NotImp,
    Refused,
    YXDomain,
    YXRRSet,
    NXRRSet,
    NotAuth,
    NotZone,
    BADVERS,
    BADSIG,
    BADKEY,
    BADTIME,
    BADMODE,
    BADNAME,
    BADALG,
    BADTRUNC,
    BADCOOKIE,
    Unknown(u16),
}

/// The canonical response code that a mirror stands for.
pub open spec fn response_code_to_canonical(c: MyResponseCode) -> ResponseCode {
    match c {
        MyResponseCode::NoError => ResponseCode::NoError,
        MyResponseCode::FormErr => ResponseCode::FormErr,
        MyResponseCode::ServFail => ResponseCode::ServFail,
        MyResponseCode::NXDomain => ResponseCode::NXDomain,
        MyResponseCode::NotImp => ResponseCode::NotImp,
        MyResponseCode::Refused => ResponseCode::Refused,
        MyResponseCode::YXDomain => ResponseCode::YXDomain,
        MyResponseCode::YXRRSet => ResponseCode::YXRRSet,
        MyResponseCode::NXRRSet => ResponseCode::NXRRSet,
        MyResponseCode::NotAuth => ResponseCode::NotAuth,
        MyResponseCode::NotZone => ResponseCode::NotZone,
        MyResponseCode::BADVERS => ResponseCode::BADVERS,
        MyResponseCode::BADSIG => ResponseCode::BADSIG,
        MyResponseCode::BADKEY => ResponseCode::BADKEY,
        MyResponseCode::BADTIME => ResponseCode::BADTIME,
        MyResponseCode::BADMODE => ResponseCode::BADMODE,
        MyResponseCode::BADNAME => ResponseCode::BADNAME,
        MyResponseCode::BADALG => ResponseCode::BADALG,
        MyResponseCode::BADTRUNC => ResponseCode::BADTRUNC,
        MyResponseCode::BADCOOKIE => ResponseCode::BADCOOKIE,
        MyResponseCode::Unknown(code) => ResponseCode::Unknown(code),
    }
}

/// The mirror of a canonical response code.
pub open spec fn response_code_from_canonical(c: ResponseCode) -> MyResponseCode {
    match c {
        ResponseCode::NoError => MyResponseCode::NoError,
        ResponseCode::FormErr => MyResponseCode::FormErr,
        ResponseCode::ServFail => MyResponseCode::ServFail,
        ResponseCode::NXDomain => MyResponseCode::NXDomain,
        ResponseCode::NotImp => MyResponseCode::NotImp,
        ResponseCode::Refused => MyResponseCode::Refused,
        ResponseCode::YXDomain => MyResponseCode::YXDomain,
        ResponseCode::YXRRSet => MyResponseCode::YXRRSet,
        ResponseCode::NXRRSet => MyResponseCode::NXRRSet,
        ResponseCode::NotAuth => MyResponseCode::NotAuth,
        ResponseCode::NotZone => MyResponseCode::NotZone,
        ResponseCode::BADVERS => MyResponseCode::BADVERS,
        ResponseCode::BADSIG => MyResponseCode::BADSIG,
        ResponseCode::BADKEY => MyResponseCode::BADKEY,
        ResponseCode::BADTIME => MyResponseCode::BADTIME,
        ResponseCode::BADMODE => MyResponseCode::BADMODE,
        ResponseCode::BADNAME => MyResponseCode::BADNAME,
        ResponseCode::BADALG => MyResponseCode::BADALG,
        ResponseCode::BADTRUNC => MyResponseCode::BADTRUNC,
        ResponseCode::BADCOOKIE => MyResponseCode::BADCOOKIE,
        ResponseCode::Unknown(code) => MyResponseCode::Unknown(code),
    }
}

impl MyResponseCode {
    /// The mirror of a canonical response code; a code outside the named set
    /// becomes `Unknown` with its value.
    pub fn serdeify(response_code: ResponseCode) -> (r: Self)
        ensures
            r == response_code_from_canonical(response_code),
    {
        match response_code {
            ResponseCode::NoError => MyResponseCode::NoError,
            ResponseCode::FormErr => MyResponseCode::FormErr,
            ResponseCode::ServFail => MyResponseCode::ServFail,
            ResponseCode::NXDomain => MyResponseCode::NXDomain,
            ResponseCode::NotImp => MyResponseCode::NotImp,
            ResponseCode::Refused => MyResponseCode::Refused,
            ResponseCode::YXDomain => MyResponseCode::YXDomain,
            ResponseCode::YXRRSet => MyResponseCode::YXRRSet,
            ResponseCode::NXRRSet => MyResponseCode::NXRRSet,
            ResponseCode::NotAuth => MyResponseCode::NotAuth,
            ResponseCode::NotZone => MyResponseCode::NotZone,
            ResponseCode::BADVERS => MyResponseCode::BADVERS,
            ResponseCode::BADSIG => MyResponseCode::BADSIG,
            ResponseCode::BADKEY => MyResponseCode::BADKEY,
            ResponseCode::BADTIME => MyResponseCode::BADTIME,
            ResponseCode::BADMODE => MyResponseCode::BADMODE,
            ResponseCode::BADNAME => MyResponseCode::BADNAME,
            ResponseCode::BADALG => MyResponseCode::BADALG,
            ResponseCode::BADTRUNC => MyResponseCode::BADTRUNC,
            ResponseCode::BADCOOKIE => MyResponseCode::BADCOOKIE,
            ResponseCode::Unknown(code) => MyResponseCode::Unknown(code),
        }
    }

    /// The canonical response code this mirror stands for; `Unknown` keeps its
    /// exact value.
    pub fn into_proto(self) -> (r: ResponseCode)
        ensures
            r == response_code_to_canonical(self),
    {
        match self {
            MyResponseCode::NoError => ResponseCode::NoError,
            MyResponseCode::FormErr => ResponseCode::FormErr,
            MyResponseCode::ServFail => ResponseCode::ServFail,
            MyResponseCode::NXDomain => ResponseCode::NXDomain,
            MyResponseCode::NotImp => ResponseCode::NotImp,
            MyResponseCode::Refused => ResponseCode::Refused,
            MyResponseCode::YXDomain => ResponseCode::YXDomain,
            MyResponseCode::YXRRSet => ResponseCode::YXRRSet,
            MyResponseCode::NXRRSet => ResponseCode::NXRRSet,
            MyResponseCode::NotAuth => ResponseCode::NotAuth,
            MyResponseCode::NotZone => ResponseCode::NotZone,
            MyResponseCode::BADVERS => ResponseCode::BADVERS,
            MyResponseCode::BADSIG => ResponseCode::BADSIG,
            MyResponseCode::BADKEY => ResponseCode::BADKEY,
            MyResponseCode::BADTIME => ResponseCode::BADTIME,
            MyResponseCode::BADMODE => ResponseCode::BADMODE,
            MyResponseCode::BADNAME => ResponseCode::BADNAME,
            MyResponseCode::BADALG => ResponseCode::BADALG,
            MyResponseCode::BADTRUNC => ResponseCode::BADTRUNC,
            MyResponseCode::BADCOOKIE => ResponseCode::BADCOOKIE,
            MyResponseCode::Unknown(code) => ResponseCode::Unknown(code),
        }
    }
}

/// Every canonical message type comes back unchanged through its mirror, and
/// every mirror through its canonical value.
pub proof fn lemma_message_type_round_trip(t: MessageType, m: MyMessageType)
    ensures
        message_type_to_canonical(message_type_from_canonical(t)) == t,
        message_type_from_canonical(message_type_to_canonical(m)) == m,
{
}

/// Every canonical op-code comes back unchanged through its mirror, and every
/// mirror through its canonical value.
pub proof fn lemma_op_code_round_trip(c: OpCode, m: MyOpCode)
    ensures
        op_code_to_canonical(op_code_from_canonical(c)) == c,
        op_code_from_canonical(op_code_to_canonical(m)) == m,
{
}

/// Every canonical response code, named or unknown, comes back unchanged
/// through its mirror; an unknown code keeps its exact numeric value.
pub proof fn lemma_response_code_round_trip(c: ResponseCode, m: MyResponseCode)
    ensures
        response_code_to_canonical(response_code_from_canonical(c)) == c,
        response_code_from_canonical(response_code_to_canonical(m)) == m,
        forall|v: u16|
            #[trigger] response_code_from_canonical(ResponseCode::Unknown(v))
                == MyResponseCode::Unknown(v),
{
}

} // verus!
