//! Declarations of the hickory-proto types that the translation reads and
//! builds, the field models through which contracts speak of them, and the
//! accessors that the translation calls.

use vstd::prelude::*;
use hickory_proto::op::{
    Edns, Header, Message, MessageParts, MessageType, OpCode, Query, ResponseCode,
};
use hickory_proto::rr::rdata::OPT;
use hickory_proto::rr::{DNSClass, Name, Record, RecordType};

verus! {

/// Declared with its variants visible: both are unit variants.
#[verifier::external_type_specification]
pub struct ExMessageType(MessageType);

/// Declared with its variants visible: all four are unit variants.
#[verifier::external_type_specification]
pub struct ExOpCode(OpCode);

/// Declared with its variants visible: named codes plus `Unknown(u16)`.
#[verifier::external_type_specification]
pub struct ExResponseCode(ResponseCode);

#[verifier::external_type_specification]
#[verifier::external_body]
pub struct ExHeader(Header);

#[verifier::external_type_specification]
#[verifier::external_body]
pub struct ExQuery(Query);

#[verifier::external_type_specification]
#[verifier::external_body]
pub struct ExEdns(Edns);

#[verifier::external_type_specification]
#[verifier::external_body]
pub struct ExMessage(Message);

#[verifier::external_type_specification]
#[verifier::external_body]
pub struct ExName(Name);

#[verifier::external_type_specification]
#[verifier::external_body]
pub struct ExRecordType(RecordType);

#[verifier::external_type_specification]
#[verifier::external_body]
pub struct ExDNSClass(DNSClass);

#[verifier::external_type_specification]
#[verifier::external_body]
pub struct ExOPT(OPT);

/// The resource records of one message section, in their order, carried
/// through unchanged: their own structure is the protocol library's concern.
#[verifier::external_body]
#[derive(Debug)]
pub struct RecordSection {
    pub records: Vec<Record>,
}

/// The sections of a canonical message, moved out of it.
pub struct Sections {
    pub header: Header,
    pub queries: Vec<Query>,
    pub answers: RecordSection,
    pub name_servers: RecordSection,
    pub additionals: RecordSection,
    pub signature: RecordSection,
    pub edns: Option<Edns>,
}

/// The fourteen fields that a canonical header holds.
pub struct HeaderFields {
    pub id: u16,
    pub message_type: MessageType,
    pub op_code: OpCode,
    pub authoritative: bool,
    pub truncation: bool,
    pub recursion_desired: bool,
    pub recursion_available: bool,
    pub authentic_data: bool,
    pub checking_disabled: bool,
    pub response_code: ResponseCode,
    pub query_count: u16,
    pub answer_count: u16,
    pub name_server_count: u16,
    pub additional_count: u16,
}

/// What a canonical header holds, field by field.
pub uninterp spec fn header_fields(h: Header) -> HeaderFields;

/// The three fields that a canonical query holds.
pub struct QueryFields {
    pub name: Name,
    pub query_type: RecordType,
    pub query_class: DNSClass,
}

/// What a canonical query holds, field by field.
pub uninterp spec fn query_fields(q: Query) -> QueryFields;

/// The fields of a canonical EDNS record: four scalars and its options.
pub struct EdnsFields {
    pub rcode_high: u8,
    pub version: u8,
    pub dnssec_ok: bool,
    pub max_payload: u16,
    pub options: OPT,
}

/// What a canonical EDNS record holds.
pub uninterp spec fn edns_fields(e: Edns) -> EdnsFields;

/// How many options an OPT record data holds.
pub uninterp spec fn opt_size(o: OPT) -> usize;

/// The sections of a canonical message.
pub uninterp spec fn message_sections(m: Message) -> Sections;

/// The scalar fields of an EDNS record and how many options it holds.
pub struct EdnsSummary {
    pub rcode_high: u8,
    pub version: u8,
    pub dnssec_ok: bool,
    pub max_payload: u16,
    pub option_count: usize,
}

/// What a canonical message holds, over the field models: the header, the
/// queries in order, the four record sections and a summary of its EDNS
/// record.
pub struct WireModel {
    pub header: HeaderFields,
    pub queries: Seq<QueryFields>,
    pub answers: RecordSection,
    pub name_servers: RecordSection,
    pub additionals: RecordSection,
    pub signature: RecordSection,
    pub edns: Option<EdnsSummary>,
}

/// The summary of a canonical EDNS record.
pub open spec fn edns_summary(e: Edns) -> EdnsSummary {
    let f = edns_fields(e);
    EdnsSummary {
        rcode_high: f.rcode_high,
        version: f.version,
        dnssec_ok: f.dnssec_ok,
        max_payload: f.max_payload,
        option_count: opt_size(f.options),
    }
}

/// The model of a canonical message.
pub open spec fn wire_model(m: Message) -> WireModel {
    let s = message_sections(m);
    WireModel {
        header: header_fields(s.header),
        queries: s.queries@.map_values(|q: Query| query_fields(q)),
        answers: s.answers,
        name_servers: s.name_servers,
        additionals: s.additionals,
        signature: s.signature,
        edns: match s.edns {
            Some(e) => Some(edns_summary(e)),
            None => None,
        },
    }
}

/// The message has no EDNS record, or one without options: then the model
/// holds everything that the wire encoder reads.
pub open spec fn option_free(w: WireModel) -> bool {
    match w.edns {
        Some(e) => e.option_count == 0,
        None => true,
    }
}

/// The model of the message that the wire decoder reads from these bytes, or
/// `None` where it refuses them.
pub uninterp spec fn wire_decoded(data: Seq<u8>) -> Option<WireModel>;

/// Whether the wire encoder emits a message of this model.
pub uninterp spec fn wire_encodes(w: WireModel) -> bool;

/// Relies on `Header::default`, which sets every field to zero, false,
/// `Query`, `Query` op-code and `NoError`.
#[verifier::external_body]
pub fn header_default() -> (r: Header)
    ensures
        header_fields(r) == (HeaderFields {
            id: 0,
            message_type: MessageType::Query,
            op_code: OpCode::Query,
            authoritative: false,
            truncation: false,
            recursion_desired: false,
            recursion_available: false,
            authentic_data: false,
            checking_disabled: false,
            response_code: ResponseCode::NoError,
            query_count: 0,
            answer_count: 0,
            name_server_count: 0,
            additional_count: 0,
        }),
{
    Header::default()
}

/// Relies on `Header::id`, which returns the field as stored.
#[verifier::external_body]
pub fn header_id(h: &Header) -> (r: u16)
    ensures
        r == header_fields(*h).id,
{
    h.id()
}

/// Relies on `Header::set_id`, which stores the value and changes no other field.
#[verifier::external_body]
pub fn header_set_id(h: &mut Header, v: u16)
    ensures
        header_fields(*final(h)) == (HeaderFields { id: v, ..header_fields(*old(h)) }),
{
    h.set_id(v);
}

/// Relies on `Header::message_type`, which returns the field as stored.
#[verifier::external_body]
pub fn header_message_type(h: &Header) -> (r: MessageType)
    ensures
        r == header_fields(*h).message_type,
{
    h.message_type()
}

/// Relies on `Header::set_message_type`, which stores the value and changes no other field.
#[verifier::external_body]
pub fn header_set_message_type(h: &mut Header, v: MessageType)
    ensures
        header_fields(*final(h)) == (HeaderFields { message_type: v, ..header_fields(*old(h)) }),
{
    h.set_message_type(v);
}

/// Relies on `Header::op_code`, which returns the field as stored.
#[verifier::external_body]
pub fn header_op_code(h: &Header) -> (r: OpCode)
    ensures
        r == header_fields(*h).op_code,
{
    h.op_code()
}

/// Relies on `Header::set_op_code`, which stores the value and changes no other field.
#[verifier::external_body]
pub fn header_set_op_code(h: &mut Header, v: OpCode)
    ensures
        header_fields(*final(h)) == (HeaderFields { op_code: v, ..header_fields(*old(h)) }),
{
    h.set_op_code(v);
}

/// Relies on `Header::authoritative`, which returns the field as stored.
#[verifier::external_body]
pub fn header_authoritative(h: &Header) -> (r: bool)
    ensures
        r == header_fields(*h).authoritative,
{
    h.authoritative()
}

/// Relies on `Header::set_authoritative`, which stores the value and changes no other field.
#[verifier::external_body]
pub fn header_set_authoritative(h: &mut Header, v: bool)
    ensures
        header_fields(*final(h)) == (HeaderFields { authoritative: v, ..header_fields(*old(h)) }),
{
    h.set_authoritative(v);
}

/// Relies on `Header::truncated`, which returns the field as stored.
#[verifier::external_body]
pub fn header_truncation(h: &Header) -> (r: bool)
    ensures
        r == header_fields(*h).truncation,
{
    h.truncated()
}

/// Relies on `Header::set_truncated`, which stores the value and changes no other field.
#[verifier::external_body]
pub fn header_set_truncation(h: &mut Header, v: bool)
    ensures
        header_fields(*final(h)) == (HeaderFields { truncation: v, ..header_fields(*old(h)) }),
{
    h.set_truncated(v);
}

/// Relies on `Header::recursion_desired`, which returns the field as stored.
#[verifier::external_body]
pub fn header_recursion_desired(h: &Header) -> (r: bool)
    ensures
        r == header_fields(*h).recursion_desired,
{
    h.recursion_desired()
}

/// Relies on `Header::set_recursion_desired`, which stores the value and changes no other field.
#[verifier::external_body]
pub fn header_set_recursion_desired(h: &mut Header, v: bool)
    ensures
        header_fields(*final(h)) == (HeaderFields { recursion_desired: v, ..header_fields(*old(h)) }),
{
    h.set_recursion_desired(v);
}

/// Relies on `Header::recursion_available`, which returns the field as stored.
#[verifier::external_body]
pub fn header_recursion_available(h: &Header) -> (r: bool)
    ensures
        r == header_fields(*h).recursion_available,
{
    h.recursion_available()
}

/// Relies on `Header::set_recursion_available`, which stores the value and changes no other field.
#[verifier::external_body]
pub fn header_set_recursion_available(h: &mut Header, v: bool)
    ensures
        header_fields(*final(h)) == (HeaderFields { recursion_available: v, ..header_fields(*old(h)) }),
{
    h.set_recursion_available(v);
}

/// Relies on `Header::authentic_data`, which returns the field as stored.
#[verifier::external_body]
pub fn header_authentic_data(h: &Header) -> (r: bool)
    ensures
        r == header_fields(*h).authentic_data,
{
    h.authentic_data()
}

/// Relies on `Header::set_authentic_data`, which stores the value and changes no other field.
#[verifier::external_body]
pub fn header_set_authentic_data(h: &mut Header, v: bool)
    ensures
        header_fields(*final(h)) == (HeaderFields { authentic_data: v, ..header_fields(*old(h)) }),
{
    h.set_authentic_data(v);
}

/// Relies on `Header::checking_disabled`, which returns the field as stored.
#[verifier::external_body]
pub fn header_checking_disabled(h: &Header) -> (r: bool)
    ensures
        r == header_fields(*h).checking_disabled,
{
    h.checking_disabled()
}

/// Relies on `Header::set_checking_disabled`, which stores the value and changes no other field.
#[verifier::external_body]
pub fn header_set_checking_disabled(h: &mut Header, v: bool)
    ensures
        header_fields(*final(h)) == (HeaderFields { checking_disabled: v, ..header_fields(*old(h)) }),
{
    h.set_checking_disabled(v);
}

/// Relies on `Header::response_code`, which returns the field as stored.
#[verifier::external_body]
pub fn header_response_code(h: &Header) -> (r: ResponseCode)
    ensures
        r == header_fields(*h).response_code,
{
    h.response_code()
}

/// Relies on `Header::set_response_code`, which stores the value and changes no other field.
#[verifier::external_body]
pub fn header_set_response_code(h: &mut Header, v: ResponseCode)
    ensures
        header_fields(*final(h)) == (HeaderFields { response_code: v, ..header_fields(*old(h)) }),
{
    h.set_response_code(v);
}

/// Relies on `Header::query_count`, which returns the field as stored.
#[verifier::external_body]
pub fn header_query_count(h: &Header) -> (r: u16)
    ensures
        r == header_fields(*h).query_count,
{
    h.query_count()
}

/// Relies on `Header::set_query_count`, which stores the value and changes no other field.
#[verifier::external_body]
pub fn header_set_query_count(h: &mut Header, v: u16)
    ensures
        header_fields(*final(h)) == (HeaderFields { query_count: v, ..header_fields(*old(h)) }),
{
    h.set_query_count(v);
}

/// Relies on `Header::answer_count`, which returns the field as stored.
#[verifier::external_body]
pub fn header_answer_count(h: &Header) -> (r: u16)
    ensures
        r == header_fields(*h).answer_count,
{
    h.answer_count()
}

/// Relies on `Header::set_answer_count`, which stores the value and changes no other field.
#[verifier::external_body]
pub fn header_set_answer_count(h: &mut Header, v: u16)
    ensures
        header_fields(*final(h)) == (HeaderFields { answer_count: v, ..header_fields(*old(h)) }),
{
    h.set_answer_count(v);
}

/// Relies on `Header::name_server_count`, which returns the field as stored.
#[verifier::external_body]
pub fn header_name_server_count(h: &Header) -> (r: u16)
    ensures
        r == header_fields(*h).name_server_count,
{
    h.name_server_count()
}

/// Relies on `Header::set_name_server_count`, which stores the value and changes no other field.
#[verifier::external_body]
pub fn header_set_name_server_count(h: &mut Header, v: u16)
    ensures
        header_fields(*final(h)) == (HeaderFields { name_server_count: v, ..header_fields(*old(h)) }),
{
    h.set_name_server_count(v);
}

/// Relies on `Header::additional_count`, which returns the field as stored.
#[verifier::external_body]
pub fn header_additional_count(h: &Header) -> (r: u16)
    ensures
        r == header_fields(*h).additional_count,
{
    h.additional_count()
}

/// Relies on `Header::set_additional_count`, which stores the value and changes no other field.
#[verifier::external_body]
pub fn header_set_additional_count(h: &mut Header, v: u16)
    ensures
        header_fields(*final(h)) == (HeaderFields { additional_count: v, ..header_fields(*old(h)) }),
{
    h.set_additional_count(v);
}

/// Relies on `Query::default`: a fresh query, whose fields are all then set.
#[verifier::external_body]
pub fn query_default() -> (r: Query) {
    Query::default()
}

/// Relies on `Query::name`, and on the derived `Clone` of `Name`, which
/// copies the name.
#[verifier::external_body]
pub fn query_name(q: &Query) -> (r: Name)
    ensures
        r == query_fields(*q).name,
{
    q.name().clone()
}

/// Relies on `Query::query_type`, which returns the field as stored.
#[verifier::external_body]
pub fn query_query_type(q: &Query) -> (r: RecordType)
    ensures
        r == query_fields(*q).query_type,
{
    q.query_type()
}

/// Relies on `Query::query_class`, which returns the field as stored.
#[verifier::external_body]
pub fn query_query_class(q: &Query) -> (r: DNSClass)
    ensures
        r == query_fields(*q).query_class,
{
    q.query_class()
}

/// Relies on `Query::set_name`, which stores the name and changes no other field.
#[verifier::external_body]
pub fn query_set_name(q: &mut Query, v: Name)
    ensures
        query_fields(*final(q)) == (QueryFields { name: v, ..query_fields(*old(q)) }),
{
    q.set_name(v);
}

/// Relies on `Query::set_query_type`, which stores the type and changes no
/// other field.
#[verifier::external_body]
pub fn query_set_query_type(q: &mut Query, v: RecordType)
    ensures
        query_fields(*final(q)) == (QueryFields { query_type: v, ..query_fields(*old(q)) }),
{
    q.set_query_type(v);
}

/// Relies on `Query::set_query_class`, which stores the class and changes no
/// other field.
#[verifier::external_body]
pub fn query_set_query_class(q: &mut Query, v: DNSClass)
    ensures
        query_fields(*final(q)) == (QueryFields { query_class: v, ..query_fields(*old(q)) }),
{
    q.set_query_class(v);
}

/// Relies on `Edns::default`: codes and version zero, DNSSEC off, a payload
/// of 512 and no options.
#[verifier::external_body]
pub fn edns_default() -> (r: Edns)
    ensures
        edns_fields(r).rcode_high == 0,
        edns_fields(r).version == 0,
        !edns_fields(r).dnssec_ok,
        edns_fields(r).max_payload == 512,
        opt_size(edns_fields(r).options) == 0,
{
    Edns::default()
}

/// Relies on `Edns::rcode_high`, which returns the field as stored.
#[verifier::external_body]
pub fn edns_rcode_high(e: &Edns) -> (r: u8)
    ensures
        r == edns_fields(*e).rcode_high,
{
    e.rcode_high()
}

/// Relies on `Edns::version`, which returns the field as stored.
#[verifier::external_body]
pub fn edns_version(e: &Edns) -> (r: u8)
    ensures
        r == edns_fields(*e).version,
{
    e.version()
}

/// Relies on `Edns::dnssec_ok`, which returns the field as stored.
#[verifier::external_body]
pub fn edns_dnssec_ok(e: &Edns) -> (r: bool)
    ensures
        r == edns_fields(*e).dnssec_ok,
{
    e.dnssec_ok()
}

/// Relies on `Edns::max_payload`, which returns the field as stored.
#[verifier::external_body]
pub fn edns_max_payload(e: &Edns) -> (r: u16)
    ensures
        r == edns_fields(*e).max_payload,
{
    e.max_payload()
}

/// Relies on `Edns::options`, and on the derived `Clone` of `OPT`, which
/// copies the option map with all its entries.
#[verifier::external_body]
pub fn edns_options(e: &Edns) -> (r: OPT)
    ensures
        r == edns_fields(*e).options,
{
    e.options().clone()
}

/// Relies on `Edns::set_rcode_high`, which stores the value and changes no
/// other field.
#[verifier::external_body]
pub fn edns_set_rcode_high(e: &mut Edns, v: u8)
    ensures
        edns_fields(*final(e)) == (EdnsFields { rcode_high: v, ..edns_fields(*old(e)) }),
{
    e.set_rcode_high(v);
}

/// Relies on `Edns::set_version`, which stores the value and changes no other
/// field.
#[verifier::external_body]
pub fn edns_set_version(e: &mut Edns, v: u8)
    ensures
        edns_fields(*final(e)) == (EdnsFields { version: v, ..edns_fields(*old(e)) }),
{
    e.set_version(v);
}

/// Relies on `Edns::set_dnssec_ok`, which stores the value and changes no
/// other field.
#[verifier::external_body]
pub fn edns_set_dnssec_ok(e: &mut Edns, v: bool)
    ensures
        edns_fields(*final(e)) == (EdnsFields { dnssec_ok: v, ..edns_fields(*old(e)) }),
{
    e.set_dnssec_ok(v);
}

/// Relies on `Edns::set_max_payload`, which stores the larger of the value
/// and 512, and changes no other field.
#[verifier::external_body]
pub fn edns_set_max_payload(e: &mut Edns, v: u16)
    ensures
        edns_fields(*final(e)) == (EdnsFields {
            max_payload: if v < 512 { 512 } else { v },
            ..edns_fields(*old(e))
        }),
{
    e.set_max_payload(v);
}

/// Relies on `OPT`'s `AsRef` to its option map: the number of its entries.
#[verifier::external_body]
pub fn opt_len(o: &OPT) -> (r: usize)
    ensures
        r == opt_size(*o),
{
    let options: &std::collections::HashMap<_, _> = o.as_ref();
    options.len()
}

/// Relies on `Message::into_parts`, which moves each section out unchanged.
#[verifier::external_body]
pub fn message_into_sections(m: Message) -> (r: Sections)
    ensures
        r == message_sections(m),
{
    let p = m.into_parts();
    Sections {
        header: p.header,
        queries: p.queries,
        answers: RecordSection { records: p.answers },
        name_servers: RecordSection { records: p.name_servers },
        additionals: RecordSection { records: p.additionals },
        signature: RecordSection { records: p.sig0 },
        edns: p.edns,
    }
}

/// Relies on `Message::from(MessageParts)`, which moves each section in
/// unchanged.
#[verifier::external_body]
pub fn message_from_sections(s: Sections) -> (r: Message)
    ensures
        message_sections(r) == s,
{
    Message::from(MessageParts {
        header: s.header,
        queries: s.queries,
        answers: s.answers.records,
        name_servers: s.name_servers.records,
        additionals: s.additionals.records,
        sig0: s.signature.records,
        edns: s.edns,
    })
}

/// Relies on `Message::from_vec`, whose success and the fields it reads
/// depend on the bytes alone, and which reads the 12-byte header first and
/// fails on a shorter buffer; the error is returned as its debug text.
#[verifier::external_body]
pub fn message_from_wire(data: &[u8]) -> (r: Result<Message, String>)
    ensures
        r is Ok <==> wire_decoded(data@) is Some,
        r is Ok ==> wire_decoded(data@) == Some(wire_model(r->Ok_0)),
        data@.len() < 12 ==> r is Err,
{
    Message::from_vec(data).map_err(|e| format!("{:?}", e))
}

/// Relies on `Message::to_vec`, whose success depends on the message alone:
/// on its model where the EDNS record has no options. It writes into a fresh
/// buffer, the 12-byte header first, led by the id in network order. The
/// error is returned as its debug text.
#[verifier::external_body]
pub fn message_to_wire(m: &Message) -> (r: Result<Vec<u8>, String>)
    ensures
        option_free(wire_model(*m)) ==> (r is Ok <==> wire_encodes(wire_model(*m))),
        r is Ok ==> r->Ok_0@.len() >= 12,
        r is Ok ==> r->Ok_0@[0] == (header_fields(message_sections(*m).header).id / 256) as u8,
        r is Ok ==> r->Ok_0@[1] == (header_fields(message_sections(*m).header).id % 256) as u8,
{
    m.to_vec().map_err(|e| format!("{:?}", e))
}

} // verus!
