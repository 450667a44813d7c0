//! The mirror of a DNS message: plain structures for the host boundary, and
//! their translation to and from the canonical model, field by field.

use vstd::prelude::*;
use hickory_proto::op::{Edns, Header, Message, Query};
use hickory_proto::rr::rdata::OPT;
use hickory_proto::rr::{DNSClass, Name, RecordType};
use crate::canonical::{
    EdnsSummary,
    WireModel,
    option_free,
    wire_model,
    EdnsFields,
    HeaderFields,
    QueryFields,
    RecordSection,
    Sections,
    edns_default,
    edns_dnssec_ok,
    edns_fields,
    edns_max_payload,
    edns_options,
    edns_rcode_high,
    edns_set_dnssec_ok,
    edns_set_max_payload,
    edns_set_rcode_high,
    edns_set_version,
    edns_version,
    header_additional_count,
    header_answer_count,
    header_authentic_data,
    header_authoritative,
    header_checking_disabled,
    header_default,
    header_fields,
    header_id,
    header_message_type,
    header_name_server_count,
    header_op_code,
    header_query_count,
    header_recursion_available,
    header_recursion_desired,
    header_response_code,
    header_set_additional_count,
    header_set_answer_count,
    header_set_authentic_data,
    header_set_authoritative,
    header_set_checking_disabled,
    header_set_id,
    header_set_message_type,
    header_set_name_server_count,
    header_set_op_code,
    header_set_query_count,
    header_set_recursion_available,
    header_set_recursion_desired,
    header_set_response_code,
    header_set_truncation,
    header_truncation,
    message_from_sections,
    message_into_sections,
    message_sections,
    opt_len,
    opt_size,
    query_default,
    query_fields,
    query_name,
    query_query_class,
    query_query_type,
    query_set_name,
    query_set_query_class,
    query_set_query_type,
};
use crate::codes::{
    lemma_message_type_round_trip,
    lemma_op_code_round_trip,
    lemma_response_code_round_trip,
    MyMessageType,
    MyOpCode,
    MyResponseCode,
    message_type_from_canonical,
    message_type_to_canonical,
    op_code_from_canonical,
    op_code_to_canonical,
    response_code_from_canonical,
    response_code_to_canonical,
};

verus! {

/// Mirror of the logical fields of the 12-byte DNS header. The four counts
/// are copied as the canonical header reports them, not checked against the
/// lengths of the sections.
#[derive(Debug, Clone, Copy, PartialEq, Eq, Structural)]
pub struct MyHeader {
    pub id: u16,
    pub message_type: MyMessageType,
    pub op_code: MyOpCode,
    pub authoritative: bool,
    pub truncation: bool,
    pub recursion_desired: bool,
    pub recursion_available: bool,
    pub authentic_data: bool,
    pub checking_disabled: bool,
    pub response_code: MyResponseCode,
    pub query_count: u16,
    pub answer_count: u16,
    pub name_server_count: u16,
    pub additional_count: u16,
}

impl MyHeader {
    /// This mirror holds what the canonical header `h` holds, each
    /// enumeration through its mirror.
    pub open spec fn mirrors(self, h: Header) -> bool {
        let c = header_fields(h);
        &&& self.id == c.id
        &&& self.message_type == message_type_from_canonical(c.message_type)
        &&& self.op_code == op_code_from_canonical(c.op_code)
        &&& self.authoritative == c.authoritative
        &&& self.truncation == c.truncation
        &&& self.recursion_desired == c.recursion_desired
        &&& self.recursion_available == c.recursion_available
        &&& self.authentic_data == c.authentic_data
        &&& self.checking_disabled == c.checking_disabled
        &&& self.response_code == response_code_from_canonical(c.response_code)
        &&& self.query_count == c.query_count
        &&& self.answer_count == c.answer_count
        &&& self.name_server_count == c.name_server_count
        &&& self.additional_count == c.additional_count
    }

    /// The canonical header fields that this mirror stands for.
    pub open spec fn canonical_fields(self) -> HeaderFields {
        HeaderFields {
            id: self.id,
            message_type: message_type_to_canonical(self.message_type),
            op_code: op_code_to_canonical(self.op_code),
            authoritative: self.authoritative,
            truncation: self.truncation,
            recursion_desired: self.recursion_desired,
            recursion_available: self.recursion_available,
            authentic_data: self.authentic_data,
            checking_disabled: self.checking_disabled,
            response_code: response_code_to_canonical(self.response_code),
            query_count: self.query_count,
            answer_count: self.answer_count,
            name_server_count: self.name_server_count,
            additional_count: self.additional_count,
        }
    }

    /// Copies each field of a canonical header into a mirror.
    pub fn serdeify(header: &Header) -> (r: Self)
        ensures
            r.mirrors(*header),
    {
        MyHeader {
            id: header_id(header),
            message_type: MyMessageType::serdeify(header_message_type(header)),
            op_code: MyOpCode::serdeify(header_op_code(header)),
            authoritative: header_authoritative(header),
            truncation: header_truncation(header),
            recursion_desired: header_recursion_desired(header),
            recursion_available: header_recursion_available(header),
            authentic_data: header_authentic_data(header),
            checking_disabled: header_checking_disabled(header),
            response_code: MyResponseCode::serdeify(header_response_code(header)),
            query_count: header_query_count(header),
            answer_count: header_answer_count(header),
            name_server_count: header_name_server_count(header),
            additional_count: header_additional_count(header),
        }
    }

    /// Builds a default canonical header and sets each field from the mirror.
    pub fn into_proto(self) -> (r: Header)
        ensures
            header_fields(r) == self.canonical_fields(),
    {
        let mut header = header_default();
        header_set_id(&mut header, self.id);
        header_set_message_type(&mut header, self.message_type.into_proto());
        header_set_op_code(&mut header, self.op_code.into_proto());
        header_set_authoritative(&mut header, self.authoritative);
        header_set_truncation(&mut header, self.truncation);
        header_set_recursion_desired(&mut header, self.recursion_desired);
        header_set_recursion_available(&mut header, self.recursion_available);
        header_set_authentic_data(&mut header, self.authentic_data);
        header_set_checking_disabled(&mut header, self.checking_disabled);
        header_set_response_code(&mut header, self.response_code.into_proto());
        header_set_query_count(&mut header, self.query_count);
        header_set_answer_count(&mut header, self.answer_count);
        header_set_name_server_count(&mut header, self.name_server_count);
        header_set_additional_count(&mut header, self.additional_count);
        header
    }
}

/// Mirror of one entry of the question section.
pub struct MyQuery {
    pub name: Name,
    pub query_type: RecordType,
    pub query_class: DNSClass,
}

impl MyQuery {
    /// This mirror holds what the canonical query `q` holds.
    pub open spec fn mirrors(self, q: Query) -> bool {
        let c = query_fields(q);
        &&& self.name == c.name
        &&& self.query_type == c.query_type
        &&& self.query_class == c.query_class
    }

    /// The canonical query fields that this mirror stands for.
    pub open spec fn canonical_fields(self) -> QueryFields {
        QueryFields { name: self.name, query_type: self.query_type, query_class: self.query_class }
    }

    /// Copies the name, type and class of a canonical query.
    pub fn serdeify(query: &Query) -> (r: Self)
        ensures
            r.mirrors(*query),
    {
        MyQuery {
            name: query_name(query),
            query_type: query_query_type(query),
            query_class: query_query_class(query),
        }
    }

    /// Builds a canonical query with the mirror's name, type and class.
    pub fn into_proto(self) -> (r: Query)
        ensures
            query_fields(r) == self.canonical_fields(),
    {
        let mut query = query_default();
        query_set_name(&mut query, self.name);
        query_set_query_type(&mut query, self.query_type);
        query_set_query_class(&mut query, self.query_class);
        query
    }
}

/// Mirror of the EDNS pseudo-record. The options are carried out of a decoded
/// message, but a record rebuilt from the mirror has none.
pub struct MyEdns {
    /// The high 8 bits of the 12-bit extended response code.
    pub rcode_high: u8,
    /// The EDNS implementation level of the sender.
    pub version: u8,
    /// Whether DNSSEC is supported.
    pub dnssec_ok: bool,
    /// The largest payload the sender accepts.
    pub max_payload: u16,
    pub options: OPT,
}

impl MyEdns {
    /// This mirror holds what the canonical record `e` holds, options
    /// included.
    pub open spec fn mirrors(self, e: Edns) -> bool {
        let c = edns_fields(e);
        &&& self.rcode_high == c.rcode_high
        &&& self.version == c.version
        &&& self.dnssec_ok == c.dnssec_ok
        &&& self.max_payload == c.max_payload
        &&& self.options == c.options
    }

    /// The canonical record fields `f` are those this mirror is rebuilt
    /// into: the scalar fields, a payload of at least 512, and no options.
    pub open spec fn rebuilt_as(self, f: EdnsFields) -> bool {
        &&& f.rcode_high == self.rcode_high
        &&& f.version == self.version
        &&& f.dnssec_ok == self.dnssec_ok
        &&& f.max_payload == if self.max_payload < 512 { 512 } else { self.max_payload }
        &&& opt_size(f.options) == 0
    }

    /// Copies the scalar fields and the options of a canonical EDNS record.
    pub fn serdeify(edns: Edns) -> (r: Self)
        ensures
            r.mirrors(edns),
    {
        MyEdns {
            rcode_high: edns_rcode_high(&edns),
            version: edns_version(&edns),
            dnssec_ok: edns_dnssec_ok(&edns),
            max_payload: edns_max_payload(&edns),
            options: edns_options(&edns),
        }
    }

    /// Builds a default EDNS record and sets its scalar fields from the
    /// mirror; the options are not put back.
    pub fn into_proto(self) -> (r: Edns)
        ensures
            self.rebuilt_as(edns_fields(r)),
    {
        let mut edns = edns_default();
        edns_set_rcode_high(&mut edns, self.rcode_high);
        edns_set_version(&mut edns, self.version);
        edns_set_dnssec_ok(&mut edns, self.dnssec_ok);
        edns_set_max_payload(&mut edns, self.max_payload);
        edns
    }

    /// How many options the mirror carries.
    pub fn option_count(&self) -> (r: usize)
        ensures
            r == opt_size(self.options),
    {
        opt_len(&self.options)
    }
}

/// Mirror of a whole DNS message.
pub struct MyMessage {
    pub header: MyHeader,
    pub queries: Vec<MyQuery>,
    pub answers: RecordSection,
    pub name_servers: RecordSection,
    pub additionals: RecordSection,
    /// SIG(0) records, kept apart from the additionals.
    pub signature: RecordSection,
    pub edns: Option<MyEdns>,
}

/// Each mirror query holds what the canonical query at its place holds.
pub open spec fn queries_mirror(m: Seq<MyQuery>, q: Seq<Query>) -> bool {
    &&& m.len() == q.len()
    &&& forall|i: int| 0 <= i < m.len() ==> (#[trigger] m[i]).mirrors(q[i])
}

/// Each canonical query is the one that the mirror at its place stands for.
pub open spec fn queries_rebuilt(m: Seq<MyQuery>, q: Seq<Query>) -> bool {
    &&& m.len() == q.len()
    &&& forall|i: int| 0 <= i < m.len() ==> query_fields(#[trigger] q[i]) == m[i].canonical_fields()
}

impl MyMessage {
    /// This mirror holds what the sections `s` of a canonical message hold:
    /// the header and the queries through their mirrors, the record sections
    /// unchanged, and an EDNS mirror exactly when `s` has an EDNS record.
    pub open spec fn mirrors_sections(self, s: Sections) -> bool {
        &&& self.header.mirrors(s.header)
        &&& queries_mirror(self.queries@, s.queries@)
        &&& self.answers == s.answers
        &&& self.name_servers == s.name_servers
        &&& self.additionals == s.additionals
        &&& self.signature == s.signature
        &&& match (self.edns, s.edns) {
            (None, None) => true,
            (Some(m), Some(e)) => m.mirrors(e),
            _ => false,
        }
    }

    /// This mirror holds what the canonical message `msg` holds.
    pub open spec fn mirrors(self, msg: Message) -> bool {
        self.mirrors_sections(message_sections(msg))
    }

    /// The sections `s` are those that this mirror is rebuilt into.
    pub open spec fn rebuilds(self, s: Sections) -> bool {
        &&& header_fields(s.header) == self.header.canonical_fields()
        &&& queries_rebuilt(self.queries@, s.queries@)
        &&& s.answers == self.answers
        &&& s.name_servers == self.name_servers
        &&& s.additionals == self.additionals
        &&& s.signature == self.signature
        &&& match (self.edns, s.edns) {
            (None, None) => true,
            (Some(m), Some(e)) => m.rebuilt_as(edns_fields(e)),
            _ => false,
        }
    }

    /// The mirror of a canonical message: header and queries through their
    /// mirrors, in order, the record sections moved over unchanged.
    /// What this mirror says of a message, over the field models: its EDNS
    /// scalars as they stand, and as many options as it carries.
    pub open spec fn model(self) -> WireModel {
        WireModel {
            header: self.header.canonical_fields(),
            queries: self.queries@.map_values(|q: MyQuery| q.canonical_fields()),
            answers: self.answers,
            name_servers: self.name_servers,
            additionals: self.additionals,
            signature: self.signature,
            edns: match self.edns {
                Some(e) => Some(
                    EdnsSummary {
                        rcode_high: e.rcode_high,
                        version: e.version,
                        dnssec_ok: e.dnssec_ok,
                        max_payload: e.max_payload,
                        option_count: opt_size(e.options),
                    },
                ),
                None => None,
            },
        }
    }

    /// The model of the message that this mirror is rebuilt into: its EDNS
    /// record, if any, with a payload of at least 512 and no options.
    pub open spec fn rebuilt_model(self) -> WireModel {
        WireModel {
            edns: match self.edns {
                Some(e) => Some(
                    EdnsSummary {
                        rcode_high: e.rcode_high,
                        version: e.version,
                        dnssec_ok: e.dnssec_ok,
                        max_payload: if e.max_payload < 512 { 512 } else { e.max_payload },
                        option_count: 0,
                    },
                ),
                None => None,
            },
            ..self.model()
        }
    }

    pub fn serdeify(msg: Message) -> (r: Self)
        ensures
            r.mirrors(msg),
    {
        let sections = message_into_sections(msg);
        let mut queries: Vec<MyQuery> = Vec::new();
        let mut i: usize = 0;
        while i < sections.queries.len()
            invariant
                i <= sections.queries@.len(),
                queries_mirror(queries@, sections.queries@.take(i as int)),
            decreases sections.queries@.len() - i,
        {
            queries.push(MyQuery::serdeify(&sections.queries[i]));
            i = i + 1;
        }
        assert(sections.queries@.take(i as int) =~= sections.queries@);
        let edns = match sections.edns {
            Some(e) => Some(MyEdns::serdeify(e)),
            None => None,
        };
        MyMessage {
            header: MyHeader::serdeify(&sections.header),
            queries,
            answers: sections.answers,
            name_servers: sections.name_servers,
            additionals: sections.additionals,
            signature: sections.signature,
            edns,
        }
    }

    /// Rebuilds the canonical message that the mirror stands for.
    pub fn into_proto(self) -> (r: Message)
        ensures
            self.rebuilds(message_sections(r)),
    {
        let ghost mirror = self;
        let mut rest = self.queries;
        let mut queries: Vec<Query> = Vec::new();
        let n = rest.len();
        while rest.len() > 0
            invariant
                rest@ == mirror.queries@.skip(n - rest@.len()),
                n == mirror.queries@.len(),
                rest@.len() <= n,
                queries_rebuilt(mirror.queries@.take(n - rest@.len()), queries@),
            decreases rest@.len(),
        {
            let q = rest.remove(0);
            queries.push(q.into_proto());
        }
        assert(mirror.queries@.take(n as int) =~= mirror.queries@);
        let edns = match self.edns {
            Some(e) => Some(e.into_proto()),
            None => None,
        };
        message_from_sections(Sections {
            header: self.header.into_proto(),
            queries,
            answers: self.answers,
            name_servers: self.name_servers,
            additionals: self.additionals,
            signature: self.signature,
            edns,
        })
    }
}

/// The EDNS record, if any, comes back unchanged from its mirror: it has no
/// options, and a payload of at least 512.
pub open spec fn edns_rebuildable(e: Option<Edns>) -> bool {
    match e {
        None => true,
        Some(e) => opt_size(edns_fields(e).options) == 0 && edns_fields(e).max_payload >= 512,
    }
}

/// The two EDNS records hold the same scalar fields and as many options.
pub open spec fn same_edns(a: EdnsFields, b: EdnsFields) -> bool {
    &&& a.rcode_high == b.rcode_high
    &&& a.version == b.version
    &&& a.dnssec_ok == b.dnssec_ok
    &&& a.max_payload == b.max_payload
    &&& opt_size(a.options) == opt_size(b.options)
}

/// The two sets of sections hold the same header fields, the same query
/// fields in the same order, the same record sections and the same EDNS
/// fields.
pub open spec fn same_content(a: Sections, b: Sections) -> bool {
    &&& header_fields(a.header) == header_fields(b.header)
    &&& a.queries@.len() == b.queries@.len()
    &&& forall|i: int|
        0 <= i < a.queries@.len() ==> query_fields(#[trigger] a.queries@[i]) == query_fields(
            b.queries@[i],
        )
    &&& a.answers == b.answers
    &&& a.name_servers == b.name_servers
    &&& a.additionals == b.additionals
    &&& a.signature == b.signature
    &&& match (a.edns, b.edns) {
        (None, None) => true,
        (Some(x), Some(y)) => same_edns(edns_fields(x), edns_fields(y)),
        _ => false,
    }
}

/// A header mirror is rebuilt into exactly the fields of the header it
/// mirrors.
pub proof fn lemma_header_round_trip(h: Header, m: MyHeader)
    requires
        m.mirrors(h),
    ensures
        m.canonical_fields() == header_fields(h),
{
    lemma_message_type_round_trip(header_fields(h).message_type, m.message_type);
    lemma_op_code_round_trip(header_fields(h).op_code, m.op_code);
    lemma_response_code_round_trip(header_fields(h).response_code, m.response_code);
}

/// A message translated to its mirror and back holds the header, the
/// queries and the record sections of the original, field for field, when
/// its EDNS record, if any, has no options.
pub proof fn lemma_message_round_trip(msg: Message, m: MyMessage, back: Message)
    requires
        m.mirrors(msg),
        m.rebuilds(message_sections(back)),
        edns_rebuildable(message_sections(msg).edns),
    ensures
        same_content(message_sections(back), message_sections(msg)),
{
    lemma_header_round_trip(message_sections(msg).header, m.header);
}

/// A message rebuilt from a mirror that has an EDNS record has an EDNS record
/// with no options, however many the mirror carried.
pub proof fn lemma_edns_options_not_restored(m: MyMessage, back: Message)
    requires
        m.rebuilds(message_sections(back)),
        m.edns is Some,
    ensures
        message_sections(back).edns is Some,
        opt_size(edns_fields(message_sections(back).edns->Some_0).options) == 0,
{
}

/// A mirror of a message says of it exactly what its model holds.
pub proof fn lemma_mirror_model(msg: Message, m: MyMessage)
    requires
        m.mirrors(msg),
    ensures
        m.model() == wire_model(msg),
{
    let s = message_sections(msg);
    lemma_header_round_trip(s.header, m.header);
    assert(m.model().queries =~= wire_model(msg).queries);
}

/// A message rebuilt from a mirror has the mirror's rebuilt model.
pub proof fn lemma_rebuilt_model(m: MyMessage, back: Message)
    requires
        m.rebuilds(message_sections(back)),
    ensures
        wire_model(back) == m.rebuilt_model(),
        option_free(m.rebuilt_model()),
{
    assert(m.rebuilt_model().queries =~= wire_model(back).queries);
}

} // verus!
