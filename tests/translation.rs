use dns_mirror::codes::{MyMessageType, MyOpCode, MyResponseCode};
use dns_mirror::mirror::{MyEdns, MyHeader, MyQuery};
use dns_mirror::wire::{decode, encode, encoded_bytes, mirror_decoded, MirrorError};
use hickory_proto::op::{Edns, Header, MessageType, OpCode, Query, ResponseCode};
use hickory_proto::rr::rdata::opt::EdnsOption;
use hickory_proto::rr::{DNSClass, Name, RecordType};

fn example_query() -> Vec<u8> {
    let mut b = vec![0x12, 0x34, 0x01, 0x00, 0x00, 0x01, 0x00, 0x00, 0x00, 0x00, 0x00, 0x00];
    b.push(7);
    b.extend_from_slice(b"example");
    b.push(3);
    b.extend_from_slice(b"com");
    b.push(0);
    b.extend_from_slice(&[0x00, 0x01, 0x00, 0x01]);
    b
}

fn example_query_with_cookie() -> Vec<u8> {
    let mut b = example_query();
    b[11] = 1;
    // OPT record: root name, type 41, payload 4096, ttl 0, one option
    b.extend_from_slice(&[0x00, 0x00, 0x29, 0x10, 0x00, 0x00, 0x00, 0x00, 0x00, 0x00, 0x0c]);
    b.extend_from_slice(&[0x00, 0x0a, 0x00, 0x08, 1, 2, 3, 4, 5, 6, 7, 8]);
    b
}

#[test]
fn minimal_query_decodes_and_reencodes() {
    let bytes = example_query();
    let m = decode(&bytes).unwrap();
    assert_eq!(m.header.id, 0x1234);
    assert_eq!(m.header.op_code, MyOpCode::Query);
    assert_eq!(m.header.message_type, MyMessageType::Query);
    assert!(m.header.recursion_desired);
    assert!(!m.header.authoritative);
    assert!(!m.header.truncation);
    assert!(!m.header.recursion_available);
    assert!(!m.header.authentic_data);
    assert!(!m.header.checking_disabled);
    assert_eq!(m.header.response_code, MyResponseCode::NoError);
    assert_eq!(m.header.query_count, 1);
    assert_eq!(m.queries.len(), 1);
    assert_eq!(m.queries[0].name.to_ascii().trim_end_matches('.'), "example.com");
    assert_eq!(m.queries[0].query_type, RecordType::A);
    assert_eq!(m.queries[0].query_class, DNSClass::IN);
    assert!(m.edns.is_none());
    assert_eq!(encode(m).unwrap(), bytes);
}

#[test]
fn truncated_buffer_is_a_decode_error() {
    let bytes = example_query();
    for n in 0..12 {
        match decode(&bytes[..n]) {
            Err(MirrorError::ProtocolDecode(_)) => {}
            other => panic!("unexpected result for {} bytes: {:?}", n, other.is_ok()),
        }
    }
}

#[test]
fn decoder_error_is_passed_on() {
    let r = mirror_decoded(Err("bad".to_string()));
    assert!(matches!(r, Err(MirrorError::ProtocolDecode(ref s)) if s == "bad"));
}

#[test]
fn encoder_result_is_passed_on() {
    assert_eq!(encoded_bytes(Ok(vec![1, 2])), Ok(vec![1, 2]));
    assert_eq!(
        encoded_bytes(Err("too long".to_string())),
        Err(MirrorError::ProtocolEncode("too long".to_string()))
    );
}

#[test]
fn edns_options_are_seen_but_not_reencoded() {
    let bytes = example_query_with_cookie();
    let m = decode(&bytes).unwrap();
    let edns = m.edns.as_ref().unwrap();
    assert_eq!(edns.option_count(), 1);
    assert_eq!(edns.max_payload, 4096);
    let again = decode(&encode(m).unwrap()).unwrap();
    let edns = again.edns.as_ref().unwrap();
    assert_eq!(edns.option_count(), 0);
    assert_eq!(edns.max_payload, 4096);
}

#[test]
fn canonical_round_trip_keeps_sections() {
    let bytes = example_query();
    let m = decode(&bytes).unwrap();
    let header = m.header;
    let again = decode(&encode(m).unwrap()).unwrap();
    assert_eq!(again.header, header);
    assert_eq!(again.queries.len(), 1);
    assert_eq!(again.queries[0].query_type, RecordType::A);
    assert!(again.answers.records.is_empty());
    assert!(again.signature.records.is_empty());
}

const NAMED: [ResponseCode; 20] = [
    ResponseCode::NoError,
    ResponseCode::FormErr,
    ResponseCode::ServFail,
    ResponseCode::NXDomain,
    ResponseCode::NotImp,
    ResponseCode::Refused,
    ResponseCode::YXDomain,
    ResponseCode::YXRRSet,
    ResponseCode::NXRRSet,
    ResponseCode::NotAuth,
    ResponseCode::NotZone,
    ResponseCode::BADVERS,
    ResponseCode::BADSIG,
    ResponseCode::BADKEY,
    ResponseCode::BADTIME,
    ResponseCode::BADMODE,
    ResponseCode::BADNAME,
    ResponseCode::BADALG,
    ResponseCode::BADTRUNC,
    ResponseCode::BADCOOKIE,
];

#[test]
fn every_response_code_round_trips() {
    for c in NAMED {
        assert_eq!(MyResponseCode::serdeify(c).into_proto(), c);
    }
    assert_eq!(MyResponseCode::serdeify(ResponseCode::BADCOOKIE), MyResponseCode::BADCOOKIE);
    assert_eq!(MyResponseCode::serdeify(ResponseCode::BADSIG), MyResponseCode::BADSIG);
}

#[test]
fn unknown_response_code_keeps_its_value() {
    let m = MyResponseCode::serdeify(ResponseCode::Unknown(4096));
    assert_eq!(m, MyResponseCode::Unknown(4096));
    assert_eq!(m.into_proto(), ResponseCode::Unknown(4096));
    assert_eq!(MyResponseCode::Unknown(65535).into_proto(), ResponseCode::Unknown(65535));
}

#[test]
fn message_types_and_op_codes_round_trip() {
    for t in [MessageType::Query, MessageType::Response] {
        assert_eq!(MyMessageType::serdeify(t).into_proto(), t);
    }
    assert_eq!(MyMessageType::serdeify(MessageType::Response), MyMessageType::Response);
    for c in [OpCode::Query, OpCode::Status, OpCode::Notify, OpCode::Update] {
        assert_eq!(MyOpCode::serdeify(c).into_proto(), c);
    }
    assert_eq!(MyOpCode::serdeify(OpCode::Notify), MyOpCode::Notify);
    assert_eq!(MyOpCode::Update.into_proto(), OpCode::Update);
}

#[test]
fn header_fields_are_copied_both_ways() {
    let mut h = Header::new();
    h.set_id(777)
        .set_message_type(MessageType::Response)
        .set_op_code(OpCode::Status)
        .set_authoritative(true)
        .set_truncated(true)
        .set_recursion_available(true)
        .set_checking_disabled(true)
        .set_response_code(ResponseCode::Unknown(3000))
        .set_query_count(3)
        .set_answer_count(9)
        .set_name_server_count(2)
        .set_additional_count(5);
    let m = MyHeader::serdeify(&h);
    assert_eq!(m.id, 777);
    assert_eq!(m.message_type, MyMessageType::Response);
    assert_eq!(m.op_code, MyOpCode::Status);
    assert!(m.authoritative && m.truncation && m.recursion_available && m.checking_disabled);
    assert!(!m.recursion_desired && !m.authentic_data);
    assert_eq!(m.response_code, MyResponseCode::Unknown(3000));
    assert_eq!((m.query_count, m.answer_count, m.name_server_count, m.additional_count), (3, 9, 2, 5));
    assert_eq!(m.into_proto(), h);
}

#[test]
fn header_counts_are_not_checked_against_sections() {
    let mut bytes = example_query();
    let mut m = decode(&bytes).unwrap();
    m.header.answer_count = 40;
    let h = m.header.into_proto();
    assert_eq!(h.answer_count(), 40);
    bytes[1] = 0x35;
    assert_eq!(decode(&bytes).unwrap().header.id, 0x1235);
}

#[test]
fn query_fields_are_copied_both_ways() {
    let name = Name::from_ascii("www.example.org.").unwrap();
    let mut q = Query::query(name.clone(), RecordType::MX);
    q.set_query_class(DNSClass::CH);
    let m = MyQuery::serdeify(&q);
    assert_eq!(m.name, name);
    assert_eq!(m.query_type, RecordType::MX);
    assert_eq!(m.query_class, DNSClass::CH);
    assert_eq!(m.into_proto(), q);
}

#[test]
fn edns_scalars_are_copied_and_payload_floored() {
    let mut e = Edns::new();
    e.set_rcode_high(3).set_version(1).set_dnssec_ok(true).set_max_payload(1232);
    let m = MyEdns::serdeify(e.clone());
    assert_eq!((m.rcode_high, m.version, m.dnssec_ok, m.max_payload), (3, 1, true, 1232));
    assert_eq!(m.option_count(), 0);
    assert_eq!(m.into_proto(), e);
    let small = MyEdns { rcode_high: 0, version: 0, dnssec_ok: false, max_payload: 100, options: Default::default() };
    assert_eq!(small.into_proto().max_payload(), 512);
}

#[test]
fn decoding_is_repeatable() {
    let bytes = example_query_with_cookie();
    let a = decode(&bytes).unwrap();
    let b = decode(&bytes.clone()).unwrap();
    assert_eq!(a.header, b.header);
    assert_eq!(a.edns.unwrap().options, b.edns.unwrap().options);
    assert!(decode(&bytes[..5]).is_err() && decode(&bytes[..5]).is_err());
}

#[test]
fn edns_options_are_carried_unchanged() {
    let mut e = Edns::new();
    e.options_mut().insert(EdnsOption::Unknown(10, vec![1, 2, 3, 4, 5, 6, 7, 8]));
    let m = MyEdns::serdeify(e.clone());
    assert_eq!(&m.options, e.options());
    assert_eq!(m.option_count(), 1);
    assert_eq!(m.into_proto().options().as_ref().len(), 0);
}

#[test]
fn encoding_does_not_depend_on_edns_options() {
    let bytes = example_query_with_cookie();
    let with_options = decode(&bytes).unwrap();
    let mut without = decode(&bytes).unwrap();
    without.edns.as_mut().unwrap().options = Default::default();
    assert_eq!(without.edns.as_ref().unwrap().option_count(), 0);
    let a = encode(with_options).unwrap();
    let b = encode(without).unwrap();
    assert_eq!(a, b);
    assert_eq!((a[0], a[1]), (0x12, 0x34));
    assert!(a.len() >= 12);
}
