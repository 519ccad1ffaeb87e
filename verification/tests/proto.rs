use mt::proto::port::{
    decode_routing, parse, ParseError, PortPayload, Routing, RoutingVariant, ADMIN_APP,
    NODEINFO_APP, POSITION_APP, ROUTING_APP, TELEMETRY_APP, TEXT_MESSAGE_APP,
};
use mt::proto::wire::{
    append_bytes, copy_range, read_field, read_fields, read_varint, write_bytes_field,
    write_varint, write_varint_field, FieldVal,
};

#[test]
fn varint_examples() {
    let mut out = Vec::new();
    write_varint(&mut out, 0);
    assert_eq!(out, vec![0]);
    let mut out = Vec::new();
    write_varint(&mut out, 300);
    assert_eq!(out, vec![0xAC, 0x02]);
    let mut out = Vec::new();
    write_varint(&mut out, u64::MAX);
    assert_eq!(out.len(), 10);
    assert_eq!(out[9], 0x01);
}

#[test]
fn varint_reads_back() {
    for v in [0u64, 1, 127, 128, 300, 1 << 35, u64::MAX] {
        let mut out = vec![0xFF];
        write_varint(&mut out, v);
        assert_eq!(read_varint(&out, 1, 10), Some((v, out.len() - 1)));
    }
}

#[test]
fn varint_refuses_truncated_and_overlong() {
    assert_eq!(read_varint(&[0x80, 0x80], 0, 10), None);
    assert_eq!(read_varint(&[0x80; 11], 0, 10), None);
    // Ten bytes whose last carries more than the one remaining bit.
    let mut bytes = vec![0xFF; 9];
    bytes.push(0x02);
    assert_eq!(read_varint(&bytes, 0, 10), None);
}

#[test]
fn fields_round_trip() {
    let mut msg = Vec::new();
    write_varint_field(&mut msg, 1, 150);
    write_bytes_field(&mut msg, 2, b"abc");
    assert_eq!(msg, vec![0x08, 0x96, 0x01, 0x12, 0x03, b'a', b'b', b'c']);
    let fields = read_fields(&msg).unwrap();
    assert_eq!(fields.len(), 2);
    assert_eq!(fields[0].number, 1);
    assert!(matches!(fields[0].value, FieldVal::Varint(150)));
    assert_eq!(fields[1].number, 2);
    match &fields[1].value {
        FieldVal::Bytes(b) => assert_eq!(b, b"abc"),
        other => panic!("unexpected {other:?}"),
    }
}

#[test]
fn read_field_reports_length() {
    let msg = vec![0x08, 0x96, 0x01, 0x10, 0x01];
    let (f, n) = read_field(&msg, 0).unwrap();
    assert_eq!(f.number, 1);
    assert_eq!(n, 3);
    let (g, m) = read_field(&msg, 3).unwrap();
    assert_eq!(g.number, 2);
    assert_eq!(m, 2);
}

#[test]
fn read_fields_refuses_malformed() {
    // Length prefix runs past the end.
    assert!(read_fields(&[0x12, 0x05, 1, 2]).is_none());
    // Field number zero.
    assert!(read_fields(&[0x00, 0x01]).is_none());
    // Empty message is fine.
    assert_eq!(read_fields(&[]).unwrap().len(), 0);
}

#[test]
fn fixed_width_fields() {
    let msg = vec![0x0D, 1, 2, 3, 4, 0x11, 1, 2, 3, 4, 5, 6, 7, 8];
    let fields = read_fields(&msg).unwrap();
    assert!(matches!(&fields[0].value, FieldVal::Fixed32(b) if b == &vec![1, 2, 3, 4]));
    assert!(matches!(&fields[1].value, FieldVal::Fixed64(b) if b.len() == 8));
}

#[test]
fn append_and_copy() {
    let mut out = vec![1];
    append_bytes(&mut out, &[2, 3]);
    assert_eq!(out, vec![1, 2, 3]);
    assert_eq!(copy_range(&out, 1, 3), vec![2, 3]);
}

#[test]
fn parse_text_payload() {
    match parse(TEXT_MESSAGE_APP, "héllo".as_bytes()) {
        Ok(PortPayload::Text(t)) => assert_eq!(t, "héllo"),
        other => panic!("unexpected {other:?}"),
    }
    assert!(matches!(parse(TEXT_MESSAGE_APP, &[0xFF, 0xFE]), Err(ParseError::Utf8)));
}

#[test]
fn parse_routing_payload() {
    // error_reason = 0: delivered.
    match parse(ROUTING_APP, &[0x18, 0x00]) {
        Ok(PortPayload::Routing(r)) => {
            assert_eq!(r, Routing { variant: Some(RoutingVariant::ErrorReason(0)) })
        }
        other => panic!("unexpected {other:?}"),
    }
    assert_eq!(
        decode_routing(&[0x18, 0x08]),
        Some(Routing { variant: Some(RoutingVariant::ErrorReason(8)) })
    );
    assert_eq!(decode_routing(&[0x0A, 0x00]), Some(Routing { variant: Some(RoutingVariant::RouteRequest) }));
    assert_eq!(decode_routing(&[]), Some(Routing { variant: None }));
    assert!(matches!(parse(ROUTING_APP, &[0x18]), Err(ParseError::Proto)));
}

#[test]
fn parse_protobuf_payloads_are_checked() {
    // Position: altitude (field 3, varint).
    let pos = vec![0x18, 0x05];
    assert!(matches!(parse(POSITION_APP, &pos), Ok(PortPayload::Position(b)) if b == pos));
    // User: role (field 7, varint).
    let user = vec![0x38, 0x01];
    assert!(matches!(parse(NODEINFO_APP, &user), Ok(PortPayload::NodeInfo(b)) if b == user));
    // Telemetry: time (field 1, fixed32) and device metrics with a battery level.
    let tel = vec![0x0D, 1, 2, 3, 4, 0x12, 0x02, 0x08, 0x50];
    assert!(matches!(parse(TELEMETRY_APP, &tel), Ok(PortPayload::Telemetry(b)) if b == tel));
    // AdminMessage: a field this client does not read is skipped.
    let admin = vec![0x08, 0x01];
    assert!(matches!(parse(ADMIN_APP, &admin), Ok(PortPayload::Admin(b)) if b == admin));
    assert!(matches!(parse(POSITION_APP, &[0x08]), Err(ParseError::Proto)));
}

#[test]
fn parse_rejects_fields_of_the_wrong_kind() {
    // latitude_i is sfixed32, not a varint.
    assert!(matches!(parse(POSITION_APP, &[0x08, 0x01]), Err(ParseError::Proto)));
    // A user's id is a string, and must be UTF-8.
    assert!(matches!(parse(NODEINFO_APP, &[0x08, 0x01]), Err(ParseError::Proto)));
    assert!(matches!(parse(NODEINFO_APP, &[0x12, 0x01, 0xFF]), Err(ParseError::Proto)));
    // Device metrics' voltage is a float (four bytes), not a varint.
    assert!(matches!(parse(TELEMETRY_APP, &[0x12, 0x02, 0x10, 0x01]), Err(ParseError::Proto)));
    // set_owner carries a User whose long name must be a string.
    assert!(matches!(parse(ADMIN_APP, &[0x82, 0x02, 0x02, 0x10, 0x01]), Err(ParseError::Proto)));
}

#[test]
fn parse_routing_checks_the_route() {
    // route_request with one packed fixed32 hop.
    let ok = [0x0A, 0x06, 0x0A, 0x04, 1, 2, 3, 4];
    assert!(matches!(
        parse(ROUTING_APP, &ok),
        Ok(PortPayload::Routing(Routing { variant: Some(RoutingVariant::RouteRequest) }))
    ));
    // A packed run of fixed32 hops must be whole.
    let bad = [0x0A, 0x05, 0x0A, 0x03, 1, 2, 3];
    assert!(matches!(parse(ROUTING_APP, &bad), Err(ParseError::Proto)));
    // The signal of each hop is a packed run of varints.
    let snr = [0x0A, 0x04, 0x12, 0x02, 0x05, 0x06];
    assert!(parse(ROUTING_APP, &snr).is_ok());
    let cut = [0x0A, 0x03, 0x12, 0x01, 0x85];
    assert!(matches!(parse(ROUTING_APP, &cut), Err(ParseError::Proto)));
}

#[test]
fn parse_unknown_port_passes_bytes() {
    match parse(256, &[1, 2, 3]) {
        Ok(PortPayload::Unknown { port, bytes }) => {
            assert_eq!(port, 256);
            assert_eq!(bytes, vec![1, 2, 3]);
        }
        other => panic!("unexpected {other:?}"),
    }
}
