use tfserver::s_type::{
    describe_failed_packet, from_slice, to_vec, HandlerMetaAns, HandlerMetaReq, PacketMeta,
    ServerError, ServerErrorEn, StructureType, SystemSType,
};

fn config() -> bincode::config::Configuration<
    bincode::config::LittleEndian,
    bincode::config::Fixint,
    bincode::config::NoLimit,
> {
    bincode::config::standard()
        .with_little_endian()
        .with_fixed_int_encoding()
        .with_no_limit()
}

fn meta(handler_id: u64, s_type_req: u64, has_payload: bool) -> PacketMeta {
    PacketMeta { s_type: SystemSType::PacketMeta, s_type_req, handler_id, has_payload }
}

#[test]
fn packet_meta_bytes_are_bincode_of_its_fields() {
    let bytes = to_vec(&meta(3, 7, true)).unwrap();
    let expected = bincode::serde::encode_to_vec((0u32, 7u64, 3u64, true), config()).unwrap();
    assert_eq!(bytes, expected);
    assert_eq!(bytes.len(), 21);
    assert_eq!(&bytes[..4], &[0, 0, 0, 0]);
    assert_eq!(bytes[20], 1);
}

#[test]
fn handler_meta_req_bytes_are_bincode_of_its_fields() {
    let req = HandlerMetaReq { s_type: SystemSType::HandlerMetaReq, handler_name: "TestHandler".to_string() };
    let bytes = to_vec(&req).unwrap();
    let expected = bincode::serde::encode_to_vec((1u32, "TestHandler"), config()).unwrap();
    assert_eq!(bytes, expected);
    assert_eq!(&bytes[4..12], &[11, 0, 0, 0, 0, 0, 0, 0]);
}

#[test]
fn handler_meta_ans_bytes_are_bincode_of_its_fields() {
    let ans = HandlerMetaAns { s_type: SystemSType::HandlerMetaAns, id: 42 };
    let bytes = to_vec(&ans).unwrap();
    let expected = bincode::serde::encode_to_vec((2u32, 42u64), config()).unwrap();
    assert_eq!(bytes, expected);
}

#[test]
fn server_error_bytes_are_bincode_of_its_fields() {
    let err = ServerError::new(ServerErrorEn::NoSuchHandler(None));
    let expected = bincode::serde::encode_to_vec((3u32, 1u32, Option::<String>::None), config()).unwrap();
    assert_eq!(to_vec(&err).unwrap(), expected);

    let err = ServerError::new(ServerErrorEn::InternalError(Some(vec![1, 2, 3])));
    let expected =
        bincode::serde::encode_to_vec((3u32, 2u32, Some(vec![1u8, 2, 3])), config()).unwrap();
    assert_eq!(to_vec(&err).unwrap(), expected);

    let err = ServerError::new(ServerErrorEn::MalformedMetaInfo(Some("bad".to_string())));
    let expected = bincode::serde::encode_to_vec((3u32, 0u32, Some("bad")), config()).unwrap();
    assert_eq!(to_vec(&err).unwrap(), expected);

    let err = ServerError::new(ServerErrorEn::PayloadLost);
    assert_eq!(to_vec(&err).unwrap(), vec![3, 0, 0, 0, 3, 0, 0, 0]);
}

#[test]
fn packet_meta_reads_back_what_was_written() {
    let mut bytes = to_vec(&meta(9, 1234567890123, false)).unwrap();
    bytes.extend_from_slice(&[0xAA, 0xBB]);
    let back: PacketMeta = from_slice(&bytes).unwrap();
    assert!(back.s_type == SystemSType::PacketMeta);
    assert_eq!(back.handler_id, 9);
    assert_eq!(back.s_type_req, 1234567890123);
    assert!(!back.has_payload);
}

#[test]
fn handler_meta_req_reads_back_what_was_written() {
    let req = HandlerMetaReq { s_type: SystemSType::HandlerMetaReq, handler_name: "ÜberHandler ✓".to_string() };
    let bytes = to_vec(&req).unwrap();
    let back: HandlerMetaReq = from_slice(&bytes).unwrap();
    assert_eq!(back.handler_name, "ÜberHandler ✓");
}

#[test]
fn packet_of_another_type_is_rejected_with_its_error_text() {
    let err = ServerError::new(ServerErrorEn::NoSuchHandler(None));
    let bytes = to_vec(&err).unwrap();
    match from_slice::<PacketMeta>(&bytes) {
        Err(text) => assert_eq!(text, "No such handler!"),
        Ok(_) => panic!("a server error was read as a header"),
    }
    match from_slice::<HandlerMetaAns>(&bytes) {
        Err(text) => assert_eq!(text, "No such handler!"),
        Ok(_) => panic!("a server error was read as an answer"),
    }
}

#[test]
fn unknown_bytes_are_rejected_as_unknown_packet_type() {
    assert_eq!(describe_failed_packet(&[1, 2]), "Unknown packet type");
    match from_slice::<PacketMeta>(&[7, 0, 0, 0]) {
        Err(text) => assert_eq!(text, "Unknown packet type"),
        Ok(_) => panic!("garbage was read as a header"),
    }
    // A header whose structure type is not its own is refused too.
    let mut bytes = to_vec(&meta(1, 1, true)).unwrap();
    bytes[0] = 2;
    assert!(from_slice::<PacketMeta>(&bytes).is_err());
    // A boolean must be 0 or 1.
    let mut bytes = to_vec(&meta(1, 1, true)).unwrap();
    bytes[20] = 2;
    assert!(from_slice::<PacketMeta>(&bytes).is_err());
    // Truncated.
    let bytes = to_vec(&meta(1, 1, true)).unwrap();
    assert!(from_slice::<PacketMeta>(&bytes[..20]).is_err());
}

#[test]
fn invalid_utf8_name_is_rejected() {
    let mut bytes = bincode::serde::encode_to_vec((1u32, vec![0xFFu8, 0xFE]), config()).unwrap();
    assert!(from_slice::<HandlerMetaReq>(&bytes).is_err());
    bytes.truncate(12);
    assert!(from_slice::<HandlerMetaReq>(&bytes).is_err());
}

#[test]
fn header_with_wrong_structure_type_is_not_written() {
    let wrong = PacketMeta { s_type: SystemSType::ServerError, s_type_req: 1, handler_id: 1, has_payload: false };
    assert!(to_vec(&wrong).is_none());
    let wrong = HandlerMetaAns { s_type: SystemSType::PacketMeta, id: 1 };
    assert!(to_vec(&wrong).is_none());
}

#[test]
fn server_error_texts() {
    assert_eq!(ServerErrorEn::MalformedMetaInfo(None).to_string(), "Malformed meta info!");
    assert_eq!(
        ServerErrorEn::MalformedMetaInfo(Some("x".to_string())).to_string(),
        "Malformed meta info: x"
    );
    assert_eq!(ServerErrorEn::NoSuchHandler(None).to_string(), "No such handler!");
    assert_eq!(ServerErrorEn::NoSuchHandler(Some("h".to_string())).to_string(), "No such handler: h");
    assert_eq!(
        ServerErrorEn::InternalError(Some(b"handler died :(".to_vec())).to_string(),
        "handler died :("
    );
    assert_eq!(
        ServerErrorEn::InternalError(Some(vec![0xFF, 0x00])).to_string(),
        "Internal server error!"
    );
    assert_eq!(ServerErrorEn::InternalError(None).to_string(), "Internal server error!");
    assert_eq!(ServerErrorEn::PayloadLost.to_string(), "Payload lost!");
}

#[test]
fn error_packet_text_reaches_the_reader() {
    let err = ServerError::new(ServerErrorEn::InternalError(Some(b"boom".to_vec())));
    let bytes = to_vec(&err).unwrap();
    assert_eq!(describe_failed_packet(&bytes), "boom");
}

#[test]
fn system_structure_type_numbers() {
    assert!(SystemSType::deserialize(0) == SystemSType::PacketMeta);
    assert!(SystemSType::deserialize(3) == SystemSType::ServerError);
    assert!(SystemSType::deserialize(256 + 2) == SystemSType::HandlerMetaAns);
    assert_eq!(SystemSType::serialize(SystemSType::HandlerMetaReq), 1);
    assert_eq!(SystemSType::ServerError.to_code(), 3);
    assert!(SystemSType::from_code(1) == SystemSType::HandlerMetaReq);
    assert!(SystemSType::PacketMeta.equals(&SystemSType::PacketMeta));
    assert!(!SystemSType::PacketMeta.equals(&SystemSType::ServerError));
}
