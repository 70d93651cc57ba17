use tfserver::examples::{
    make_big_payload_request, make_test_request, try_deserialize_structures, try_serialize_structures,
    BigPayloadHandler, ExampleSType, ExpensiveMsg, ManualHandlerRequest, TestMsg,
};
use tfserver::s_type::{
    from_slice, to_vec, ServerError, ServerErrorEn, SystemSType, TypeContainer, TypeTupple,
};
use tfserver::testing::{
    read_test_reply, test_request_bytes, test_serve_route, HighPayloadRequest, HighPayloadResponse,
    InitialRequest, InitialResponse, PayloadRequest, PayloadResponse, TestError, TestReply,
    TestStructureType,
};

fn config() -> bincode::config::Configuration<
    bincode::config::LittleEndian,
    bincode::config::Fixint,
    bincode::config::NoLimit,
> {
    bincode::config::standard()
        .with_little_endian()
        .with_fixed_int_encoding()
        .with_no_limit()
}

fn initial(request: u64) -> InitialRequest {
    InitialRequest { s_type: TestStructureType::InitialRequest, request }
}

#[test]
fn test_structure_bytes_are_bincode_of_their_fields() {
    let bytes = to_vec(&initial(500)).unwrap();
    assert_eq!(bytes, bincode::serde::encode_to_vec((0u32, 500u64), config()).unwrap());

    let q = PayloadRequest {
        s_type: TestStructureType::PayloadRequest,
        request: initial(7),
        medium_payload: vec![1, 2],
    };
    let expected = bincode::serde::encode_to_vec((2u32, (0u32, 7u64), vec![1u8, 2]), config()).unwrap();
    assert_eq!(to_vec(&q).unwrap(), expected);

    let e = TestError::new("no meta!");
    let expected = bincode::serde::encode_to_vec((6u32, "no meta!"), config()).unwrap();
    assert_eq!(to_vec(&e).unwrap(), expected);

    let wrong = InitialRequest { s_type: TestStructureType::TestError, request: 1 };
    assert!(to_vec(&wrong).is_none());
}

#[test]
fn test_structures_read_back() {
    let q = PayloadRequest {
        s_type: TestStructureType::PayloadRequest,
        request: initial(9),
        medium_payload: vec![5, 0, 5],
    };
    let mut bytes = to_vec(&q).unwrap();
    bytes.extend_from_slice(&[1, 2, 3]);
    let back = from_slice::<PayloadRequest>(&bytes).unwrap();
    assert!(back.s_type == TestStructureType::PayloadRequest);
    assert_eq!(back.request.request, 9);
    assert_eq!(back.medium_payload, vec![5, 0, 5]);

    let bytes = to_vec(&initial(3)).unwrap();
    assert!(from_slice::<InitialResponse>(&bytes).is_err());
    assert_eq!(from_slice::<InitialRequest>(&bytes[..3]).err().unwrap(), "Unknown packet type");
}

#[test]
fn server_error_reaches_a_test_client() {
    let err = to_vec(&ServerError::new(ServerErrorEn::NoSuchHandler(None))).unwrap();
    assert_eq!(from_slice::<InitialRequest>(&err).err().unwrap(), "No such handler!");
    assert_eq!(from_slice::<TestMsg>(&err).err().unwrap(), "No such handler!");
}

#[test]
fn test_handler_serves_initial_requests() {
    let data = to_vec(&initial(7)).unwrap();
    let reply = test_serve_route(TestStructureType::InitialRequest, &data).unwrap();
    let expected = InitialResponse { s_type: TestStructureType::InitialResponse, response: 35 };
    assert_eq!(reply, to_vec(&expected).unwrap());
    assert_eq!(reply, bincode::serde::encode_to_vec((1u32, 35u64), config()).unwrap());
}

#[test]
fn test_handler_sorts_payloads() {
    let q = PayloadRequest {
        s_type: TestStructureType::PayloadRequest,
        request: initial(500),
        medium_payload: vec![200, 3, 77, 3],
    };
    let data = to_vec(&q).unwrap();
    let reply = test_serve_route(TestStructureType::PayloadRequest, &data).unwrap();
    let answer = from_slice::<PayloadResponse>(&reply).unwrap();
    assert_eq!(answer.medium_payload, vec![3, 3, 77, 200]);
    assert_eq!(answer.request.request, 500);
    let expected = bincode::serde::encode_to_vec((3u32, (0u32, 500u64), vec![3u8, 3, 77, 200]), config()).unwrap();
    assert_eq!(reply, expected);
}

#[test]
fn test_handler_refusals() {
    let empty = test_serve_route(TestStructureType::InitialRequest, &[]).err().unwrap();
    assert_eq!(empty, bincode::serde::encode_to_vec((6u32, "no meta!"), config()).unwrap());
    let high = test_serve_route(TestStructureType::HighPayloadRequest, &[1, 2, 3]).err().unwrap();
    assert_eq!(high, bincode::serde::encode_to_vec((6u32, "TestError"), config()).unwrap());
    let other = test_serve_route(TestStructureType::InitialResponse, &[0]).err().unwrap();
    assert_eq!(other, high);
}

#[test]
fn test_client_request_bytes() {
    let (bytes, s_type) = test_request_bytes(2, vec![4]);
    assert!(s_type == TestStructureType::InitialRequest);
    assert_eq!(bytes, bincode::serde::encode_to_vec((0u32, 500u64), config()).unwrap());
    let (bytes, s_type) = test_request_bytes(3, vec![4, 1]);
    assert!(s_type == TestStructureType::PayloadRequest);
    let expected = bincode::serde::encode_to_vec((2u32, 0u32, 500u64, vec![4u8, 1]), config()).unwrap();
    assert_eq!(bytes, expected);
}

#[test]
fn test_client_reads_replies() {
    let product = to_vec(&InitialResponse { s_type: TestStructureType::InitialResponse, response: 2500 }).unwrap();
    assert!(matches!(read_test_reply(&product), TestReply::Product(2500)));
    let sorted = to_vec(&PayloadResponse {
        s_type: TestStructureType::PayloadResponse,
        request: initial(500),
        medium_payload: vec![1, 2],
    })
    .unwrap();
    assert!(matches!(read_test_reply(&sorted), TestReply::Sorted));
    assert!(matches!(read_test_reply(&[9, 9]), TestReply::Unreadable));
}

#[test]
fn big_payload_handler_serves_expensive_messages() {
    let handler = BigPayloadHandler {};
    let msg = ExpensiveMsg { s_type: ExampleSType::ExpensiveMessage, id: 4, data: vec![9, 8, 9, 1] };
    let reply = handler.serve_route(ExampleSType::ExpensiveMessage, &to_vec(&msg).unwrap()).unwrap();
    let expected = bincode::serde::encode_to_vec((2u32, 4u64, vec![1u8, 8, 9, 9]), config()).unwrap();
    assert_eq!(reply, expected);
    let refused = handler.serve_route(ExampleSType::ManualHandlerRequest, &[0, 0, 0, 0]).err().unwrap();
    assert_eq!(refused, b"Malformed message type".to_vec());
}

#[test]
fn example_structures_bytes() {
    let (test1, test2, test3, test4) = try_serialize_structures();
    let e1 = bincode::serde::encode_to_vec((0u32, 532u64, Vec::<u8>::new(), "hello message"), config()).unwrap();
    let e2 = bincode::serde::encode_to_vec((1u32, 34u64, vec![32u8, 32, 12, 32], "test response"), config()).unwrap();
    let e3 = bincode::serde::encode_to_vec((2u32, 23u64, vec![18u8; 2048]), config()).unwrap();
    let e4 = bincode::serde::encode_to_vec((3u32, 23u64, vec![18u8; 4096]), config()).unwrap();
    assert_eq!(test1, e1);
    assert_eq!(test2, e2);
    assert_eq!(test3, e3);
    assert_eq!(test4, e4);
    assert_eq!((test1.len(), test2.len(), test3.len(), test4.len()), (41, 45, 2068, 4116));
}

#[test]
fn example_structures_read_back() {
    let (m, r, e, x) = try_deserialize_structures(try_serialize_structures());
    assert_eq!(m.id, 532);
    assert_eq!(m.message, "hello message");
    assert!(m.data.is_empty());
    assert_eq!(r.data, vec![32, 32, 12, 32]);
    assert_eq!(r.another_message, "test response");
    assert_eq!(e.data, vec![18u8; 2048]);
    assert_eq!(x.data.len(), 4096);
    assert!(x.s_type == ExampleSType::ExpensiveResponse);
}

#[test]
fn example_requests() {
    let req = make_test_request();
    assert_eq!(req.handler_info.named().as_deref(), Some("TEST_HANDLER"));
    assert_eq!(req.handler_info.id(), None);
    assert_eq!(req.s_type.s_type, 0);
    let expected = bincode::serde::encode_to_vec((0u32, 12u64, vec![32u8, 32, 23, 42], "hello from client"), config()).unwrap();
    assert_eq!(req.data, expected);

    let req = make_big_payload_request(vec![5, 4]);
    assert_eq!(req.handler_info.named().as_deref(), Some("BIG_PAYLOAD"));
    assert_eq!(req.s_type.s_type, 3);
    assert_eq!(req.data, bincode::serde::encode_to_vec((3u32, 12u64, vec![5u8, 4]), config()).unwrap());
}

#[test]
fn manual_handler_request_is_its_type() {
    let q = ManualHandlerRequest { s_type: ExampleSType::ManualHandlerRequest };
    assert_eq!(to_vec(&q).unwrap(), vec![4, 0, 0, 0]);
    assert!(from_slice::<ManualHandlerRequest>(&[4, 0, 0, 0, 7]).is_ok());
    assert!(from_slice::<ManualHandlerRequest>(&[5, 0, 0, 0]).is_err());
}

#[test]
fn type_tupple_equality() {
    let tuple = |codes: &[u64], handler_id: u64| TypeTupple {
        s_types: codes.iter().map(|c| TypeContainer::new(TestStructureType::deserialize(*c))).collect(),
        handler_id,
    };
    assert!(tuple(&[0], 0) != tuple(&[2, 6], 0));
    assert!(tuple(&[2, 6], 0) != tuple(&[0], 0));
    assert!(tuple(&[1, 2], 0) != tuple(&[1], 0));
    assert!(tuple(&[1], 0) != tuple(&[1, 2], 0));
    assert!(tuple(&[2, 1], 3) == tuple(&[1, 2], 3));
    assert!(tuple(&[1, 1, 2], 3) == tuple(&[2, 1], 3));
    assert!(tuple(&[1, 2], 3) != tuple(&[1, 2], 4));
    let system = TypeTupple { s_types: vec![TypeContainer::new(SystemSType::PacketMeta)], handler_id: 0 };
    assert!(system != tuple(&[0], 0));
}

#[test]
fn test_client_and_handler_exchange() {
    let (bytes, s_type) = test_request_bytes(0, vec![7, 3, 5]);
    let reply = test_serve_route(s_type, &bytes).unwrap();
    assert!(matches!(read_test_reply(&reply), TestReply::Product(2500)));
    let (bytes, s_type) = test_request_bytes(1, vec![7, 3, 5]);
    let reply = test_serve_route(s_type, &bytes).unwrap();
    assert!(matches!(read_test_reply(&reply), TestReply::Sorted));
    assert_eq!(from_slice::<PayloadResponse>(&reply).unwrap().medium_payload, vec![3, 5, 7]);
}

#[test]
fn high_payload_structures_on_the_wire() {
    let q = HighPayloadRequest { s_type: TestStructureType::HighPayloadRequest, request: initial(1), payload: vec![8, 9] };
    let bytes = to_vec(&q).unwrap();
    assert_eq!(bytes, bincode::serde::encode_to_vec((4u32, (0u32, 1u64), vec![8u8, 9]), config()).unwrap());
    assert_eq!(from_slice::<HighPayloadRequest>(&bytes).unwrap().payload, vec![8, 9]);
    let r = HighPayloadResponse { s_type: TestStructureType::HighPayloadResponse, request: initial(1), medium_payload: vec![] };
    let bytes = to_vec(&r).unwrap();
    assert_eq!(bytes[0], 5);
    assert!(from_slice::<HighPayloadRequest>(&bytes).is_err());
}

#[test]
fn test_client_generator_counts_and_draws() {
    let mut gen = tfserver::testing::TestRecv::new();
    let (bytes, t) = gen.get_request().unwrap();
    assert!(t == TestStructureType::InitialRequest);
    assert_eq!(bytes, vec![0, 0, 0, 0, 244, 1, 0, 0, 0, 0, 0, 0]);
    let (bytes, t) = gen.get_request().unwrap();
    assert!(t == TestStructureType::PayloadRequest);
    let q = from_slice::<PayloadRequest>(&bytes).unwrap();
    assert_eq!(q.request.request, 500);
    assert_eq!(q.medium_payload.len(), 500);
    assert!(q.medium_payload.iter().all(|b| *b < 255));
    let (_, t) = gen.get_request().unwrap();
    assert!(t == TestStructureType::InitialRequest);
}
