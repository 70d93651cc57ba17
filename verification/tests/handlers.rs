use tfserver::examples::{
    BigPayloadHandler, BigPayloadRoute, ExampleSType, ExpensiveMsg, ExpensiveResponse,
};
use tfserver::s_type::{validate_s_type, StructureType};
use tfserver::testing::{
    answer_initial, answer_payload, next_test_request, test_post_process, test_pre_process,
    test_route, InitialRequest, PayloadRequest, TestClientRequest, TestRoute, TestStructureType,
};

#[test]
fn test_structure_type_numbers() {
    assert!(TestStructureType::deserialize(6) == TestStructureType::TestError);
    assert!(TestStructureType::deserialize(256 + 2) == TestStructureType::PayloadRequest);
    assert_eq!(TestStructureType::serialize(TestStructureType::HighPayloadRequest), 4);
    assert_eq!(TestStructureType::InitialResponse.to_code(), 1);
    assert!(ExampleSType::deserialize(4) == ExampleSType::ManualHandlerRequest);
    assert_eq!(ExampleSType::serialize(ExampleSType::ExpensiveResponse), 3);
}

#[test]
fn structures_carry_their_own_type() {
    let ok = InitialRequest { s_type: TestStructureType::InitialRequest, request: 1 };
    assert!(validate_s_type(&ok));
    let wrong = InitialRequest { s_type: TestStructureType::PayloadRequest, request: 1 };
    assert!(!validate_s_type(&wrong));
}

#[test]
fn test_handler_routes() {
    match test_route(TestStructureType::InitialRequest, 0) {
        Err(e) => assert_eq!(e.error, "no meta!"),
        Ok(_) => panic!("an empty payload was served"),
    }
    assert!(matches!(test_route(TestStructureType::InitialRequest, 3), Ok(TestRoute::Initial)));
    assert!(matches!(test_route(TestStructureType::PayloadRequest, 3), Ok(TestRoute::Payload)));
    match test_route(TestStructureType::HighPayloadRequest, 3) {
        Err(e) => {
            assert_eq!(e.error, "TestError");
            assert!(e.s_type == TestStructureType::TestError);
        }
        Ok(_) => panic!("a large payload was served"),
    }
}

#[test]
fn test_handler_answers() {
    let answer = answer_initial(&InitialRequest { s_type: TestStructureType::InitialRequest, request: 500 });
    assert_eq!(answer.response, 2500);
    assert!(answer.s_type == TestStructureType::InitialResponse);
    let answer = answer_payload(PayloadRequest {
        s_type: TestStructureType::PayloadRequest,
        request: InitialRequest { s_type: TestStructureType::InitialRequest, request: 500 },
        medium_payload: vec![9, 1, 5, 1, 0],
    });
    assert_eq!(answer.medium_payload, vec![0, 1, 1, 5, 9]);
    assert_eq!(answer.request.request, 500);
}

#[test]
fn test_processor_shifts_bytes() {
    let out = test_post_process(vec![0, 1, 253, 254, 255]);
    assert_eq!(out, vec![1, 2, 254, 255, 0]);
    let back = test_pre_process(out);
    assert_eq!(back, vec![0, 1, 253, 254, 255]);
    let data: Vec<u8> = (0..=255u8).collect();
    assert_eq!(test_pre_process(test_post_process(data.clone())), data);
    assert_eq!(test_post_process(test_pre_process(data.clone())), data);
}

#[test]
fn test_client_alternates() {
    match next_test_request(4, vec![1, 2]) {
        TestClientRequest::Initial(q) => assert_eq!(q.request, 500),
        _ => panic!("expected an initial request"),
    }
    match next_test_request(5, vec![1, 2]) {
        TestClientRequest::Payload(q) => {
            assert_eq!(q.medium_payload, vec![1, 2]);
            assert_eq!(q.request.request, 500);
        }
        _ => panic!("expected a payload request"),
    }
}

#[test]
fn big_payload_handler() {
    let handler = BigPayloadHandler {};
    assert!(matches!(handler.route(ExampleSType::ExpensiveMessage), Ok(BigPayloadRoute::Message)));
    assert!(matches!(handler.route(ExampleSType::ExpensiveResponse), Ok(BigPayloadRoute::Response)));
    match handler.route(ExampleSType::TestMessage) {
        Err(bytes) => assert_eq!(bytes, b"Malformed message type".to_vec()),
        Ok(_) => panic!("a test message was served"),
    }
    let sorted = handler.sort_message(ExpensiveMsg { s_type: ExampleSType::ExpensiveMessage, id: 12, data: vec![3, 2, 1] });
    assert_eq!(sorted.data, vec![1, 2, 3]);
    assert_eq!(sorted.id, 12);
    let sorted = handler.sort_response(ExpensiveResponse { s_type: ExampleSType::ExpensiveResponse, id: 1, data: vec![18, 0] });
    assert_eq!(sorted.data, vec![0, 18]);
}
