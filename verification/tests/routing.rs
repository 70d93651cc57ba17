use tfserver::client::{resolve_handler, DataRequest, HandlerInfo, HandlerTarget};
use tfserver::s_type::{
    from_slice, to_vec, HandlerMetaAns, HandlerMetaReq, PacketMeta, ServerError, ServerErrorEn,
    SystemSType, TypeContainer,
};
use tfserver::testing::TestStructureType;
use tfserver::server_router::{
    handler_result, response_message, HandlerOutcome, ServeDecision, TcpServerRouter,
};
use tfserver::target_router::{RouterError, TargetRouter};

fn header(handler_id: u64, s_type_req: u64, has_payload: bool) -> Vec<u8> {
    to_vec(&PacketMeta { s_type: SystemSType::PacketMeta, s_type_req, handler_id, has_payload }).unwrap()
}

fn question(name: &str) -> Vec<u8> {
    to_vec(&HandlerMetaReq { s_type: SystemSType::HandlerMetaReq, handler_name: name.to_string() }).unwrap()
}

fn types(codes: &[u64]) -> Vec<TestStructureType> {
    codes.iter().map(|c| TestStructureType::deserialize(*c)).collect()
}

fn router() -> TcpServerRouter<&'static str, TestStructureType> {
    let mut router = TcpServerRouter::new();
    router.add_route("first", "TestHandler".to_string(), types(&[0, 2, 4]));
    router.add_route("second", "Other".to_string(), types(&[1]));
    router.commit_routes();
    router
}

#[test]
fn header_for_registered_route_is_dispatched() {
    let router = router();
    match router.serve_packet(&header(0, 2, true)) {
        ServeDecision::Dispatch { route, handler_id, s_type } => {
            assert_eq!(route, 0);
            assert_eq!(handler_id, 0);
            assert_eq!(s_type, TestStructureType::PayloadRequest);
            assert_eq!(*router.handler(route), "first");
        }
        _ => panic!("expected a dispatch"),
    }
    match router.serve_packet(&header(1, 1, false)) {
        ServeDecision::Dispatch { route, .. } => assert_eq!(*router.handler(route), "second"),
        _ => panic!("expected a dispatch"),
    }
}

#[test]
fn header_for_unregistered_type_or_id_is_refused() {
    let router = router();
    for bytes in [header(0, 1, false), header(1, 0, false), header(7, 0, false)] {
        match router.serve_packet(&bytes) {
            ServeDecision::Refuse(err) => {
                assert!(err.s_type == SystemSType::ServerError);
                assert_eq!(err.en.to_string(), "No such handler!");
            }
            _ => panic!("expected a refusal"),
        }
    }
}

#[test]
fn name_question_is_answered_with_the_id() {
    let router = router();
    match router.serve_packet(&question("Other")) {
        ServeDecision::Answer(bytes) => {
            let ans: HandlerMetaAns = from_slice(&bytes).unwrap();
            assert_eq!(ans.id, 1);
        }
        _ => panic!("expected an answer"),
    }
    match router.serve_packet(&question("Nobody")) {
        ServeDecision::Refuse(err) => assert_eq!(err.en.to_string(), "No such handler!"),
        _ => panic!("expected a refusal"),
    }
}

#[test]
fn garbage_header_is_malformed() {
    let router = router();
    match router.serve_packet(&[9, 9, 9]) {
        ServeDecision::Refuse(err) => assert_eq!(err.en.to_string(), "Malformed meta info!"),
        _ => panic!("expected a refusal"),
    }
}

#[test]
fn routes_after_commit_are_ignored() {
    let mut router = router();
    router.add_route("late", "Late".to_string(), types(&[5]));
    router.commit_routes();
    assert_eq!(router.get_routes().len(), 2);
    assert!(matches!(router.serve_packet(&question("Late")), ServeDecision::Refuse(_)));
}

#[test]
fn commit_with_nothing_registered_keeps_the_table_open() {
    let mut router: TcpServerRouter<u8, TestStructureType> = TcpServerRouter::new();
    router.commit_routes();
    router.add_route(1, "One".to_string(), types(&[3]));
    router.commit_routes();
    assert_eq!(router.get_routes().len(), 1);
    assert!(matches!(router.serve_packet(&header(0, 3, false)), ServeDecision::Dispatch { .. }));
}

#[test]
fn same_name_twice_stands_for_the_later_route() {
    let mut router: TcpServerRouter<u8, TestStructureType> = TcpServerRouter::new();
    router.add_route(1, "Twice".to_string(), types(&[3]));
    router.add_route(2, "Twice".to_string(), types(&[3]));
    router.commit_routes();
    match router.serve_packet(&question("Twice")) {
        ServeDecision::Answer(bytes) => {
            let ans: HandlerMetaAns = from_slice(&bytes).unwrap();
            assert_eq!(ans.id, 1);
        }
        _ => panic!("expected an answer"),
    }
    let routes = router.get_routes();
    assert_eq!(routes[0].0.handler_id, 0);
    assert_eq!(routes[1].0.handler_id, 1);
}

#[test]
fn uncommitted_table_serves_nothing() {
    let mut router: TcpServerRouter<u8, TestStructureType> = TcpServerRouter::new();
    router.add_route(1, "One".to_string(), types(&[3]));
    assert!(matches!(router.serve_packet(&header(0, 3, false)), ServeDecision::Refuse(_)));
    assert!(matches!(router.serve_packet(&question("One")), ServeDecision::Refuse(_)));
}

#[test]
fn handler_outcomes_become_replies() {
    match handler_result(HandlerOutcome::Replied(vec![1, 2])) {
        Ok(data) => assert_eq!(data, vec![1, 2]),
        Err(_) => panic!("expected a reply"),
    }
    match handler_result(HandlerOutcome::Failed(b"oops".to_vec())) {
        Err(err) => assert_eq!(err.en.to_string(), "oops"),
        Ok(_) => panic!("expected an error"),
    }
    match handler_result(HandlerOutcome::Panicked) {
        Err(err) => assert_eq!(err.en.to_string(), "handler died :("),
        Ok(_) => panic!("expected an error"),
    }
    assert_eq!(response_message(Ok(vec![5])), vec![5]);
    let err = ServerError::new(ServerErrorEn::PayloadLost);
    let bytes = response_message(Err(ServerError::new(ServerErrorEn::PayloadLost)));
    assert_eq!(bytes, to_vec(&err).unwrap());
}

#[test]
fn client_learns_the_id_the_server_answers() {
    let server = router();
    let mut cache = TargetRouter::new();
    assert_eq!(cache.lookup_route("TestHandler"), None);
    let question = TargetRouter::route_request("TestHandler").ok().unwrap();
    let answer = match server.serve_packet(&question) {
        ServeDecision::Answer(bytes) => bytes,
        _ => panic!("expected an answer"),
    };
    match cache.accept_route_answer("TestHandler", &answer) {
        Ok(id) => assert_eq!(id, 0),
        Err(_) => panic!("expected an id"),
    }
    assert_eq!(cache.lookup_route("TestHandler"), Some(0));
}

#[test]
fn client_keeps_its_cache_on_a_refusal() {
    let mut cache = TargetRouter::new();
    let refusal = to_vec(&ServerError::new(ServerErrorEn::NoSuchHandler(None))).unwrap();
    match cache.accept_route_answer("Nobody", &refusal) {
        Err(RouterError::Protocol(text)) => assert_eq!(text, "No such handler!"),
        _ => panic!("expected a protocol error"),
    }
    assert_eq!(cache.lookup_route("Nobody"), None);
}

#[test]
fn handler_resolution() {
    let mut cache = TargetRouter::new();
    let answer = to_vec(&HandlerMetaAns { s_type: SystemSType::HandlerMetaAns, id: 12 }).unwrap();
    cache.accept_route_answer("Known", &answer).ok().unwrap();
    assert!(matches!(resolve_handler(&HandlerInfo::new_id(5), &cache), HandlerTarget::Known(5)));
    assert!(matches!(
        resolve_handler(&HandlerInfo::new_named("Known".to_string()), &cache),
        HandlerTarget::Known(12)
    ));
    match resolve_handler(&HandlerInfo::new_named("Unknown".to_string()), &cache) {
        HandlerTarget::Ask(name) => assert_eq!(name, "Unknown"),
        _ => panic!("expected a question"),
    }
    let info = HandlerInfo::new_named("x".to_string());
    assert_eq!(info.id(), None);
    assert_eq!(info.named().as_deref(), Some("x"));
    assert_eq!(HandlerInfo::new_id(3).id(), Some(3));
    assert!(HandlerInfo::new_id(3).named().is_none());
}

#[test]
fn request_header_says_whether_a_payload_follows() {
    let with = DataRequest { handler_info: HandlerInfo::new_id(4), data: vec![1], s_type: TypeContainer::new(TestStructureType::TestError) };
    let meta: PacketMeta = from_slice(&with.meta_bytes(4)).unwrap();
    assert!(meta.has_payload);
    assert_eq!(meta.s_type_req, 6);
    assert_eq!(meta.handler_id, 4);
    let without = DataRequest { handler_info: HandlerInfo::new_id(4), data: vec![], s_type: TypeContainer::new(TestStructureType::TestError) };
    let meta: PacketMeta = from_slice(&without.meta_bytes(4)).unwrap();
    assert!(!meta.has_payload);
}

#[test]
fn request_number_is_decoded_by_its_low_byte() {
    let router = router();
    match router.serve_packet(&header(0, 256 + 4, false)) {
        ServeDecision::Dispatch { route, s_type, .. } => {
            assert_eq!(route, 0);
            assert_eq!(s_type, TestStructureType::HighPayloadRequest);
        }
        _ => panic!("expected a dispatch"),
    }
}

#[test]
fn routes_keep_their_handlers_and_types_once() {
    let mut router: TcpServerRouter<&'static str, TestStructureType> = TcpServerRouter::new();
    router.add_route("zero", "Zero".to_string(), types(&[0, 0, 2]));
    router.add_route("one", "One".to_string(), types(&[1]));
    router.add_route("two", "Two".to_string(), types(&[]));
    router.commit_routes();
    let routes = router.get_routes();
    assert_eq!(routes.len(), 3);
    assert_eq!(routes[0].1, "zero");
    assert_eq!(routes[1].1, "one");
    assert_eq!(routes[2].1, "two");
    assert_eq!(routes[0].0.s_types.len(), 2);
    assert_eq!(*router.handler(1), "one");
    assert!(matches!(router.serve_packet(&header(2, 0, false)), ServeDecision::Refuse(_)));
}

#[test]
fn containers_tell_enums_apart() {
    assert!(TypeContainer::new(SystemSType::PacketMeta) != TypeContainer::new(TestStructureType::InitialRequest));
    assert!(TypeContainer::new(TestStructureType::InitialRequest) == TypeContainer::new(TestStructureType::InitialRequest));
    assert_eq!(TypeContainer::new(TestStructureType::TestError).s_type, 6);
}
