//! The byte images of the framework's structures, stated field by field as bincode writes
//! them: what `to_vec` sends for a structure, what `from_slice` gives back for those bytes,
//! and that whatever a read accepts is exactly such bytes.
use vstd::prelude::*;
use crate::connection::announces_payload;
use crate::examples::{
    parse_example_s_type, read_expensive, read_text_message, text_message_fits, ExampleSType, ExpensiveMsg,
    ExpensiveResponse, ExpensiveView, ManualHandlerRequest, TestMsg, TestResponse, TextMessageView,
};
use crate::testing::{
    initial_response_wire, parse_test_s_type, payload_wire, read_initial_request, read_payload, HighPayloadRequest,
    HighPayloadResponse, InitialRequest, InitialResponse, PayloadRequest, PayloadResponse, PayloadView, TestError,
    TestErrorView, TestStructureType,
};
use crate::server_router::{decodable_request, ServeDecisionView, TcpServerRouter};
use crate::s_type::{
    accepts, container_of, error_text, failed_packet_text, read_handler_meta_ans, server_error_wire,
    HandlerMetaAns, HandlerMetaReq, HandlerMetaReqView, PacketMeta, ServerError, ServerErrorEnView,
    ServerErrorView, StructureType, SystemSType, WireMessage, parse_s_type,
};
use crate::wire::{
    enc_bool, enc_bytes, enc_str, enc_u32, enc_u64, enc_u8, lemma_parse_bool_inv, lemma_parse_bytes_inv,
    lemma_parse_str_inv, lemma_parse_u32_inv, lemma_parse_u64_inv, lemma_parse_u8_inv, lemma_rest_rest,
    lemma_take_next, parse_u32, rest,
};

verus! {

// ---------------------------------------------------------------------------------------
// The numbers of the structure types.
// ---------------------------------------------------------------------------------------

/// The number of each system structure type is its position in the enum.
pub proof fn system_s_type_numbers()
    ensures
        SystemSType::PacketMeta.spec_code() == 0,
        SystemSType::HandlerMetaReq.spec_code() == 1,
        SystemSType::HandlerMetaAns.spec_code() == 2,
        SystemSType::ServerError.spec_code() == 3,
        forall|i: u64| i < 4 ==> #[trigger] SystemSType::spec_decode(i).spec_code() == i,
        forall|i: u64| #[trigger] SystemSType::spec_decodes(i) <==> i % 256 < 4,
{
    assert forall|i: u64| i < 4 implies #[trigger] SystemSType::spec_decode(i).spec_code() == i by {
        SystemSType::lemma_at_index(i);
    }
}

/// Bytes that read as a system structure type start with its number as a `u32`.
proof fn lemma_s_type_prefix(s: Seq<u8>)
    ensures
        parse_s_type(s) matches Some((t, a)) ==> a == 4 && a <= s.len() && s.subrange(0, a)
            == enc_u32(t.spec_code() as u32),
{
    lemma_parse_u32_inv(s);
    if let Some((i, _)) = parse_u32(s) {
        if i < 4 {
            SystemSType::lemma_at_index(i as u64);
        }
    }
}

// ---------------------------------------------------------------------------------------
// Request headers.
// ---------------------------------------------------------------------------------------

/// The bytes of a request header are bincode of its fields: its structure type's number as a
/// `u32`, the requested structure type's number and the handler id as `u64`s, and the
/// payload flag as one byte.  Reading those bytes, whatever follows, gives the same header
/// and takes 21 bytes; and whatever a read gives is exactly such bytes.
pub proof fn packet_meta_bytes(m: PacketMeta, s: Seq<u8>, tail: Seq<u8>)
    ensures
        <PacketMeta as WireMessage>::spec_wire(m) == enc_u32(m.s_type.spec_code() as u32) + enc_u64(m.s_type_req)
            + enc_u64(m.handler_id) + enc_bool(m.has_payload),
        <PacketMeta as WireMessage>::spec_read(
            enc_u32(m.s_type.spec_code() as u32) + enc_u64(m.s_type_req) + enc_u64(m.handler_id) + enc_bool(
                m.has_payload,
            ) + tail,
        ) == Some((m, 21int)),
        <PacketMeta as WireMessage>::spec_read(s) matches Some((v, n)) ==> n <= s.len() && s.subrange(0, n)
            == enc_u32(v.s_type.spec_code() as u32) + enc_u64(v.s_type_req) + enc_u64(v.handler_id) + enc_bool(
            v.has_payload,
        ),
{
    <PacketMeta as WireMessage>::lemma_read_wire(m, tail);
    lemma_s_type_prefix(s);
    if let Some((v, n)) = <PacketMeta as WireMessage>::spec_read(s) {
        let s1 = rest(s, 4);
        lemma_parse_u64_inv(s1);
        let s2 = rest(s1, 8);
        lemma_parse_u64_inv(s2);
        let s3 = rest(s2, 8);
        lemma_parse_bool_inv(s3);
        lemma_take_next(s, 4, enc_u32(v.s_type.spec_code() as u32), 8, enc_u64(v.s_type_req));
        lemma_rest_rest(s, 4, 8);
        lemma_take_next(s, 12, enc_u32(v.s_type.spec_code() as u32) + enc_u64(v.s_type_req), 8, enc_u64(v.handler_id));
        lemma_rest_rest(s, 12, 8);
        lemma_take_next(
            s,
            20,
            enc_u32(v.s_type.spec_code() as u32) + enc_u64(v.s_type_req) + enc_u64(v.handler_id),
            1,
            enc_bool(v.has_payload),
        );
    }
}

// ---------------------------------------------------------------------------------------
// Handler questions and answers.
// ---------------------------------------------------------------------------------------

/// The bytes of a question for a handler's id are its structure type's number as a `u32`
/// and the handler's name as a text (its UTF-8 length as a `u64`, then the bytes).  Reading
/// them back gives the same question; whatever a read gives is exactly such bytes.
pub proof fn handler_meta_req_bytes(m: HandlerMetaReqView, s: Seq<u8>, tail: Seq<u8>)
    requires
        <HandlerMetaReq as WireMessage>::spec_fits(m),
    ensures
        <HandlerMetaReq as WireMessage>::spec_wire(m) == enc_u32(m.s_type.spec_code() as u32) + enc_str(
            m.handler_name,
        ),
        <HandlerMetaReq as WireMessage>::spec_read(
            enc_u32(m.s_type.spec_code() as u32) + enc_str(m.handler_name) + tail,
        ) == Some((m, (enc_u32(m.s_type.spec_code() as u32) + enc_str(m.handler_name)).len() as int)),
        <HandlerMetaReq as WireMessage>::spec_read(s) matches Some((v, n)) ==> n <= s.len() && s.subrange(0, n)
            == enc_u32(v.s_type.spec_code() as u32) + enc_str(v.handler_name),
{
    <HandlerMetaReq as WireMessage>::lemma_read_wire(m, tail);
    lemma_s_type_prefix(s);
    if let Some((v, n)) = <HandlerMetaReq as WireMessage>::spec_read(s) {
        let s1 = rest(s, 4);
        lemma_parse_str_inv(s1);
        let b = n - 4;
        lemma_take_next(s, 4, enc_u32(v.s_type.spec_code() as u32), b, enc_str(v.handler_name));
    }
}

/// The bytes of an answer with a handler's id are its structure type's number as a `u32`
/// and the id as a `u64`.  Reading them back gives the same answer and takes 12 bytes;
/// whatever a read gives is exactly such bytes.
pub proof fn handler_meta_ans_bytes(m: HandlerMetaAns, s: Seq<u8>, tail: Seq<u8>)
    ensures
        <HandlerMetaAns as WireMessage>::spec_wire(m) == enc_u32(m.s_type.spec_code() as u32) + enc_u64(m.id),
        <HandlerMetaAns as WireMessage>::spec_read(enc_u32(m.s_type.spec_code() as u32) + enc_u64(m.id) + tail)
            == Some((m, 12int)),
        <HandlerMetaAns as WireMessage>::spec_read(s) matches Some((v, n)) ==> n <= s.len() && s.subrange(0, n)
            == enc_u32(v.s_type.spec_code() as u32) + enc_u64(v.id),
{
    <HandlerMetaAns as WireMessage>::lemma_read_wire(m, tail);
    lemma_s_type_prefix(s);
    if let Some((v, n)) = <HandlerMetaAns as WireMessage>::spec_read(s) {
        let s1 = rest(s, 4);
        lemma_parse_u64_inv(s1);
        lemma_take_next(s, 4, enc_u32(v.s_type.spec_code() as u32), 8, enc_u64(v.id));
    }
}

// ---------------------------------------------------------------------------------------
// Server errors.
// ---------------------------------------------------------------------------------------

/// The bytes of what went wrong, as bincode writes the enum: the variant's position as a
/// `u32` (malformed meta info 0, no such handler 1, internal error 2, payload lost 3), then
/// an optional field as the byte 0 for none, or 1 followed by the text or byte string.
pub open spec fn bincode_error_en(e: ServerErrorEnView) -> Seq<u8> {
    match e {
        ServerErrorEnView::MalformedMetaInfo(None) => enc_u32(0) + enc_u8(0),
        ServerErrorEnView::MalformedMetaInfo(Some(t)) => enc_u32(0) + enc_u8(1) + enc_str(t),
        ServerErrorEnView::NoSuchHandler(None) => enc_u32(1) + enc_u8(0),
        ServerErrorEnView::NoSuchHandler(Some(t)) => enc_u32(1) + enc_u8(1) + enc_str(t),
        ServerErrorEnView::InternalError(None) => enc_u32(2) + enc_u8(0),
        ServerErrorEnView::InternalError(Some(d)) => enc_u32(2) + enc_u8(1) + enc_bytes(d),
        ServerErrorEnView::PayloadLost => enc_u32(3),
    }
}

/// The bytes of a server error are its structure type's number as a `u32`, then what went
/// wrong as bincode writes it.  Reading them back gives the same error; whatever a read
/// gives is exactly such bytes.
pub proof fn server_error_bytes(e: ServerErrorView, s: Seq<u8>, tail: Seq<u8>)
    requires
        <ServerError as WireMessage>::spec_fits(e),
    ensures
        <ServerError as WireMessage>::spec_wire(e) == enc_u32(e.s_type.spec_code() as u32) + bincode_error_en(e.en),
        <ServerError as WireMessage>::spec_read(enc_u32(e.s_type.spec_code() as u32) + bincode_error_en(e.en) + tail)
            == Some((e, (enc_u32(e.s_type.spec_code() as u32) + bincode_error_en(e.en)).len() as int)),
        <ServerError as WireMessage>::spec_read(s) matches Some((v, n)) ==> n <= s.len() && s.subrange(0, n)
            == enc_u32(v.s_type.spec_code() as u32) + bincode_error_en(v.en),
{
    lemma_error_en_wire(e.en);
    <ServerError as WireMessage>::lemma_read_wire(e, tail);
    lemma_s_type_prefix(s);
    if let Some((v, n)) = <ServerError as WireMessage>::spec_read(s) {
        let s1 = rest(s, 4);
        lemma_error_en_prefix(s1);
        lemma_take_next(s, 4, enc_u32(v.s_type.spec_code() as u32), n - 4, bincode_error_en(v.en));
    }
}

proof fn lemma_error_en_wire(e: ServerErrorEnView)
    ensures
        crate::s_type::error_en_wire(e) == bincode_error_en(e),
{
    match e {
        ServerErrorEnView::MalformedMetaInfo(Some(t)) => {
            assert(enc_u32(0) + (enc_u8(1) + enc_str(t)) =~= enc_u32(0) + enc_u8(1) + enc_str(t));
        },
        ServerErrorEnView::NoSuchHandler(Some(t)) => {
            assert(enc_u32(1) + (enc_u8(1) + enc_str(t)) =~= enc_u32(1) + enc_u8(1) + enc_str(t));
        },
        ServerErrorEnView::InternalError(Some(d)) => {
            assert(enc_u32(2) + (enc_u8(1) + enc_bytes(d)) =~= enc_u32(2) + enc_u8(1) + enc_bytes(d));
        },
        _ => {},
    }
}

proof fn lemma_error_en_prefix(s: Seq<u8>)
    ensures
        crate::s_type::read_error_en(s) matches Some((e, n)) ==> n <= s.len() && s.subrange(0, n)
            == bincode_error_en(e),
{
    lemma_parse_u32_inv(s);
    if let Some((e, n)) = crate::s_type::read_error_en(s) {
        let i = parse_u32(s).unwrap().0;
        let s1 = rest(s, 4);
        lemma_parse_u8_inv(s1);
        let s2 = rest(s1, 1);
        lemma_parse_str_inv(s2);
        lemma_parse_bytes_inv(s2);
        if i < 3 {
            let tag = s1[0];
            lemma_take_next(s, 4, enc_u32(i), 1, enc_u8(tag));
            if tag == 1 {
                lemma_rest_rest(s, 4, 1);
                let x = if i == 2 {
                    enc_bytes(crate::s_type::parse_opt_bytes(s1).unwrap().0.unwrap())
                } else {
                    enc_str(crate::s_type::parse_opt_str(s1).unwrap().0.unwrap())
                };
                lemma_take_next(s, 5, enc_u32(i) + enc_u8(tag), n - 5, x);
            }
        }
    }
}

// ---------------------------------------------------------------------------------------
// What the operations do with these bytes.
// ---------------------------------------------------------------------------------------

/// A request header written as bincode of its fields is routed by those fields: it is sent
/// to the route whose id is the header's handler id, with the structure type its requested
/// number decodes to, when that route serves that type, and is refused as having no such
/// handler otherwise; the server waits for a payload exactly when its flag says so.
pub proof fn request_header_routing<H, S: StructureType>(
    router: TcpServerRouter<H, S>,
    q: u64,
    h: u64,
    p: bool,
    tail: Seq<u8>,
)
    requires
        router.wf(),
    ensures
        ({
            let bytes = enc_u32(0) + enc_u64(q) + enc_u64(h) + enc_bool(p) + tail;
            let t = S::spec_decode(q);
            &&& announces_payload(bytes) == p
            &&& decodable_request::<S>(bytes) <==> S::spec_decodes(q)
            &&& router.has_route(h, container_of(t)) ==> router.spec_serve(bytes)
                == (ServeDecisionView::Dispatch { route: h as int, handler_id: h, s_type: t })
            &&& !router.has_route(h, container_of(t)) ==> router.spec_serve(bytes)
                == ServeDecisionView::<S>::Refuse(ServerErrorEnView::NoSuchHandler(None))
        }),
{
    let m = PacketMeta { s_type: SystemSType::PacketMeta, s_type_req: q, handler_id: h, has_payload: p };
    system_s_type_numbers();
    packet_meta_bytes(m, Seq::empty(), tail);
}

/// A question for a committed name, written as bincode (the number 1, then the name as a
/// text), is answered with bincode of the answer (the number 2, then the name's id as a
/// `u64`); a question for a name that is not committed is refused as having no such handler.
pub proof fn name_question_answer_bytes<H, S: StructureType>(
    router: TcpServerRouter<H, S>,
    name: Seq<char>,
    tail: Seq<u8>,
)
    requires
        router.wf(),
        crate::s_type::text_fits(name),
    ensures
        router.names().contains_key(name) ==> router.spec_serve(enc_u32(1) + enc_str(name) + tail)
            == ServeDecisionView::<S>::Answer(enc_u32(2) + enc_u64(router.names()[name])),
        !router.names().contains_key(name) ==> router.spec_serve(enc_u32(1) + enc_str(name) + tail)
            == ServeDecisionView::<S>::Refuse(ServerErrorEnView::NoSuchHandler(None)),
{
    let q = HandlerMetaReqView { s_type: SystemSType::HandlerMetaReq, handler_name: name };
    system_s_type_numbers();
    handler_meta_req_bytes(q, Seq::empty(), tail);
    let bytes = enc_u32(1) + enc_str(name) + tail;
    crate::wire::lemma_parse_u32(1, enc_str(name) + tail);
    assert(bytes =~= enc_u32(1) + (enc_str(name) + tail));
    <PacketMeta as WireMessage>::lemma_read_s_type(bytes);
    if router.names().contains_key(name) {
        let a = HandlerMetaAns { s_type: SystemSType::HandlerMetaAns, id: router.names()[name] };
        handler_meta_ans_bytes(a, Seq::empty(), Seq::empty());
    }
}

/// Bytes of an answer, bincode of the number 2 and an id, are accepted by a client, which
/// learns exactly that id from them.
pub proof fn answer_bytes_give_the_id(id: u64, tail: Seq<u8>)
    ensures
        accepts::<HandlerMetaAns>(enc_u32(2) + enc_u64(id) + tail),
        read_handler_meta_ans(enc_u32(2) + enc_u64(id) + tail).unwrap().0.id == id,
{
    system_s_type_numbers();
    handler_meta_ans_bytes(HandlerMetaAns { s_type: SystemSType::HandlerMetaAns, id }, Seq::empty(), tail);
}

/// A handler that fails with the payload `d` is answered with bincode of an internal-error
/// server error: the numbers 3 and 2, the byte 1, then `d` as a byte string; a client that
/// expected another structure reads the error's text from those bytes.
pub proof fn handler_failure_bytes(d: Seq<u8>, tail: Seq<u8>)
    requires
        d.len() <= u64::MAX,
    ensures
        server_error_wire(
            ServerErrorView { s_type: SystemSType::ServerError, en: ServerErrorEnView::InternalError(Some(d)) },
        ) == enc_u32(3) + enc_u32(2) + enc_u8(1) + enc_bytes(d),
        failed_packet_text(enc_u32(3) + enc_u32(2) + enc_u8(1) + enc_bytes(d) + tail) == error_text(
            ServerErrorEnView::InternalError(Some(d)),
        ),
{
    let e = ServerErrorView { s_type: SystemSType::ServerError, en: ServerErrorEnView::InternalError(Some(d)) };
    system_s_type_numbers();
    server_error_bytes(e, Seq::empty(), tail);
    assert(enc_u32(3) + (enc_u32(2) + enc_u8(1) + enc_bytes(d)) =~= enc_u32(3) + enc_u32(2) + enc_u8(1) + enc_bytes(d));
}

// ---------------------------------------------------------------------------------------
// The structures of the tests.
// ---------------------------------------------------------------------------------------

/// The number of each test structure type is its position in the enum.
pub proof fn test_s_type_numbers()
    ensures
        TestStructureType::InitialRequest.spec_code() == 0,
        TestStructureType::InitialResponse.spec_code() == 1,
        TestStructureType::PayloadRequest.spec_code() == 2,
        TestStructureType::PayloadResponse.spec_code() == 3,
        TestStructureType::HighPayloadRequest.spec_code() == 4,
        TestStructureType::HighPayloadResponse.spec_code() == 5,
        TestStructureType::TestError.spec_code() == 6,
        forall|i: u64| i < 7 ==> #[trigger] TestStructureType::spec_decode(i).spec_code() == i,
        forall|i: u64| #[trigger] TestStructureType::spec_decodes(i) <==> i % 256 < 7,
{
    assert forall|i: u64| i < 7 implies #[trigger] TestStructureType::spec_decode(i).spec_code() == i by {
        TestStructureType::lemma_at_index(i);
    }
}

proof fn lemma_test_s_type_prefix(s: Seq<u8>)
    ensures
        parse_test_s_type(s) matches Some((t, a)) ==> a == 4 && a <= s.len() && s.subrange(0, a)
            == enc_u32(t.spec_code() as u32),
{
    lemma_parse_u32_inv(s);
    if let Some((i, _)) = parse_u32(s) {
        if i < 7 {
            TestStructureType::lemma_at_index(i as u64);
        }
    }
}

proof fn lemma_initial_request_prefix(s: Seq<u8>)
    ensures
        read_initial_request(s) matches Some((v, n)) ==> n == 12 && n <= s.len() && s.subrange(0, n)
            == enc_u32(v.s_type.spec_code() as u32) + enc_u64(v.request),
{
    lemma_test_s_type_prefix(s);
    if let Some((v, n)) = read_initial_request(s) {
        lemma_parse_u64_inv(rest(s, 4));
        lemma_take_next(s, 4, enc_u32(v.s_type.spec_code() as u32), 8, enc_u64(v.request));
    }
}

/// The bytes of an initial request are its structure type's number as a `u32` and the
/// number to multiply as a `u64`.  Reading them back gives the same request and takes 12
/// bytes; whatever a read gives is exactly such bytes.
pub proof fn initial_request_bytes(m: InitialRequest, s: Seq<u8>, tail: Seq<u8>)
    ensures
        <InitialRequest as WireMessage>::spec_wire(m) == enc_u32(m.s_type.spec_code() as u32) + enc_u64(m.request),
        <InitialRequest as WireMessage>::spec_read(enc_u32(m.s_type.spec_code() as u32) + enc_u64(m.request) + tail)
            == Some((m, 12int)),
        <InitialRequest as WireMessage>::spec_read(s) matches Some((v, n)) ==> n <= s.len() && s.subrange(0, n)
            == enc_u32(v.s_type.spec_code() as u32) + enc_u64(v.request),
{
    <InitialRequest as WireMessage>::lemma_read_wire(m, tail);
    lemma_initial_request_prefix(s);
}

/// The bytes of an initial response are its structure type's number as a `u32` and the
/// product as a `u64`.  Reading them back gives the same response and takes 12 bytes;
/// whatever a read gives is exactly such bytes.
pub proof fn initial_response_bytes(m: InitialResponse, s: Seq<u8>, tail: Seq<u8>)
    ensures
        <InitialResponse as WireMessage>::spec_wire(m) == enc_u32(m.s_type.spec_code() as u32) + enc_u64(m.response),
        <InitialResponse as WireMessage>::spec_read(enc_u32(m.s_type.spec_code() as u32) + enc_u64(m.response) + tail)
            == Some((m, 12int)),
        <InitialResponse as WireMessage>::spec_read(s) matches Some((v, n)) ==> n <= s.len() && s.subrange(0, n)
            == enc_u32(v.s_type.spec_code() as u32) + enc_u64(v.response),
{
    <InitialResponse as WireMessage>::lemma_read_wire(m, tail);
    lemma_test_s_type_prefix(s);
    if let Some((v, n)) = <InitialResponse as WireMessage>::spec_read(s) {
        lemma_parse_u64_inv(rest(s, 4));
        lemma_take_next(s, 4, enc_u32(v.s_type.spec_code() as u32), 8, enc_u64(v.response));
    }
}

/// The bincode bytes of a structure with an initial request and a byte payload.
pub open spec fn bincode_payload(v: PayloadView) -> Seq<u8> {
    enc_u32(v.s_type.spec_code() as u32) + enc_u32(v.request.s_type.spec_code() as u32) + enc_u64(v.request.request)
        + enc_bytes(v.payload)
}

proof fn lemma_payload_wire(v: PayloadView)
    ensures
        payload_wire(v) == bincode_payload(v),
{
    assert(payload_wire(v) =~= bincode_payload(v));
}

proof fn lemma_payload_prefix(s: Seq<u8>)
    ensures
        read_payload(s) matches Some((v, n)) ==> n <= s.len() && s.subrange(0, n) == bincode_payload(v),
{
    lemma_test_s_type_prefix(s);
    if let Some((v, n)) = read_payload(s) {
        let s1 = rest(s, 4);
        lemma_initial_request_prefix(s1);
        lemma_rest_rest(s, 4, 12);
        let s2 = rest(s1, 12);
        lemma_parse_bytes_inv(s2);
        lemma_take_next(
            s,
            4,
            enc_u32(v.s_type.spec_code() as u32),
            12,
            enc_u32(v.request.s_type.spec_code() as u32) + enc_u64(v.request.request),
        );
        lemma_take_next(
            s,
            16,
            enc_u32(v.s_type.spec_code() as u32) + (enc_u32(v.request.s_type.spec_code() as u32) + enc_u64(
                v.request.request,
            )),
            n - 16,
            enc_bytes(v.payload),
        );
        assert(bincode_payload(v) =~= enc_u32(v.s_type.spec_code() as u32) + (enc_u32(
            v.request.s_type.spec_code() as u32,
        ) + enc_u64(v.request.request)) + enc_bytes(v.payload));
    }
}

/// The bytes of a payload request are bincode of its fields: its structure type's number,
/// its initial request (number and value), then the payload as a byte string.  Reading them
/// back gives the same request; whatever a read gives is exactly such bytes.
pub proof fn payload_request_bytes(v: PayloadView, s: Seq<u8>, tail: Seq<u8>)
    requires
        v.payload.len() <= u64::MAX,
    ensures
        <PayloadRequest as WireMessage>::spec_wire(v) == bincode_payload(v),
        <PayloadRequest as WireMessage>::spec_read(bincode_payload(v) + tail) == Some((v, bincode_payload(v).len() as int)),
        <PayloadRequest as WireMessage>::spec_read(s) matches Some((w, n)) ==> n <= s.len() && s.subrange(0, n)
            == bincode_payload(w),
{
    lemma_payload_wire(v);
    <PayloadRequest as WireMessage>::lemma_read_wire(v, tail);
    lemma_payload_prefix(s);
}

/// The bytes of a payload response, laid out as those of a payload request.
pub proof fn payload_response_bytes(v: PayloadView, s: Seq<u8>, tail: Seq<u8>)
    requires
        v.payload.len() <= u64::MAX,
    ensures
        <PayloadResponse as WireMessage>::spec_wire(v) == bincode_payload(v),
        <PayloadResponse as WireMessage>::spec_read(bincode_payload(v) + tail) == Some((v, bincode_payload(v).len() as int)),
        <PayloadResponse as WireMessage>::spec_read(s) matches Some((w, n)) ==> n <= s.len() && s.subrange(0, n)
            == bincode_payload(w),
{
    lemma_payload_wire(v);
    <PayloadResponse as WireMessage>::lemma_read_wire(v, tail);
    lemma_payload_prefix(s);
}

/// The bytes of a large-payload request, laid out as those of a payload request.
pub proof fn high_payload_request_bytes(v: PayloadView, s: Seq<u8>, tail: Seq<u8>)
    requires
        v.payload.len() <= u64::MAX,
    ensures
        <HighPayloadRequest as WireMessage>::spec_wire(v) == bincode_payload(v),
        <HighPayloadRequest as WireMessage>::spec_read(bincode_payload(v) + tail) == Some((v, bincode_payload(v).len() as int)),
        <HighPayloadRequest as WireMessage>::spec_read(s) matches Some((w, n)) ==> n <= s.len() && s.subrange(0, n)
            == bincode_payload(w),
{
    lemma_payload_wire(v);
    <HighPayloadRequest as WireMessage>::lemma_read_wire(v, tail);
    lemma_payload_prefix(s);
}

/// The bytes of a large-payload response, laid out as those of a payload request.
pub proof fn high_payload_response_bytes(v: PayloadView, s: Seq<u8>, tail: Seq<u8>)
    requires
        v.payload.len() <= u64::MAX,
    ensures
        <HighPayloadResponse as WireMessage>::spec_wire(v) == bincode_payload(v),
        <HighPayloadResponse as WireMessage>::spec_read(bincode_payload(v) + tail) == Some((v, bincode_payload(v).len() as int)),
        <HighPayloadResponse as WireMessage>::spec_read(s) matches Some((w, n)) ==> n <= s.len() && s.subrange(0, n)
            == bincode_payload(w),
{
    lemma_payload_wire(v);
    <HighPayloadResponse as WireMessage>::lemma_read_wire(v, tail);
    lemma_payload_prefix(s);
}

/// The bytes of a test error are its structure type's number as a `u32` and its text.
/// Reading them back gives the same error; whatever a read gives is exactly such bytes.
pub proof fn test_error_bytes_law(e: TestErrorView, s: Seq<u8>, tail: Seq<u8>)
    requires
        crate::s_type::text_fits(e.error),
    ensures
        <TestError as WireMessage>::spec_wire(e) == enc_u32(e.s_type.spec_code() as u32) + enc_str(e.error),
        <TestError as WireMessage>::spec_read(enc_u32(e.s_type.spec_code() as u32) + enc_str(e.error) + tail)
            == Some((e, (enc_u32(e.s_type.spec_code() as u32) + enc_str(e.error)).len() as int)),
        <TestError as WireMessage>::spec_read(s) matches Some((v, n)) ==> n <= s.len() && s.subrange(0, n)
            == enc_u32(v.s_type.spec_code() as u32) + enc_str(v.error),
{
    <TestError as WireMessage>::lemma_read_wire(e, tail);
    lemma_test_s_type_prefix(s);
    if let Some((v, n)) = <TestError as WireMessage>::spec_read(s) {
        lemma_parse_str_inv(rest(s, 4));
        lemma_take_next(s, 4, enc_u32(v.s_type.spec_code() as u32), n - 4, enc_str(v.error));
    }
}

/// The test handler's answer to an initial request for `q`, in bytes: a request written as
/// bincode (the number 0, then `q`) is read as a request for `q`, and the answer the handler
/// sends is bincode of the number 1 and five times `q`.
pub proof fn test_initial_exchange_bytes(q: u64, tail: Seq<u8>)
    requires
        q * 5 <= u64::MAX,
    ensures
        accepts::<InitialRequest>(enc_u32(0) + enc_u64(q) + tail),
        read_initial_request(enc_u32(0) + enc_u64(q) + tail).unwrap().0.request == q,
        initial_response_wire(InitialResponse { s_type: TestStructureType::InitialResponse, response: (q * 5) as u64 })
            == enc_u32(1) + enc_u64((q * 5) as u64),
{
    test_s_type_numbers();
    initial_request_bytes(InitialRequest { s_type: TestStructureType::InitialRequest, request: q }, Seq::empty(), tail);
    initial_response_bytes(
        InitialResponse { s_type: TestStructureType::InitialResponse, response: (q * 5) as u64 },
        Seq::empty(),
        Seq::empty(),
    );
}

// ---------------------------------------------------------------------------------------
// The structures of the examples.
// ---------------------------------------------------------------------------------------

/// The number of each example structure type is its position in the enum.
pub proof fn example_s_type_numbers()
    ensures
        ExampleSType::TestMessage.spec_code() == 0,
        ExampleSType::TestResponse.spec_code() == 1,
        ExampleSType::ExpensiveMessage.spec_code() == 2,
        ExampleSType::ExpensiveResponse.spec_code() == 3,
        ExampleSType::ManualHandlerRequest.spec_code() == 4,
        forall|i: u64| i < 5 ==> #[trigger] ExampleSType::spec_decode(i).spec_code() == i,
        forall|i: u64| #[trigger] ExampleSType::spec_decodes(i) <==> i % 256 < 5,
{
    assert forall|i: u64| i < 5 implies #[trigger] ExampleSType::spec_decode(i).spec_code() == i by {
        ExampleSType::lemma_at_index(i);
    }
}

proof fn lemma_example_s_type_prefix(s: Seq<u8>)
    ensures
        parse_example_s_type(s) matches Some((t, a)) ==> a == 4 && a <= s.len() && s.subrange(0, a)
            == enc_u32(t.spec_code() as u32),
{
    lemma_parse_u32_inv(s);
    if let Some((i, _)) = parse_u32(s) {
        if i < 5 {
            ExampleSType::lemma_at_index(i as u64);
        }
    }
}

/// The bincode bytes of an example structure with an id, bytes and a text.
pub open spec fn bincode_text_message(v: TextMessageView) -> Seq<u8> {
    enc_u32(v.s_type.spec_code() as u32) + enc_u64(v.id) + enc_bytes(v.data) + enc_str(v.text)
}

/// The bincode bytes of an example structure with an id and bytes.
pub open spec fn bincode_expensive(v: ExpensiveView) -> Seq<u8> {
    enc_u32(v.s_type.spec_code() as u32) + enc_u64(v.id) + enc_bytes(v.data)
}

proof fn lemma_text_message_prefix(s: Seq<u8>)
    ensures
        read_text_message(s) matches Some((v, n)) ==> n <= s.len() && s.subrange(0, n) == bincode_text_message(v),
{
    lemma_example_s_type_prefix(s);
    if let Some((v, n)) = read_text_message(s) {
        let s1 = rest(s, 4);
        lemma_parse_u64_inv(s1);
        lemma_rest_rest(s, 4, 8);
        let s2 = rest(s1, 8);
        lemma_parse_bytes_inv(s2);
        let c: int = 8 + v.data.len() as int;
        lemma_rest_rest(s, 12, c);
        let s3 = rest(s2, c);
        lemma_parse_str_inv(s3);
        lemma_take_next(s, 4, enc_u32(v.s_type.spec_code() as u32), 8, enc_u64(v.id));
        lemma_take_next(s, 12, enc_u32(v.s_type.spec_code() as u32) + enc_u64(v.id), c, enc_bytes(v.data));
        lemma_take_next(
            s,
            12 + c,
            enc_u32(v.s_type.spec_code() as u32) + enc_u64(v.id) + enc_bytes(v.data),
            n - 12 - c,
            enc_str(v.text),
        );
    }
}

proof fn lemma_expensive_prefix(s: Seq<u8>)
    ensures
        read_expensive(s) matches Some((v, n)) ==> n <= s.len() && s.subrange(0, n) == bincode_expensive(v),
{
    lemma_example_s_type_prefix(s);
    if let Some((v, n)) = read_expensive(s) {
        let s1 = rest(s, 4);
        lemma_parse_u64_inv(s1);
        lemma_rest_rest(s, 4, 8);
        lemma_parse_bytes_inv(rest(s1, 8));
        lemma_take_next(s, 4, enc_u32(v.s_type.spec_code() as u32), 8, enc_u64(v.id));
        lemma_take_next(s, 12, enc_u32(v.s_type.spec_code() as u32) + enc_u64(v.id), n - 12, enc_bytes(v.data));
    }
}

/// The bytes of a test message are bincode of its fields: its structure type's number, its
/// id, its bytes as a byte string and its text.  Reading them back gives the same message;
/// whatever a read gives is exactly such bytes.
pub proof fn test_msg_bytes(v: TextMessageView, s: Seq<u8>, tail: Seq<u8>)
    requires
        text_message_fits(v),
    ensures
        <TestMsg as WireMessage>::spec_wire(v) == bincode_text_message(v),
        <TestMsg as WireMessage>::spec_read(bincode_text_message(v) + tail) == Some((v, bincode_text_message(v).len() as int)),
        <TestMsg as WireMessage>::spec_read(s) matches Some((w, n)) ==> n <= s.len() && s.subrange(0, n)
            == bincode_text_message(w),
{
    <TestMsg as WireMessage>::lemma_read_wire(v, tail);
    lemma_text_message_prefix(s);
}

/// The bytes of a test response, laid out as those of a test message.
pub proof fn test_response_bytes(v: TextMessageView, s: Seq<u8>, tail: Seq<u8>)
    requires
        text_message_fits(v),
    ensures
        <TestResponse as WireMessage>::spec_wire(v) == bincode_text_message(v),
        <TestResponse as WireMessage>::spec_read(bincode_text_message(v) + tail) == Some((v, bincode_text_message(v).len() as int)),
        <TestResponse as WireMessage>::spec_read(s) matches Some((w, n)) ==> n <= s.len() && s.subrange(0, n)
            == bincode_text_message(w),
{
    <TestResponse as WireMessage>::lemma_read_wire(v, tail);
    lemma_text_message_prefix(s);
}

/// The bytes of an expensive message are bincode of its fields: its structure type's
/// number, its id and its bytes as a byte string.  Reading them back gives the same
/// message; whatever a read gives is exactly such bytes.
pub proof fn expensive_msg_bytes(v: ExpensiveView, s: Seq<u8>, tail: Seq<u8>)
    requires
        v.data.len() <= u64::MAX,
    ensures
        <ExpensiveMsg as WireMessage>::spec_wire(v) == bincode_expensive(v),
        <ExpensiveMsg as WireMessage>::spec_read(bincode_expensive(v) + tail) == Some((v, bincode_expensive(v).len() as int)),
        <ExpensiveMsg as WireMessage>::spec_read(s) matches Some((w, n)) ==> n <= s.len() && s.subrange(0, n)
            == bincode_expensive(w),
{
    <ExpensiveMsg as WireMessage>::lemma_read_wire(v, tail);
    lemma_expensive_prefix(s);
}

/// The bytes of an expensive response, laid out as those of an expensive message.
pub proof fn expensive_response_bytes(v: ExpensiveView, s: Seq<u8>, tail: Seq<u8>)
    requires
        v.data.len() <= u64::MAX,
    ensures
        <ExpensiveResponse as WireMessage>::spec_wire(v) == bincode_expensive(v),
        <ExpensiveResponse as WireMessage>::spec_read(bincode_expensive(v) + tail) == Some((v, bincode_expensive(v).len() as int)),
        <ExpensiveResponse as WireMessage>::spec_read(s) matches Some((w, n)) ==> n <= s.len() && s.subrange(0, n)
            == bincode_expensive(w),
{
    <ExpensiveResponse as WireMessage>::lemma_read_wire(v, tail);
    lemma_expensive_prefix(s);
}

/// The bytes of a manual handler request are its structure type's number as a `u32`;
/// reading them back gives the same request, and whatever a read gives is such bytes.
pub proof fn manual_handler_request_bytes(v: ManualHandlerRequest, s: Seq<u8>, tail: Seq<u8>)
    ensures
        <ManualHandlerRequest as WireMessage>::spec_wire(v) == enc_u32(v.s_type.spec_code() as u32),
        <ManualHandlerRequest as WireMessage>::spec_read(enc_u32(v.s_type.spec_code() as u32) + tail) == Some((v, 4int)),
        <ManualHandlerRequest as WireMessage>::spec_read(s) matches Some((w, n)) ==> n <= s.len() && s.subrange(0, n)
            == enc_u32(w.s_type.spec_code() as u32),
{
    <ManualHandlerRequest as WireMessage>::lemma_read_wire(v, tail);
    lemma_example_s_type_prefix(s);
}

} // verus!
