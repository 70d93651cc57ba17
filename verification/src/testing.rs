//! The structures the framework's own tests exchange and their byte images, and what the
//! test handler, test traffic processor and test client decide.
use vstd::prelude::*;
use vstd::string::*;
use vstd::slice::*;
use vstd::pervasive::unreached;
use crate::s_type::{
    accepts, from_slice, read_text, text_fits, to_vec, write_text, StrongType, StructureType, WireMessage,
};
use crate::util::{generate_random_u8_vec, sort_bytes, sorted};
use crate::wire::{
    decode_bytes, decode_u32, decode_u64, enc_bytes, enc_str, enc_u32, enc_u64, encode_bytes, encode_u32,
    encode_u64, lemma_parse_bytes, lemma_parse_str, lemma_parse_u32, lemma_parse_u64, lemma_rest_concat,
    parse_bytes, parse_str, parse_u32, parse_u64, rest,
};

verus! {

/// The structure types of the test structures.
#[derive(PartialEq, Eq, Structural, Clone, Copy, Debug, Hash)]
pub enum TestStructureType {
    InitialRequest,
    InitialResponse,
    PayloadRequest,
    PayloadResponse,
    HighPayloadRequest,
    HighPayloadResponse,
    TestError,
}

impl TestStructureType {
    /// The variant's position, which is also its number on the wire.
    pub open spec fn spec_index(self) -> u64 {
        match self {
            TestStructureType::InitialRequest => 0,
            TestStructureType::InitialResponse => 1,
            TestStructureType::PayloadRequest => 2,
            TestStructureType::PayloadResponse => 3,
            TestStructureType::HighPayloadRequest => 4,
            TestStructureType::HighPayloadResponse => 5,
            TestStructureType::TestError => 6,
        }
    }

    /// The variant at a position below 7.
    pub open spec fn spec_at(i: u64) -> TestStructureType {
        if i == 0 {
            TestStructureType::InitialRequest
        } else if i == 1 {
            TestStructureType::InitialResponse
        } else if i == 2 {
            TestStructureType::PayloadRequest
        } else if i == 3 {
            TestStructureType::PayloadResponse
        } else if i == 4 {
            TestStructureType::HighPayloadRequest
        } else if i == 5 {
            TestStructureType::HighPayloadResponse
        } else {
            TestStructureType::TestError
        }
    }

    /// The structure type whose number is the lowest byte of `val`; that byte must name one.
    pub fn deserialize(val: u64) -> (r: TestStructureType)
        requires
            val % 256 < 7,
        ensures
            r == TestStructureType::spec_at(val % 256),
            r.spec_index() == val % 256,
    {
        let low: u64 = val % 256;
        if low == 0 {
            TestStructureType::InitialRequest
        } else if low == 1 {
            TestStructureType::InitialResponse
        } else if low == 2 {
            TestStructureType::PayloadRequest
        } else if low == 3 {
            TestStructureType::PayloadResponse
        } else if low == 4 {
            TestStructureType::HighPayloadRequest
        } else if low == 5 {
            TestStructureType::HighPayloadResponse
        } else {
            TestStructureType::TestError
        }
    }

    /// The number of a structure type.
    pub fn serialize(refer: TestStructureType) -> (r: u64)
        ensures
            r == refer.spec_index(),
    {
        match refer {
            TestStructureType::InitialRequest => 0,
            TestStructureType::InitialResponse => 1,
            TestStructureType::PayloadRequest => 2,
            TestStructureType::PayloadResponse => 3,
            TestStructureType::HighPayloadRequest => 4,
            TestStructureType::HighPayloadResponse => 5,
            TestStructureType::TestError => 6,
        }
    }
}

impl StructureType for TestStructureType {
    open spec fn spec_family() -> u64 {
        1
    }

    fn family() -> (f: u64) {
        1
    }

    open spec fn spec_code(&self) -> u64 {
        self.spec_index()
    }

    open spec fn spec_decodes(code: u64) -> bool {
        code % 256 < 7
    }

    open spec fn spec_decode(code: u64) -> TestStructureType {
        TestStructureType::spec_at(code % 256)
    }

    fn to_code(&self) -> (c: u64) {
        TestStructureType::serialize(*self)
    }

    fn decodes(code: u64) -> (b: bool) {
        code % 256 < 7
    }

    fn from_code(code: u64) -> (r: TestStructureType) {
        TestStructureType::deserialize(code)
    }

    fn equals(&self, other: &TestStructureType) -> (b: bool) {
        *self == *other
    }
}

/// A number to multiply.
#[derive(Clone, Copy, Debug)]
pub struct InitialRequest {
    pub s_type: TestStructureType,
    pub request: u64,
}

/// The product.
#[derive(Clone, Copy, Debug)]
pub struct InitialResponse {
    pub s_type: TestStructureType,
    pub response: u64,
}

/// Bytes to sort.
#[derive(Debug)]
pub struct PayloadRequest {
    pub s_type: TestStructureType,
    pub request: InitialRequest,
    pub medium_payload: Vec<u8>,
}

/// The sorted bytes.
#[derive(Debug)]
pub struct PayloadResponse {
    pub s_type: TestStructureType,
    pub request: InitialRequest,
    pub medium_payload: Vec<u8>,
}

/// A large payload.
#[derive(Debug)]
pub struct HighPayloadRequest {
    pub s_type: TestStructureType,
    pub request: InitialRequest,
    pub payload: Vec<u8>,
}

/// An answer to a large payload.
#[derive(Debug)]
pub struct HighPayloadResponse {
    pub s_type: TestStructureType,
    pub request: InitialRequest,
    pub medium_payload: Vec<u8>,
}

/// A failure, as text.
#[derive(Debug)]
pub struct TestError {
    pub s_type: TestStructureType,
    pub error: String,
}

impl StrongType for InitialRequest {
    type SType = TestStructureType;

    open spec fn spec_s_type(&self) -> TestStructureType {
        self.s_type
    }

    open spec fn spec_own_s_type() -> TestStructureType {
        TestStructureType::InitialRequest
    }

    fn get_s_type(&self) -> (r: TestStructureType) {
        self.s_type
    }

    fn own_s_type() -> (r: TestStructureType) {
        TestStructureType::InitialRequest
    }
}

impl StrongType for InitialResponse {
    type SType = TestStructureType;

    open spec fn spec_s_type(&self) -> TestStructureType {
        self.s_type
    }

    open spec fn spec_own_s_type() -> TestStructureType {
        TestStructureType::InitialResponse
    }

    fn get_s_type(&self) -> (r: TestStructureType) {
        self.s_type
    }

    fn own_s_type() -> (r: TestStructureType) {
        TestStructureType::InitialResponse
    }
}

impl StrongType for PayloadRequest {
    type SType = TestStructureType;

    open spec fn spec_s_type(&self) -> TestStructureType {
        self.s_type
    }

    open spec fn spec_own_s_type() -> TestStructureType {
        TestStructureType::PayloadRequest
    }

    fn get_s_type(&self) -> (r: TestStructureType) {
        self.s_type
    }

    fn own_s_type() -> (r: TestStructureType) {
        TestStructureType::PayloadRequest
    }
}

impl StrongType for PayloadResponse {
    type SType = TestStructureType;

    open spec fn spec_s_type(&self) -> TestStructureType {
        self.s_type
    }

    open spec fn spec_own_s_type() -> TestStructureType {
        TestStructureType::PayloadResponse
    }

    fn get_s_type(&self) -> (r: TestStructureType) {
        self.s_type
    }

    fn own_s_type() -> (r: TestStructureType) {
        TestStructureType::PayloadResponse
    }
}

impl StrongType for HighPayloadRequest {
    type SType = TestStructureType;

    open spec fn spec_s_type(&self) -> TestStructureType {
        self.s_type
    }

    open spec fn spec_own_s_type() -> TestStructureType {
        TestStructureType::HighPayloadRequest
    }

    fn get_s_type(&self) -> (r: TestStructureType) {
        self.s_type
    }

    fn own_s_type() -> (r: TestStructureType) {
        TestStructureType::HighPayloadRequest
    }
}

impl StrongType for HighPayloadResponse {
    type SType = TestStructureType;

    open spec fn spec_s_type(&self) -> TestStructureType {
        self.s_type
    }

    open spec fn spec_own_s_type() -> TestStructureType {
        TestStructureType::HighPayloadResponse
    }

    fn get_s_type(&self) -> (r: TestStructureType) {
        self.s_type
    }

    fn own_s_type() -> (r: TestStructureType) {
        TestStructureType::HighPayloadResponse
    }
}

impl StrongType for TestError {
    type SType = TestStructureType;

    open spec fn spec_s_type(&self) -> TestStructureType {
        self.s_type
    }

    open spec fn spec_own_s_type() -> TestStructureType {
        TestStructureType::TestError
    }

    fn get_s_type(&self) -> (r: TestStructureType) {
        self.s_type
    }

    fn own_s_type() -> (r: TestStructureType) {
        TestStructureType::TestError
    }
}


impl TestError {
    /// A test error with the text `error`.
    pub fn new(error: &str) -> (r: TestError)
        ensures
            r.s_type == TestStructureType::TestError,
            r.error@ == error@,
    {
        TestError { s_type: TestStructureType::TestError, error: String::from_str(error) }
    }
}

// ---------------------------------------------------------------------------------------
// The test structures on the wire.
// ---------------------------------------------------------------------------------------

impl TestStructureType {
    pub proof fn lemma_at_index(i: u64)
        requires
            i < 7,
        ensures
            TestStructureType::spec_at(i).spec_index() == i,
    {
    }
}

/// A test structure type on the wire: its position as a `u32`.
pub open spec fn enc_test_s_type(t: TestStructureType) -> Seq<u8> {
    enc_u32(t.spec_index() as u32)
}

/// Reading a test structure type: a `u32` that must be the position of a variant.
pub open spec fn parse_test_s_type(s: Seq<u8>) -> Option<(TestStructureType, int)> {
    match parse_u32(s) {
        Some((i, n)) => if i < 7 {
            Some((TestStructureType::spec_at(i as u64), n))
        } else {
            None
        },
        None => None,
    }
}

proof fn lemma_parse_test_s_type(t: TestStructureType, tail: Seq<u8>)
    ensures
        parse_test_s_type(enc_test_s_type(t) + tail) == Some((t, 4int)),
        enc_test_s_type(t).len() == 4,
{
    lemma_parse_u32(t.spec_index() as u32, tail);
}

/// Whether bytes read as a test structure type start with its number.
proof fn lemma_test_s_type_code(s: Seq<u8>)
    ensures
        parse_test_s_type(s) matches Some((t, _)) ==> (parse_u32(s) matches Some((c, _))
            && t.spec_code() == c as u64),
{
    if let Some((i, _)) = parse_u32(s) {
        if i < 7 {
            TestStructureType::lemma_at_index(i as u64);
        }
    }
}

fn read_test_s_type(s: &[u8]) -> (r: Option<(TestStructureType, usize)>)
    ensures
        match r {
            Some((t, n)) => parse_test_s_type(s@) == Some((t, n as int)),
            None => parse_test_s_type(s@) is None,
        },
{
    let (i, n) = decode_u32(s)?;
    if i < 7 {
        Some((TestStructureType::deserialize(i as u64), n))
    } else {
        None
    }
}

fn write_test_s_type(t: TestStructureType) -> (r: Option<Vec<u8>>)
    ensures
        r is Some,
        r.unwrap()@ == enc_test_s_type(t),
{
    let i = TestStructureType::serialize(t);
    encode_u32(i as u32)
}

impl View for InitialRequest {
    type V = InitialRequest;

    open spec fn view(&self) -> InitialRequest {
        *self
    }
}

impl View for InitialResponse {
    type V = InitialResponse;

    open spec fn view(&self) -> InitialResponse {
        *self
    }
}

pub open spec fn initial_request_wire(m: InitialRequest) -> Seq<u8> {
    enc_test_s_type(m.s_type) + enc_u64(m.request)
}

pub open spec fn read_initial_request(s: Seq<u8>) -> Option<(InitialRequest, int)> {
    match parse_test_s_type(s) {
        None => None,
        Some((t, a)) => match parse_u64(rest(s, a)) {
            None => None,
            Some((q, b)) => Some((InitialRequest { s_type: t, request: q }, a + b)),
        },
    }
}

pub open spec fn initial_response_wire(m: InitialResponse) -> Seq<u8> {
    enc_test_s_type(m.s_type) + enc_u64(m.response)
}

pub open spec fn read_initial_response(s: Seq<u8>) -> Option<(InitialResponse, int)> {
    match parse_test_s_type(s) {
        None => None,
        Some((t, a)) => match parse_u64(rest(s, a)) {
            None => None,
            Some((q, b)) => Some((InitialResponse { s_type: t, response: q }, a + b)),
        },
    }
}

proof fn lemma_read_initial_request(m: InitialRequest, tail: Seq<u8>)
    ensures
        read_initial_request(initial_request_wire(m) + tail) == Some((m, initial_request_wire(m).len() as int)),
        initial_request_wire(m).len() == 12,
{
    let a = enc_test_s_type(m.s_type);
    let b = enc_u64(m.request);
    lemma_parse_test_s_type(m.s_type, b + tail);
    assert(initial_request_wire(m) + tail =~= a + (b + tail));
    lemma_rest_concat(a, b + tail);
    lemma_parse_u64(m.request, tail);
}

fn read_initial_request_bytes(s: &[u8]) -> (r: Option<(InitialRequest, usize)>)
    ensures
        match r {
            Some((m, n)) => read_initial_request(s@) == Some((m, n as int)),
            None => read_initial_request(s@) is None,
        },
{
    let (t, a) = read_test_s_type(s)?;
    let s1 = slice_subrange(s, a, s.len());
    let (q, b) = decode_u64(s1)?;
    Some((InitialRequest { s_type: t, request: q }, a + b))
}

fn write_initial_request(m: &InitialRequest) -> (r: Option<Vec<u8>>)
    ensures
        r is Some,
        r.unwrap()@ == initial_request_wire(*m),
{
    let mut out = write_test_s_type(m.s_type)?;
    let mut b = encode_u64(m.request)?;
    out.append(&mut b);
    Some(out)
}

impl WireMessage for InitialRequest {
    open spec fn spec_view_s_type(v: InitialRequest) -> TestStructureType {
        v.s_type
    }

    open spec fn spec_fits(v: InitialRequest) -> bool {
        true
    }

    open spec fn spec_wire(v: InitialRequest) -> Seq<u8> {
        initial_request_wire(v)
    }

    open spec fn spec_read(s: Seq<u8>) -> Option<(InitialRequest, int)> {
        read_initial_request(s)
    }

    proof fn lemma_view(&self) {
    }

    proof fn lemma_read_s_type(s: Seq<u8>) {
        lemma_test_s_type_code(s);
    }

    proof fn lemma_read_wire(v: InitialRequest, tail: Seq<u8>) {
        lemma_read_initial_request(v, tail);
    }

    fn write(&self) -> (r: Option<Vec<u8>>) {
        write_initial_request(self)
    }

    fn read(s: &[u8]) -> (r: Option<InitialRequest>) {
        let (m, _n) = read_initial_request_bytes(s)?;
        Some(m)
    }
}

impl WireMessage for InitialResponse {
    open spec fn spec_view_s_type(v: InitialResponse) -> TestStructureType {
        v.s_type
    }

    open spec fn spec_fits(v: InitialResponse) -> bool {
        true
    }

    open spec fn spec_wire(v: InitialResponse) -> Seq<u8> {
        initial_response_wire(v)
    }

    open spec fn spec_read(s: Seq<u8>) -> Option<(InitialResponse, int)> {
        read_initial_response(s)
    }

    proof fn lemma_view(&self) {
    }

    proof fn lemma_read_s_type(s: Seq<u8>) {
        lemma_test_s_type_code(s);
    }

    proof fn lemma_read_wire(v: InitialResponse, tail: Seq<u8>) {
        let a = enc_test_s_type(v.s_type);
        let b = enc_u64(v.response);
        lemma_parse_test_s_type(v.s_type, b + tail);
        assert(initial_response_wire(v) + tail =~= a + (b + tail));
        lemma_rest_concat(a, b + tail);
        lemma_parse_u64(v.response, tail);
    }

    fn write(&self) -> (r: Option<Vec<u8>>) {
        let mut out = write_test_s_type(self.s_type)?;
        let mut b = encode_u64(self.response)?;
        out.append(&mut b);
        Some(out)
    }

    fn read(s: &[u8]) -> (r: Option<InitialResponse>) {
        let (t, a) = read_test_s_type(s)?;
        let s1 = slice_subrange(s, a, s.len());
        let (q, _b) = decode_u64(s1)?;
        Some(InitialResponse { s_type: t, response: q })
    }
}

/// A test structure that carries an initial request and a byte payload, as a mathematical
/// value.
pub struct PayloadView {
    pub s_type: TestStructureType,
    pub request: InitialRequest,
    pub payload: Seq<u8>,
}

impl View for PayloadRequest {
    type V = PayloadView;

    open spec fn view(&self) -> PayloadView {
        PayloadView { s_type: self.s_type, request: self.request, payload: self.medium_payload@ }
    }
}

impl View for PayloadResponse {
    type V = PayloadView;

    open spec fn view(&self) -> PayloadView {
        PayloadView { s_type: self.s_type, request: self.request, payload: self.medium_payload@ }
    }
}

/// The structure type, the initial request, then the payload as a byte string.
pub open spec fn payload_wire(v: PayloadView) -> Seq<u8> {
    enc_test_s_type(v.s_type) + initial_request_wire(v.request) + enc_bytes(v.payload)
}

pub open spec fn read_payload(s: Seq<u8>) -> Option<(PayloadView, int)> {
    match parse_test_s_type(s) {
        None => None,
        Some((t, a)) => {
            let s1 = rest(s, a);
            match read_initial_request(s1) {
                None => None,
                Some((q, b)) => match parse_bytes(rest(s1, b)) {
                    None => None,
                    Some((p, c)) => Some((PayloadView { s_type: t, request: q, payload: p }, a + b + c)),
                },
            }
        },
    }
}

proof fn lemma_read_payload(v: PayloadView, tail: Seq<u8>)
    requires
        v.payload.len() <= u64::MAX,
    ensures
        read_payload(payload_wire(v) + tail) == Some((v, payload_wire(v).len() as int)),
{
    let a = enc_test_s_type(v.s_type);
    let b = initial_request_wire(v.request);
    let c = enc_bytes(v.payload);
    lemma_parse_test_s_type(v.s_type, b + c + tail);
    assert(payload_wire(v) + tail =~= a + (b + c + tail));
    lemma_rest_concat(a, b + c + tail);
    lemma_read_initial_request(v.request, c + tail);
    assert(b + c + tail =~= b + (c + tail));
    lemma_rest_concat(b, c + tail);
    lemma_parse_bytes(v.payload, tail);
}

fn read_payload_parts(s: &[u8]) -> (r: Option<(TestStructureType, InitialRequest, Vec<u8>)>)
    ensures
        match r {
            Some((t, q, p)) => read_payload(s@) matches Some((v, _)) && v.s_type == t && v.request == q
                && v.payload == p@,
            None => read_payload(s@) is None,
        },
{
    let (t, a) = read_test_s_type(s)?;
    let s1 = slice_subrange(s, a, s.len());
    let (q, b) = read_initial_request_bytes(s1)?;
    let s2 = slice_subrange(s1, b, s1.len());
    let (p, _c) = decode_bytes(s2)?;
    Some((t, q, p))
}

fn write_payload_parts(t: TestStructureType, q: &InitialRequest, p: &Vec<u8>) -> (r: Option<Vec<u8>>)
    ensures
        r is Some,
        r.unwrap()@ == payload_wire(PayloadView { s_type: t, request: *q, payload: p@ }),
        p@.len() <= u64::MAX,
{
    let _len: usize = p.len();
    let mut out = write_test_s_type(t)?;
    let mut b = write_initial_request(q)?;
    out.append(&mut b);
    let mut c = encode_bytes(p.as_slice())?;
    out.append(&mut c);
    Some(out)
}

impl WireMessage for PayloadRequest {
    open spec fn spec_view_s_type(v: PayloadView) -> TestStructureType {
        v.s_type
    }

    open spec fn spec_fits(v: PayloadView) -> bool {
        v.payload.len() <= u64::MAX
    }

    open spec fn spec_wire(v: PayloadView) -> Seq<u8> {
        payload_wire(v)
    }

    open spec fn spec_read(s: Seq<u8>) -> Option<(PayloadView, int)> {
        read_payload(s)
    }

    proof fn lemma_view(&self) {
    }

    proof fn lemma_read_s_type(s: Seq<u8>) {
        lemma_test_s_type_code(s);
    }

    proof fn lemma_read_wire(v: PayloadView, tail: Seq<u8>) {
        lemma_read_payload(v, tail);
    }

    fn write(&self) -> (r: Option<Vec<u8>>) {
        write_payload_parts(self.s_type, &self.request, &self.medium_payload)
    }

    fn read(s: &[u8]) -> (r: Option<PayloadRequest>) {
        let (t, q, p) = read_payload_parts(s)?;
        Some(PayloadRequest { s_type: t, request: q, medium_payload: p })
    }
}

impl WireMessage for PayloadResponse {
    open spec fn spec_view_s_type(v: PayloadView) -> TestStructureType {
        v.s_type
    }

    open spec fn spec_fits(v: PayloadView) -> bool {
        v.payload.len() <= u64::MAX
    }

    open spec fn spec_wire(v: PayloadView) -> Seq<u8> {
        payload_wire(v)
    }

    open spec fn spec_read(s: Seq<u8>) -> Option<(PayloadView, int)> {
        read_payload(s)
    }

    proof fn lemma_view(&self) {
    }

    proof fn lemma_read_s_type(s: Seq<u8>) {
        lemma_test_s_type_code(s);
    }

    proof fn lemma_read_wire(v: PayloadView, tail: Seq<u8>) {
        lemma_read_payload(v, tail);
    }

    fn write(&self) -> (r: Option<Vec<u8>>) {
        write_payload_parts(self.s_type, &self.request, &self.medium_payload)
    }

    fn read(s: &[u8]) -> (r: Option<PayloadResponse>) {
        let (t, q, p) = read_payload_parts(s)?;
        Some(PayloadResponse { s_type: t, request: q, medium_payload: p })
    }
}

impl View for HighPayloadRequest {
    type V = PayloadView;

    open spec fn view(&self) -> PayloadView {
        PayloadView { s_type: self.s_type, request: self.request, payload: self.payload@ }
    }
}

impl View for HighPayloadResponse {
    type V = PayloadView;

    open spec fn view(&self) -> PayloadView {
        PayloadView { s_type: self.s_type, request: self.request, payload: self.medium_payload@ }
    }
}

impl WireMessage for HighPayloadRequest {
    open spec fn spec_view_s_type(v: PayloadView) -> TestStructureType {
        v.s_type
    }

    open spec fn spec_fits(v: PayloadView) -> bool {
        v.payload.len() <= u64::MAX
    }

    open spec fn spec_wire(v: PayloadView) -> Seq<u8> {
        payload_wire(v)
    }

    open spec fn spec_read(s: Seq<u8>) -> Option<(PayloadView, int)> {
        read_payload(s)
    }

    proof fn lemma_view(&self) {
    }

    proof fn lemma_read_s_type(s: Seq<u8>) {
        lemma_test_s_type_code(s);
    }

    proof fn lemma_read_wire(v: PayloadView, tail: Seq<u8>) {
        lemma_read_payload(v, tail);
    }

    fn write(&self) -> (r: Option<Vec<u8>>) {
        write_payload_parts(self.s_type, &self.request, &self.payload)
    }

    fn read(s: &[u8]) -> (r: Option<HighPayloadRequest>) {
        let (t, q, p) = read_payload_parts(s)?;
        Some(HighPayloadRequest { s_type: t, request: q, payload: p })
    }
}

impl WireMessage for HighPayloadResponse {
    open spec fn spec_view_s_type(v: PayloadView) -> TestStructureType {
        v.s_type
    }

    open spec fn spec_fits(v: PayloadView) -> bool {
        v.payload.len() <= u64::MAX
    }

    open spec fn spec_wire(v: PayloadView) -> Seq<u8> {
        payload_wire(v)
    }

    open spec fn spec_read(s: Seq<u8>) -> Option<(PayloadView, int)> {
        read_payload(s)
    }

    proof fn lemma_view(&self) {
    }

    proof fn lemma_read_s_type(s: Seq<u8>) {
        lemma_test_s_type_code(s);
    }

    proof fn lemma_read_wire(v: PayloadView, tail: Seq<u8>) {
        lemma_read_payload(v, tail);
    }

    fn write(&self) -> (r: Option<Vec<u8>>) {
        write_payload_parts(self.s_type, &self.request, &self.medium_payload)
    }

    fn read(s: &[u8]) -> (r: Option<HighPayloadResponse>) {
        let (t, q, p) = read_payload_parts(s)?;
        Some(HighPayloadResponse { s_type: t, request: q, medium_payload: p })
    }
}

/// [`TestError`] as a mathematical value.
pub struct TestErrorView {
    pub s_type: TestStructureType,
    pub error: Seq<char>,
}

impl View for TestError {
    type V = TestErrorView;

    open spec fn view(&self) -> TestErrorView {
        TestErrorView { s_type: self.s_type, error: self.error@ }
    }
}

pub open spec fn test_error_wire(v: TestErrorView) -> Seq<u8> {
    enc_test_s_type(v.s_type) + enc_str(v.error)
}

pub open spec fn read_test_error(s: Seq<u8>) -> Option<(TestErrorView, int)> {
    match parse_test_s_type(s) {
        None => None,
        Some((t, a)) => match parse_str(rest(s, a)) {
            None => None,
            Some((e, b)) => Some((TestErrorView { s_type: t, error: e }, a + b)),
        },
    }
}

impl WireMessage for TestError {
    open spec fn spec_view_s_type(v: TestErrorView) -> TestStructureType {
        v.s_type
    }

    open spec fn spec_fits(v: TestErrorView) -> bool {
        text_fits(v.error)
    }

    open spec fn spec_wire(v: TestErrorView) -> Seq<u8> {
        test_error_wire(v)
    }

    open spec fn spec_read(s: Seq<u8>) -> Option<(TestErrorView, int)> {
        read_test_error(s)
    }

    proof fn lemma_view(&self) {
    }

    proof fn lemma_read_s_type(s: Seq<u8>) {
        lemma_test_s_type_code(s);
    }

    proof fn lemma_read_wire(v: TestErrorView, tail: Seq<u8>) {
        let a = enc_test_s_type(v.s_type);
        let b = enc_str(v.error);
        lemma_parse_test_s_type(v.s_type, b + tail);
        assert(test_error_wire(v) + tail =~= a + (b + tail));
        lemma_rest_concat(a, b + tail);
        lemma_parse_str(v.error, tail);
    }

    fn write(&self) -> (r: Option<Vec<u8>>) {
        let mut out = write_test_s_type(self.s_type)?;
        let mut b = write_text(&self.error)?;
        out.append(&mut b);
        Some(out)
    }

    fn read(s: &[u8]) -> (r: Option<TestError>) {
        let (t, a) = read_test_s_type(s)?;
        let s1 = slice_subrange(s, a, s.len());
        let (e, _b) = read_text(s1)?;
        Some(TestError { s_type: t, error: e })
    }
}

// ---------------------------------------------------------------------------------------
// The test handler.
// ---------------------------------------------------------------------------------------

/// Which request the test handler is serving.
#[derive(PartialEq, Eq, Structural, Clone, Copy, Debug)]
pub enum TestRoute {
    /// Multiply the number in an [`InitialRequest`].
    Initial,
    /// Sort the bytes in a [`PayloadRequest`].
    Payload,
}

/// What the test handler does with a payload of `data_len` bytes of structure type
/// `s_type`: an empty payload is refused with "no meta!", initial and payload requests are
/// served, and everything else is refused with "TestError".
pub fn test_route(s_type: TestStructureType, data_len: usize) -> (r: Result<TestRoute, TestError>)
    ensures
        data_len == 0 ==> (r matches Err(e) && e.error@ == "no meta!"@ && e.s_type
            == TestStructureType::TestError),
        data_len > 0 && s_type == TestStructureType::InitialRequest ==> r == Ok::<TestRoute, TestError>(TestRoute::Initial),
        data_len > 0 && s_type == TestStructureType::PayloadRequest ==> r == Ok::<TestRoute, TestError>(TestRoute::Payload),
        data_len > 0 && s_type != TestStructureType::InitialRequest && s_type
            != TestStructureType::PayloadRequest ==> (r matches Err(e) && e.error@ == "TestError"@
            && e.s_type == TestStructureType::TestError),
{
    if data_len == 0 {
        return Err(TestError::new("no meta!"));
    }
    match s_type {
        TestStructureType::InitialRequest => Ok(TestRoute::Initial),
        TestStructureType::PayloadRequest => Ok(TestRoute::Payload),
        _ => Err(TestError::new("TestError")),
    }
}

/// The answer to an initial request: five times its number.
pub fn answer_initial(request: &InitialRequest) -> (r: InitialResponse)
    requires
        request.request * 5 <= u64::MAX,
    ensures
        r.s_type == TestStructureType::InitialResponse,
        r.response == request.request * 5,
{
    InitialResponse { s_type: TestStructureType::InitialResponse, response: request.request * 5 }
}

/// The answer to a payload request: its bytes in ascending order, and its initial request.
pub fn answer_payload(request: PayloadRequest) -> (r: PayloadResponse)
    ensures
        r.s_type == TestStructureType::PayloadResponse,
        r.request.s_type == request.request.s_type,
        r.request.request == request.request.request,
        r.medium_payload@.to_multiset() == request.medium_payload@.to_multiset(),
        r.medium_payload@.len() == request.medium_payload@.len(),
        sorted(r.medium_payload@),
{
    let mut medium_payload = request.medium_payload;
    sort_bytes(&mut medium_payload);
    PayloadResponse { s_type: TestStructureType::PayloadResponse, request: request.request, medium_payload }
}

/// The bytes of a test error with the text `msg`.
pub open spec fn test_error_bytes(msg: Seq<char>) -> Seq<u8> {
    test_error_wire(TestErrorView { s_type: TestStructureType::TestError, error: msg })
}

/// What the test handler answers to the payload `data` of structure type `s_type`: an empty
/// payload gets the test error "no meta!"; an initial request gets five times its number;
/// a payload request gets its bytes in ascending order with its initial request; any other
/// structure type gets the test error "TestError".  The payload of an initial or payload
/// request must hold one, whose number can be multiplied by five.
pub fn test_serve_route(s_type: TestStructureType, data: &[u8]) -> (r: Result<Vec<u8>, Vec<u8>>)
    requires
        data@.len() > 0 && s_type == TestStructureType::InitialRequest ==> {
            &&& accepts::<InitialRequest>(data@)
            &&& read_initial_request(data@).unwrap().0.request * 5 <= u64::MAX
        },
        data@.len() > 0 && s_type == TestStructureType::PayloadRequest ==> accepts::<PayloadRequest>(data@),
    ensures
        data@.len() == 0 ==> (r matches Err(b) && b@ == test_error_bytes("no meta!"@)),
        data@.len() > 0 && s_type == TestStructureType::InitialRequest ==> {
            let q = read_initial_request(data@).unwrap().0;
            r matches Ok(b) && b@ == initial_response_wire(
                InitialResponse { s_type: TestStructureType::InitialResponse, response: (q.request * 5) as u64 },
            )
        },
        data@.len() > 0 && s_type == TestStructureType::PayloadRequest ==> {
            let q = read_payload(data@).unwrap().0;
            r matches Ok(b) && (read_payload(b@) matches Some((v, n)) && n == b@.len()
                && v.s_type == TestStructureType::PayloadResponse && v.request == q.request
                && v.payload.len() == q.payload.len() && v.payload.to_multiset()
                == q.payload.to_multiset() && sorted(v.payload))
        },
        data@.len() > 0 && s_type != TestStructureType::InitialRequest && s_type
            != TestStructureType::PayloadRequest ==> (r matches Err(b) && b@ == test_error_bytes(
            "TestError"@,
        )),
{
    match test_route(s_type, data.len()) {
        Err(e) => Err(to_vec(&e).unwrap()),
        Ok(TestRoute::Initial) => {
            let request = match from_slice::<InitialRequest>(data) {
                Ok(q) => q,
                Err(_) => unreached(),
            };
            let response = answer_initial(&request);
            Ok(to_vec(&response).unwrap())
        },
        Ok(TestRoute::Payload) => {
            let request = match from_slice::<PayloadRequest>(data) {
                Ok(q) => q,
                Err(_) => unreached(),
            };
            let response = answer_payload(request);
            let _len: usize = response.medium_payload.len();
            let bytes = to_vec(&response).unwrap();
            proof {
                lemma_read_payload(response@, Seq::empty());
                assert(bytes@ + Seq::<u8>::empty() =~= bytes@);
            }
            Ok(bytes)
        },
    }
}

// ---------------------------------------------------------------------------------------
// The test traffic processor.
// ---------------------------------------------------------------------------------------

/// A byte on its way out: raised by one, 255 wrapping round to 0.
pub open spec fn shift_up(b: u8) -> u8 {
    if b == 255 {
        0
    } else {
        (b + 1) as u8
    }
}

/// A byte on its way in: lowered by one, 0 wrapping round to 255.
pub open spec fn shift_down(b: u8) -> u8 {
    if b == 0 {
        255
    } else {
        (b - 1) as u8
    }
}

/// What the test processor does to outgoing traffic: every byte is raised by one, modulo 256.
pub fn test_post_process(data: Vec<u8>) -> (r: Vec<u8>)
    ensures
        r@.len() == data@.len(),
        forall|i: int| 0 <= i < data@.len() ==> r@[i] == shift_up(#[trigger] data@[i]),
{
    let ghost orig = data@;
    let mut out = data;
    let mut i: usize = 0;
    while i < out.len()
        invariant
            out@.len() == orig.len(),
            i <= orig.len(),
            forall|j: int| 0 <= j < i ==> out@[j] == shift_up(#[trigger] orig[j]),
            forall|j: int| i <= j < orig.len() ==> out@[j] == #[trigger] orig[j],
        decreases orig.len() - i,
    {
        let x = out[i];
        let y: u8 = if x == 255 { 0 } else { x + 1 };
        out.set(i, y);
        i = i + 1;
    }
    out
}

/// What the test processor does to incoming traffic: every byte is lowered by one, modulo
/// 256.
pub fn test_pre_process(data: Vec<u8>) -> (r: Vec<u8>)
    ensures
        r@.len() == data@.len(),
        forall|i: int| 0 <= i < data@.len() ==> r@[i] == shift_down(#[trigger] data@[i]),
{
    let ghost orig = data@;
    let mut out = data;
    let mut i: usize = 0;
    while i < out.len()
        invariant
            out@.len() == orig.len(),
            i <= orig.len(),
            forall|j: int| 0 <= j < i ==> out@[j] == shift_down(#[trigger] orig[j]),
            forall|j: int| i <= j < orig.len() ==> out@[j] == #[trigger] orig[j],
        decreases orig.len() - i,
    {
        let x = out[i];
        let y: u8 = if x == 0 { 255 } else { x - 1 };
        out.set(i, y);
        i = i + 1;
    }
    out
}

/// The test processor on one side undoes the one on the other side: lowering a raised byte,
/// or raising a lowered one, gives the byte back.
pub proof fn test_processor_roundtrip(b: u8)
    ensures
        shift_down(shift_up(b)) == b,
        shift_up(shift_down(b)) == b,
{
}

/// What a frame that went through the test processor on both sides comes back as: itself.
pub proof fn test_processor_frame_roundtrip(data: Seq<u8>, sent: Seq<u8>, received: Seq<u8>)
    requires
        sent.len() == data.len(),
        forall|i: int| 0 <= i < data.len() ==> sent[i] == shift_up(#[trigger] data[i]),
        received.len() == sent.len(),
        forall|i: int| 0 <= i < sent.len() ==> received[i] == shift_down(#[trigger] sent[i]),
    ensures
        received == data,
{
    assert forall|i: int| 0 <= i < data.len() implies received[i] == data[i] by {
        test_processor_roundtrip(data[i]);
    }
    assert(received =~= data);
}

// ---------------------------------------------------------------------------------------
// The test client.
// ---------------------------------------------------------------------------------------

/// The requests the test client sends.
pub enum TestClientRequest {
    Initial(InitialRequest),
    Payload(PayloadRequest),
}

/// The request the test client sends after `counter` others: it alternates between asking
/// to multiply 500 and asking to sort `payload`.
pub fn next_test_request(counter: u64, payload: Vec<u8>) -> (r: TestClientRequest)
    ensures
        counter % 2 == 0 ==> (r matches TestClientRequest::Initial(q) && q.s_type
            == TestStructureType::InitialRequest && q.request == 500),
        counter % 2 == 1 ==> (r matches TestClientRequest::Payload(q) && q.s_type
            == TestStructureType::PayloadRequest && q.request.s_type
            == TestStructureType::InitialRequest && q.request.request == 500 && q.medium_payload@
            == payload@),
{
    let initial = InitialRequest { s_type: TestStructureType::InitialRequest, request: 500 };
    if counter % 2 == 0 {
        TestClientRequest::Initial(initial)
    } else {
        TestClientRequest::Payload(
            PayloadRequest {
                s_type: TestStructureType::PayloadRequest,
                request: initial,
                medium_payload: payload,
            },
        )
    }
}

/// The bytes of the request the test client sends after `counter` others, and their
/// structure type.
pub fn test_request_bytes(counter: u64, payload: Vec<u8>) -> (r: (Vec<u8>, TestStructureType))
    ensures
        counter % 2 == 0 ==> r.1 == TestStructureType::InitialRequest && r.0@ == initial_request_wire(
            InitialRequest { s_type: TestStructureType::InitialRequest, request: 500 },
        ),
        counter % 2 == 1 ==> r.1 == TestStructureType::PayloadRequest && r.0@ == payload_wire(
            PayloadView {
                s_type: TestStructureType::PayloadRequest,
                request: InitialRequest { s_type: TestStructureType::InitialRequest, request: 500 },
                payload: payload@,
            },
        ),
{
    match next_test_request(counter, payload) {
        TestClientRequest::Initial(q) => (to_vec(&q).unwrap(), TestStructureType::InitialRequest),
        TestClientRequest::Payload(q) => (to_vec(&q).unwrap(), TestStructureType::PayloadRequest),
    }
}

/// What the test client reads from a reply.
pub enum TestReply {
    /// The product of an initial request.
    Product(u64),
    /// A sorted payload.
    Sorted,
    /// Neither.
    Unreadable,
}

/// Reads a reply of the test server: the product of an initial request if it holds one,
/// otherwise whether it holds a payload response.
pub fn read_test_reply(response: &[u8]) -> (r: TestReply)
    ensures
        accepts::<InitialResponse>(response@) ==> (r matches TestReply::Product(v) && v
            == read_initial_response(response@).unwrap().0.response),
        !accepts::<InitialResponse>(response@) && accepts::<PayloadResponse>(response@) ==> r is Sorted,
        !accepts::<InitialResponse>(response@) && !accepts::<PayloadResponse>(response@) ==> r is Unreadable,
{
    match from_slice::<InitialResponse>(response) {
        Ok(resp) => TestReply::Product(resp.response),
        Err(_) => match from_slice::<PayloadResponse>(response) {
            Ok(_) => TestReply::Sorted,
            Err(_) => TestReply::Unreadable,
        },
    }
}


/// The test client's request generator: it counts the requests it has made.
pub struct TestRecv {
    counter: u64,
}

impl TestRecv {
    /// How many requests the generator has made.
    pub closed spec fn count(&self) -> u64 {
        self.counter
    }

    /// How many requests the generator has made.
    pub fn requests_made(&self) -> (r: u64)
        ensures
            r == self.count(),
    {
        self.counter
    }

    /// A generator that has made no request yet.
    pub fn new() -> (r: TestRecv)
        ensures
            r.count() == 0,
    {
        TestRecv { counter: 0 }
    }

    /// The next request and its structure type: after an even number of requests, an
    /// initial request for 500; after an odd number, a payload request for 500 with 500
    /// random bytes, each below 255.  The count goes up by one.
    pub fn get_request(&mut self) -> (r: Option<(Vec<u8>, TestStructureType)>)
        requires
            old(self).count() < u64::MAX,
        ensures
            final(self).count() == old(self).count() + 1,
            r is Some,
            old(self).count() % 2 == 0 ==> (r matches Some((bytes, t)) && t == TestStructureType::InitialRequest
                && bytes@ == initial_request_wire(InitialRequest { s_type: TestStructureType::InitialRequest, request: 500 })),
            old(self).count() % 2 == 1 ==> (r matches Some((bytes, t)) && t == TestStructureType::PayloadRequest
                && (read_payload(bytes@) matches Some((v, n)) && n == bytes@.len()
                && v.s_type == TestStructureType::PayloadRequest
                && v.request == (InitialRequest { s_type: TestStructureType::InitialRequest, request: 500 })
                && v.payload.len() == 500
                && forall|i: int| 0 <= i < 500 ==> #[trigger] v.payload[i] < 255)),
    {
        let payload = if self.counter % 2 == 1 {
            generate_random_u8_vec(500)
        } else {
            Vec::new()
        };
        let ghost drawn = payload@;
        let res = test_request_bytes(self.counter, payload);
        proof {
            if self.counter % 2 == 1 {
                let v = PayloadView {
                    s_type: TestStructureType::PayloadRequest,
                    request: InitialRequest { s_type: TestStructureType::InitialRequest, request: 500 },
                    payload: drawn,
                };
                lemma_read_payload(v, Seq::empty());
                assert(res.0@ + Seq::<u8>::empty() =~= res.0@);
            }
        }
        self.counter = self.counter + 1;
        Some(res)
    }
}

} // verus!
