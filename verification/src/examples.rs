//! The structure types and structures of the usage examples, their byte images, what the
//! handler for large payloads answers, and the requests the example client sends.
use vstd::prelude::*;
use vstd::string::*;
use vstd::slice::*;
use vstd::pervasive::unreached;
use crate::client::{DataRequest, HandlerInfo};
use crate::s_type::{
    accepts, from_slice, read_text, text_fits, to_vec, write_text, StrongType, StructureType, TypeContainer,
    WireMessage,
};
use crate::util::{sort_bytes, sorted};
use crate::wire::{
    decode_bytes, decode_u32, decode_u64, enc_bytes, enc_str, enc_u32, enc_u64, encode_bytes, encode_u32,
    encode_u64, lemma_parse_bytes, lemma_parse_str, lemma_parse_u32, lemma_parse_u64, lemma_rest_concat,
    parse_bytes, parse_str, parse_u32, parse_u64, rest,
};

verus! {

/// The structure types of the examples.
#[derive(PartialEq, Eq, Structural, Clone, Copy, Debug, Hash)]
pub enum ExampleSType {
    TestMessage,
    TestResponse,
    ExpensiveMessage,
    ExpensiveResponse,
    ManualHandlerRequest,
}

impl ExampleSType {
    /// The variant's position, which is also its number on the wire.
    pub open spec fn spec_index(self) -> u64 {
        match self {
            ExampleSType::TestMessage => 0,
            ExampleSType::TestResponse => 1,
            ExampleSType::ExpensiveMessage => 2,
            ExampleSType::ExpensiveResponse => 3,
            ExampleSType::ManualHandlerRequest => 4,
        }
    }

    /// The variant at a position below 5.
    pub open spec fn spec_at(i: u64) -> ExampleSType {
        if i == 0 {
            ExampleSType::TestMessage
        } else if i == 1 {
            ExampleSType::TestResponse
        } else if i == 2 {
            ExampleSType::ExpensiveMessage
        } else if i == 3 {
            ExampleSType::ExpensiveResponse
        } else {
            ExampleSType::ManualHandlerRequest
        }
    }

    /// The structure type whose number is the lowest byte of `val`; that byte must name one.
    pub fn deserialize(val: u64) -> (r: ExampleSType)
        requires
            val % 256 < 5,
        ensures
            r == ExampleSType::spec_at(val % 256),
            r.spec_index() == val % 256,
    {
        let low: u64 = val % 256;
        if low == 0 {
            ExampleSType::TestMessage
        } else if low == 1 {
            ExampleSType::TestResponse
        } else if low == 2 {
            ExampleSType::ExpensiveMessage
        } else if low == 3 {
            ExampleSType::ExpensiveResponse
        } else {
            ExampleSType::ManualHandlerRequest
        }
    }

    /// The number of a structure type.
    pub fn serialize(refer: ExampleSType) -> (r: u64)
        ensures
            r == refer.spec_index(),
    {
        match refer {
            ExampleSType::TestMessage => 0,
            ExampleSType::TestResponse => 1,
            ExampleSType::ExpensiveMessage => 2,
            ExampleSType::ExpensiveResponse => 3,
            ExampleSType::ManualHandlerRequest => 4,
        }
    }
}

impl StructureType for ExampleSType {
    open spec fn spec_family() -> u64 {
        2
    }

    fn family() -> (f: u64) {
        2
    }

    open spec fn spec_code(&self) -> u64 {
        self.spec_index()
    }

    open spec fn spec_decodes(code: u64) -> bool {
        code % 256 < 5
    }

    open spec fn spec_decode(code: u64) -> ExampleSType {
        ExampleSType::spec_at(code % 256)
    }

    fn to_code(&self) -> (c: u64) {
        ExampleSType::serialize(*self)
    }

    fn decodes(code: u64) -> (b: bool) {
        code % 256 < 5
    }

    fn from_code(code: u64) -> (r: ExampleSType) {
        ExampleSType::deserialize(code)
    }

    fn equals(&self, other: &ExampleSType) -> (b: bool) {
        *self == *other
    }
}

#[derive(Debug)]
pub struct TestMsg {
    pub s_type: ExampleSType,
    pub id: u64,
    pub data: Vec<u8>,
    pub message: String,
}

#[derive(Debug)]
pub struct TestResponse {
    pub s_type: ExampleSType,
    pub id: u64,
    pub data: Vec<u8>,
    pub another_message: String,
}

#[derive(Debug)]
pub struct ExpensiveMsg {
    pub s_type: ExampleSType,
    pub id: u64,
    pub data: Vec<u8>,
}

#[derive(Debug)]
pub struct ExpensiveResponse {
    pub s_type: ExampleSType,
    pub id: u64,
    pub data: Vec<u8>,
}

#[derive(Clone, Copy, Debug)]
pub struct ManualHandlerRequest {
    pub s_type: ExampleSType,
}

impl StrongType for TestMsg {
    type SType = ExampleSType;

    open spec fn spec_s_type(&self) -> ExampleSType {
        self.s_type
    }

    open spec fn spec_own_s_type() -> ExampleSType {
        ExampleSType::TestMessage
    }

    fn get_s_type(&self) -> (r: ExampleSType) {
        self.s_type
    }

    fn own_s_type() -> (r: ExampleSType) {
        ExampleSType::TestMessage
    }
}

impl StrongType for TestResponse {
    type SType = ExampleSType;

    open spec fn spec_s_type(&self) -> ExampleSType {
        self.s_type
    }

    open spec fn spec_own_s_type() -> ExampleSType {
        ExampleSType::TestResponse
    }

    fn get_s_type(&self) -> (r: ExampleSType) {
        self.s_type
    }

    fn own_s_type() -> (r: ExampleSType) {
        ExampleSType::TestResponse
    }
}

impl StrongType for ExpensiveMsg {
    type SType = ExampleSType;

    open spec fn spec_s_type(&self) -> ExampleSType {
        self.s_type
    }

    open spec fn spec_own_s_type() -> ExampleSType {
        ExampleSType::ExpensiveMessage
    }

    fn get_s_type(&self) -> (r: ExampleSType) {
        self.s_type
    }

    fn own_s_type() -> (r: ExampleSType) {
        ExampleSType::ExpensiveMessage
    }
}

impl StrongType for ExpensiveResponse {
    type SType = ExampleSType;

    open spec fn spec_s_type(&self) -> ExampleSType {
        self.s_type
    }

    open spec fn spec_own_s_type() -> ExampleSType {
        ExampleSType::ExpensiveResponse
    }

    fn get_s_type(&self) -> (r: ExampleSType) {
        self.s_type
    }

    fn own_s_type() -> (r: ExampleSType) {
        ExampleSType::ExpensiveResponse
    }
}

impl StrongType for ManualHandlerRequest {
    type SType = ExampleSType;

    open spec fn spec_s_type(&self) -> ExampleSType {
        self.s_type
    }

    open spec fn spec_own_s_type() -> ExampleSType {
        ExampleSType::ManualHandlerRequest
    }

    fn get_s_type(&self) -> (r: ExampleSType) {
        self.s_type
    }

    fn own_s_type() -> (r: ExampleSType) {
        ExampleSType::ManualHandlerRequest
    }
}


// ---------------------------------------------------------------------------------------
// The example structures on the wire.
// ---------------------------------------------------------------------------------------

impl ExampleSType {
    pub proof fn lemma_at_index(i: u64)
        requires
            i < 5,
        ensures
            ExampleSType::spec_at(i).spec_index() == i,
    {
    }
}

/// An example structure type on the wire: its position as a `u32`.
pub open spec fn enc_example_s_type(t: ExampleSType) -> Seq<u8> {
    enc_u32(t.spec_index() as u32)
}

/// Reading an example structure type: a `u32` that must be the position of a variant.
pub open spec fn parse_example_s_type(s: Seq<u8>) -> Option<(ExampleSType, int)> {
    match parse_u32(s) {
        Some((i, n)) => if i < 5 {
            Some((ExampleSType::spec_at(i as u64), n))
        } else {
            None
        },
        None => None,
    }
}

proof fn lemma_parse_example_s_type(t: ExampleSType, tail: Seq<u8>)
    ensures
        parse_example_s_type(enc_example_s_type(t) + tail) == Some((t, 4int)),
        enc_example_s_type(t).len() == 4,
{
    lemma_parse_u32(t.spec_index() as u32, tail);
}

proof fn lemma_example_s_type_code(s: Seq<u8>)
    ensures
        parse_example_s_type(s) matches Some((t, _)) ==> (parse_u32(s) matches Some((c, _))
            && t.spec_code() == c as u64),
{
    if let Some((i, _)) = parse_u32(s) {
        if i < 5 {
            ExampleSType::lemma_at_index(i as u64);
        }
    }
}

fn read_example_s_type(s: &[u8]) -> (r: Option<(ExampleSType, usize)>)
    ensures
        match r {
            Some((t, n)) => parse_example_s_type(s@) == Some((t, n as int)),
            None => parse_example_s_type(s@) is None,
        },
{
    let (i, n) = decode_u32(s)?;
    if i < 5 {
        Some((ExampleSType::deserialize(i as u64), n))
    } else {
        None
    }
}

fn write_example_s_type(t: ExampleSType) -> (r: Option<Vec<u8>>)
    ensures
        r is Some,
        r.unwrap()@ == enc_example_s_type(t),
{
    let i = ExampleSType::serialize(t);
    encode_u32(i as u32)
}

/// An example structure with an id, bytes and a text, as a mathematical value.
pub struct TextMessageView {
    pub s_type: ExampleSType,
    pub id: u64,
    pub data: Seq<u8>,
    pub text: Seq<char>,
}

impl View for TestMsg {
    type V = TextMessageView;

    open spec fn view(&self) -> TextMessageView {
        TextMessageView { s_type: self.s_type, id: self.id, data: self.data@, text: self.message@ }
    }
}

impl View for TestResponse {
    type V = TextMessageView;

    open spec fn view(&self) -> TextMessageView {
        TextMessageView { s_type: self.s_type, id: self.id, data: self.data@, text: self.another_message@ }
    }
}

/// The structure type, the id, the bytes and the text.
pub open spec fn text_message_wire(v: TextMessageView) -> Seq<u8> {
    enc_example_s_type(v.s_type) + enc_u64(v.id) + enc_bytes(v.data) + enc_str(v.text)
}

pub open spec fn read_text_message(s: Seq<u8>) -> Option<(TextMessageView, int)> {
    match parse_example_s_type(s) {
        None => None,
        Some((t, a)) => {
            let s1 = rest(s, a);
            match parse_u64(s1) {
                None => None,
                Some((id, b)) => {
                    let s2 = rest(s1, b);
                    match parse_bytes(s2) {
                        None => None,
                        Some((d, c)) => match parse_str(rest(s2, c)) {
                            None => None,
                            Some((x, e)) => Some(
                                (TextMessageView { s_type: t, id, data: d, text: x }, a + b + c + e),
                            ),
                        },
                    }
                },
            }
        },
    }
}

pub open spec fn text_message_fits(v: TextMessageView) -> bool {
    v.data.len() <= u64::MAX && text_fits(v.text)
}

proof fn lemma_read_text_message(v: TextMessageView, tail: Seq<u8>)
    requires
        text_message_fits(v),
    ensures
        read_text_message(text_message_wire(v) + tail) == Some((v, text_message_wire(v).len() as int)),
{
    let a = enc_example_s_type(v.s_type);
    let b = enc_u64(v.id);
    let c = enc_bytes(v.data);
    let d = enc_str(v.text);
    lemma_parse_example_s_type(v.s_type, b + c + d + tail);
    assert(text_message_wire(v) + tail =~= a + (b + c + d + tail));
    lemma_rest_concat(a, b + c + d + tail);
    lemma_parse_u64(v.id, c + d + tail);
    assert(b + c + d + tail =~= b + (c + d + tail));
    lemma_rest_concat(b, c + d + tail);
    lemma_parse_bytes(v.data, d + tail);
    assert(c + d + tail =~= c + (d + tail));
    lemma_rest_concat(c, d + tail);
    lemma_parse_str(v.text, tail);
}

fn read_text_message_parts(s: &[u8]) -> (r: Option<(ExampleSType, u64, Vec<u8>, String)>)
    ensures
        match r {
            Some((t, id, d, x)) => read_text_message(s@) matches Some((v, _)) && v.s_type == t && v.id == id
                && v.data == d@ && v.text == x@,
            None => read_text_message(s@) is None,
        },
{
    let (t, a) = read_example_s_type(s)?;
    let s1 = slice_subrange(s, a, s.len());
    let (id, b) = decode_u64(s1)?;
    let s2 = slice_subrange(s1, b, s1.len());
    let (d, c) = decode_bytes(s2)?;
    let s3 = slice_subrange(s2, c, s2.len());
    let (x, _e) = read_text(s3)?;
    Some((t, id, d, x))
}

fn write_text_message_parts(t: ExampleSType, id: u64, d: &Vec<u8>, x: &String) -> (r: Option<Vec<u8>>)
    ensures
        r is Some,
        r.unwrap()@ == text_message_wire(TextMessageView { s_type: t, id, data: d@, text: x@ }),
        text_message_fits(TextMessageView { s_type: t, id, data: d@, text: x@ }),
{
    let _len: usize = d.len();
    let mut out = write_example_s_type(t)?;
    let mut b = encode_u64(id)?;
    out.append(&mut b);
    let mut c = encode_bytes(d.as_slice())?;
    out.append(&mut c);
    let mut e = write_text(x)?;
    out.append(&mut e);
    Some(out)
}

impl WireMessage for TestMsg {
    open spec fn spec_view_s_type(v: TextMessageView) -> ExampleSType {
        v.s_type
    }

    open spec fn spec_fits(v: TextMessageView) -> bool {
        text_message_fits(v)
    }

    open spec fn spec_wire(v: TextMessageView) -> Seq<u8> {
        text_message_wire(v)
    }

    open spec fn spec_read(s: Seq<u8>) -> Option<(TextMessageView, int)> {
        read_text_message(s)
    }

    proof fn lemma_view(&self) {
    }

    proof fn lemma_read_s_type(s: Seq<u8>) {
        lemma_example_s_type_code(s);
    }

    proof fn lemma_read_wire(v: TextMessageView, tail: Seq<u8>) {
        lemma_read_text_message(v, tail);
    }

    fn write(&self) -> (r: Option<Vec<u8>>) {
        write_text_message_parts(self.s_type, self.id, &self.data, &self.message)
    }

    fn read(s: &[u8]) -> (r: Option<TestMsg>) {
        let (t, id, d, x) = read_text_message_parts(s)?;
        Some(TestMsg { s_type: t, id, data: d, message: x })
    }
}

impl WireMessage for TestResponse {
    open spec fn spec_view_s_type(v: TextMessageView) -> ExampleSType {
        v.s_type
    }

    open spec fn spec_fits(v: TextMessageView) -> bool {
        text_message_fits(v)
    }

    open spec fn spec_wire(v: TextMessageView) -> Seq<u8> {
        text_message_wire(v)
    }

    open spec fn spec_read(s: Seq<u8>) -> Option<(TextMessageView, int)> {
        read_text_message(s)
    }

    proof fn lemma_view(&self) {
    }

    proof fn lemma_read_s_type(s: Seq<u8>) {
        lemma_example_s_type_code(s);
    }

    proof fn lemma_read_wire(v: TextMessageView, tail: Seq<u8>) {
        lemma_read_text_message(v, tail);
    }

    fn write(&self) -> (r: Option<Vec<u8>>) {
        write_text_message_parts(self.s_type, self.id, &self.data, &self.another_message)
    }

    fn read(s: &[u8]) -> (r: Option<TestResponse>) {
        let (t, id, d, x) = read_text_message_parts(s)?;
        Some(TestResponse { s_type: t, id, data: d, another_message: x })
    }
}

/// An example structure with an id and bytes, as a mathematical value.
pub struct ExpensiveView {
    pub s_type: ExampleSType,
    pub id: u64,
    pub data: Seq<u8>,
}

impl View for ExpensiveMsg {
    type V = ExpensiveView;

    open spec fn view(&self) -> ExpensiveView {
        ExpensiveView { s_type: self.s_type, id: self.id, data: self.data@ }
    }
}

impl View for ExpensiveResponse {
    type V = ExpensiveView;

    open spec fn view(&self) -> ExpensiveView {
        ExpensiveView { s_type: self.s_type, id: self.id, data: self.data@ }
    }
}

/// The structure type, the id and the bytes.
pub open spec fn expensive_wire(v: ExpensiveView) -> Seq<u8> {
    enc_example_s_type(v.s_type) + enc_u64(v.id) + enc_bytes(v.data)
}

pub open spec fn read_expensive(s: Seq<u8>) -> Option<(ExpensiveView, int)> {
    match parse_example_s_type(s) {
        None => None,
        Some((t, a)) => {
            let s1 = rest(s, a);
            match parse_u64(s1) {
                None => None,
                Some((id, b)) => match parse_bytes(rest(s1, b)) {
                    None => None,
                    Some((d, c)) => Some((ExpensiveView { s_type: t, id, data: d }, a + b + c)),
                },
            }
        },
    }
}

proof fn lemma_read_expensive(v: ExpensiveView, tail: Seq<u8>)
    requires
        v.data.len() <= u64::MAX,
    ensures
        read_expensive(expensive_wire(v) + tail) == Some((v, expensive_wire(v).len() as int)),
{
    let a = enc_example_s_type(v.s_type);
    let b = enc_u64(v.id);
    let c = enc_bytes(v.data);
    lemma_parse_example_s_type(v.s_type, b + c + tail);
    assert(expensive_wire(v) + tail =~= a + (b + c + tail));
    lemma_rest_concat(a, b + c + tail);
    lemma_parse_u64(v.id, c + tail);
    assert(b + c + tail =~= b + (c + tail));
    lemma_rest_concat(b, c + tail);
    lemma_parse_bytes(v.data, tail);
}

fn read_expensive_parts(s: &[u8]) -> (r: Option<(ExampleSType, u64, Vec<u8>)>)
    ensures
        match r {
            Some((t, id, d)) => read_expensive(s@) matches Some((v, _)) && v.s_type == t && v.id == id
                && v.data == d@,
            None => read_expensive(s@) is None,
        },
{
    let (t, a) = read_example_s_type(s)?;
    let s1 = slice_subrange(s, a, s.len());
    let (id, b) = decode_u64(s1)?;
    let s2 = slice_subrange(s1, b, s1.len());
    let (d, _c) = decode_bytes(s2)?;
    Some((t, id, d))
}

fn write_expensive_parts(t: ExampleSType, id: u64, d: &Vec<u8>) -> (r: Option<Vec<u8>>)
    ensures
        r is Some,
        r.unwrap()@ == expensive_wire(ExpensiveView { s_type: t, id, data: d@ }),
        d@.len() <= u64::MAX,
{
    let _len: usize = d.len();
    let mut out = write_example_s_type(t)?;
    let mut b = encode_u64(id)?;
    out.append(&mut b);
    let mut c = encode_bytes(d.as_slice())?;
    out.append(&mut c);
    Some(out)
}

impl WireMessage for ExpensiveMsg {
    open spec fn spec_view_s_type(v: ExpensiveView) -> ExampleSType {
        v.s_type
    }

    open spec fn spec_fits(v: ExpensiveView) -> bool {
        v.data.len() <= u64::MAX
    }

    open spec fn spec_wire(v: ExpensiveView) -> Seq<u8> {
        expensive_wire(v)
    }

    open spec fn spec_read(s: Seq<u8>) -> Option<(ExpensiveView, int)> {
        read_expensive(s)
    }

    proof fn lemma_view(&self) {
    }

    proof fn lemma_read_s_type(s: Seq<u8>) {
        lemma_example_s_type_code(s);
    }

    proof fn lemma_read_wire(v: ExpensiveView, tail: Seq<u8>) {
        lemma_read_expensive(v, tail);
    }

    fn write(&self) -> (r: Option<Vec<u8>>) {
        write_expensive_parts(self.s_type, self.id, &self.data)
    }

    fn read(s: &[u8]) -> (r: Option<ExpensiveMsg>) {
        let (t, id, d) = read_expensive_parts(s)?;
        Some(ExpensiveMsg { s_type: t, id, data: d })
    }
}

impl WireMessage for ExpensiveResponse {
    open spec fn spec_view_s_type(v: ExpensiveView) -> ExampleSType {
        v.s_type
    }

    open spec fn spec_fits(v: ExpensiveView) -> bool {
        v.data.len() <= u64::MAX
    }

    open spec fn spec_wire(v: ExpensiveView) -> Seq<u8> {
        expensive_wire(v)
    }

    open spec fn spec_read(s: Seq<u8>) -> Option<(ExpensiveView, int)> {
        read_expensive(s)
    }

    proof fn lemma_view(&self) {
    }

    proof fn lemma_read_s_type(s: Seq<u8>) {
        lemma_example_s_type_code(s);
    }

    proof fn lemma_read_wire(v: ExpensiveView, tail: Seq<u8>) {
        lemma_read_expensive(v, tail);
    }

    fn write(&self) -> (r: Option<Vec<u8>>) {
        write_expensive_parts(self.s_type, self.id, &self.data)
    }

    fn read(s: &[u8]) -> (r: Option<ExpensiveResponse>) {
        let (t, id, d) = read_expensive_parts(s)?;
        Some(ExpensiveResponse { s_type: t, id, data: d })
    }
}

impl View for ManualHandlerRequest {
    type V = ManualHandlerRequest;

    open spec fn view(&self) -> ManualHandlerRequest {
        *self
    }
}

impl WireMessage for ManualHandlerRequest {
    open spec fn spec_view_s_type(v: ManualHandlerRequest) -> ExampleSType {
        v.s_type
    }

    open spec fn spec_fits(v: ManualHandlerRequest) -> bool {
        true
    }

    open spec fn spec_wire(v: ManualHandlerRequest) -> Seq<u8> {
        enc_example_s_type(v.s_type)
    }

    open spec fn spec_read(s: Seq<u8>) -> Option<(ManualHandlerRequest, int)> {
        match parse_example_s_type(s) {
            Some((t, a)) => Some((ManualHandlerRequest { s_type: t }, a)),
            None => None,
        }
    }

    proof fn lemma_view(&self) {
    }

    proof fn lemma_read_s_type(s: Seq<u8>) {
        lemma_example_s_type_code(s);
    }

    proof fn lemma_read_wire(v: ManualHandlerRequest, tail: Seq<u8>) {
        lemma_parse_example_s_type(v.s_type, tail);
    }

    fn write(&self) -> (r: Option<Vec<u8>>) {
        write_example_s_type(self.s_type)
    }

    fn read(s: &[u8]) -> (r: Option<ManualHandlerRequest>) {
        let (t, _a) = read_example_s_type(s)?;
        Some(ManualHandlerRequest { s_type: t })
    }
}

/// The example handler for large payloads: it sorts the bytes of expensive messages and
/// responses.
pub struct BigPayloadHandler {}

/// Which structure the large-payload handler is serving.
#[derive(PartialEq, Eq, Structural, Clone, Copy, Debug)]
pub enum BigPayloadRoute {
    Message,
    Response,
}

impl BigPayloadHandler {
    /// Expensive messages and responses are served; anything else is refused with the bytes
    /// of "Malformed message type".
    pub fn route(&self, s_type: ExampleSType) -> (r: Result<BigPayloadRoute, Vec<u8>>)
        ensures
            s_type == ExampleSType::ExpensiveMessage ==> r == Ok::<BigPayloadRoute, Vec<u8>>(BigPayloadRoute::Message),
            s_type == ExampleSType::ExpensiveResponse ==> r == Ok::<BigPayloadRoute, Vec<u8>>(BigPayloadRoute::Response),
            s_type != ExampleSType::ExpensiveMessage && s_type != ExampleSType::ExpensiveResponse
                ==> (r matches Err(b) && b@ == "Malformed message type".spec_bytes()),
    {
        match s_type {
            ExampleSType::ExpensiveMessage => Ok(BigPayloadRoute::Message),
            ExampleSType::ExpensiveResponse => Ok(BigPayloadRoute::Response),
            _ => Err(vstd::slice::slice_to_vec("Malformed message type".as_bytes())),
        }
    }

    /// The message with its bytes in ascending order.
    pub fn sort_message(&self, message: ExpensiveMsg) -> (r: ExpensiveMsg)
        ensures
            r.s_type == message.s_type,
            r.id == message.id,
            r.data@.len() == message.data@.len(),
            r.data@.to_multiset() == message.data@.to_multiset(),
            sorted(r.data@),
    {
        let mut data = message.data;
        sort_bytes(&mut data);
        ExpensiveMsg { s_type: message.s_type, id: message.id, data }
    }

    /// The response with its bytes in ascending order.
    pub fn sort_response(&self, response: ExpensiveResponse) -> (r: ExpensiveResponse)
        ensures
            r.s_type == response.s_type,
            r.id == response.id,
            r.data@.len() == response.data@.len(),
            r.data@.to_multiset() == response.data@.to_multiset(),
            sorted(r.data@),
    {
        let mut data = response.data;
        sort_bytes(&mut data);
        ExpensiveResponse { s_type: response.s_type, id: response.id, data }
    }

    /// What the handler answers to the payload `data` of structure type `s_type`: an
    /// expensive message or response comes back with its bytes in ascending order; any other
    /// structure type is refused with the bytes of "Malformed message type".  The payload of
    /// an expensive message or response must hold one.
    pub fn serve_route(&self, s_type: ExampleSType, data: &[u8]) -> (r: Result<Vec<u8>, Vec<u8>>)
        requires
            s_type == ExampleSType::ExpensiveMessage ==> accepts::<ExpensiveMsg>(data@),
            s_type == ExampleSType::ExpensiveResponse ==> accepts::<ExpensiveResponse>(data@),
        ensures
            (s_type == ExampleSType::ExpensiveMessage || s_type == ExampleSType::ExpensiveResponse) ==> {
                let q = read_expensive(data@).unwrap().0;
                r matches Ok(b) && (read_expensive(b@) matches Some((v, n)) && n == b@.len()
                    && v.s_type == q.s_type && v.id == q.id && v.data.len() == q.data.len()
                    && v.data.to_multiset() == q.data.to_multiset() && sorted(v.data))
            },
            s_type != ExampleSType::ExpensiveMessage && s_type != ExampleSType::ExpensiveResponse
                ==> (r matches Err(b) && b@ == "Malformed message type".spec_bytes()),
    {
        match self.route(s_type) {
            Err(e) => Err(e),
            Ok(BigPayloadRoute::Message) => {
                let message = match from_slice::<ExpensiveMsg>(data) {
                    Ok(m) => m,
                    Err(_) => unreached(),
                };
                let answer = self.sort_message(message);
                let _len: usize = answer.data.len();
                let bytes = to_vec(&answer).unwrap();
                proof {
                    lemma_read_expensive(answer@, Seq::empty());
                    assert(bytes@ + Seq::<u8>::empty() =~= bytes@);
                }
                Ok(bytes)
            },
            Ok(BigPayloadRoute::Response) => {
                let response = match from_slice::<ExpensiveResponse>(data) {
                    Ok(m) => m,
                    Err(_) => unreached(),
                };
                let answer = self.sort_response(response);
                let _len: usize = answer.data.len();
                let bytes = to_vec(&answer).unwrap();
                proof {
                    lemma_read_expensive(answer@, Seq::empty());
                    assert(bytes@ + Seq::<u8>::empty() =~= bytes@);
                }
                Ok(bytes)
            },
        }
    }
}

// ---------------------------------------------------------------------------------------
// Using the structures.
// ---------------------------------------------------------------------------------------

/// The bytes of one structure of each of four example types.
pub fn try_serialize_structures() -> (r: (Vec<u8>, Vec<u8>, Vec<u8>, Vec<u8>))
    ensures
        r.0@ == text_message_wire(
            TextMessageView { s_type: ExampleSType::TestMessage, id: 532, data: Seq::empty(), text: "hello message"@ },
        ),
        r.1@ == text_message_wire(
            TextMessageView {
                s_type: ExampleSType::TestResponse,
                id: 34,
                data: seq![32u8, 32u8, 12u8, 32u8],
                text: "test response"@,
            },
        ),
        r.2@ == expensive_wire(
            ExpensiveView { s_type: ExampleSType::ExpensiveMessage, id: 23, data: Seq::new(2048, |i: int| 18u8) },
        ),
        r.3@ == expensive_wire(
            ExpensiveView { s_type: ExampleSType::ExpensiveResponse, id: 23, data: Seq::new(4096, |i: int| 18u8) },
        ),
{
    let test1 = TestMsg {
        s_type: ExampleSType::TestMessage,
        id: 532,
        data: Vec::new(),
        message: String::from_str("hello message"),
    };
    let test1 = to_vec(&test1).unwrap();
    let test2 = TestResponse {
        s_type: ExampleSType::TestResponse,
        id: 34,
        data: vec![32u8, 32u8, 12u8, 32u8],
        another_message: String::from_str("test response"),
    };
    let test2 = to_vec(&test2).unwrap();
    let data3: Vec<u8> = vec![18u8; 2048];
    assert(data3@ =~= Seq::new(2048, |i: int| 18u8));
    let test3 = ExpensiveMsg { s_type: ExampleSType::ExpensiveMessage, id: 23, data: data3 };
    let test3 = to_vec(&test3).unwrap();
    let data4: Vec<u8> = vec![18u8; 4096];
    assert(data4@ =~= Seq::new(4096, |i: int| 18u8));
    let test4 = ExpensiveResponse { s_type: ExampleSType::ExpensiveResponse, id: 23, data: data4 };
    let test4 = to_vec(&test4).unwrap();
    (test1, test2, test3, test4)
}

/// The four structures that [`try_serialize_structures`] wrote; each byte vector must hold
/// the structure of its type.
pub fn try_deserialize_structures(structures: (Vec<u8>, Vec<u8>, Vec<u8>, Vec<u8>)) -> (r: (
    TestMsg,
    TestResponse,
    ExpensiveMsg,
    ExpensiveResponse,
))
    requires
        accepts::<TestMsg>(structures.0@),
        accepts::<TestResponse>(structures.1@),
        accepts::<ExpensiveMsg>(structures.2@),
        accepts::<ExpensiveResponse>(structures.3@),
    ensures
        r.0@ == read_text_message(structures.0@).unwrap().0,
        r.1@ == read_text_message(structures.1@).unwrap().0,
        r.2@ == read_expensive(structures.2@).unwrap().0,
        r.3@ == read_expensive(structures.3@).unwrap().0,
{
    let test1 = match from_slice::<TestMsg>(structures.0.as_slice()) {
        Ok(m) => m,
        Err(_) => unreached(),
    };
    let test2 = match from_slice::<TestResponse>(structures.1.as_slice()) {
        Ok(m) => m,
        Err(_) => unreached(),
    };
    let test3 = match from_slice::<ExpensiveMsg>(structures.2.as_slice()) {
        Ok(m) => m,
        Err(_) => unreached(),
    };
    let test4 = match from_slice::<ExpensiveResponse>(structures.3.as_slice()) {
        Ok(m) => m,
        Err(_) => unreached(),
    };
    (test1, test2, test3, test4)
}

/// A request for the handler named "TEST_HANDLER" with a small test message.
pub fn make_test_request() -> (r: DataRequest)
    ensures
        r.handler_info@.id is None,
        r.handler_info@.named == Some("TEST_HANDLER"@),
        r.data@ == text_message_wire(
            TextMessageView {
                s_type: ExampleSType::TestMessage,
                id: 12,
                data: seq![32u8, 32u8, 23u8, 42u8],
                text: "hello from client"@,
            },
        ),
        r.s_type.s_type == ExampleSType::TestMessage.spec_code(),
{
    let request = TestMsg {
        s_type: ExampleSType::TestMessage,
        id: 12,
        data: vec![32u8, 32u8, 23u8, 42u8],
        message: String::from_str("hello from client"),
    };
    DataRequest {
        handler_info: HandlerInfo::new_named(String::from_str("TEST_HANDLER")),
        data: to_vec(&request).unwrap(),
        s_type: TypeContainer::new(ExampleSType::TestMessage),
    }
}

/// A request for the handler named "BIG_PAYLOAD" with an expensive response that carries
/// `data`.
pub fn make_big_payload_request(data: Vec<u8>) -> (r: DataRequest)
    ensures
        r.handler_info@.id is None,
        r.handler_info@.named == Some("BIG_PAYLOAD"@),
        r.data@ == expensive_wire(ExpensiveView { s_type: ExampleSType::ExpensiveResponse, id: 12, data: data@ }),
        r.s_type.s_type == ExampleSType::ExpensiveResponse.spec_code(),
{
    let request = ExpensiveResponse { s_type: ExampleSType::ExpensiveResponse, id: 12, data };
    DataRequest {
        handler_info: HandlerInfo::new_named(String::from_str("BIG_PAYLOAD")),
        data: to_vec(&request).unwrap(),
        s_type: TypeContainer::new(ExampleSType::ExpensiveResponse),
    }
}

} // verus!
