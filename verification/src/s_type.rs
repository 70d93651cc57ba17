//! Structure types, the system packets that the framework itself exchanges, and the byte
//! images of structures on the wire.
use vstd::prelude::*;
use vstd::slice::*;
use vstd::string::*;
use vstd::utf8::*;
use vstd::std_specs::cmp::PartialEqSpecImpl;
use crate::wire::{
    decode_bool, decode_bytes, decode_u32, decode_u64, decode_u8, enc_bool, enc_bytes, enc_str, enc_u32,
    enc_u64, enc_u8, encode_bool, encode_bytes, encode_u32, encode_u64, encode_u8, lemma_parse_bool,
    lemma_parse_bytes, lemma_parse_str, lemma_parse_u32, lemma_parse_u64, lemma_parse_u8,
    lemma_rest_concat, parse_bool, parse_bytes, parse_str, parse_u32, parse_u64, parse_u8, rest,
    utf8_text,
};

verus! {

// ---------------------------------------------------------------------------------------
// Structure types.
// ---------------------------------------------------------------------------------------

/// A structure type names what a packet holds, so that the receiver knows what to decode it
/// into.  Every project has its own enum of them; on the wire each value is a number.
pub trait StructureType: Sized {
    /// The number that stands for this value on the wire.
    spec fn spec_code(&self) -> u64;

    /// Whether a number read from the wire stands for some value.
    spec fn spec_decodes(code: u64) -> bool;

    /// The value that a number stands for.
    spec fn spec_decode(code: u64) -> Self;

    /// A number that tells this enum of structure types apart from every other one of a
    /// project; containers of structure types compare it beside the variant's number.
    spec fn spec_family() -> u64;

    /// The number of this enum of structure types.
    fn family() -> (f: u64)
        ensures
            f == Self::spec_family(),
    ;

    /// The number that stands for this value.
    fn to_code(&self) -> (c: u64)
        ensures
            c == self.spec_code(),
    ;

    /// Whether a number read from the wire stands for some value.
    fn decodes(code: u64) -> (b: bool)
        ensures
            b == Self::spec_decodes(code),
    ;

    /// The value that a number stands for.
    fn from_code(code: u64) -> (r: Self)
        requires
            Self::spec_decodes(code),
        ensures
            r == Self::spec_decode(code),
    ;

    /// Whether two values are the same structure type.
    fn equals(&self, other: &Self) -> (b: bool)
        ensures
            b == (self.spec_code() == other.spec_code()),
    ;
}

/// A structure that carries its own structure type, so that a decoder can check that the
/// bytes were meant for it.
pub trait StrongType {
    type SType: StructureType;

    /// The structure type that the value carries.
    spec fn spec_s_type(&self) -> Self::SType;

    /// The structure type that stands for this structure.
    spec fn spec_own_s_type() -> Self::SType;

    fn get_s_type(&self) -> (r: Self::SType)
        ensures
            r == self.spec_s_type(),
    ;

    fn own_s_type() -> (r: Self::SType)
        ensures
            r == Self::spec_own_s_type(),
    ;
}

/// Whether the structure type that a value carries is the one that stands for its own type.
pub fn validate_s_type<T: StrongType>(target: &T) -> (b: bool)
    ensures
        b == (target.spec_s_type().spec_code() == T::spec_own_s_type().spec_code()),
{
    let carried = target.get_s_type();
    let own = T::own_s_type();
    carried.equals(&own)
}

/// The structure types of the framework's own packets.
#[derive(PartialEq, Eq, Structural, Clone, Copy, Debug, Hash)]
pub enum SystemSType {
    PacketMeta,
    HandlerMetaReq,
    HandlerMetaAns,
    ServerError,
}

impl SystemSType {
    /// The variant's position, which is also its number on the wire.
    pub open spec fn spec_index(self) -> u32 {
        match self {
            SystemSType::PacketMeta => 0,
            SystemSType::HandlerMetaReq => 1,
            SystemSType::HandlerMetaAns => 2,
            SystemSType::ServerError => 3,
        }
    }

    /// The variant at a position below 4.
    pub open spec fn spec_at(i: u64) -> SystemSType {
        if i == 0 {
            SystemSType::PacketMeta
        } else if i == 1 {
            SystemSType::HandlerMetaReq
        } else if i == 2 {
            SystemSType::HandlerMetaAns
        } else {
            SystemSType::ServerError
        }
    }

    /// The structure type whose number is the lowest byte of `val`; that byte must name one.
    pub fn deserialize(val: u64) -> (r: SystemSType)
        requires
            val % 256 < 4,
        ensures
            r == SystemSType::spec_at(val % 256),
            r.spec_index() == val % 256,
    {
        let low: u64 = val % 256;
        if low == 0 {
            SystemSType::PacketMeta
        } else if low == 1 {
            SystemSType::HandlerMetaReq
        } else if low == 2 {
            SystemSType::HandlerMetaAns
        } else {
            SystemSType::ServerError
        }
    }

    /// The number of a structure type.
    pub fn serialize(refer: SystemSType) -> (r: u64)
        ensures
            r == refer.spec_index(),
    {
        match refer {
            SystemSType::PacketMeta => 0,
            SystemSType::HandlerMetaReq => 1,
            SystemSType::HandlerMetaAns => 2,
            SystemSType::ServerError => 3,
        }
    }
}

impl StructureType for SystemSType {
    open spec fn spec_family() -> u64 {
        0
    }

    fn family() -> (f: u64) {
        0
    }

    open spec fn spec_code(&self) -> u64 {
        self.spec_index() as u64
    }

    open spec fn spec_decodes(code: u64) -> bool {
        code % 256 < 4
    }

    open spec fn spec_decode(code: u64) -> SystemSType {
        SystemSType::spec_at(code % 256)
    }

    fn to_code(&self) -> (c: u64) {
        SystemSType::serialize(*self)
    }

    fn decodes(code: u64) -> (b: bool) {
        code % 256 < 4
    }

    fn from_code(code: u64) -> (r: SystemSType) {
        SystemSType::deserialize(code)
    }

    fn equals(&self, other: &SystemSType) -> (b: bool) {
        *self == *other
    }
}

// ---------------------------------------------------------------------------------------
// The system packets.
// ---------------------------------------------------------------------------------------

/// The header sent before every request: which structure type the payload holds, which
/// handler it is for, and whether a payload follows.
#[derive(Clone, Copy, Debug)]
pub struct PacketMeta {
    pub s_type: SystemSType,
    pub s_type_req: u64,
    pub handler_id: u64,
    pub has_payload: bool,
}

/// A client's question for the id of the handler registered under a name.
#[derive(Debug)]
pub struct HandlerMetaReq {
    pub s_type: SystemSType,
    pub handler_name: String,
}

/// The server's answer to a [`HandlerMetaReq`].
#[derive(Clone, Copy, Debug)]
pub struct HandlerMetaAns {
    pub s_type: SystemSType,
    pub id: u64,
}

/// What went wrong on the server side.
#[derive(Debug)]
pub enum ServerErrorEn {
    MalformedMetaInfo(Option<String>),
    NoSuchHandler(Option<String>),
    InternalError(Option<Vec<u8>>),
    PayloadLost,
}

/// The packet a server answers with when a request fails.
#[derive(Debug)]
pub struct ServerError {
    pub s_type: SystemSType,
    pub en: ServerErrorEn,
}

/// [`HandlerMetaReq`] as a mathematical value.
pub struct HandlerMetaReqView {
    pub s_type: SystemSType,
    pub handler_name: Seq<char>,
}

/// [`ServerErrorEn`] as a mathematical value.
pub enum ServerErrorEnView {
    MalformedMetaInfo(Option<Seq<char>>),
    NoSuchHandler(Option<Seq<char>>),
    InternalError(Option<Seq<u8>>),
    PayloadLost,
}

/// [`ServerError`] as a mathematical value.
pub struct ServerErrorView {
    pub s_type: SystemSType,
    pub en: ServerErrorEnView,
}

impl View for PacketMeta {
    type V = PacketMeta;

    open spec fn view(&self) -> PacketMeta {
        *self
    }
}

impl View for HandlerMetaAns {
    type V = HandlerMetaAns;

    open spec fn view(&self) -> HandlerMetaAns {
        *self
    }
}

impl View for HandlerMetaReq {
    type V = HandlerMetaReqView;

    open spec fn view(&self) -> HandlerMetaReqView {
        HandlerMetaReqView { s_type: self.s_type, handler_name: self.handler_name@ }
    }
}

pub open spec fn opt_text_view(o: Option<String>) -> Option<Seq<char>> {
    match o {
        Some(s) => Some(s@),
        None => None,
    }
}

pub open spec fn opt_bytes_view(o: Option<Vec<u8>>) -> Option<Seq<u8>> {
    match o {
        Some(b) => Some(b@),
        None => None,
    }
}

impl View for ServerErrorEn {
    type V = ServerErrorEnView;

    open spec fn view(&self) -> ServerErrorEnView {
        match self {
            ServerErrorEn::MalformedMetaInfo(m) => ServerErrorEnView::MalformedMetaInfo(opt_text_view(*m)),
            ServerErrorEn::NoSuchHandler(m) => ServerErrorEnView::NoSuchHandler(opt_text_view(*m)),
            ServerErrorEn::InternalError(d) => ServerErrorEnView::InternalError(opt_bytes_view(*d)),
            ServerErrorEn::PayloadLost => ServerErrorEnView::PayloadLost,
        }
    }
}

impl View for ServerError {
    type V = ServerErrorView;

    open spec fn view(&self) -> ServerErrorView {
        ServerErrorView { s_type: self.s_type, en: self.en@ }
    }
}

impl ServerError {
    /// A server error packet, tagged with its own structure type.
    pub fn new(en: ServerErrorEn) -> (r: ServerError)
        ensures
            r.s_type == SystemSType::ServerError,
            r.en@ == en@,
    {
        ServerError { s_type: SystemSType::ServerError, en }
    }
}

impl StrongType for PacketMeta {
    type SType = SystemSType;

    open spec fn spec_s_type(&self) -> SystemSType {
        self.s_type
    }

    open spec fn spec_own_s_type() -> SystemSType {
        SystemSType::PacketMeta
    }

    fn get_s_type(&self) -> (r: SystemSType) {
        self.s_type
    }

    fn own_s_type() -> (r: SystemSType) {
        SystemSType::PacketMeta
    }
}

impl StrongType for HandlerMetaReq {
    type SType = SystemSType;

    open spec fn spec_s_type(&self) -> SystemSType {
        self.s_type
    }

    open spec fn spec_own_s_type() -> SystemSType {
        SystemSType::HandlerMetaReq
    }

    fn get_s_type(&self) -> (r: SystemSType) {
        self.s_type
    }

    fn own_s_type() -> (r: SystemSType) {
        SystemSType::HandlerMetaReq
    }
}

impl StrongType for HandlerMetaAns {
    type SType = SystemSType;

    open spec fn spec_s_type(&self) -> SystemSType {
        self.s_type
    }

    open spec fn spec_own_s_type() -> SystemSType {
        SystemSType::HandlerMetaAns
    }

    fn get_s_type(&self) -> (r: SystemSType) {
        self.s_type
    }

    fn own_s_type() -> (r: SystemSType) {
        SystemSType::HandlerMetaAns
    }
}

impl StrongType for ServerError {
    type SType = SystemSType;

    open spec fn spec_s_type(&self) -> SystemSType {
        self.s_type
    }

    open spec fn spec_own_s_type() -> SystemSType {
        SystemSType::ServerError
    }

    fn get_s_type(&self) -> (r: SystemSType) {
        self.s_type
    }

    fn own_s_type() -> (r: SystemSType) {
        SystemSType::ServerError
    }
}


// ---------------------------------------------------------------------------------------
// Reading and writing the fields that the system packets are made of.
// ---------------------------------------------------------------------------------------

/// A structure type on the wire: its position as a `u32`.
pub open spec fn enc_s_type(t: SystemSType) -> Seq<u8> {
    enc_u32(t.spec_index())
}

/// Reading a structure type: a `u32` that must be the position of a variant.
pub open spec fn parse_s_type(s: Seq<u8>) -> Option<(SystemSType, int)> {
    match parse_u32(s) {
        Some((i, n)) => if i < 4 {
            Some((SystemSType::spec_at(i as u64), n))
        } else {
            None
        },
        None => None,
    }
}

/// An optional text: the byte 0, or the byte 1 followed by the text.
pub open spec fn enc_opt_str(o: Option<Seq<char>>) -> Seq<u8> {
    match o {
        Some(t) => enc_u8(1) + enc_str(t),
        None => enc_u8(0),
    }
}

pub open spec fn parse_opt_str(s: Seq<u8>) -> Option<(Option<Seq<char>>, int)> {
    match parse_u8(s) {
        Some((tag, a)) => if tag == 0 {
            Some((None, a))
        } else if tag == 1 {
            match parse_str(rest(s, a)) {
                Some((t, b)) => Some((Some(t), a + b)),
                None => None,
            }
        } else {
            None
        },
        None => None,
    }
}

/// An optional byte string: the byte 0, or the byte 1 followed by the bytes.
pub open spec fn enc_opt_bytes(o: Option<Seq<u8>>) -> Seq<u8> {
    match o {
        Some(b) => enc_u8(1) + enc_bytes(b),
        None => enc_u8(0),
    }
}

pub open spec fn parse_opt_bytes(s: Seq<u8>) -> Option<(Option<Seq<u8>>, int)> {
    match parse_u8(s) {
        Some((tag, a)) => if tag == 0 {
            Some((None, a))
        } else if tag == 1 {
            match parse_bytes(rest(s, a)) {
                Some((b, n)) => Some((Some(b), a + n)),
                None => None,
            }
        } else {
            None
        },
        None => None,
    }
}

pub open spec fn text_fits(t: Seq<char>) -> bool {
    encode_utf8(t).len() <= u64::MAX
}

pub open spec fn opt_text_fits(o: Option<Seq<char>>) -> bool {
    match o {
        Some(t) => text_fits(t),
        None => true,
    }
}

pub open spec fn opt_bytes_fits(o: Option<Seq<u8>>) -> bool {
    match o {
        Some(b) => b.len() <= u64::MAX,
        None => true,
    }
}

proof fn lemma_parse_s_type(t: SystemSType, tail: Seq<u8>)
    ensures
        parse_s_type(enc_s_type(t) + tail) == Some((t, 4int)),
        enc_s_type(t).len() == 4,
{
    lemma_parse_u32(t.spec_index(), tail);
}

proof fn lemma_parse_opt_str(o: Option<Seq<char>>, tail: Seq<u8>)
    requires
        opt_text_fits(o),
    ensures
        parse_opt_str(enc_opt_str(o) + tail) == Some((o, enc_opt_str(o).len() as int)),
{
    match o {
        Some(t) => {
            let w = enc_u8(1) + enc_str(t);
            assert(w + tail =~= enc_u8(1) + (enc_str(t) + tail));
            lemma_parse_u8(1, enc_str(t) + tail);
            lemma_rest_concat(enc_u8(1), enc_str(t) + tail);
            lemma_parse_str(t, tail);
        },
        None => {
            lemma_parse_u8(0, tail);
        },
    }
}

proof fn lemma_parse_opt_bytes(o: Option<Seq<u8>>, tail: Seq<u8>)
    requires
        opt_bytes_fits(o),
    ensures
        parse_opt_bytes(enc_opt_bytes(o) + tail) == Some((o, enc_opt_bytes(o).len() as int)),
{
    match o {
        Some(b) => {
            let w = enc_u8(1) + enc_bytes(b);
            assert(w + tail =~= enc_u8(1) + (enc_bytes(b) + tail));
            lemma_parse_u8(1, enc_bytes(b) + tail);
            lemma_rest_concat(enc_u8(1), enc_bytes(b) + tail);
            lemma_parse_bytes(b, tail);
        },
        None => {
            lemma_parse_u8(0, tail);
        },
    }
}

fn read_s_type(s: &[u8]) -> (r: Option<(SystemSType, usize)>)
    ensures
        match r {
            Some((t, n)) => parse_s_type(s@) == Some((t, n as int)),
            None => parse_s_type(s@) is None,
        },
{
    let (i, n) = decode_u32(s)?;
    if i < 4 {
        Some((SystemSType::deserialize(i as u64), n))
    } else {
        None
    }
}

fn write_s_type(t: SystemSType) -> (r: Option<Vec<u8>>)
    ensures
        r is Some,
        r.unwrap()@ == enc_s_type(t),
{
    let i = SystemSType::serialize(t);
    encode_u32(i as u32)
}

/// Reads a text: a byte string that must be valid UTF-8.
pub(crate) fn read_text(s: &[u8]) -> (r: Option<(String, usize)>)
    ensures
        match r {
            Some((t, n)) => parse_str(s@) == Some((t@, n as int)),
            None => parse_str(s@) is None,
        },
{
    let (bytes, n) = decode_bytes(s)?;
    match utf8_text(bytes.as_slice()) {
        Some(text) => {
            proof {
                decode_utf8_encode_utf8(bytes@);
                encode_utf8_decode_utf8(text@);
            }
            Some((String::from_str(text), n))
        },
        None => None,
    }
}

/// Checks nothing at run time: the UTF-8 bytes of a text in memory are counted by a
/// `usize`, so their number fits in a `u64`.
pub(crate) fn text_length_fits(t: &String)
    ensures
        text_fits(t@),
{
    let bytes = t.as_str().as_bytes();
    assert(bytes@.len() <= usize::MAX) by {
        broadcast use vstd::slice::axiom_spec_len;
        assert(spec_slice_len(bytes) == bytes@.len());
    }
}

pub(crate) fn write_text(t: &String) -> (r: Option<Vec<u8>>)
    ensures
        r is Some,
        r.unwrap()@ == enc_str(t@),
        text_fits(t@),
{
    let bytes = t.as_str().as_bytes();
    assert(bytes@.len() <= usize::MAX) by {
        broadcast use vstd::slice::axiom_spec_len;
        assert(spec_slice_len(bytes) == bytes@.len());
    }
    encode_bytes(bytes)
}

fn read_opt_text(s: &[u8]) -> (r: Option<(Option<String>, usize)>)
    ensures
        match r {
            Some((o, n)) => parse_opt_str(s@) == Some((opt_text_view(o), n as int)),
            None => parse_opt_str(s@) is None,
        },
{
    let (tag, a) = decode_u8(s)?;
    if tag == 0 {
        Some((None, a))
    } else if tag == 1 {
        let tail = slice_subrange(s, a, s.len());
        let (t, b) = read_text(tail)?;
        Some((Some(t), a + b))
    } else {
        None
    }
}

fn write_opt_text(o: &Option<String>) -> (r: Option<Vec<u8>>)
    ensures
        r is Some,
        r.unwrap()@ == enc_opt_str(opt_text_view(*o)),
        opt_text_fits(opt_text_view(*o)),
{
    match o {
        Some(t) => {
            let mut out = encode_u8(1)?;
            let mut body = write_text(t)?;
            out.append(&mut body);
            Some(out)
        },
        None => encode_u8(0),
    }
}

fn read_opt_bytes(s: &[u8]) -> (r: Option<(Option<Vec<u8>>, usize)>)
    ensures
        match r {
            Some((o, n)) => parse_opt_bytes(s@) == Some((opt_bytes_view(o), n as int)),
            None => parse_opt_bytes(s@) is None,
        },
{
    let (tag, a) = decode_u8(s)?;
    if tag == 0 {
        Some((None, a))
    } else if tag == 1 {
        let tail = slice_subrange(s, a, s.len());
        let (b, n) = decode_bytes(tail)?;
        Some((Some(b), a + n))
    } else {
        None
    }
}

fn write_opt_bytes(o: &Option<Vec<u8>>) -> (r: Option<Vec<u8>>)
    ensures
        r is Some,
        r.unwrap()@ == enc_opt_bytes(opt_bytes_view(*o)),
        opt_bytes_fits(opt_bytes_view(*o)),
{
    match o {
        Some(b) => {
            let _len: usize = b.len();
            let mut out = encode_u8(1)?;
            let mut body = encode_bytes(b.as_slice())?;
            out.append(&mut body);
            Some(out)
        },
        None => encode_u8(0),
    }
}


// ---------------------------------------------------------------------------------------
// The system packets on the wire.  A packet is its fields one after the other; an enum is
// the position of its variant as a `u32`, then the variant's fields.
// ---------------------------------------------------------------------------------------

pub open spec fn packet_meta_wire(m: PacketMeta) -> Seq<u8> {
    enc_s_type(m.s_type) + enc_u64(m.s_type_req) + enc_u64(m.handler_id) + enc_bool(m.has_payload)
}

pub open spec fn read_packet_meta(s: Seq<u8>) -> Option<(PacketMeta, int)> {
    match parse_s_type(s) {
        None => None,
        Some((t, a)) => {
            let s1 = rest(s, a);
            match parse_u64(s1) {
                None => None,
                Some((q, b)) => {
                    let s2 = rest(s1, b);
                    match parse_u64(s2) {
                        None => None,
                        Some((h, c)) => {
                            let s3 = rest(s2, c);
                            match parse_bool(s3) {
                                None => None,
                                Some((p, d)) => Some(
                                    (
                                        PacketMeta {
                                            s_type: t,
                                            s_type_req: q,
                                            handler_id: h,
                                            has_payload: p,
                                        },
                                        a + b + c + d,
                                    ),
                                ),
                            }
                        },
                    }
                },
            }
        },
    }
}

pub open spec fn handler_meta_req_wire(m: HandlerMetaReqView) -> Seq<u8> {
    enc_s_type(m.s_type) + enc_str(m.handler_name)
}

pub open spec fn read_handler_meta_req(s: Seq<u8>) -> Option<(HandlerMetaReqView, int)> {
    match parse_s_type(s) {
        None => None,
        Some((t, a)) => match parse_str(rest(s, a)) {
            None => None,
            Some((name, b)) => Some((HandlerMetaReqView { s_type: t, handler_name: name }, a + b)),
        },
    }
}

pub open spec fn handler_meta_ans_wire(m: HandlerMetaAns) -> Seq<u8> {
    enc_s_type(m.s_type) + enc_u64(m.id)
}

pub open spec fn read_handler_meta_ans(s: Seq<u8>) -> Option<(HandlerMetaAns, int)> {
    match parse_s_type(s) {
        None => None,
        Some((t, a)) => match parse_u64(rest(s, a)) {
            None => None,
            Some((id, b)) => Some((HandlerMetaAns { s_type: t, id }, a + b)),
        },
    }
}

pub open spec fn error_en_wire(e: ServerErrorEnView) -> Seq<u8> {
    match e {
        ServerErrorEnView::MalformedMetaInfo(m) => enc_u32(0) + enc_opt_str(m),
        ServerErrorEnView::NoSuchHandler(m) => enc_u32(1) + enc_opt_str(m),
        ServerErrorEnView::InternalError(d) => enc_u32(2) + enc_opt_bytes(d),
        ServerErrorEnView::PayloadLost => enc_u32(3),
    }
}

pub open spec fn read_error_en(s: Seq<u8>) -> Option<(ServerErrorEnView, int)> {
    match parse_u32(s) {
        None => None,
        Some((i, a)) => if i == 0 {
            match parse_opt_str(rest(s, a)) {
                Some((m, b)) => Some((ServerErrorEnView::MalformedMetaInfo(m), a + b)),
                None => None,
            }
        } else if i == 1 {
            match parse_opt_str(rest(s, a)) {
                Some((m, b)) => Some((ServerErrorEnView::NoSuchHandler(m), a + b)),
                None => None,
            }
        } else if i == 2 {
            match parse_opt_bytes(rest(s, a)) {
                Some((d, b)) => Some((ServerErrorEnView::InternalError(d), a + b)),
                None => None,
            }
        } else if i == 3 {
            Some((ServerErrorEnView::PayloadLost, a))
        } else {
            None
        },
    }
}

pub open spec fn error_en_fits(e: ServerErrorEnView) -> bool {
    match e {
        ServerErrorEnView::MalformedMetaInfo(m) => opt_text_fits(m),
        ServerErrorEnView::NoSuchHandler(m) => opt_text_fits(m),
        ServerErrorEnView::InternalError(d) => opt_bytes_fits(d),
        ServerErrorEnView::PayloadLost => true,
    }
}

pub open spec fn server_error_wire(e: ServerErrorView) -> Seq<u8> {
    enc_s_type(e.s_type) + error_en_wire(e.en)
}

pub open spec fn read_server_error(s: Seq<u8>) -> Option<(ServerErrorView, int)> {
    match parse_s_type(s) {
        None => None,
        Some((t, a)) => match read_error_en(rest(s, a)) {
            None => None,
            Some((en, b)) => Some((ServerErrorView { s_type: t, en }, a + b)),
        },
    }
}

/// A structure with its byte image on the wire: the number of its structure type as a
/// `u32`, then its fields one after the other.
pub trait WireMessage: StrongType + View + Sized {
    /// The structure type that a structure, as a mathematical value, carries.
    spec fn spec_view_s_type(v: Self::V) -> Self::SType;

    /// Whether every text and byte string of the structure has a length that fits in a `u64`.
    spec fn spec_fits(v: Self::V) -> bool;

    /// The bytes that stand for the structure.
    spec fn spec_wire(v: Self::V) -> Seq<u8>;

    /// The structure at the front of some bytes, and how many bytes it takes.
    spec fn spec_read(s: Seq<u8>) -> Option<(Self::V, int)>;

    proof fn lemma_view(&self)
        ensures
            Self::spec_view_s_type(self@) == self.spec_s_type(),
    ;

    /// A structure read from some bytes carries the structure type whose number the bytes
    /// start with.
    proof fn lemma_read_s_type(s: Seq<u8>)
        ensures
            Self::spec_read(s) matches Some((v, _)) ==> (parse_u32(s) matches Some((c, _))
                && Self::spec_view_s_type(v).spec_code() == c as u64),
    ;

    /// Reading the bytes of a structure, whatever follows them, gives the structure back and
    /// takes exactly its bytes.
    proof fn lemma_read_wire(v: Self::V, tail: Seq<u8>)
        requires
            Self::spec_fits(v),
        ensures
            Self::spec_read(Self::spec_wire(v) + tail) == Some((v, Self::spec_wire(v).len() as int)),
    ;

    fn write(&self) -> (r: Option<Vec<u8>>)
        ensures
            r is Some,
            r.unwrap()@ == Self::spec_wire(self@),
            Self::spec_fits(self@),
    ;

    fn read(s: &[u8]) -> (r: Option<Self>)
        ensures
            match r {
                Some(m) => Self::spec_read(s@) matches Some((v, _)) && m@ == v,
                None => Self::spec_read(s@) is None,
            },
    ;
}

impl SystemSType {
    pub proof fn lemma_at_index(i: u64)
        requires
            i < 4,
        ensures
            SystemSType::spec_at(i).spec_index() == i,
    {
    }
}

impl WireMessage for PacketMeta {
    open spec fn spec_view_s_type(v: PacketMeta) -> SystemSType {
        v.s_type
    }

    open spec fn spec_fits(v: PacketMeta) -> bool {
        true
    }

    open spec fn spec_wire(v: PacketMeta) -> Seq<u8> {
        packet_meta_wire(v)
    }

    open spec fn spec_read(s: Seq<u8>) -> Option<(PacketMeta, int)> {
        read_packet_meta(s)
    }

    proof fn lemma_view(&self) {
    }

    proof fn lemma_read_s_type(s: Seq<u8>) {
        if let Some((i, _)) = parse_u32(s) {
            if i < 4 {
                SystemSType::lemma_at_index(i as u64);
            }
        }
    }

    proof fn lemma_read_wire(v: PacketMeta, tail: Seq<u8>) {
        let a = enc_s_type(v.s_type);
        let b = enc_u64(v.s_type_req);
        let c = enc_u64(v.handler_id);
        let d = enc_bool(v.has_payload);
        let s = packet_meta_wire(v) + tail;
        lemma_parse_s_type(v.s_type, b + c + d + tail);
        lemma_parse_u64(v.s_type_req, c + d + tail);
        lemma_parse_u64(v.handler_id, d + tail);
        lemma_parse_bool(v.has_payload, tail);
        assert(s =~= a + (b + c + d + tail));
        lemma_rest_concat(a, b + c + d + tail);
        assert(b + c + d + tail =~= b + (c + d + tail));
        lemma_rest_concat(b, c + d + tail);
        assert(c + d + tail =~= c + (d + tail));
        lemma_rest_concat(c, d + tail);
    }

    fn write(&self) -> (r: Option<Vec<u8>>) {
        let mut out = write_s_type(self.s_type)?;
        let mut b = encode_u64(self.s_type_req)?;
        out.append(&mut b);
        let mut c = encode_u64(self.handler_id)?;
        out.append(&mut c);
        let mut d = encode_bool(self.has_payload)?;
        out.append(&mut d);
        Some(out)
    }

    fn read(s: &[u8]) -> (r: Option<PacketMeta>) {
        let (t, a) = read_s_type(s)?;
        let s1 = slice_subrange(s, a, s.len());
        let (q, b) = decode_u64(s1)?;
        let s2 = slice_subrange(s1, b, s1.len());
        let (h, c) = decode_u64(s2)?;
        let s3 = slice_subrange(s2, c, s2.len());
        let (p, _d) = decode_bool(s3)?;
        Some(PacketMeta { s_type: t, s_type_req: q, handler_id: h, has_payload: p })
    }
}

impl WireMessage for HandlerMetaReq {
    open spec fn spec_view_s_type(v: HandlerMetaReqView) -> SystemSType {
        v.s_type
    }

    open spec fn spec_fits(v: HandlerMetaReqView) -> bool {
        text_fits(v.handler_name)
    }

    open spec fn spec_wire(v: HandlerMetaReqView) -> Seq<u8> {
        handler_meta_req_wire(v)
    }

    open spec fn spec_read(s: Seq<u8>) -> Option<(HandlerMetaReqView, int)> {
        read_handler_meta_req(s)
    }

    proof fn lemma_view(&self) {
    }

    proof fn lemma_read_s_type(s: Seq<u8>) {
        if let Some((i, _)) = parse_u32(s) {
            if i < 4 {
                SystemSType::lemma_at_index(i as u64);
            }
        }
    }

    proof fn lemma_read_wire(v: HandlerMetaReqView, tail: Seq<u8>) {
        let a = enc_s_type(v.s_type);
        let b = enc_str(v.handler_name);
        lemma_parse_s_type(v.s_type, b + tail);
        assert(handler_meta_req_wire(v) + tail =~= a + (b + tail));
        lemma_rest_concat(a, b + tail);
        lemma_parse_str(v.handler_name, tail);
    }

    fn write(&self) -> (r: Option<Vec<u8>>) {
        let mut out = write_s_type(self.s_type)?;
        let mut b = write_text(&self.handler_name)?;
        out.append(&mut b);
        Some(out)
    }

    fn read(s: &[u8]) -> (r: Option<HandlerMetaReq>) {
        let (t, a) = read_s_type(s)?;
        let s1 = slice_subrange(s, a, s.len());
        let (name, _b) = read_text(s1)?;
        Some(HandlerMetaReq { s_type: t, handler_name: name })
    }
}

impl WireMessage for HandlerMetaAns {
    open spec fn spec_view_s_type(v: HandlerMetaAns) -> SystemSType {
        v.s_type
    }

    open spec fn spec_fits(v: HandlerMetaAns) -> bool {
        true
    }

    open spec fn spec_wire(v: HandlerMetaAns) -> Seq<u8> {
        handler_meta_ans_wire(v)
    }

    open spec fn spec_read(s: Seq<u8>) -> Option<(HandlerMetaAns, int)> {
        read_handler_meta_ans(s)
    }

    proof fn lemma_view(&self) {
    }

    proof fn lemma_read_s_type(s: Seq<u8>) {
        if let Some((i, _)) = parse_u32(s) {
            if i < 4 {
                SystemSType::lemma_at_index(i as u64);
            }
        }
    }

    proof fn lemma_read_wire(v: HandlerMetaAns, tail: Seq<u8>) {
        let a = enc_s_type(v.s_type);
        let b = enc_u64(v.id);
        lemma_parse_s_type(v.s_type, b + tail);
        assert(handler_meta_ans_wire(v) + tail =~= a + (b + tail));
        lemma_rest_concat(a, b + tail);
        lemma_parse_u64(v.id, tail);
    }

    fn write(&self) -> (r: Option<Vec<u8>>) {
        let mut out = write_s_type(self.s_type)?;
        let mut b = encode_u64(self.id)?;
        out.append(&mut b);
        Some(out)
    }

    fn read(s: &[u8]) -> (r: Option<HandlerMetaAns>) {
        let (t, a) = read_s_type(s)?;
        let s1 = slice_subrange(s, a, s.len());
        let (id, _b) = decode_u64(s1)?;
        Some(HandlerMetaAns { s_type: t, id })
    }
}


impl WireMessage for ServerError {
    open spec fn spec_view_s_type(v: ServerErrorView) -> SystemSType {
        v.s_type
    }

    open spec fn spec_fits(v: ServerErrorView) -> bool {
        error_en_fits(v.en)
    }

    open spec fn spec_wire(v: ServerErrorView) -> Seq<u8> {
        server_error_wire(v)
    }

    open spec fn spec_read(s: Seq<u8>) -> Option<(ServerErrorView, int)> {
        read_server_error(s)
    }

    proof fn lemma_view(&self) {
    }

    proof fn lemma_read_s_type(s: Seq<u8>) {
        if let Some((i, _)) = parse_u32(s) {
            if i < 4 {
                SystemSType::lemma_at_index(i as u64);
            }
        }
    }

    proof fn lemma_read_wire(v: ServerErrorView, tail: Seq<u8>) {
        let a = enc_s_type(v.s_type);
        let b = error_en_wire(v.en);
        lemma_parse_s_type(v.s_type, b + tail);
        assert(server_error_wire(v) + tail =~= a + (b + tail));
        lemma_rest_concat(a, b + tail);
        lemma_read_error_en(v.en, tail);
    }

    fn write(&self) -> (r: Option<Vec<u8>>) {
        let mut out = write_s_type(self.s_type)?;
        let mut b = write_error_en(&self.en)?;
        out.append(&mut b);
        Some(out)
    }

    fn read(s: &[u8]) -> (r: Option<ServerError>) {
        let (t, a) = read_s_type(s)?;
        let s1 = slice_subrange(s, a, s.len());
        let (en, _b) = read_error_en_bytes(s1)?;
        Some(ServerError { s_type: t, en })
    }
}

proof fn lemma_read_error_en(e: ServerErrorEnView, tail: Seq<u8>)
    requires
        error_en_fits(e),
    ensures
        read_error_en(error_en_wire(e) + tail) == Some((e, error_en_wire(e).len() as int)),
{
    match e {
        ServerErrorEnView::MalformedMetaInfo(m) => {
            lemma_parse_u32(0, enc_opt_str(m) + tail);
            assert(error_en_wire(e) + tail =~= enc_u32(0) + (enc_opt_str(m) + tail));
            lemma_rest_concat(enc_u32(0), enc_opt_str(m) + tail);
            lemma_parse_opt_str(m, tail);
        },
        ServerErrorEnView::NoSuchHandler(m) => {
            lemma_parse_u32(1, enc_opt_str(m) + tail);
            assert(error_en_wire(e) + tail =~= enc_u32(1) + (enc_opt_str(m) + tail));
            lemma_rest_concat(enc_u32(1), enc_opt_str(m) + tail);
            lemma_parse_opt_str(m, tail);
        },
        ServerErrorEnView::InternalError(d) => {
            lemma_parse_u32(2, enc_opt_bytes(d) + tail);
            assert(error_en_wire(e) + tail =~= enc_u32(2) + (enc_opt_bytes(d) + tail));
            lemma_rest_concat(enc_u32(2), enc_opt_bytes(d) + tail);
            lemma_parse_opt_bytes(d, tail);
        },
        ServerErrorEnView::PayloadLost => {
            lemma_parse_u32(3, tail);
        },
    }
}

fn write_error_en(e: &ServerErrorEn) -> (r: Option<Vec<u8>>)
    ensures
        r is Some,
        r.unwrap()@ == error_en_wire(e@),
        error_en_fits(e@),
{
    match e {
        ServerErrorEn::MalformedMetaInfo(m) => {
            let mut out = encode_u32(0)?;
            let mut b = write_opt_text(m)?;
            out.append(&mut b);
            Some(out)
        },
        ServerErrorEn::NoSuchHandler(m) => {
            let mut out = encode_u32(1)?;
            let mut b = write_opt_text(m)?;
            out.append(&mut b);
            Some(out)
        },
        ServerErrorEn::InternalError(d) => {
            let mut out = encode_u32(2)?;
            let mut b = write_opt_bytes(d)?;
            out.append(&mut b);
            Some(out)
        },
        ServerErrorEn::PayloadLost => encode_u32(3),
    }
}

fn read_error_en_bytes(s: &[u8]) -> (r: Option<(ServerErrorEn, usize)>)
    ensures
        match r {
            Some((e, n)) => read_error_en(s@) == Some((e@, n as int)),
            None => read_error_en(s@) is None,
        },
{
    let (i, a) = decode_u32(s)?;
    let s1 = slice_subrange(s, a, s.len());
    if i == 0 {
        let (m, b) = read_opt_text(s1)?;
        Some((ServerErrorEn::MalformedMetaInfo(m), a + b))
    } else if i == 1 {
        let (m, b) = read_opt_text(s1)?;
        Some((ServerErrorEn::NoSuchHandler(m), a + b))
    } else if i == 2 {
        let (d, b) = read_opt_bytes(s1)?;
        Some((ServerErrorEn::InternalError(d), a + b))
    } else if i == 3 {
        Some((ServerErrorEn::PayloadLost, a))
    } else {
        None
    }
}


// ---------------------------------------------------------------------------------------
// Texts of the server errors, and turning packets into bytes and back.
// ---------------------------------------------------------------------------------------

/// The text that a server error is shown as.
pub open spec fn error_text(e: ServerErrorEnView) -> Seq<char> {
    match e {
        ServerErrorEnView::MalformedMetaInfo(Some(msg)) => "Malformed meta info: "@ + msg,
        ServerErrorEnView::MalformedMetaInfo(None) => "Malformed meta info!"@,
        ServerErrorEnView::NoSuchHandler(Some(msg)) => "No such handler: "@ + msg,
        ServerErrorEnView::NoSuchHandler(None) => "No such handler!"@,
        ServerErrorEnView::InternalError(Some(data)) => if valid_utf8(data) {
            decode_utf8(data)
        } else {
            "Internal server error!"@
        },
        ServerErrorEnView::InternalError(None) => "Internal server error!"@,
        ServerErrorEnView::PayloadLost => "Payload lost!"@,
    }
}

impl ServerErrorEn {
    /// The text that the error is shown as.
    pub fn to_string(&self) -> (r: String)
        ensures
            r@ == error_text(self@),
    {
        match self {
            ServerErrorEn::MalformedMetaInfo(Some(msg)) => {
                let mut t = String::from_str("Malformed meta info: ");
                t.append(msg.as_str());
                t
            },
            ServerErrorEn::MalformedMetaInfo(None) => String::from_str("Malformed meta info!"),
            ServerErrorEn::NoSuchHandler(Some(msg)) => {
                let mut t = String::from_str("No such handler: ");
                t.append(msg.as_str());
                t
            },
            ServerErrorEn::NoSuchHandler(None) => String::from_str("No such handler!"),
            ServerErrorEn::InternalError(Some(data)) => match utf8_text(data.as_slice()) {
                Some(text) => {
                    proof {
                        decode_utf8_encode_utf8(data@);
                        encode_utf8_decode_utf8(text@);
                    }
                    String::from_str(text)
                },
                None => String::from_str("Internal server error!"),
            },
            ServerErrorEn::InternalError(None) => String::from_str("Internal server error!"),
            ServerErrorEn::PayloadLost => String::from_str("Payload lost!"),
        }
    }
}

/// The text a decoder reports for bytes it cannot accept: the server error they hold, or
/// that the packet type is unknown.
pub open spec fn failed_packet_text(s: Seq<u8>) -> Seq<char> {
    match read_server_error(s) {
        Some((e, _)) => error_text(e.en),
        None => "Unknown packet type"@,
    }
}

/// The text for bytes that did not decode into the structure that was asked for: when they
/// hold a server error, its text; otherwise that the packet type is unknown.
pub fn describe_failed_packet(arg: &[u8]) -> (r: String)
    ensures
        r@ == failed_packet_text(arg@),
{
    match ServerError::read(arg) {
        Some(err) => err.en.to_string(),
        None => String::from_str("Unknown packet type"),
    }
}

/// Whether some bytes start with a structure of type `T` that carries `T`'s own structure
/// type.
pub open spec fn accepts<T: WireMessage>(s: Seq<u8>) -> bool {
    T::spec_read(s) matches Some((v, _)) && T::spec_view_s_type(v).spec_code()
        == T::spec_own_s_type().spec_code()
}

/// The bytes of a structure, provided it carries its own structure type.
pub fn to_vec<T: WireMessage>(arg: &T) -> (r: Option<Vec<u8>>)
    ensures
        r is Some <==> arg.spec_s_type().spec_code() == T::spec_own_s_type().spec_code(),
        r matches Some(b) ==> b@ == T::spec_wire(arg@),
{
    if !validate_s_type(arg) {
        return None;
    }
    arg.write()
}

/// The structure at the front of `arg`, provided it carries its own structure type;
/// otherwise the text of the server error that the bytes hold, or that the packet type is
/// unknown.
pub fn from_slice<T: WireMessage>(arg: &[u8]) -> (r: Result<T, String>)
    ensures
        match r {
            Ok(m) => accepts::<T>(arg@) && (T::spec_read(arg@) matches Some((v, _)) && m@ == v),
            Err(e) => !accepts::<T>(arg@) && e@ == failed_packet_text(arg@),
        },
{
    match T::read(arg) {
        Some(m) => {
            proof {
                m.lemma_view();
            }
            if validate_s_type(&m) {
                return Ok(m);
            }
        },
        None => {},
    }
    Err(describe_failed_packet(arg))
}

// ---------------------------------------------------------------------------------------
// Laws of the wire format.
// ---------------------------------------------------------------------------------------

/// What a writer sends is what a reader gets: the bytes of a structure that carries its own
/// structure type are accepted by `from_slice`, which gives the same structure back,
/// whatever bytes follow them.
pub proof fn wire_roundtrip<T: WireMessage>(v: T::V, tail: Seq<u8>)
    requires
        T::spec_fits(v),
        T::spec_view_s_type(v) == T::spec_own_s_type(),
    ensures
        accepts::<T>(T::spec_wire(v) + tail),
        T::spec_read(T::spec_wire(v) + tail) == Some((v, T::spec_wire(v).len() as int)),
{
    T::lemma_read_wire(v, tail);
}

/// A refused request is answered with a server error, and a client that expected a
/// structure whose structure type has another number reads the error's text from it:
/// `from_slice` rejects the bytes of a server error and reports exactly that error's text.
pub proof fn server_error_reaches_client<T: WireMessage>(e: ServerErrorView, tail: Seq<u8>)
    requires
        error_en_fits(e.en),
        e.s_type == SystemSType::ServerError,
        T::spec_own_s_type().spec_code() != SystemSType::ServerError.spec_code(),
    ensures
        !accepts::<T>(server_error_wire(e) + tail),
        failed_packet_text(server_error_wire(e) + tail) == error_text(e.en),
{
    let s = server_error_wire(e) + tail;
    <ServerError as WireMessage>::lemma_read_wire(e, tail);
    lemma_parse_s_type(e.s_type, error_en_wire(e.en) + tail);
    assert(s =~= enc_s_type(e.s_type) + (error_en_wire(e.en) + tail));
    lemma_parse_u32(3, error_en_wire(e.en) + tail);
    T::lemma_read_s_type(s);
}

/// Reading a structure type gives back the one that was written, and the number of a
/// structure type names it again.
pub proof fn s_type_code_roundtrip(t: SystemSType)
    ensures
        SystemSType::spec_decodes(t.spec_code()),
        SystemSType::spec_decode(t.spec_code()) == t,
{
}


// ---------------------------------------------------------------------------------------
// Sets of structure types that a handler is registered for.
// ---------------------------------------------------------------------------------------

/// One structure type, kept by the family of its enum and its number in that enum.
#[derive(PartialEq, Eq, Structural, Clone, Copy, Debug, Hash)]
pub struct TypeContainer {
    pub family: u64,
    pub s_type: u64,
}

/// The container of a structure type.
pub open spec fn container_of<S: StructureType>(s: S) -> TypeContainer {
    TypeContainer { family: S::spec_family(), s_type: s.spec_code() }
}

impl TypeContainer {
    /// Keeps a structure type by the family of its enum and its number.
    pub fn new<S: StructureType>(s_type: S) -> (r: TypeContainer)
        ensures
            r == container_of(s_type),
    {
        TypeContainer { family: S::family(), s_type: s_type.to_code() }
    }
}

/// Within one enum of structure types, two containers are equal exactly when the structure
/// types are the same by `equals`; containers of enums with different family numbers are
/// never equal.
pub proof fn container_equality<S: StructureType, T: StructureType>(a: S, b: S, c: T)
    ensures
        (container_of(a) == container_of(b)) <==> (a.spec_code() == b.spec_code()),
        S::spec_family() != T::spec_family() ==> container_of(a) != container_of(c),
{
}

/// The structure types a handler is registered for, and the handler's id.
#[derive(Debug, Eq)]
pub struct TypeTupple {
    pub s_types: Vec<TypeContainer>,
    pub handler_id: u64,
}

/// The set of the containers in a sequence.
pub open spec fn container_set(s: Seq<TypeContainer>) -> Set<TypeContainer> {
    Set::new(|c: TypeContainer| exists|i: int| 0 <= i < s.len() && #[trigger] s[i] == c)
}

/// Adding a container to a sequence adds it to the sequence's set.
pub proof fn lemma_container_set_push(s: Seq<TypeContainer>, c: TypeContainer)
    ensures
        container_set(s.push(c)) == container_set(s).insert(c),
{
    assert forall|x: TypeContainer| container_set(s.push(c)).contains(x) == container_set(s).insert(c).contains(x) by {
        if container_set(s.push(c)).contains(x) {
            let k = choose|k: int| 0 <= k < s.push(c).len() && #[trigger] s.push(c)[k] == x;
            if k < s.len() {
                assert(s[k] == x);
            }
        }
        if container_set(s).contains(x) {
            let k = choose|k: int| 0 <= k < s.len() && #[trigger] s[k] == x;
            assert(s.push(c)[k] == x);
        }
        if x == c {
            assert(s.push(c)[s.len() as int] == c);
        }
    }
    assert(container_set(s.push(c)) =~= container_set(s).insert(c));
}

impl TypeTupple {
    /// The structure types in the tuple.
    pub open spec fn type_set(&self) -> Set<TypeContainer> {
        container_set(self.s_types@)
    }

    /// Whether no structure type occurs twice in the tuple.
    pub open spec fn distinct(&self) -> bool {
        forall|i: int, j: int|
            0 <= i < j < self.s_types@.len() ==> #[trigger] self.s_types@[i] != #[trigger] self.s_types@[j]
    }

    /// A tuple of the handler `handler_id` with the structure types of `s_types`, each kept
    /// once.
    pub fn from_types(s_types: Vec<TypeContainer>, handler_id: u64) -> (r: TypeTupple)
        ensures
            r.handler_id == handler_id,
            r.type_set() == container_set(s_types@),
            r.distinct(),
    {
        let mut kept = TypeTupple { s_types: Vec::new(), handler_id };
        let mut i: usize = 0;
        while i < s_types.len()
            invariant
                i <= s_types@.len(),
                kept.handler_id == handler_id,
                kept.distinct(),
                kept.type_set() == container_set(s_types@.take(i as int)),
            decreases s_types@.len() - i,
        {
            let c = s_types[i];
            let ghost before = kept.s_types@;
            if !kept.contains_type(c) {
                kept.s_types.push(c);
                proof {
                    assert forall|a: int, b: int|
                        0 <= a < b < kept.s_types@.len() implies #[trigger] kept.s_types@[a]
                        != #[trigger] kept.s_types@[b] by {
                        if b == before.len() {
                            assert(container_set(before).contains(before[a]));
                        }
                    }
                }
            }
            proof {
                let prefix = s_types@.take(i as int);
                assert(s_types@.take(i + 1) =~= prefix.push(c));
                lemma_container_set_push(prefix, c);
                if kept.s_types@.len() > before.len() {
                    assert(kept.s_types@ =~= before.push(c));
                    lemma_container_set_push(before, c);
                } else {
                    assert(container_set(before).insert(c) =~= container_set(before));
                }
            }
            i = i + 1;
        }
        assert(s_types@.take(s_types@.len() as int) =~= s_types@);
        kept
    }

    /// Whether the tuple holds the structure type `c`.
    pub fn contains_type(&self, c: TypeContainer) -> (b: bool)
        ensures
            b == self.type_set().contains(c),
    {
        let mut i: usize = 0;
        while i < self.s_types.len()
            invariant
                i <= self.s_types@.len(),
                forall|j: int| 0 <= j < i ==> #[trigger] self.s_types@[j] != c,
            decreases self.s_types@.len() - i,
        {
            if self.s_types[i] == c {
                assert(self.s_types@[i as int] == c);
                return true;
            }
            i = i + 1;
        }
        false
    }

    /// Whether every structure type of this tuple is one of `other`'s.
    fn types_within(&self, other: &TypeTupple) -> (b: bool)
        ensures
            b == self.type_set().subset_of(other.type_set()),
    {
        let mut i: usize = 0;
        while i < self.s_types.len()
            invariant
                i <= self.s_types@.len(),
                forall|j: int| 0 <= j < i ==> other.type_set().contains(#[trigger] self.s_types@[j]),
            decreases self.s_types@.len() - i,
        {
            if !other.contains_type(self.s_types[i]) {
                proof {
                    assert(self.type_set().contains(self.s_types@[i as int]));
                }
                return false;
            }
            i = i + 1;
        }
        proof {
            assert forall|c: TypeContainer| self.type_set().contains(c) implies other.type_set().contains(c) by {
                let j = choose|j: int| 0 <= j < self.s_types@.len() && #[trigger] self.s_types@[j] == c;
                assert(other.type_set().contains(self.s_types@[j]));
            }
        }
        true
    }

    /// Whether two tuples have the same handler id and the same structure types.
    pub open spec fn same_types_and_id(&self, other: &TypeTupple) -> bool {
        &&& self.handler_id == other.handler_id
        &&& self.type_set() == other.type_set()
    }
}

impl PartialEq for TypeTupple {
    fn eq(&self, other: &TypeTupple) -> (r: bool) {
        let r = self.handler_id == other.handler_id && self.types_within(other) && other.types_within(self);
        proof {
            if self.type_set().subset_of(other.type_set()) && other.type_set().subset_of(self.type_set()) {
                assert(self.type_set() =~= other.type_set());
            }
        }
        r
    }
}

impl PartialEqSpecImpl for TypeTupple {
    open spec fn obeys_eq_spec() -> bool {
        true
    }

    open spec fn eq_spec(&self, other: &TypeTupple) -> bool {
        self.same_types_and_id(other)
    }
}

} // verus!
