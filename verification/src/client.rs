//! What a client decides for one request: which handler it is for, and the header that
//! goes before its payload.
use vstd::prelude::*;
use vstd::string::*;
use crate::s_type::{
    container_of, error_text, opt_text_view, packet_meta_wire, to_vec, wire_roundtrip, PacketMeta,
    ServerErrorEnView, StructureType, SystemSType, TypeContainer,
};
use crate::server_router::{decodable_request, ServeDecisionView, TcpServerRouter};
use crate::target_router::TargetRouter;

verus! {

/// Why a request could not be made or answered.
#[derive(Debug)]
pub enum ClientError {
    Io(std::io::Error),
    Tls(String),
    Codec(std::io::Error),
    Router(String),
    ChannelClosed,
    Protocol(String),
}

impl From<std::io::Error> for ClientError {
    fn from(e: std::io::Error) -> (r: ClientError) {
        ClientError::Io(e)
    }
}

impl vstd::std_specs::convert::FromSpecImpl<std::io::Error> for ClientError {
    open spec fn obeys_from_spec() -> bool {
        true
    }

    open spec fn from_spec(e: std::io::Error) -> ClientError {
        ClientError::Io(e)
    }
}

/// The handler a request is for: by id, or by the name it was registered under.
#[derive(Debug)]
pub struct HandlerInfo {
    id: Option<u64>,
    named: Option<String>,
}

/// [`HandlerInfo`] as a mathematical value.
pub struct HandlerInfoView {
    pub id: Option<u64>,
    pub named: Option<Seq<char>>,
}

impl View for HandlerInfo {
    type V = HandlerInfoView;

    closed spec fn view(&self) -> HandlerInfoView {
        HandlerInfoView { id: self.id, named: opt_text_view(self.named) }
    }
}

impl HandlerInfo {
    /// The handler registered under `name`.
    pub fn new_named(name: String) -> (r: HandlerInfo)
        ensures
            r@.id is None,
            r@.named == Some(name@),
    {
        HandlerInfo { id: None, named: Some(name) }
    }

    /// The handler with the id `id`.
    pub fn new_id(id: u64) -> (r: HandlerInfo)
        ensures
            r@.id == Some(id),
            r@.named is None,
    {
        HandlerInfo { id: Some(id), named: None }
    }

    pub fn id(&self) -> (r: Option<u64>)
        ensures
            r == self@.id,
    {
        self.id
    }

    pub fn named(&self) -> (r: &Option<String>)
        ensures
            opt_text_view(*r) == self@.named,
    {
        &self.named
    }
}

/// A request: the handler it is for, its payload, and the structure type the payload holds.
pub struct DataRequest {
    pub handler_info: HandlerInfo,
    pub data: Vec<u8>,
    pub s_type: TypeContainer,
}

/// Where the id of a request's handler comes from.
pub enum HandlerTarget {
    /// The id is known.
    Known(u64),
    /// The server has to be asked for the id of the handler with this name.
    Ask(String),
    /// The request names no handler.
    Missing,
}

/// The id of the handler `info` is for: its id if it has one; otherwise the id learnt for
/// its name, or the name to ask the server about; and nothing if it has neither.
pub fn resolve_handler(info: &HandlerInfo, router: &TargetRouter) -> (r: HandlerTarget)
    ensures
        match info@.id {
            Some(id) => r matches HandlerTarget::Known(v) && v == id,
            None => match info@.named {
                Some(name) => if router@.contains_key(name) {
                    r matches HandlerTarget::Known(v) && v == router@[name]
                } else {
                    r matches HandlerTarget::Ask(n) && n@ == name
                },
                None => r matches HandlerTarget::Missing,
            },
        },
{
    match info.id() {
        Some(id) => HandlerTarget::Known(id),
        None => match info.named() {
            Some(name) => match router.lookup_route(name.as_str()) {
                Some(id) => HandlerTarget::Known(id),
                None => HandlerTarget::Ask(String::from_str(name.as_str())),
            },
            None => HandlerTarget::Missing,
        },
    }
}

/// The error for a request that names no handler.
pub fn missing_handler_error() -> (r: ClientError)
    ensures
        r matches ClientError::Protocol(m) && m@ == "Missing handler name"@,
{
    ClientError::Protocol(String::from_str("Missing handler name"))
}

impl DataRequest {
    /// The header sent before the request's payload, for the handler `handler_id`: it
    /// names the payload's structure type and says whether a payload follows at all.
    pub fn meta_bytes(&self, handler_id: u64) -> (r: Vec<u8>)
        ensures
            r@ == packet_meta_wire(
                PacketMeta {
                    s_type: SystemSType::PacketMeta,
                    s_type_req: self.s_type.s_type,
                    handler_id,
                    has_payload: self.data@.len() > 0,
                },
            ),
    {
        let meta = PacketMeta {
            s_type: SystemSType::PacketMeta,
            s_type_req: self.s_type.s_type,
            handler_id,
            has_payload: self.data.len() > 0,
        };
        to_vec(&meta).unwrap()
    }
}


/// The header a client sends for a request reaches the handler it names, when the server
/// has that handler committed for the request's structure type; otherwise the server refuses
/// it as having no such handler, and the client reads "No such handler!" from the answer.
pub proof fn request_routing<H, S: StructureType>(
    server: TcpServerRouter<H, S>,
    s_type: u64,
    handler_id: u64,
    has_payload: bool,
)
    requires
        server.wf(),
    ensures
        ({
            let meta = packet_meta_wire(
                PacketMeta { s_type: SystemSType::PacketMeta, s_type_req: s_type, handler_id, has_payload },
            );
            let t = S::spec_decode(s_type);
            &&& decodable_request::<S>(meta) <==> S::spec_decodes(s_type)
            &&& server.has_route(handler_id, container_of(t)) ==> server.spec_serve(meta)
                == (ServeDecisionView::Dispatch { route: handler_id as int, handler_id, s_type: t })
            &&& !server.has_route(handler_id, container_of(t)) ==> server.spec_serve(meta)
                == ServeDecisionView::<S>::Refuse(ServerErrorEnView::NoSuchHandler(None))
        }),
        error_text(ServerErrorEnView::NoSuchHandler(None)) == "No such handler!"@,
{
    let m = PacketMeta { s_type: SystemSType::PacketMeta, s_type_req: s_type, handler_id, has_payload };
    wire_roundtrip::<PacketMeta>(m, Seq::empty());
    assert(packet_meta_wire(m) + Seq::<u8>::empty() =~= packet_meta_wire(m));
}

} // verus!
