//! The client's cache of handler ids: a handler named in a request is looked up here
//! first, and asked of the server only when it is not known yet.
use vstd::prelude::*;
use vstd::hash_map::StringHashMap;
use vstd::string::*;
use crate::s_type::{
    accepts, failed_packet_text, from_slice, handler_meta_ans_wire, handler_meta_req_wire,
    read_handler_meta_ans, to_vec, wire_roundtrip, HandlerMetaAns, HandlerMetaReq,
    HandlerMetaReqView, StructureType, SystemSType, WireMessage,
};
use crate::server_router::{ServeDecisionView, TcpServerRouter};

verus! {

#[verifier::external_type_specification]
#[verifier::external_body]
pub struct ExIoError(std::io::Error);

/// Why a handler id could not be obtained from the server.
#[derive(Debug)]
pub enum RouterError {
    Io(std::io::Error),
    Protocol(String),
    Codec(String),
    ConnectionClosed,
}

impl From<std::io::Error> for RouterError {
    fn from(e: std::io::Error) -> (r: RouterError) {
        RouterError::Io(e)
    }
}

impl vstd::std_specs::convert::FromSpecImpl<std::io::Error> for RouterError {
    open spec fn obeys_from_spec() -> bool {
        true
    }

    open spec fn from_spec(e: std::io::Error) -> RouterError {
        RouterError::Io(e)
    }
}

/// The handler ids the client has learnt, by name.
pub struct TargetRouter {
    known_routes: StringHashMap<u64>,
}

impl View for TargetRouter {
    type V = Map<Seq<char>, u64>;

    closed spec fn view(&self) -> Map<Seq<char>, u64> {
        self.known_routes@
    }
}

impl TargetRouter {
    /// A cache that knows no handler yet.
    pub fn new() -> (r: TargetRouter)
        ensures
            r@ == Map::<Seq<char>, u64>::empty(),
    {
        TargetRouter { known_routes: StringHashMap::new() }
    }

    /// The id learnt for the handler named `route`, if any.
    pub fn lookup_route(&self, route: &str) -> (r: Option<u64>)
        ensures
            match r {
                Some(id) => self@.contains_key(route@) && self@[route@] == id,
                None => !self@.contains_key(route@),
            },
    {
        match self.known_routes.get(route) {
            Some(id) => Some(*id),
            None => None,
        }
    }

    /// The question to send to the server for the id of the handler named `route`.
    pub fn route_request(route: &str) -> (r: Result<Vec<u8>, RouterError>)
        ensures
            r matches Ok(b) && b@ == handler_meta_req_wire(
                HandlerMetaReqView { s_type: SystemSType::HandlerMetaReq, handler_name: route@ },
            ),
    {
        let meta_req = HandlerMetaReq {
            s_type: SystemSType::HandlerMetaReq,
            handler_name: String::from_str(route),
        };
        match to_vec(&meta_req) {
            Some(bytes) => Ok(bytes),
            None => Err(RouterError::Protocol(String::from_str("serialization failed"))),
        }
    }

    /// Takes the server's answer to the question for `route`: the id it holds is learnt and
    /// returned; bytes that are not an answer leave the cache as it was and give the
    /// decoder's text.
    pub fn accept_route_answer(&mut self, route: &str, response: &[u8]) -> (r: Result<u64, RouterError>)
        ensures
            accepts::<HandlerMetaAns>(response@) ==> {
                let id = read_handler_meta_ans(response@).unwrap().0.id;
                &&& r matches Ok(v) && v == id
                &&& final(self)@ == old(self)@.insert(route@, id)
            },
            !accepts::<HandlerMetaAns>(response@) ==> {
                &&& r matches Err(RouterError::Protocol(msg)) && msg@ == failed_packet_text(response@)
                &&& final(self)@ == old(self)@
            },
    {
        match from_slice::<HandlerMetaAns>(response) {
            Ok(meta_ans) => {
                self.known_routes.insert(String::from_str(route), meta_ans.id);
                Ok(meta_ans.id)
            },
            Err(e) => Err(RouterError::Protocol(e)),
        }
    }
}

/// Asking a server for a committed name gets the id the name stands for there, and the
/// client then knows that id under that name.
pub proof fn route_resolution<H, S: StructureType>(
    server: TcpServerRouter<H, S>,
    client_before: Map<Seq<char>, u64>,
    name: Seq<char>,
)
    requires
        server.wf(),
        server.names().contains_key(name),
    ensures
        ({
            let question = handler_meta_req_wire(
                HandlerMetaReqView { s_type: SystemSType::HandlerMetaReq, handler_name: name },
            );
            let answer = handler_meta_ans_wire(
                HandlerMetaAns { s_type: SystemSType::HandlerMetaAns, id: server.names()[name] },
            );
            &&& server.spec_serve(question) == ServeDecisionView::<S>::Answer(answer)
            &&& accepts::<HandlerMetaAns>(answer)
            &&& read_handler_meta_ans(answer).unwrap().0.id == server.names()[name]
            &&& client_before.insert(name, read_handler_meta_ans(answer).unwrap().0.id)[name]
                == server.names()[name]
        }),
{
    let question = handler_meta_req_wire(
        HandlerMetaReqView { s_type: SystemSType::HandlerMetaReq, handler_name: name },
    );
    let ans = HandlerMetaAns { s_type: SystemSType::HandlerMetaAns, id: server.names()[name] };
    crate::server_router::name_query_answered(server, name, Seq::empty());
    assert(question + Seq::<u8>::empty() =~= question);
    wire_roundtrip::<HandlerMetaAns>(ans, Seq::empty());
    assert(handler_meta_ans_wire(ans) + Seq::<u8>::empty() =~= handler_meta_ans_wire(ans));
}

} // verus!
