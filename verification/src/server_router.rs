//! The server's routing table: handlers are registered under a name and a set of structure
//! types, numbered in the order they were added, and frozen by a commit.  Every incoming
//! header is then either sent to one handler, answered directly, or refused.
use vstd::prelude::*;
use vstd::hash_map::StringHashMap;
use vstd::string::*;
use vstd::slice::slice_to_vec;
use std::marker::PhantomData;
use crate::wire::{enc_str, enc_u32, lemma_parse_u32};
use crate::s_type::{
    accepts, handler_meta_req_wire, packet_meta_wire, server_error_wire, text_fits, text_length_fits, wire_roundtrip,
    HandlerMetaReqView, from_slice, handler_meta_ans_wire, read_handler_meta_req, read_packet_meta, to_vec, HandlerMetaAns, HandlerMetaReq,
    PacketMeta, ServerError, ServerErrorEn, ServerErrorEnView, SystemSType, TypeContainer,
    TypeTupple, WireMessage, container_of, container_set, StructureType,
};

verus! {

/// The map from handler names to ids that registering routes with these names, in this
/// order, produces: a name registered twice ends up with its later id.
pub open spec fn route_names(names: Seq<Seq<char>>) -> Map<Seq<char>, u64>
    decreases names.len(),
{
    if names.len() == 0 {
        Map::empty()
    } else {
        route_names(names.drop_last()).insert(names.last(), (names.len() - 1) as u64)
    }
}

/// What the server does with one header.
pub enum ServeDecision<S> {
    /// Hand the payload to the route at index `route`, whose id is `handler_id`, as a packet
    /// of the structure type `s_type`.
    Dispatch { route: usize, handler_id: u64, s_type: S },
    /// Send these bytes back.
    Answer(Vec<u8>),
    /// Send this error back.
    Refuse(ServerError),
}

/// [`ServeDecision`] as a mathematical value.
pub enum ServeDecisionView<S> {
    Dispatch { route: int, handler_id: u64, s_type: S },
    Answer(Seq<u8>),
    Refuse(ServerErrorEnView),
}

impl<S> View for ServeDecision<S> {
    type V = ServeDecisionView<S>;

    open spec fn view(&self) -> ServeDecisionView<S> {
        match self {
            ServeDecision::Dispatch { route, handler_id, s_type } => ServeDecisionView::Dispatch {
                route: *route as int,
                handler_id: *handler_id,
                s_type: *s_type,
            },
            ServeDecision::Answer(b) => ServeDecisionView::Answer(b@),
            ServeDecision::Refuse(e) => ServeDecisionView::Refuse(e.en@),
        }
    }
}

pub proof fn lemma_route_names_bounded(ns: Seq<Seq<char>>)
    ensures
        forall|n: Seq<char>|
            #[trigger] route_names(ns).contains_key(n) ==> route_names(ns)[n] < ns.len(),
    decreases ns.len(),
{
    if ns.len() > 0 {
        let prev = ns.drop_last();
        lemma_route_names_bounded(prev);
        assert forall|n: Seq<char>| #[trigger] route_names(ns).contains_key(n) implies route_names(
            ns,
        )[n] < ns.len() by {
            assert(route_names(ns) == route_names(prev).insert(ns.last(), (ns.len() - 1) as u64));
            if n != ns.last() {
                assert(route_names(prev).contains_key(n));
            }
        }
    }
}

/// Every name a registration sequence maps is one of the sequence's names.
pub proof fn lemma_route_names_keys(ns: Seq<Seq<char>>)
    ensures
        forall|n: Seq<char>|
            #[trigger] route_names(ns).contains_key(n) ==> exists|i: int| 0 <= i < ns.len() && #[trigger] ns[i] == n,
    decreases ns.len(),
{
    if ns.len() > 0 {
        let prev = ns.drop_last();
        lemma_route_names_keys(prev);
        assert forall|n: Seq<char>| #[trigger] route_names(ns).contains_key(n) implies exists|i: int|
            0 <= i < ns.len() && #[trigger] ns[i] == n by {
            if n == ns.last() {
                assert(ns[ns.len() - 1] == n);
            } else {
                assert(route_names(prev).contains_key(n));
                let i = choose|i: int| 0 <= i < prev.len() && #[trigger] prev[i] == n;
                assert(ns[i] == n);
            }
        }
    }
}

/// How a handler's call ended.
pub enum HandlerOutcome {
    /// It returned a reply.
    Replied(Vec<u8>),
    /// It returned an error payload.
    Failed(Vec<u8>),
    /// It panicked.
    Panicked,
}

/// The containers of a sequence of structure types.
pub open spec fn containers_of<S: StructureType>(s: Seq<S>) -> Set<TypeContainer> {
    Set::new(|c: TypeContainer| exists|i: int| 0 <= i < s.len() && #[trigger] container_of(s[i]) == c)
}

/// Whether the header `meta`, if it is a request header, asks for a structure type that `S`
/// can decode.
pub open spec fn decodable_request<S: StructureType>(meta: Seq<u8>) -> bool {
    accepts::<PacketMeta>(meta) ==> S::spec_decodes(read_packet_meta(meta).unwrap().0.s_type_req)
}

/// The routing table of a server, holding handlers of type `H` for structure types of the
/// enum `S`.
pub struct TcpServerRouter<H, S> {
    routes: Vec<(TypeTupple, H)>,
    routes_text_names: StringHashMap<u64>,
    routes_to_add: Vec<(TypeTupple, (H, String))>,
    router_incremental: u64,
    routes_commited: bool,
    user_s_type: PhantomData<S>,
}

impl<H, S: StructureType> TcpServerRouter<H, S> {
    /// Whether the routes have been committed.
    pub closed spec fn committed(&self) -> bool {
        self.routes_commited
    }

    /// The id the next registered route gets.
    pub closed spec fn next_id(&self) -> u64 {
        self.router_incremental
    }

    /// The names of the routes registered and not yet committed, by id.
    pub closed spec fn pending_names(&self) -> Seq<Seq<char>> {
        self.routes_to_add@.map_values(|e: (TypeTupple, (H, String))| e.1.1@)
    }

    /// The structure types of the routes registered and not yet committed, by id.
    pub closed spec fn pending_types(&self) -> Seq<Set<TypeContainer>> {
        self.routes_to_add@.map_values(|e: (TypeTupple, (H, String))| e.0.type_set())
    }

    /// The handlers of the routes registered and not yet committed, by id.
    pub closed spec fn pending_handlers(&self) -> Seq<H> {
        self.routes_to_add@.map_values(|e: (TypeTupple, (H, String))| e.1.0)
    }

    /// The structure types of the committed routes, by id.
    pub closed spec fn route_types(&self) -> Seq<Set<TypeContainer>> {
        self.routes@.map_values(|e: (TypeTupple, H)| e.0.type_set())
    }

    /// The committed names and the ids they stand for.
    pub closed spec fn names(&self) -> Map<Seq<char>, u64> {
        self.routes_text_names@
    }

    /// The handler of the committed route at index `i`.
    pub closed spec fn spec_handler(&self, i: int) -> H {
        self.routes@[i].1
    }

    /// The route that serves packets of the structure type `c` for the handler `id`.
    pub open spec fn has_route(&self, id: u64, c: TypeContainer) -> bool {
        &&& self.committed()
        &&& id < self.route_types().len()
        &&& self.route_types()[id as int].contains(c)
    }

    pub closed spec fn wf(&self) -> bool {
        &&& !self.routes_commited ==> {
            &&& self.routes@.len() == 0
            &&& self.routes_to_add@.len() == self.router_incremental
            &&& forall|i: int|
                0 <= i < self.routes_to_add@.len() ==> #[trigger] self.routes_to_add@[i].0.handler_id
                    == i
            &&& forall|i: int| 0 <= i < self.routes_to_add@.len() ==> #[trigger] self.routes_to_add@[i].0.distinct()
            &&& forall|i: int| 0 <= i < self.routes_to_add@.len() ==> text_fits(#[trigger] self.routes_to_add@[i].1.1@)
            &&& self.routes_text_names@ == Map::<Seq<char>, u64>::empty()
        }
        &&& self.routes_commited ==> {
            &&& self.routes_to_add@.len() == 0
            &&& self.routes@.len() == self.router_incremental
            &&& forall|i: int|
                0 <= i < self.routes@.len() ==> #[trigger] self.routes@[i].0.handler_id == i
            &&& forall|i: int| 0 <= i < self.routes@.len() ==> #[trigger] self.routes@[i].0.distinct()
            &&& forall|n: Seq<char>|
                #[trigger] self.routes_text_names@.contains_key(n)
                    ==> self.routes_text_names@[n] < self.routes@.len() && text_fits(n)
        }
    }

    /// How many routes a well-formed table holds: before the commit, one pending name, set
    /// of types and handler per id given out; after it, one committed route per id.
    pub proof fn lemma_counts(&self)
        requires
            self.wf(),
        ensures
            !self.committed() ==> {
                &&& self.pending_names().len() == self.next_id()
                &&& self.pending_types().len() == self.next_id()
                &&& self.pending_handlers().len() == self.next_id()
                &&& self.route_types().len() == 0
            },
            self.committed() ==> {
                &&& self.route_types().len() == self.next_id()
                &&& self.pending_names().len() == 0
            },
            forall|n: Seq<char>| #[trigger] self.names().contains_key(n) ==> text_fits(n),
    {
    }

    /// An empty table, open for registrations.
    pub fn new() -> (r: Self)
        ensures
            r.wf(),
            !r.committed(),
            r.next_id() == 0,
            r.pending_names() == Seq::<Seq<char>>::empty(),
            r.pending_types() == Seq::<Set<TypeContainer>>::empty(),
            r.pending_handlers() == Seq::<H>::empty(),
            r.route_types() == Seq::<Set<TypeContainer>>::empty(),
            r.names() == Map::<Seq<char>, u64>::empty(),
    {
        let r = TcpServerRouter {
            routes: Vec::new(),
            routes_text_names: StringHashMap::new(),
            routes_to_add: Vec::new(),
            router_incremental: 0,
            routes_commited: false,
            user_s_type: PhantomData,
        };
        assert(r.pending_names() =~= Seq::<Seq<char>>::empty());
        assert(r.pending_types() =~= Seq::<Set<TypeContainer>>::empty());
        assert(r.pending_handlers() =~= Seq::<H>::empty());
        assert(r.route_types() =~= Seq::<Set<TypeContainer>>::empty());
        r
    }

    /// Registers `handler` under `handler_name` for the structure types `s_types`, each kept
    /// once, with the next id.  Once the routes are committed, nothing changes.
    pub fn add_route(&mut self, handler: H, handler_name: String, s_types: Vec<S>)
        requires
            old(self).wf(),
            !old(self).committed() ==> old(self).next_id() < u64::MAX,
        ensures
            final(self).wf(),
            old(self).committed() ==> {
                &&& final(self).committed()
                &&& final(self).next_id() == old(self).next_id()
                &&& final(self).route_types() == old(self).route_types()
                &&& final(self).names() == old(self).names()
                &&& forall|i: int| #[trigger] final(self).spec_handler(i) == old(self).spec_handler(i)
            },
            !old(self).committed() ==> {
                &&& !final(self).committed()
                &&& final(self).next_id() == old(self).next_id() + 1
                &&& final(self).pending_names() == old(self).pending_names().push(handler_name@)
                &&& final(self).pending_types() == old(self).pending_types().push(containers_of(s_types@))
                &&& final(self).pending_handlers() == old(self).pending_handlers().push(handler)
                &&& final(self).route_types() == old(self).route_types()
                &&& final(self).names() == old(self).names()
            },
    {
        if self.routes_commited {
            return;
        }
        let mut containers: Vec<TypeContainer> = Vec::new();
        let mut i: usize = 0;
        while i < s_types.len()
            invariant
                i <= s_types@.len(),
                containers@.len() == i,
                forall|j: int| 0 <= j < i ==> #[trigger] containers@[j] == container_of(s_types@[j]),
            decreases s_types@.len() - i,
        {
            containers.push(TypeContainer { family: S::family(), s_type: s_types[i].to_code() });
            i = i + 1;
        }
        proof {
            assert forall|c: TypeContainer| container_set(containers@).contains(c) == containers_of(s_types@).contains(c) by {
                if container_set(containers@).contains(c) {
                    let j = choose|j: int| 0 <= j < containers@.len() && #[trigger] containers@[j] == c;
                    assert(container_of(s_types@[j]) == c);
                }
                if containers_of(s_types@).contains(c) {
                    let j = choose|j: int| 0 <= j < s_types@.len() && #[trigger] container_of(s_types@[j]) == c;
                    assert(containers@[j] == c);
                }
            }
            assert(container_set(containers@) =~= containers_of(s_types@));
        }
        text_length_fits(&handler_name);
        let types_tupple = TypeTupple::from_types(containers, self.router_incremental);
        self.routes_to_add.push((types_tupple, (handler, handler_name)));
        self.router_incremental = self.router_incremental + 1;
        assert(self.pending_names() =~= old(self).pending_names().push(handler_name@));
        assert(self.pending_types() =~= old(self).pending_types().push(containers_of(s_types@)));
        assert(self.pending_handlers() =~= old(self).pending_handlers().push(handler));
    }

    /// Freezes the registered routes: route `i` gets the structure types and the handler
    /// registered `i`-th, and each name stands for the id of the last route registered under
    /// it.  Committing twice, or with nothing registered, changes nothing.
    pub fn commit_routes(&mut self)
        requires
            old(self).wf(),
        ensures
            final(self).wf(),
            final(self).next_id() == old(self).next_id(),
            (old(self).committed() || old(self).pending_names().len() == 0) ==> {
                &&& final(self).committed() == old(self).committed()
                &&& final(self).route_types() == old(self).route_types()
                &&& final(self).names() == old(self).names()
                &&& final(self).pending_names() == old(self).pending_names()
                &&& forall|i: int| #[trigger] final(self).spec_handler(i) == old(self).spec_handler(i)
            },
            !(old(self).committed() || old(self).pending_names().len() == 0) ==> {
                &&& final(self).committed()
                &&& final(self).route_types() == old(self).pending_types()
                &&& forall|i: int|
                    0 <= i < old(self).pending_handlers().len() ==> #[trigger] final(self).spec_handler(i)
                        == old(self).pending_handlers()[i]
                &&& final(self).names() == route_names(old(self).pending_names())
            },
    {
        if self.routes_commited || self.routes_to_add.len() == 0 {
            return;
        }
        let mut pending: Vec<(TypeTupple, (H, String))> = Vec::new();
        std::mem::swap(&mut pending, &mut self.routes_to_add);
        let ghost all = pending@;
        let mut routes: Vec<(TypeTupple, H)> = Vec::new();
        let mut names: StringHashMap<u64> = StringHashMap::new();
        proof {
            assert(all.take(0).map_values(|e: (TypeTupple, (H, String))| e.1.1@) =~= Seq::<Seq<char>>::empty());
        }
        for entry in it: pending.into_iter()
            invariant
                it.seq() == all,
                all.len() == old(self).router_incremental,
                forall|i: int| 0 <= i < all.len() ==> #[trigger] all[i].0.handler_id == i,
                forall|i: int| 0 <= i < all.len() ==> #[trigger] all[i].0.distinct(),
                forall|i: int| 0 <= i < all.len() ==> text_fits(#[trigger] all[i].1.1@),
                routes@.len() == it.index(),
                forall|i: int| 0 <= i < routes@.len() ==> #[trigger] routes@[i].0 == all[i].0,
                forall|i: int| 0 <= i < routes@.len() ==> #[trigger] routes@[i].1 == all[i].1.0,
                names@ == route_names(
                    all.take(it.index() as int).map_values(|e: (TypeTupple, (H, String))| e.1.1@),
                ),
        {
            let ghost k = it.index();
            let ghost before = all.take(k as int).map_values(|e: (TypeTupple, (H, String))| e.1.1@);
            let ghost after = all.take(k + 1).map_values(|e: (TypeTupple, (H, String))| e.1.1@);
            let (types, (handler, name)) = entry;
            assert(after.drop_last() =~= before);
            names.insert(name, types.handler_id);
            routes.push((types, handler));
        }
        proof {
            let ns = all.map_values(|e: (TypeTupple, (H, String))| e.1.1@);
            assert(all.take(all.len() as int) =~= all);
            lemma_route_names_bounded(ns);
            lemma_route_names_keys(ns);
            assert forall|n: Seq<char>| #[trigger] names@.contains_key(n) implies text_fits(n) by {
                let i = choose|i: int| 0 <= i < ns.len() && #[trigger] ns[i] == n;
                assert(text_fits(all[i].1.1@));
            }
            assert(routes@.map_values(|e: (TypeTupple, H)| e.0.type_set()) =~= all.map_values(
                |e: (TypeTupple, (H, String))| e.0.type_set(),
            ));
        }
        self.routes = routes;
        self.routes_text_names = names;
        self.routes_commited = true;
    }

    /// The id the next registered route gets.
    pub fn next_route_id(&self) -> (r: u64)
        ensures
            r == self.next_id(),
    {
        self.router_incremental
    }

    /// Whether the routes have been committed.
    pub fn is_committed(&self) -> (r: bool)
        ensures
            r == self.committed(),
    {
        self.routes_commited
    }

    /// The committed routes.
    pub fn get_routes(&self) -> (r: &Vec<(TypeTupple, H)>)
        requires
            self.wf(),
        ensures
            r@.len() == self.route_types().len(),
            forall|i: int| 0 <= i < r@.len() ==> #[trigger] r@[i].0.handler_id == i,
            forall|i: int| 0 <= i < r@.len() ==> #[trigger] r@[i].0.distinct(),
            forall|i: int|
                0 <= i < r@.len() ==> #[trigger] r@[i].0.type_set() == self.route_types()[i],
            forall|i: int| 0 <= i < r@.len() ==> #[trigger] r@[i].1 == self.spec_handler(i),
    {
        &self.routes
    }

    /// The handler of the committed route at `route`.
    pub fn handler(&self, route: usize) -> (r: &H)
        requires
            self.wf(),
            route < self.route_types().len(),
        ensures
            *r == self.spec_handler(route as int),
    {
        &self.routes[route].1
    }

    /// Whether the committed route `id` serves packets of the structure type `c`.
    pub fn find_route(&self, id: u64, c: TypeContainer) -> (r: Option<usize>)
        requires
            self.wf(),
        ensures
            r is Some <==> self.has_route(id, c),
            r matches Some(i) ==> i == id,
    {
        if !self.routes_commited || id >= self.routes.len() as u64 {
            return None;
        }
        let i = id as usize;
        if self.routes[i].0.contains_type(c) {
            Some(i)
        } else {
            None
        }
    }

    /// What the server does with the header `meta`.
    pub open spec fn spec_serve(&self, meta: Seq<u8>) -> ServeDecisionView<S> {
        if accepts::<PacketMeta>(meta) {
            let m = read_packet_meta(meta).unwrap().0;
            let s = S::spec_decode(m.s_type_req);
            if self.has_route(m.handler_id, container_of(s)) {
                ServeDecisionView::Dispatch { route: m.handler_id as int, handler_id: m.handler_id, s_type: s }
            } else {
                ServeDecisionView::Refuse(ServerErrorEnView::NoSuchHandler(None))
            }
        } else if accepts::<HandlerMetaReq>(meta) {
            let q = read_handler_meta_req(meta).unwrap().0;
            if self.names().contains_key(q.handler_name) {
                ServeDecisionView::Answer(
                    handler_meta_ans_wire(
                        HandlerMetaAns {
                            s_type: SystemSType::HandlerMetaAns,
                            id: self.names()[q.handler_name],
                        },
                    ),
                )
            } else {
                ServeDecisionView::Refuse(ServerErrorEnView::NoSuchHandler(None))
            }
        } else {
            ServeDecisionView::Refuse(ServerErrorEnView::MalformedMetaInfo(None))
        }
    }

    /// What to do with the header `meta`: a request is decoded into a structure type of `S`
    /// and goes to its handler when that handler is registered for that type; a question for
    /// a committed name is answered with its id; every other header is refused.  The
    /// structure type a request asks for must be one `S` decodes.
    pub fn serve_packet(&self, meta: &[u8]) -> (r: ServeDecision<S>)
        requires
            self.wf(),
            decodable_request::<S>(meta@),
        ensures
            r@ == self.spec_serve(meta@),
            r matches ServeDecision::Refuse(e) ==> e.s_type == SystemSType::ServerError,
    {
        match from_slice::<PacketMeta>(meta) {
            Ok(meta_pack) => {
                let s_type = S::from_code(meta_pack.s_type_req);
                let c = TypeContainer { family: S::family(), s_type: s_type.to_code() };
                return match self.find_route(meta_pack.handler_id, c) {
                    Some(route) => ServeDecision::Dispatch { route, handler_id: meta_pack.handler_id, s_type },
                    None => ServeDecision::Refuse(ServerError::new(ServerErrorEn::NoSuchHandler(None))),
                };
            },
            Err(_) => {},
        }
        match from_slice::<HandlerMetaReq>(meta) {
            Ok(meta_req) => {
                return match self.routes_text_names.get(meta_req.handler_name.as_str()) {
                    Some(route_id) => {
                        let meta_ans = HandlerMetaAns { s_type: SystemSType::HandlerMetaAns, id: *route_id };
                        ServeDecision::Answer(to_vec(&meta_ans).unwrap())
                    },
                    None => ServeDecision::Refuse(ServerError::new(ServerErrorEn::NoSuchHandler(None))),
                };
            },
            Err(_) => {},
        }
        ServeDecision::Refuse(ServerError::new(ServerErrorEn::MalformedMetaInfo(None)))
    }
}

/// The reply a server sends for a dispatched request, from how the handler's call ended: a
/// reply as it is; an error payload, or a panic, as an internal server error.
pub fn handler_result(outcome: HandlerOutcome) -> (r: Result<Vec<u8>, ServerError>)
    ensures
        match outcome {
            HandlerOutcome::Replied(d) => r matches Ok(b) && b@ == d@,
            HandlerOutcome::Failed(d) => r matches Err(e) && e.s_type == SystemSType::ServerError
                && e.en@ == ServerErrorEnView::InternalError(Some(d@)),
            HandlerOutcome::Panicked => r matches Err(e) && e.s_type == SystemSType::ServerError
                && e.en@ == ServerErrorEnView::InternalError(Some("handler died :(".spec_bytes())),
        },
{
    match outcome {
        HandlerOutcome::Replied(data) => Ok(data),
        HandlerOutcome::Failed(err) => Err(ServerError::new(ServerErrorEn::InternalError(Some(err)))),
        HandlerOutcome::Panicked => {
            let text = "handler died :(".as_bytes();
            let data = slice_to_vec(text);
            Err(ServerError::new(ServerErrorEn::InternalError(Some(data))))
        },
    }
}

/// The bytes sent back for a served packet: the reply itself, or the error packet.
pub fn response_message(res: Result<Vec<u8>, ServerError>) -> (r: Vec<u8>)
    requires
        res matches Err(e) ==> e.s_type == SystemSType::ServerError,
    ensures
        match res {
            Ok(d) => r@ == d@,
            Err(e) => r@ == server_error_wire(e@),
        },
{
    match res {
        Ok(data) => data,
        Err(err) => to_vec(&err).unwrap(),
    }
}

// ---------------------------------------------------------------------------------------
// Laws of the routing table.
// ---------------------------------------------------------------------------------------

/// A name stands for the id of the last route registered under it.
pub proof fn registered_name_resolves(ns: Seq<Seq<char>>, i: int)
    requires
        0 <= i < ns.len(),
        ns.len() <= u64::MAX,
        forall|j: int| i < j < ns.len() ==> ns[j] != ns[i],
    ensures
        route_names(ns).contains_key(ns[i]),
        route_names(ns)[ns[i]] == i,
    decreases ns.len(),
{
    let prev = ns.drop_last();
    assert(route_names(ns) == route_names(prev).insert(ns.last(), (ns.len() - 1) as u64));
    if i < ns.len() - 1 {
        assert(prev[i] == ns[i]);
        assert forall|j: int| i < j < prev.len() implies prev[j] != prev[i] by {
            assert(prev[j] == ns[j]);
        }
        registered_name_resolves(prev, i);
        assert(ns.last() != ns[i]);
    }
}

/// A header that asks for a committed route and one of its structure types is sent to that
/// route's handler with that structure type, whatever bytes follow it.
pub proof fn registered_route_dispatches<H, S: StructureType>(
    router: TcpServerRouter<H, S>,
    id: u64,
    s_type: S,
    has_payload: bool,
    tail: Seq<u8>,
)
    requires
        router.wf(),
        router.has_route(id, container_of(s_type)),
        S::spec_decodes(s_type.spec_code()),
        S::spec_decode(s_type.spec_code()) == s_type,
    ensures
        router.spec_serve(
            packet_meta_wire(
                PacketMeta {
                    s_type: SystemSType::PacketMeta,
                    s_type_req: s_type.spec_code(),
                    handler_id: id,
                    has_payload,
                },
            ) + tail,
        ) == (ServeDecisionView::Dispatch { route: id as int, handler_id: id, s_type }),
{
    let m = PacketMeta {
        s_type: SystemSType::PacketMeta,
        s_type_req: s_type.spec_code(),
        handler_id: id,
        has_payload,
    };
    wire_roundtrip::<PacketMeta>(m, tail);
}

/// The route registered `n`-th is committed as route `n`, with the structure types and
/// the handler it was registered with, and, unless a later route was registered under the
/// same name, its name stands for `n` and a question for it is answered with `n`.
pub proof fn registration_is_committed<H, S: StructureType>(
    pending: TcpServerRouter<H, S>,
    committed: TcpServerRouter<H, S>,
    n: int,
)
    requires
        pending.wf(),
        !pending.committed(),
        0 <= n < pending.next_id(),
        committed.wf(),
        committed.committed(),
        committed.route_types() == pending.pending_types(),
        forall|i: int|
            0 <= i < pending.pending_handlers().len() ==> #[trigger] committed.spec_handler(i)
                == pending.pending_handlers()[i],
        committed.names() == route_names(pending.pending_names()),
        forall|j: int|
            n < j < pending.pending_names().len() ==> pending.pending_names()[j]
                != pending.pending_names()[n],
    ensures
        forall|c: TypeContainer| #[trigger] committed.has_route(n as u64, c) <==> pending.pending_types()[n].contains(c),
        committed.spec_handler(n) == pending.pending_handlers()[n],
        committed.names().contains_key(pending.pending_names()[n]),
        committed.names()[pending.pending_names()[n]] == n,
        committed.spec_serve(
            handler_meta_req_wire(
                HandlerMetaReqView { s_type: SystemSType::HandlerMetaReq, handler_name: pending.pending_names()[n] },
            ),
        ) == ServeDecisionView::<S>::Answer(
            handler_meta_ans_wire(HandlerMetaAns { s_type: SystemSType::HandlerMetaAns, id: n as u64 }),
        ),
{
    pending.lemma_counts();
    committed.lemma_counts();
    registered_name_resolves(pending.pending_names(), n);
    let name = pending.pending_names()[n];
    name_query_answered(committed, name, Seq::empty());
    let q = handler_meta_req_wire(HandlerMetaReqView { s_type: SystemSType::HandlerMetaReq, handler_name: name });
    assert(q + Seq::<u8>::empty() =~= q);
}

/// A header that asks for the id of a committed name is answered with the id that the name
/// stands for.
pub proof fn name_query_answered<H, S: StructureType>(router: TcpServerRouter<H, S>, name: Seq<char>, tail: Seq<u8>)
    requires
        router.wf(),
        router.names().contains_key(name),
    ensures
        router.spec_serve(
            handler_meta_req_wire(HandlerMetaReqView { s_type: SystemSType::HandlerMetaReq, handler_name: name })
                + tail,
        ) == ServeDecisionView::<S>::Answer(
            handler_meta_ans_wire(HandlerMetaAns { s_type: SystemSType::HandlerMetaAns, id: router.names()[name] }),
        ),
{
    router.lemma_counts();
    let q = HandlerMetaReqView { s_type: SystemSType::HandlerMetaReq, handler_name: name };
    let s = handler_meta_req_wire(q) + tail;
    wire_roundtrip::<HandlerMetaReq>(q, tail);
    assert(s =~= enc_u32(1) + (enc_str(name) + tail));
    lemma_parse_u32(1, enc_str(name) + tail);
    <PacketMeta as WireMessage>::lemma_read_s_type(s);
    <HandlerMetaReq as WireMessage>::lemma_read_s_type(s);
}

} // verus!
