use crate::error::Error;
use crate::protocol::{Body, Message, MessageBody, MessageId, MessageIdGenerator, NodeId, Payload};
use std::collections::HashMap;
use vstd::prelude::*;

verus! {

/// What a pending request resolved to: on success, the reply's payload, or
/// nothing when the handle was abandoned before a reply came.
pub type Outcome = Result<Option<Payload>, Error>;

/// A pending request taken out of the table, with the outcome that its
/// completion is to receive.
pub struct Resolution<C> {
    pub completion: C,
    pub outcome: Outcome,
}

/// The pending requests after a message answering `in_reply_to` arrives:
/// the one it answers is resolved, and only that one.
pub open spec fn pending_after_reply<C>(pending: Map<u64, C>, in_reply_to: Option<MessageId>) -> Map<
    u64,
    C,
> {
    match in_reply_to {
        Some(id) => pending.remove(id.0),
        None => pending,
    }
}

/// The pending requests after a handle whose exchange in flight was
/// `prior` starts a new one under `id`: the prior one is cancelled and the
/// new one registered.
pub open spec fn pending_after_call<C>(
    pending: Map<u64, C>,
    prior: Option<MessageId>,
    id: u64,
    completion: C,
) -> Map<u64, C> {
    match prior {
        Some(p) => pending.remove(p.0).insert(id, completion),
        None => pending.insert(id, completion),
    }
}

/// The node's own identity, its outbound id counter, and the completions of
/// the requests that await a reply, keyed by request id.
pub struct NodeContext<C> {
    node_id: NodeId,
    message_id_generator: MessageIdGenerator,
    unacked_messages: HashMap<u64, C>,
}

impl<C> NodeContext<C> {
    pub closed spec fn node(&self) -> NodeId {
        self.node_id
    }

    /// The completions of the requests that await a reply.
    pub closed spec fn pending(&self) -> Map<u64, C> {
        self.unacked_messages@
    }

    /// The id that the next outbound message gets.
    pub closed spec fn upcoming_id(&self) -> nat {
        self.message_id_generator.upcoming()
    }

    /// Every pending id was handed out already, so a fresh id is never pending.
    pub open spec fn wf(&self) -> bool {
        forall|id: u64| #[trigger] self.pending().contains_key(id) ==> id < self.upcoming_id()
    }

    pub fn new(node_id: NodeId) -> (r: NodeContext<C>)
        ensures
            r.node() == node_id,
            r.pending() == Map::<u64, C>::empty(),
            r.upcoming_id() == 0,
            r.wf(),
    {
        NodeContext {
            node_id,
            message_id_generator: MessageIdGenerator::new(),
            unacked_messages: HashMap::new(),
        }
    }

    pub fn node_id(&self) -> (r: NodeId)
        ensures
            r == self.node(),
    {
        self.node_id.clone()
    }

    /// Whether another outbound id can be handed out.
    pub fn can_issue(&self) -> (r: bool)
        ensures
            r == (self.upcoming_id() < u64::MAX),
    {
        self.message_id_generator.can_issue()
    }

    fn next_id(&mut self) -> (r: MessageId)
        requires
            old(self).upcoming_id() < u64::MAX,
        ensures
            r.0 == old(self).upcoming_id(),
            final(self).upcoming_id() == old(self).upcoming_id() + 1,
            final(self).node() == old(self).node(),
            final(self).pending() == old(self).pending(),
    {
        self.message_id_generator.next_id()
    }

    /// A handle for exchanges with `node`, with nothing in flight yet.
    pub fn send_to(&self, node: NodeId) -> (r: NodeService)
        ensures
            r.destination() == node,
            r.in_flight() is None,
    {
        NodeService { dst: node, msg_id: None }
    }

    /// The reply to `message`: from this node to its sender, under a fresh
    /// id, and answering the message's own id if it has one.
    pub fn reply(&mut self, message: &Message, reply_body: MessageBody) -> (r: Message)
        requires
            old(self).upcoming_id() < u64::MAX,
        ensures
            r.src == old(self).node(),
            r.dest == message.src,
            r.body.msg_id == Some(MessageId(old(self).upcoming_id() as u64)),
            r.body.in_reply_to == message.body.msg_id,
            r.body.payload == Payload::Decoded(reply_body),
            final(self).upcoming_id() == old(self).upcoming_id() + 1,
            final(self).node() == old(self).node(),
            final(self).pending() == old(self).pending(),
            old(self).wf() ==> final(self).wf(),
    {
        let msg_id = self.next_id();
        Message {
            src: self.node_id(),
            dest: message.src.clone(),
            body: Body {
                msg_id: Some(msg_id),
                in_reply_to: message.msg_id(),
                payload: Payload::Decoded(reply_body),
            },
        }
    }

    /// The answer to a handled request: its reply, when the request carried
    /// an id and so expects one; otherwise nothing, and no id is used.
    pub fn respond(&mut self, request: &Message, response: MessageBody) -> (r: Option<Message>)
        requires
            request.body.msg_id is Some ==> old(self).upcoming_id() < u64::MAX,
        ensures
            final(self).node() == old(self).node(),
            final(self).pending() == old(self).pending(),
            old(self).wf() ==> final(self).wf(),
            match request.body.msg_id {
                Some(id) => {
                    &&& r matches Some(m)
                    &&& m.src == old(self).node()
                    &&& m.dest == request.src
                    &&& m.body.msg_id == Some(MessageId(old(self).upcoming_id() as u64))
                    &&& m.body.in_reply_to == Some(id)
                    &&& m.body.payload == Payload::Decoded(response)
                    &&& final(self).upcoming_id() == old(self).upcoming_id() + 1
                },
                None => r is None && final(self).upcoming_id() == old(self).upcoming_id(),
            },
    {
        match request.msg_id() {
            Some(_) => Some(self.reply(request, response)),
            None => None,
        }
    }

    fn register(&mut self, msg_id: MessageId, completion: C)
        ensures
            final(self).pending() == old(self).pending().insert(msg_id.0, completion),
            final(self).node() == old(self).node(),
            final(self).upcoming_id() == old(self).upcoming_id(),
    {
        self.unacked_messages.insert(msg_id.0, completion);
    }

    fn take(&mut self, msg_id: MessageId, outcome: Outcome) -> (r: Option<Resolution<C>>)
        ensures
            final(self).pending() == old(self).pending().remove(msg_id.0),
            final(self).node() == old(self).node(),
            final(self).upcoming_id() == old(self).upcoming_id(),
            old(self).wf() ==> final(self).wf(),
            match r {
                Some(res) => old(self).pending().contains_key(msg_id.0) && res.completion == old(
                    self,
                ).pending()[msg_id.0] && res.outcome == outcome,
                None => !old(self).pending().contains_key(msg_id.0),
            },
    {
        let removed = self.unacked_messages.remove(&msg_id.0);
        assert forall|id: u64| #[trigger] self.pending().contains_key(id) implies old(
            self,
        ).pending().contains_key(id) by {}
        match removed {
            Some(completion) => Some(Resolution { completion, outcome }),
            None => None,
        }
    }

    /// Resolves the request `msg_id` as answered, with `reply`, if it is
    /// pending; no other request is touched.
    pub fn acknowledge(&mut self, msg_id: MessageId, reply: Option<Payload>) -> (r: Option<
        Resolution<C>,
    >)
        ensures
            final(self).pending() == old(self).pending().remove(msg_id.0),
            final(self).node() == old(self).node(),
            final(self).upcoming_id() == old(self).upcoming_id(),
            old(self).wf() ==> final(self).wf(),
            match r {
                Some(res) => old(self).pending().contains_key(msg_id.0) && res.completion == old(
                    self,
                ).pending()[msg_id.0] && res.outcome == Outcome::Ok(reply),
                None => !old(self).pending().contains_key(msg_id.0),
            },
    {
        self.take(msg_id, Ok(reply))
    }

    /// Resolves the request `msg_id` as cancelled, if it is pending.
    pub fn cancel(&mut self, msg_id: MessageId) -> (r: Option<Resolution<C>>)
        ensures
            final(self).pending() == old(self).pending().remove(msg_id.0),
            final(self).node() == old(self).node(),
            final(self).upcoming_id() == old(self).upcoming_id(),
            old(self).wf() ==> final(self).wf(),
            match r {
                Some(res) => old(self).pending().contains_key(msg_id.0) && res.completion == old(
                    self,
                ).pending()[msg_id.0] && res.outcome == Outcome::Err(Error::RequestCancelled),
                None => !old(self).pending().contains_key(msg_id.0),
            },
    {
        self.take(msg_id, Err(Error::RequestCancelled))
    }
}

/// A channel handle to one destination; it has at most one exchange in
/// flight, and a new one supersedes the old.
pub struct NodeService {
    dst: NodeId,
    msg_id: Option<MessageId>,
}

impl NodeService {
    pub closed spec fn destination(&self) -> NodeId {
        self.dst
    }

    /// The id of the exchange in flight on this handle, if any.
    pub closed spec fn in_flight(&self) -> Option<MessageId> {
        self.msg_id
    }

    pub fn dst(&self) -> (r: &NodeId)
        ensures
            *r == self.destination(),
    {
        &self.dst
    }

    pub fn msg_id(&self) -> (r: Option<MessageId>)
        ensures
            r == self.in_flight(),
    {
        self.msg_id
    }

    /// Starts an exchange carrying `req`: a fresh id is registered with
    /// `completion`, an exchange still in flight on this handle is
    /// cancelled, and the request to transmit is returned.
    pub fn call<C>(&mut self, context: &mut NodeContext<C>, req: MessageBody, completion: C) -> (r: (
        Message,
        Option<Resolution<C>>,
    ))
        requires
            old(context).wf(),
            old(context).upcoming_id() < u64::MAX,
        ensures
            ({
                let id = old(context).upcoming_id() as u64;
                &&& final(self).in_flight() == Some(MessageId(id))
                &&& final(self).destination() == old(self).destination()
                &&& r.0 == (Message {
                    src: old(context).node(),
                    dest: old(self).destination(),
                    body: Body {
                        msg_id: Some(MessageId(id)),
                        in_reply_to: None,
                        payload: Payload::Decoded(req),
                    },
                })
                &&& final(context).upcoming_id() == old(context).upcoming_id() + 1
                &&& final(context).node() == old(context).node()
                &&& final(context).wf()
                &&& final(context).pending() == pending_after_call(
                    old(context).pending(),
                    old(self).in_flight(),
                    id,
                    completion,
                )
                &&& match old(self).in_flight() {
                    Some(prior) => match r.1 {
                        Some(res) => old(context).pending().contains_key(prior.0) && res.completion
                            == old(context).pending()[prior.0] && res.outcome == Outcome::Err(
                            Error::RequestCancelled,
                        ),
                        None => !old(context).pending().contains_key(prior.0),
                    },
                    None => r.1 is None,
                }
            }),
    {
        let msg_id = context.next_id();
        let superseded = match self.msg_id {
            Some(prior) => context.cancel(prior),
            None => None,
        };
        self.msg_id = Some(msg_id);
        context.register(msg_id, completion);
        let message = Message {
            src: context.node_id(),
            dest: self.dst.clone(),
            body: Body { msg_id: Some(msg_id), in_reply_to: None, payload: Payload::Decoded(req) },
        };
        (message, superseded)
    }

    /// Gives the handle up: an exchange still in flight is resolved as
    /// answered, with no reply, rather than left pending.
    pub fn abandon<C>(&mut self, context: &mut NodeContext<C>) -> (r: Option<Resolution<C>>)
        ensures
            final(self).in_flight() is None,
            final(self).destination() == old(self).destination(),
            final(context).node() == old(context).node(),
            final(context).upcoming_id() == old(context).upcoming_id(),
            old(context).wf() ==> final(context).wf(),
            match old(self).in_flight() {
                Some(id) => {
                    &&& final(context).pending() == old(context).pending().remove(id.0)
                    &&& match r {
                        Some(res) => old(context).pending().contains_key(id.0) && res.completion
                            == old(context).pending()[id.0] && res.outcome == Outcome::Ok(None),
                        None => !old(context).pending().contains_key(id.0),
                    }
                },
                None => final(context).pending() == old(context).pending() && r is None,
            },
    {
        match self.msg_id.take() {
            Some(id) => context.acknowledge(id, None),
            None => None,
        }
    }
}

/// The handler registered last for `msg_type` among `routes`, if any.
pub open spec fn route_in<H>(routes: Seq<(String, H)>, msg_type: Seq<char>) -> Option<H>
    decreases routes.len(),
{
    if routes.len() == 0 {
        None
    } else if routes.last().0@ == msg_type {
        Some(routes.last().1)
    } else {
        route_in(routes.drop_last(), msg_type)
    }
}

/// A message that found its handler: the handler, and the message whose
/// payload is known to have decoded.
pub struct Routed<H> {
    pub handler: H,
    pub message: Message,
}

/// What handling one inbound message came to: the pending request that it
/// answered, if any, and where it goes next.
pub struct Inbound<H, C> {
    pub resolved: Option<Resolution<C>>,
    pub routed: Result<Routed<H>, Error>,
}

/// Binds message types to handlers; a type has at most one handler.
pub struct Router<H> {
    routes: Vec<(String, H)>,
}

impl<H: Copy> Router<H> {
    /// The handler for `msg_type`, if one is registered.
    pub closed spec fn route_for(&self, msg_type: Seq<char>) -> Option<H> {
        route_in(self.routes@, msg_type)
    }

    pub fn new() -> (r: Router<H>)
        ensures
            forall|t: Seq<char>| #[trigger] r.route_for(t) is None,
    {
        Router { routes: Vec::new() }
    }

    /// Binds `msg_type` to `handler`, replacing an earlier binding.
    pub fn register(&mut self, msg_type: &str, handler: H)
        ensures
            forall|t: Seq<char>| #[trigger]
                final(self).route_for(t) == if t == msg_type@ {
                    Some(handler)
                } else {
                    old(self).route_for(t)
                },
    {
        self.routes.push((msg_type.to_owned(), handler));
        assert(self.routes@.drop_last() =~= old(self).routes@);
    }

    pub fn lookup(&self, msg_type: &String) -> (r: Option<H>)
        ensures
            r == self.route_for(msg_type@),
    {
        let mut i: usize = self.routes.len();
        assert(self.routes@.subrange(0, i as int) =~= self.routes@);
        while i > 0
            invariant
                i <= self.routes@.len(),
                route_in(self.routes@, msg_type@) == route_in(
                    self.routes@.subrange(0, i as int),
                    msg_type@,
                ),
            decreases i,
        {
            let ghost prefix = self.routes@.subrange(0, i as int);
            assert(prefix.drop_last() =~= self.routes@.subrange(0, i - 1));
            if self.routes[i - 1].0 == *msg_type {
                return Some(self.routes[i - 1].1);
            }
            i = i - 1;
        }
        None
    }

    /// Handles an inbound message. A reply resolves the pending request
    /// that it answers, as answered, whatever its type; then the message
    /// goes to the handler of its type, if its payload decoded.
    pub fn handle<C>(&self, context: &mut NodeContext<C>, message: Message) -> (r: Inbound<H, C>)
        ensures
            final(context).node() == old(context).node(),
            final(context).upcoming_id() == old(context).upcoming_id(),
            old(context).wf() ==> final(context).wf(),
            final(context).pending() == pending_after_reply(
                old(context).pending(),
                message.body.in_reply_to,
            ),
            match message.body.in_reply_to {
                Some(id) => match r.resolved {
                    Some(res) => {
                        &&& old(context).pending().contains_key(id.0)
                        &&& res.completion == old(context).pending()[id.0]
                        &&& res.outcome matches Ok(Some(p)) && p.mirrors(message.body.payload)
                    },
                    None => !old(context).pending().contains_key(id.0),
                },
                None => r.resolved is None,
            },
            match message.body.payload.type_tag() {
                None => r.routed == Result::<Routed<H>, Error>::Err(Error::UnroutableMessage),
                Some(t) => match self.route_for(t) {
                    None => r.routed == Result::<Routed<H>, Error>::Err(Error::UnroutableMessage),
                    Some(h) => if message.body.payload is Decoded {
                        r.routed == Result::<Routed<H>, Error>::Ok(
                            Routed { handler: h, message },
                        )
                    } else {
                        r.routed == Result::<Routed<H>, Error>::Err(Error::DecodeFailure)
                    },
                },
            },
    {
        let resolved = match message.in_reply_to() {
            Some(id) => context.acknowledge(id, Some(message.body.payload.clone())),
            None => None,
        };
        let handler = match message.msg_type() {
            Some(t) => self.lookup(&t),
            None => None,
        };
        let routed = match handler {
            None => Err(Error::UnroutableMessage),
            Some(h) => match message.body.payload {
                Payload::Decoded(_) => Ok(Routed { handler: h, message }),
                _ => Err(Error::DecodeFailure),
            },
        };
        Inbound { resolved, routed }
    }
}

/// A node under construction: its application state and its handlers.
pub struct Node<State, H> {
    state: State,
    router: Router<H>,
}

impl<H: Copy> Default for Node<(), H> {
    fn default() -> (r: Node<(), H>)
        ensures
            forall|t: Seq<char>| #[trigger] r.router().route_for(t) is None,
    {
        Node::with_state(())
    }
}

impl<State, H: Copy> Node<State, H> {
    pub closed spec fn state(&self) -> State {
        self.state
    }

    pub closed spec fn router(&self) -> Router<H> {
        self.router
    }

    pub fn with_state(state: State) -> (r: Node<State, H>)
        ensures
            r.state() == state,
            forall|t: Seq<char>| #[trigger] r.router().route_for(t) is None,
    {
        Node { state, router: Router::new() }
    }

    /// Binds `msg_type` to `handler`, replacing an earlier binding.
    pub fn add_handler(self, msg_type: &str, handler: H) -> (r: Node<State, H>)
        ensures
            r.state() == self.state(),
            forall|t: Seq<char>| #[trigger]
                r.router().route_for(t) == if t == msg_type@ {
                    Some(handler)
                } else {
                    self.router().route_for(t)
                },
    {
        let mut node = self;
        node.router.register(msg_type, handler);
        node
    }

    pub fn into_parts(self) -> (r: (State, Router<H>))
        ensures
            r.0 == self.state(),
            r.1 == self.router(),
    {
        (self.state, self.router)
    }
}

/// Only the matching reply resolves a request: a message answering any
/// other id leaves a pending request, and its completion, in place, and
/// one answering its id takes it out.
pub proof fn lemma_only_matching_reply_resolves<C>(
    pending: Map<u64, C>,
    id: u64,
    in_reply_to: Option<MessageId>,
)
    requires
        pending.contains_key(id),
    ensures
        in_reply_to != Some(MessageId(id)) ==> pending_after_reply(pending, in_reply_to).contains_key(
            id,
        ) && pending_after_reply(pending, in_reply_to)[id] == pending[id],
        in_reply_to == Some(MessageId(id)) ==> !pending_after_reply(
            pending,
            in_reply_to,
        ).contains_key(id),
{
}

/// Supersession: when a handle whose exchange `first` is still pending
/// starts a second one under a fresh id, the first is no longer pending and
/// the second is, with its own completion; the other pending requests stay.
pub proof fn lemma_second_request_supersedes<C>(
    pending: Map<u64, C>,
    first: MessageId,
    second: u64,
    completion: C,
)
    requires
        pending.contains_key(first.0),
        !pending.contains_key(second),
    ensures
        !pending_after_call(pending, Some(first), second, completion).contains_key(first.0),
        pending_after_call(pending, Some(first), second, completion)[second] == completion,
        forall|other: u64|
            other != first.0 && other != second ==> #[trigger] pending_after_call(
                pending,
                Some(first),
                second,
                completion,
            ).contains_key(other) == pending.contains_key(other),
{
}

} // verus!
