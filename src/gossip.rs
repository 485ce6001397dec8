use crate::error::Error;
use crate::node::Outcome;
use crate::protocol::{
    clone_node_ids, Broadcast, BroadcastMessage, BroadcastOk, MessageBody, NodeId, Payload, Read,
    ReadOk, Topology, TopologyOk,
};
use std::collections::HashSet;
use vstd::prelude::*;

verus! {

/// The set of known values after receiving a broadcast of `message`.
pub open spec fn after_broadcast(known: Set<i64>, message: BroadcastMessage) -> Set<i64> {
    known.union(message.values())
}

/// The neighbour list that `topology` gives `node`: that of the last entry
/// naming it, if any.
pub open spec fn neighbours_in(topology: Seq<(NodeId, Vec<NodeId>)>, node: Seq<char>) -> Option<
    Seq<NodeId>,
>
    decreases topology.len(),
{
    if topology.len() == 0 {
        None
    } else if topology.last().0@ == node {
        Some(topology.last().1@)
    } else {
        neighbours_in(topology.drop_last(), node)
    }
}

/// The values of a broadcast node: those it knows, which only grow, and
/// the neighbours it gossips with, as the latest topology gave them.
pub struct GossipState {
    messages: HashSet<i64>,
    neighbours: Vec<NodeId>,
}

impl GossipState {
    pub closed spec fn messages(&self) -> Set<i64> {
        self.messages@
    }

    pub closed spec fn neighbours(&self) -> Seq<NodeId> {
        self.neighbours@
    }

    pub fn new() -> (r: GossipState)
        ensures
            r.messages() == Set::<i64>::empty(),
            r.neighbours() == Seq::<NodeId>::empty(),
    {
        GossipState { messages: HashSet::new(), neighbours: Vec::new() }
    }

    pub fn contains(&self, value: i64) -> (r: bool)
        ensures
            r == self.messages().contains(value),
    {
        self.messages.contains(&value)
    }

    pub fn neighbour_list(&self) -> (r: Vec<NodeId>)
        ensures
            r@ == self.neighbours(),
    {
        clone_node_ids(&self.neighbours)
    }

    fn insert(&mut self, value: i64)
        ensures
            final(self).messages() == old(self).messages().insert(value),
            final(self).neighbours() == old(self).neighbours(),
    {
        self.messages.insert(value);
    }
}

/// Receives a broadcast: each value it carries joins the known set, which
/// is unchanged by values already in it. Nothing is forwarded here.
pub fn receive_broadcast(state: &mut GossipState, request: Broadcast) -> (r: BroadcastOk)
    ensures
        final(state).messages() == after_broadcast(old(state).messages(), request.message),
        final(state).neighbours() == old(state).neighbours(),
{
    match request.message {
        BroadcastMessage::Single(value) => {
            state.insert(value);
            assert(set![value] =~= request.message.values());
        },
        BroadcastMessage::Batch(values) => {
            for i in 0..values.len()
                invariant
                    state.messages() == old(state).messages().union(
                        values@.subrange(0, i as int).to_set(),
                    ),
                    state.neighbours() == old(state).neighbours(),
            {
                state.insert(values[i]);
                assert(values@.subrange(0, i + 1 as int) =~= values@.subrange(0, i as int).push(
                    values@[i as int],
                ));
                proof {
                    values@.subrange(0, i as int).lemma_push_to_set_commute(values@[i as int]);
                }
            }
            assert(values@.subrange(0, values@.len() as int) =~= values@);
        },
    }
    BroadcastOk {}
}

/// A snapshot of every known value, each once.
pub fn read(state: &GossipState, _request: Read) -> (r: ReadOk)
    ensures
        r.messages@.to_set() == state.messages(),
        r.messages@.no_duplicates(),
{
    let mut messages: Vec<i64> = Vec::new();
    for v in it: state.messages.iter()
        invariant
            messages@ == it.seq().subrange(0, it.index()).unref(),
            it.seq().unref().to_set() == state.messages(),
            it.seq().no_duplicates(),
            messages@.no_duplicates(),
            it.index() == it.seq().len() ==> messages@.to_set() == state.messages(),
    {
        assert(it.seq().subrange(0, it.index() + 1).unref() =~= it.seq().subrange(
            0,
            it.index(),
        ).unref().push(*v));
        assert(forall|j: int|
            0 <= j < it.index() ==> it.seq().subrange(0, it.index()).unref()[j] != *v);
        assert(it.index() + 1 == it.seq().len() ==> it.seq().subrange(0, it.index() + 1)
            =~= it.seq());
        messages.push(*v);
    }
    ReadOk { messages }
}

/// Receives a topology: when an entry names this node, its neighbour list
/// replaces the old one wholesale and is returned, one gossip loop to be
/// started for each; otherwise nothing changes and nothing is returned.
pub fn topology(node_id: &NodeId, state: &mut GossipState, request: Topology) -> (r: (
    TopologyOk,
    Vec<NodeId>,
))
    ensures
        final(state).messages() == old(state).messages(),
        match neighbours_in(request.topology@, node_id@) {
            Some(ns) => final(state).neighbours() == ns && r.1@ == ns,
            None => final(state).neighbours() == old(state).neighbours() && r.1@ == Seq::<
                NodeId,
            >::empty(),
        },
{
    let mut i: usize = request.topology.len();
    assert(request.topology@.subrange(0, i as int) =~= request.topology@);
    while i > 0
        invariant
            i <= request.topology@.len(),
            neighbours_in(request.topology@, node_id@) == neighbours_in(
                request.topology@.subrange(0, i as int),
                node_id@,
            ),
            state.messages() == old(state).messages(),
            state.neighbours() == old(state).neighbours(),
        decreases i,
    {
        assert(request.topology@.subrange(0, i as int).drop_last() =~= request.topology@.subrange(
            0,
            i - 1,
        ));
        if request.topology[i - 1].0.same_as(node_id) {
            let neighbours = clone_node_ids(&request.topology[i - 1].1);
            state.neighbours = clone_node_ids(&neighbours);
            return (TopologyOk {}, neighbours);
        }
        i = i - 1;
    }
    (TopologyOk {}, Vec::new())
}

/// The requests that a broadcast node serves, as its router names them.
#[derive(Debug, Clone, Copy, PartialEq, Eq, Structural)]
pub enum Route {
    Broadcast,
    Read,
    Topology,
}

/// What serving a request came to: the reply body, and the neighbours for
/// which gossip loops are to be started.
#[derive(Debug)]
pub struct Served {
    pub reply: MessageBody,
    pub start_gossip: Vec<NodeId>,
}

/// The known values after serving `request` on `route`: a broadcast adds
/// its values; every other request leaves them as they were.
pub open spec fn after_served(known: Set<i64>, route: Route, request: MessageBody) -> Set<i64> {
    match (route, request) {
        (Route::Broadcast, MessageBody::Broadcast(b)) => after_broadcast(known, b.message),
        _ => known,
    }
}

/// Serves a routed request on node `node_id`. A body that is not of the
/// kind that its route serves fails to decode and changes nothing.
pub fn serve_request(node_id: &NodeId, state: &mut GossipState, route: Route, request: MessageBody) -> (r:
    Result<Served, Error>)
    ensures
        final(state).messages() == after_served(old(state).messages(), route, request),
        match (route, request) {
            (Route::Broadcast, MessageBody::Broadcast(b)) => {
                &&& r matches Ok(s) && s.reply == MessageBody::BroadcastOk(BroadcastOk {})
                    && s.start_gossip@ == Seq::<NodeId>::empty()
                &&& final(state).messages() == after_broadcast(old(state).messages(), b.message)
                &&& final(state).neighbours() == old(state).neighbours()
            },
            (Route::Read, MessageBody::Read(_)) => {
                &&& r matches Ok(s) && s.reply matches MessageBody::ReadOk(ok)
                    && ok.messages@.to_set() == old(state).messages()
                    && ok.messages@.no_duplicates() && s.start_gossip@ == Seq::<NodeId>::empty()
                &&& final(state).messages() == old(state).messages()
                &&& final(state).neighbours() == old(state).neighbours()
            },
            (Route::Topology, MessageBody::Topology(t)) => {
                &&& r matches Ok(s) && s.reply == MessageBody::TopologyOk(TopologyOk {})
                &&& final(state).messages() == old(state).messages()
                &&& match neighbours_in(t.topology@, node_id@) {
                    Some(ns) => final(state).neighbours() == ns && r->Ok_0.start_gossip@ == ns,
                    None => final(state).neighbours() == old(state).neighbours()
                        && r->Ok_0.start_gossip@ == Seq::<NodeId>::empty(),
                }
            },
            _ => {
                &&& r matches Err(Error::DecodeFailure)
                &&& final(state).messages() == old(state).messages()
                &&& final(state).neighbours() == old(state).neighbours()
            },
        },
{
    match (route, request) {
        (Route::Broadcast, MessageBody::Broadcast(b)) => {
            let ok = receive_broadcast(state, b);
            Ok(Served { reply: MessageBody::BroadcastOk(ok), start_gossip: Vec::new() })
        },
        (Route::Read, MessageBody::Read(req)) => {
            Ok(Served { reply: MessageBody::ReadOk(read(state, req)), start_gossip: Vec::new() })
        },
        (Route::Topology, MessageBody::Topology(t)) => {
            let (ok, neighbours) = topology(node_id, state, t);
            Ok(Served { reply: MessageBody::TopologyOk(ok), start_gossip: neighbours })
        },
        _ => Err(Error::DecodeFailure),
    }
}

/// A broadcast request carrying `values` as a batch.
pub fn broadcast_body(values: &Vec<i64>) -> (r: MessageBody)
    ensures
        r matches MessageBody::Broadcast(b) && b.message matches BroadcastMessage::Batch(vs)
            && vs@ == values@,
{
    let vs = values.clone();
    assert(vs@ =~= values@);
    MessageBody::Broadcast(Broadcast { message: BroadcastMessage::Batch(vs) })
}

/// The values that a successful pull brings: those of a `read_ok` reply.
pub open spec fn pulled(outcome: Outcome) -> Set<i64> {
    match outcome {
        Ok(Some(Payload::Decoded(MessageBody::ReadOk(reply)))) => reply.messages@.to_set(),
        _ => Set::empty(),
    }
}

/// Whether a push was acknowledged with `broadcast_ok`.
pub open spec fn push_acknowledged(outcome: Outcome) -> bool {
    outcome matches Ok(Some(Payload::Decoded(MessageBody::BroadcastOk(_))))
}

/// One gossip loop's view of a neighbour: the values it believes the
/// neighbour already has, a lower bound that grows from pulled replies and
/// acknowledged pushes.
pub struct NeighbourGossip {
    neighbour: NodeId,
    known: HashSet<i64>,
}

impl NeighbourGossip {
    pub closed spec fn peer(&self) -> NodeId {
        self.neighbour
    }

    /// The values believed known to the neighbour.
    pub closed spec fn horizon(&self) -> Set<i64> {
        self.known@
    }

    pub fn new(neighbour: NodeId) -> (r: NeighbourGossip)
        ensures
            r.peer() == neighbour,
            r.horizon() == Set::<i64>::empty(),
    {
        NeighbourGossip { neighbour, known: HashSet::new() }
    }

    pub fn neighbour(&self) -> (r: &NodeId)
        ensures
            *r == self.peer(),
    {
        &self.neighbour
    }

    /// The request of a pull.
    pub fn pull_request(&self) -> (r: MessageBody)
        ensures
            r == MessageBody::Read(Read {}),
    {
        MessageBody::Read(Read {})
    }

    fn learn(&mut self, values: &Vec<i64>)
        ensures
            final(self).horizon() == old(self).horizon().union(values@.to_set()),
            final(self).peer() == old(self).peer(),
    {
        for i in 0..values.len()
            invariant
                self.horizon() == old(self).horizon().union(values@.subrange(0, i as int).to_set()),
                self.peer() == old(self).peer(),
        {
            self.known.insert(values[i]);
            proof {
                assert(values@.subrange(0, i + 1 as int) =~= values@.subrange(0, i as int).push(
                    values@[i as int],
                ));
                values@.subrange(0, i as int).lemma_push_to_set_commute(values@[i as int]);
            }
        }
        assert(values@.subrange(0, values@.len() as int) =~= values@);
    }

    /// Takes in the outcome of a pull: the values of a `read_ok` reply join
    /// the horizon; on any other outcome it stays as it was.
    pub fn absorb_pull(&mut self, outcome: &Outcome)
        ensures
            final(self).horizon() == old(self).horizon().union(pulled(*outcome)),
            final(self).peer() == old(self).peer(),
    {
        match outcome {
            Ok(Some(Payload::Decoded(MessageBody::ReadOk(reply)))) => self.learn(&reply.messages),
            _ => {
                assert(old(self).horizon().union(Set::empty()) =~= old(self).horizon());
            },
        }
    }

    /// The values to push: those known locally and not in the horizon,
    /// each once.
    pub fn pending_push(&self, state: &GossipState) -> (r: Vec<i64>)
        ensures
            r@.to_set() == state.messages().difference(self.horizon()),
            r@.no_duplicates(),
    {
        let mut out: Vec<i64> = Vec::new();
        for v in it: state.messages.iter()
            invariant
                it.seq().unref().to_set() == state.messages(),
                it.seq().no_duplicates(),
                out@.no_duplicates(),
                out@.to_set() == it.seq().subrange(0, it.index()).unref().to_set().difference(
                    self.horizon(),
                ),
                it.index() == it.seq().len() ==> it.seq().subrange(0, it.index()) =~= it.seq(),
        {
            let ghost before = out@;
            assert(it.seq().subrange(0, it.index() + 1).unref() =~= it.seq().subrange(
                0,
                it.index(),
            ).unref().push(*v));
            assert(forall|j: int|
                0 <= j < it.index() ==> it.seq().subrange(0, it.index()).unref()[j] != *v);
            assert(!it.seq().subrange(0, it.index()).unref().to_set().contains(*v));
            assert(it.index() + 1 == it.seq().len() ==> it.seq().subrange(0, it.index() + 1)
                =~= it.seq());
            proof {
                it.seq().subrange(0, it.index()).unref().lemma_push_to_set_commute(*v);
            }
            if !self.known.contains(v) {
                out.push(*v);
                proof {
                    before.lemma_push_to_set_commute(*v);
                    assert(!before.to_set().contains(*v));
                }
            }
            assert(out@.to_set() =~= it.seq().subrange(0, it.index() + 1).unref().to_set().difference(
                self.horizon(),
            ));
        }
        assert(out@.to_set() =~= state.messages().difference(self.horizon()));
        out
    }

    /// The push that a cycle makes after its pull: the values known locally
    /// and not in the horizon, as a batch broadcast together with the values
    /// sent; nothing when there is nothing to push.
    pub fn push_request(&self, state: &GossipState) -> (r: Option<(MessageBody, Vec<i64>)>)
        ensures
            match r {
                Some((body, sent)) => {
                    &&& sent@.to_set() == state.messages().difference(self.horizon())
                    &&& sent@.no_duplicates()
                    &&& sent@.len() > 0
                    &&& body matches MessageBody::Broadcast(b) && b.message matches BroadcastMessage::Batch(
                        vs,
                    ) && vs@ == sent@
                },
                None => state.messages().difference(self.horizon()) == Set::<i64>::empty(),
            },
    {
        let sent = self.pending_push(state);
        if sent.len() == 0 {
            assert(sent@ =~= Seq::<i64>::empty());
            assert(sent@.to_set() =~= Set::<i64>::empty());
            None
        } else {
            let body = broadcast_body(&sent);
            Some((body, sent))
        }
    }

    /// Ends the pull of a cycle and decides its push: the outcome of the pull
    /// is taken in, then the push is computed against the grown horizon.
    pub fn after_pull(&mut self, outcome: &Outcome, state: &GossipState) -> (r: Option<
        (MessageBody, Vec<i64>),
    >)
        ensures
            final(self).horizon() == old(self).horizon().union(pulled(*outcome)),
            final(self).peer() == old(self).peer(),
            match r {
                Some((body, sent)) => {
                    &&& sent@.to_set() == state.messages().difference(final(self).horizon())
                    &&& sent@.no_duplicates()
                    &&& sent@.len() > 0
                    &&& body matches MessageBody::Broadcast(b) && b.message matches BroadcastMessage::Batch(
                        vs,
                    ) && vs@ == sent@
                },
                None => state.messages().difference(final(self).horizon()) == Set::<i64>::empty(),
            },
    {
        self.absorb_pull(outcome);
        self.push_request(state)
    }

    /// Takes in the outcome of a push of `sent`: once acknowledged, the
    /// values sent join the horizon; otherwise it stays as it was.
    pub fn absorb_push(&mut self, sent: &Vec<i64>, outcome: &Outcome)
        ensures
            final(self).horizon() == if push_acknowledged(*outcome) {
                old(self).horizon().union(sent@.to_set())
            } else {
                old(self).horizon()
            },
            final(self).peer() == old(self).peer(),
    {
        match outcome {
            Ok(Some(Payload::Decoded(MessageBody::BroadcastOk(_)))) => self.learn(sent),
            _ => {},
        }
    }
}

/// Receiving the same broadcast a second time leaves the known values as
/// they were after the first.
pub proof fn lemma_broadcast_idempotent(known: Set<i64>, message: BroadcastMessage)
    ensures
        after_broadcast(after_broadcast(known, message), message) == after_broadcast(
            known,
            message,
        ),
{
    assert(after_broadcast(after_broadcast(known, message), message) =~= after_broadcast(
        known,
        message,
    ));
}

/// The known values after receiving the broadcasts `received`, in order.
pub open spec fn after_broadcasts(known: Set<i64>, received: Seq<BroadcastMessage>) -> Set<i64>
    decreases received.len(),
{
    if received.len() == 0 {
        known
    } else {
        after_broadcast(after_broadcasts(known, received.drop_last()), received.last())
    }
}

/// Reads only grow: whatever broadcasts arrive between two reads (and a
/// topology changes no value), the later read holds every value of the
/// earlier one.
pub proof fn lemma_reads_only_grow(known: Set<i64>, received: Seq<BroadcastMessage>)
    ensures
        known.subset_of(after_broadcasts(known, received)),
    decreases received.len(),
{
    if received.len() > 0 {
        lemma_reads_only_grow(known, received.drop_last());
    }
}

/// The known values after serving the routed requests `served`, in order.
pub open spec fn after_all_served(known: Set<i64>, served: Seq<(Route, MessageBody)>) -> Set<i64>
    decreases served.len(),
{
    if served.len() == 0 {
        known
    } else {
        after_served(after_all_served(known, served.drop_last()), served.last().0, served.last().1)
    }
}

/// Reads only grow under any requests served between them, broadcasts,
/// reads and topologies alike, and bodies that fail to decode; gossip
/// loops only read the known values.
pub proof fn lemma_reads_only_grow_across_requests(
    known: Set<i64>,
    served: Seq<(Route, MessageBody)>,
)
    ensures
        known.subset_of(after_all_served(known, served)),
    decreases served.len(),
{
    if served.len() > 0 {
        lemma_reads_only_grow_across_requests(known, served.drop_last());
    }
}

/// One successful exchange with a neighbour whose values include the
/// horizon: once the neighbour has received the push of the local values
/// outside the horizon, it has exactly its own values and every local
/// value, and the horizon extended by the push still lies within them.
pub proof fn lemma_exchange_delivers(
    local: Set<i64>,
    horizon: Set<i64>,
    remote: Set<i64>,
    push: BroadcastMessage,
)
    requires
        horizon.subset_of(remote),
        push.values() == local.difference(horizon),
    ensures
        after_broadcast(remote, push) == remote.union(local),
        horizon.union(push.values()).subset_of(after_broadcast(remote, push)),
{
    assert(after_broadcast(remote, push) =~= remote.union(local));
}

/// One cycle of a gossip loop against a neighbour whose values include the
/// horizon and the pulled values: when nothing is left to push, the
/// neighbour already has every local value; otherwise, once it has received
/// the push of what is left, it has exactly its own values and every local
/// value, and the horizon grown by the pull and the push lies within them.
pub proof fn lemma_cycle_delivers(
    local: Set<i64>,
    horizon: Set<i64>,
    pulled_values: Set<i64>,
    remote: Set<i64>,
)
    requires
        horizon.subset_of(remote),
        pulled_values.subset_of(remote),
    ensures
        local.difference(horizon.union(pulled_values)) == Set::<i64>::empty() ==> local.subset_of(
            remote,
        ),
        forall|push: BroadcastMessage|
            push.values() == local.difference(horizon.union(pulled_values)) ==> {
                &&& #[trigger] after_broadcast(remote, push) == remote.union(local)
                &&& horizon.union(pulled_values).union(push.values()).subset_of(
                    after_broadcast(remote, push),
                )
            },
{
    if local.difference(horizon.union(pulled_values)) == Set::<i64>::empty() {
        assert forall|x: i64| local.contains(x) implies remote.contains(x) by {
            if !remote.contains(x) {
                assert(local.difference(horizon.union(pulled_values)).contains(x));
            }
        }
    }
    assert forall|push: BroadcastMessage|
        push.values() == local.difference(horizon.union(pulled_values)) implies {
        &&& #[trigger] after_broadcast(remote, push) == remote.union(local)
        &&& horizon.union(pulled_values).union(push.values()).subset_of(
            after_broadcast(remote, push),
        )
    } by {
        assert(after_broadcast(remote, push) =~= remote.union(local));
    }
}

/// Pulling keeps the horizon below the neighbour's values: a `read_ok` of
/// values that the neighbour had, which it keeps, adds none it lacks.
pub proof fn lemma_pull_stays_below(horizon: Set<i64>, remote: Set<i64>, outcome: Outcome)
    requires
        horizon.subset_of(remote),
        pulled(outcome).subset_of(remote),
    ensures
        horizon.union(pulled(outcome)).subset_of(remote),
{
}

/// The values of each node after one round of gossip in which every
/// exchange succeeded: node `v` also has every value of each node `u` whose
/// neighbour list `links[u]` names it.
pub open spec fn gossip_round(known: Seq<Set<i64>>, links: Seq<Set<int>>) -> Seq<Set<i64>> {
    Seq::new(
        known.len(),
        |v: int|
            known[v].union(
                Set::new(
                    |x: i64|
                        exists|u: int|
                            0 <= u < known.len() && #[trigger] links[u].contains(v) && known[u].contains(
                                x,
                            ),
                ),
            ),
    )
}

/// The values of each node after `k` such rounds.
pub open spec fn gossip_rounds(known: Seq<Set<i64>>, links: Seq<Set<int>>, k: nat) -> Seq<
    Set<i64>,
>
    decreases k,
{
    if k == 0 {
        known
    } else {
        gossip_round(gossip_rounds(known, links, (k - 1) as nat), links)
    }
}

/// A walk along neighbour links among nodes `0..n`.
pub open spec fn is_link_path(links: Seq<Set<int>>, path: Seq<int>, n: int) -> bool {
    &&& links.len() == n
    &&& path.len() >= 1
    &&& forall|i: int| 0 <= i < path.len() ==> 0 <= #[trigger] path[i] < n
    &&& forall|i: int| 0 <= i < path.len() - 1 ==> #[trigger] links[path[i]].contains(path[i + 1])
}

proof fn lemma_rounds_len(known: Seq<Set<i64>>, links: Seq<Set<int>>, k: nat)
    ensures
        gossip_rounds(known, links, k).len() == known.len(),
    decreases k,
{
    if k > 0 {
        lemma_rounds_len(known, links, (k - 1) as nat);
    }
}

proof fn lemma_reaches_step(
    known: Seq<Set<i64>>,
    links: Seq<Set<int>>,
    path: Seq<int>,
    x: i64,
    i: nat,
)
    requires
        is_link_path(links, path, known.len() as int),
        known[path[0]].contains(x),
        i < path.len(),
    ensures
        gossip_rounds(known, links, i)[path[i as int]].contains(x),
    decreases i,
{
    if i > 0 {
        let prev = (i - 1) as nat;
        lemma_reaches_step(known, links, path, x, prev);
        lemma_rounds_len(known, links, prev);
        let before = gossip_rounds(known, links, prev);
        let u = path[prev as int];
        assert(links[path[prev as int]].contains(path[prev as int + 1]));
        assert(before[u].contains(x));
    }
}

/// Convergence: when every exchange succeeds, a value known to the first
/// node of a walk along neighbour links of `k` steps is known to its last
/// node after `k` rounds. In a connected neighbour graph of `n` nodes every
/// node is such a walk of fewer than `n` steps away from any other.
pub proof fn lemma_gossip_converges(
    known: Seq<Set<i64>>,
    links: Seq<Set<int>>,
    path: Seq<int>,
    x: i64,
)
    requires
        is_link_path(links, path, known.len() as int),
        known[path[0]].contains(x),
    ensures
        gossip_rounds(known, links, (path.len() - 1) as nat)[path.last()].contains(x),
{
    lemma_reaches_step(known, links, path, x, (path.len() - 1) as nat);
}

} // verus!
