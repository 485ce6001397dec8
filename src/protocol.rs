use vstd::prelude::*;

verus! {

/// A JSON value, carried through unread.
#[verifier::external_type_specification]
#[verifier::external_body]
pub struct ExValue(serde_json::Value);

/// Relies on the derived `Clone` of `serde_json::Value`: the copy is equal.
pub assume_specification[ <serde_json::Value as Clone>::clone ](v: &serde_json::Value) -> (r:
    serde_json::Value)
    ensures
        r == *v,
;

/// Whether a node name begins with the given character.
pub open spec fn starts_with_char(s: Seq<char>, c: char) -> bool {
    s.len() > 0 && s[0] == c
}

/// The name of a node; a leading `n` marks a server node and a leading `c`
/// an external client, by convention only.
#[derive(Debug, PartialEq, Eq, Hash)]
pub struct NodeId(String);

impl View for NodeId {
    type V = Seq<char>;

    closed spec fn view(&self) -> Seq<char> {
        self.0@
    }
}

impl Clone for NodeId {
    fn clone(&self) -> (r: Self)
        ensures
            r == *self,
    {
        NodeId(self.0.clone())
    }
}

impl NodeId {
    pub fn new(name: String) -> (r: NodeId)
        ensures
            r@ == name@,
    {
        NodeId(name)
    }

    pub fn as_str(&self) -> (r: &str)
        ensures
            r@ == self@,
    {
        self.0.as_str()
    }

    pub fn same_as(&self, other: &NodeId) -> (r: bool)
        ensures
            r == (self@ == other@),
    {
        self.0 == other.0
    }

    fn first_char_is(&self, c: char) -> (r: bool)
        ensures
            r == starts_with_char(self@, c),
    {
        let mut chars = self.0.as_str().chars();
        match chars.next() {
            Some(first) => first == c,
            None => false,
        }
    }

    pub fn is_server_node(&self) -> (r: bool)
        ensures
            r == starts_with_char(self@, 'n'),
    {
        self.first_char_is('n')
    }

    pub fn is_client_node(&self) -> (r: bool)
        ensures
            r == starts_with_char(self@, 'c'),
    {
        self.first_char_is('c')
    }
}

/// Correlation id of a request, unique within one node's outbound stream.
#[derive(Debug, Default, Clone, Copy, PartialEq, Eq, Hash, Structural)]
pub struct MessageId(pub u64);

/// Hands out consecutive message ids, starting from zero.
#[derive(Debug, Default)]
pub struct MessageIdGenerator {
    next: u64,
}

impl MessageIdGenerator {
    /// The id that the next call of `next_id` hands out.
    pub closed spec fn upcoming(&self) -> nat {
        self.next as nat
    }

    pub fn new() -> (r: MessageIdGenerator)
        ensures
            r.upcoming() == 0,
    {
        MessageIdGenerator { next: 0 }
    }

    /// Whether another id can be handed out without leaving the `u64` range.
    pub fn can_issue(&self) -> (r: bool)
        ensures
            r == (self.upcoming() < u64::MAX),
    {
        self.next < u64::MAX
    }

    pub fn next_id(&mut self) -> (r: MessageId)
        requires
            old(self).upcoming() < u64::MAX,
        ensures
            r.0 == old(self).upcoming(),
            final(self).upcoming() == old(self).upcoming() + 1,
    {
        let id = self.next;
        self.next = self.next + 1;
        MessageId(id)
    }
}

/// Clones a list of node ids, element for element.
pub fn clone_node_ids(ids: &Vec<NodeId>) -> (r: Vec<NodeId>)
    ensures
        r@ == ids@,
{
    let mut r: Vec<NodeId> = Vec::new();
    for i in 0..ids.len()
        invariant
            r@ == ids@.subrange(0, i as int),
    {
        r.push(ids[i].clone());
    }
    r
}

#[derive(Debug)]
pub struct Init {
    pub node_id: NodeId,
    pub node_ids: Vec<NodeId>,
}

impl Init {
    /// Equal field for field, lists compared by their contents.
    pub open spec fn mirrors(self, other: Init) -> bool {
        self.node_id == other.node_id && self.node_ids@ == other.node_ids@
    }
}

impl Clone for Init {
    fn clone(&self) -> (r: Self)
        ensures
            r.mirrors(*self),
    {
        Init { node_id: self.node_id.clone(), node_ids: clone_node_ids(&self.node_ids) }
    }
}

#[derive(Debug, Clone, Copy, PartialEq, Eq, Structural)]
pub struct InitOk {}

#[derive(Debug)]
pub struct Echo {
    pub echo: serde_json::Value,
}

#[derive(Debug)]
pub struct EchoOk {
    pub echo: serde_json::Value,
}

#[derive(Debug, Clone, Copy, PartialEq, Eq, Structural)]
pub struct Generate {}

/// A fresh identifier: a UUID, as its 128 bits in big-endian order.
#[derive(Debug, Clone, Copy, PartialEq, Eq, Structural)]
pub struct GenerateOk {
    pub id: u128,
}

/// The value of a broadcast: one integer or a batch of them.
#[derive(Debug)]
pub enum BroadcastMessage {
    Single(i64),
    Batch(Vec<i64>),
}

impl BroadcastMessage {
    /// The integers that the broadcast carries.
    pub open spec fn values(self) -> Set<i64> {
        match self {
            BroadcastMessage::Single(v) => set![v],
            BroadcastMessage::Batch(vs) => vs@.to_set(),
        }
    }
}

impl BroadcastMessage {
    /// Equal, lists compared by their contents.
    pub open spec fn mirrors(self, other: BroadcastMessage) -> bool {
        match (self, other) {
            (BroadcastMessage::Single(a), BroadcastMessage::Single(b)) => a == b,
            (BroadcastMessage::Batch(a), BroadcastMessage::Batch(b)) => a@ == b@,
            _ => false,
        }
    }
}

impl Clone for BroadcastMessage {
    fn clone(&self) -> (r: Self)
        ensures
            r.mirrors(*self),
    {
        match self {
            BroadcastMessage::Single(v) => BroadcastMessage::Single(*v),
            BroadcastMessage::Batch(vs) => {
                let c = vs.clone();
                assert(c@ =~= vs@);
                BroadcastMessage::Batch(c)
            },
        }
    }
}

#[derive(Debug)]
pub struct Broadcast {
    pub message: BroadcastMessage,
}

#[derive(Debug, Clone, Copy, PartialEq, Eq, Structural)]
pub struct BroadcastOk {}

#[derive(Debug, Clone, Copy, PartialEq, Eq, Structural)]
pub struct Read {}

#[derive(Debug)]
pub struct ReadOk {
    pub messages: Vec<i64>,
}

/// A neighbour table: for each listed node, the nodes it gossips with.
#[derive(Debug)]
pub struct Topology {
    pub topology: Vec<(NodeId, Vec<NodeId>)>,
}

impl Topology {
    /// The same entries in the same order, lists compared by their contents.
    pub open spec fn mirrors(self, other: Topology) -> bool {
        &&& self.topology@.len() == other.topology@.len()
        &&& forall|i: int|
            0 <= i < self.topology@.len() ==> (#[trigger] self.topology@[i]).0
                == other.topology@[i].0 && self.topology@[i].1@ == other.topology@[i].1@
    }
}

impl Clone for Topology {
    fn clone(&self) -> (r: Self)
        ensures
            r.mirrors(*self),
    {
        let mut entries: Vec<(NodeId, Vec<NodeId>)> = Vec::new();
        for i in 0..self.topology.len()
            invariant
                entries@.len() == i,
                forall|j: int|
                    0 <= j < i ==> (#[trigger] entries@[j]).0 == self.topology@[j].0
                        && entries@[j].1@ == self.topology@[j].1@,
        {
            let entry = &self.topology[i];
            entries.push((entry.0.clone(), clone_node_ids(&entry.1)));
        }
        Topology { topology: entries }
    }
}

#[derive(Debug, Clone, Copy, PartialEq, Eq, Structural)]
pub struct TopologyOk {}

/// The closed set of request and reply kinds.
#[derive(Debug)]
pub enum MessageBody {
    Init(Init),
    InitOk(InitOk),
    Echo(Echo),
    EchoOk(EchoOk),
    Generate(Generate),
    GenerateOk(GenerateOk),
    Broadcast(Broadcast),
    BroadcastOk(BroadcastOk),
    Read(Read),
    ReadOk(ReadOk),
    Topology(Topology),
    TopologyOk(TopologyOk),
}

impl MessageBody {
    /// The `type` tag that the body carries on the wire.
    pub open spec fn type_tag(self) -> Seq<char> {
        match self {
            MessageBody::Init(_) => "init"@,
            MessageBody::InitOk(_) => "init_ok"@,
            MessageBody::Echo(_) => "echo"@,
            MessageBody::EchoOk(_) => "echo_ok"@,
            MessageBody::Generate(_) => "generate"@,
            MessageBody::GenerateOk(_) => "generate_ok"@,
            MessageBody::Broadcast(_) => "broadcast"@,
            MessageBody::BroadcastOk(_) => "broadcast_ok"@,
            MessageBody::Read(_) => "read"@,
            MessageBody::ReadOk(_) => "read_ok"@,
            MessageBody::Topology(_) => "topology"@,
            MessageBody::TopologyOk(_) => "topology_ok"@,
        }
    }

    pub fn msg_type(&self) -> (r: String)
        ensures
            r@ == self.type_tag(),
    {
        let tag: &str = match self {
            MessageBody::Init(_) => "init",
            MessageBody::InitOk(_) => "init_ok",
            MessageBody::Echo(_) => "echo",
            MessageBody::EchoOk(_) => "echo_ok",
            MessageBody::Generate(_) => "generate",
            MessageBody::GenerateOk(_) => "generate_ok",
            MessageBody::Broadcast(_) => "broadcast",
            MessageBody::BroadcastOk(_) => "broadcast_ok",
            MessageBody::Read(_) => "read",
            MessageBody::ReadOk(_) => "read_ok",
            MessageBody::Topology(_) => "topology",
            MessageBody::TopologyOk(_) => "topology_ok",
        };
        tag.to_owned()
    }
}

impl MessageBody {
    /// Equal, lists compared by their contents.
    pub open spec fn mirrors(self, other: MessageBody) -> bool {
        match (self, other) {
            (MessageBody::Init(a), MessageBody::Init(b)) => a.mirrors(b),
            (MessageBody::Broadcast(a), MessageBody::Broadcast(b)) => a.message.mirrors(b.message),
            (MessageBody::ReadOk(a), MessageBody::ReadOk(b)) => a.messages@ == b.messages@,
            (MessageBody::Topology(a), MessageBody::Topology(b)) => a.mirrors(b),
            (MessageBody::Init(_), _) => false,
            (MessageBody::Broadcast(_), _) => false,
            (MessageBody::ReadOk(_), _) => false,
            (MessageBody::Topology(_), _) => false,
            _ => self == other,
        }
    }
}

impl Clone for MessageBody {
    fn clone(&self) -> (r: Self)
        ensures
            r.mirrors(*self),
    {
        match self {
            MessageBody::Init(b) => MessageBody::Init(b.clone()),
            MessageBody::InitOk(b) => MessageBody::InitOk(*b),
            MessageBody::Echo(b) => MessageBody::Echo(Echo { echo: b.echo.clone() }),
            MessageBody::EchoOk(b) => MessageBody::EchoOk(EchoOk { echo: b.echo.clone() }),
            MessageBody::Generate(b) => MessageBody::Generate(*b),
            MessageBody::GenerateOk(b) => MessageBody::GenerateOk(*b),
            MessageBody::Broadcast(b) => MessageBody::Broadcast(
                Broadcast { message: b.message.clone() },
            ),
            MessageBody::BroadcastOk(b) => MessageBody::BroadcastOk(*b),
            MessageBody::Read(b) => MessageBody::Read(*b),
            MessageBody::ReadOk(b) => {
                let messages = b.messages.clone();
                assert(messages@ =~= b.messages@);
                MessageBody::ReadOk(ReadOk { messages })
            },
            MessageBody::Topology(b) => MessageBody::Topology(b.clone()),
            MessageBody::TopologyOk(b) => MessageBody::TopologyOk(*b),
        }
    }
}

impl From<Init> for MessageBody {
    fn from(body: Init) -> (r: MessageBody) {
        MessageBody::Init(body)
    }
}

impl vstd::std_specs::convert::FromSpecImpl<Init> for MessageBody {
    open spec fn obeys_from_spec() -> bool {
        true
    }

    open spec fn from_spec(body: Init) -> MessageBody {
        MessageBody::Init(body)
    }
}

impl From<InitOk> for MessageBody {
    fn from(body: InitOk) -> (r: MessageBody) {
        MessageBody::InitOk(body)
    }
}

impl vstd::std_specs::convert::FromSpecImpl<InitOk> for MessageBody {
    open spec fn obeys_from_spec() -> bool {
        true
    }

    open spec fn from_spec(body: InitOk) -> MessageBody {
        MessageBody::InitOk(body)
    }
}

impl From<Echo> for MessageBody {
    fn from(body: Echo) -> (r: MessageBody) {
        MessageBody::Echo(body)
    }
}

impl vstd::std_specs::convert::FromSpecImpl<Echo> for MessageBody {
    open spec fn obeys_from_spec() -> bool {
        true
    }

    open spec fn from_spec(body: Echo) -> MessageBody {
        MessageBody::Echo(body)
    }
}

impl From<EchoOk> for MessageBody {
    fn from(body: EchoOk) -> (r: MessageBody) {
        MessageBody::EchoOk(body)
    }
}

impl vstd::std_specs::convert::FromSpecImpl<EchoOk> for MessageBody {
    open spec fn obeys_from_spec() -> bool {
        true
    }

    open spec fn from_spec(body: EchoOk) -> MessageBody {
        MessageBody::EchoOk(body)
    }
}

impl From<Generate> for MessageBody {
    fn from(body: Generate) -> (r: MessageBody) {
        MessageBody::Generate(body)
    }
}

impl vstd::std_specs::convert::FromSpecImpl<Generate> for MessageBody {
    open spec fn obeys_from_spec() -> bool {
        true
    }

    open spec fn from_spec(body: Generate) -> MessageBody {
        MessageBody::Generate(body)
    }
}

impl From<GenerateOk> for MessageBody {
    fn from(body: GenerateOk) -> (r: MessageBody) {
        MessageBody::GenerateOk(body)
    }
}

impl vstd::std_specs::convert::FromSpecImpl<GenerateOk> for MessageBody {
    open spec fn obeys_from_spec() -> bool {
        true
    }

    open spec fn from_spec(body: GenerateOk) -> MessageBody {
        MessageBody::GenerateOk(body)
    }
}

impl From<Broadcast> for MessageBody {
    fn from(body: Broadcast) -> (r: MessageBody) {
        MessageBody::Broadcast(body)
    }
}

impl vstd::std_specs::convert::FromSpecImpl<Broadcast> for MessageBody {
    open spec fn obeys_from_spec() -> bool {
        true
    }

    open spec fn from_spec(body: Broadcast) -> MessageBody {
        MessageBody::Broadcast(body)
    }
}

impl From<BroadcastOk> for MessageBody {
    fn from(body: BroadcastOk) -> (r: MessageBody) {
        MessageBody::BroadcastOk(body)
    }
}

impl vstd::std_specs::convert::FromSpecImpl<BroadcastOk> for MessageBody {
    open spec fn obeys_from_spec() -> bool {
        true
    }

    open spec fn from_spec(body: BroadcastOk) -> MessageBody {
        MessageBody::BroadcastOk(body)
    }
}

impl From<Read> for MessageBody {
    fn from(body: Read) -> (r: MessageBody) {
        MessageBody::Read(body)
    }
}

impl vstd::std_specs::convert::FromSpecImpl<Read> for MessageBody {
    open spec fn obeys_from_spec() -> bool {
        true
    }

    open spec fn from_spec(body: Read) -> MessageBody {
        MessageBody::Read(body)
    }
}

impl From<ReadOk> for MessageBody {
    fn from(body: ReadOk) -> (r: MessageBody) {
        MessageBody::ReadOk(body)
    }
}

impl vstd::std_specs::convert::FromSpecImpl<ReadOk> for MessageBody {
    open spec fn obeys_from_spec() -> bool {
        true
    }

    open spec fn from_spec(body: ReadOk) -> MessageBody {
        MessageBody::ReadOk(body)
    }
}

impl From<Topology> for MessageBody {
    fn from(body: Topology) -> (r: MessageBody) {
        MessageBody::Topology(body)
    }
}

impl vstd::std_specs::convert::FromSpecImpl<Topology> for MessageBody {
    open spec fn obeys_from_spec() -> bool {
        true
    }

    open spec fn from_spec(body: Topology) -> MessageBody {
        MessageBody::Topology(body)
    }
}

impl From<TopologyOk> for MessageBody {
    fn from(body: TopologyOk) -> (r: MessageBody) {
        MessageBody::TopologyOk(body)
    }
}

impl vstd::std_specs::convert::FromSpecImpl<TopologyOk> for MessageBody {
    open spec fn obeys_from_spec() -> bool {
        true
    }

    open spec fn from_spec(body: TopologyOk) -> MessageBody {
        MessageBody::TopologyOk(body)
    }
}

/// What a message body holds besides its ids: a body of a known kind, or
/// the `type` tag of one whose fields did not match that kind, or nothing
/// when the body has no `type` tag.
#[derive(Debug)]
pub enum Payload {
    Decoded(MessageBody),
    Undecoded(String),
    Untyped,
}

impl Payload {
    /// The body's `type` tag, if it has one.
    pub open spec fn type_tag(self) -> Option<Seq<char>> {
        match self {
            Payload::Decoded(b) => Some(b.type_tag()),
            Payload::Undecoded(t) => Some(t@),
            Payload::Untyped => None,
        }
    }
}

impl Payload {
    /// Equal, lists compared by their contents.
    pub open spec fn mirrors(self, other: Payload) -> bool {
        match (self, other) {
            (Payload::Decoded(a), Payload::Decoded(b)) => a.mirrors(b),
            (Payload::Decoded(_), _) => false,
            _ => self == other,
        }
    }
}

impl Clone for Payload {
    fn clone(&self) -> (r: Self)
        ensures
            r.mirrors(*self),
    {
        match self {
            Payload::Decoded(b) => Payload::Decoded(b.clone()),
            Payload::Undecoded(t) => Payload::Undecoded(t.clone()),
            Payload::Untyped => Payload::Untyped,
        }
    }
}

/// A message body: its payload and its correlation ids.
#[derive(Debug)]
pub struct Body {
    pub msg_id: Option<MessageId>,
    pub in_reply_to: Option<MessageId>,
    pub payload: Payload,
}

/// An envelope: sender, addressee and body.
#[derive(Debug)]
pub struct Message {
    pub src: NodeId,
    pub dest: NodeId,
    pub body: Body,
}

impl Message {
    pub fn msg_type(&self) -> (r: Option<String>)
        ensures
            match r {
                Some(t) => self.body.payload.type_tag() == Some(t@),
                None => self.body.payload.type_tag() is None,
            },
    {
        match &self.body.payload {
            Payload::Decoded(b) => Some(b.msg_type()),
            Payload::Undecoded(t) => Some(t.clone()),
            Payload::Untyped => None,
        }
    }

    pub fn msg_id(&self) -> (r: Option<MessageId>)
        ensures
            r == self.body.msg_id,
    {
        self.body.msg_id
    }

    pub fn in_reply_to(&self) -> (r: Option<MessageId>)
        ensures
            r == self.body.in_reply_to,
    {
        self.body.in_reply_to
    }
}

} // verus!
