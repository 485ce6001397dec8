use gossip_glomers::protocol::{
    Body, Broadcast, BroadcastMessage, BroadcastOk, Echo, Init, InitOk, Message, MessageBody,
    MessageId, MessageIdGenerator, NodeId, Payload, Read, ReadOk, Topology, TopologyOk,
};

fn node(name: &str) -> NodeId {
    NodeId::new(name.to_string())
}

#[test]
fn server_and_client_prefixes() {
    assert!(node("n1").is_server_node());
    assert!(!node("n1").is_client_node());
    assert!(node("c7").is_client_node());
    assert!(!node("c7").is_server_node());
    assert!(!node("").is_server_node());
    assert!(!node("").is_client_node());
    assert!(!node("x3").is_server_node());
}

#[test]
fn ids_are_consecutive_and_distinct() {
    let mut ids = MessageIdGenerator::new();
    assert!(ids.can_issue());
    let a = ids.next_id();
    let b = ids.next_id();
    let c = ids.next_id();
    assert_eq!(a, MessageId(0));
    assert_eq!(b, MessageId(1));
    assert_eq!(c, MessageId(2));
    assert_ne!(a, b);
}

#[test]
fn type_tags_follow_the_wire_names() {
    assert_eq!(MessageBody::Read(Read {}).msg_type(), "read");
    assert_eq!(MessageBody::BroadcastOk(BroadcastOk {}).msg_type(), "broadcast_ok");
    assert_eq!(MessageBody::TopologyOk(TopologyOk {}).msg_type(), "topology_ok");
    assert_eq!(MessageBody::InitOk(InitOk {}).msg_type(), "init_ok");
    assert_eq!(
        MessageBody::ReadOk(ReadOk { messages: vec![] }).msg_type(),
        "read_ok"
    );
    assert_eq!(
        MessageBody::Echo(Echo { echo: serde_json::Value::Null }).msg_type(),
        "echo"
    );
    assert_eq!(
        MessageBody::Init(Init { node_id: node("n1"), node_ids: vec![] }).msg_type(),
        "init"
    );
}

#[test]
fn bodies_convert_into_message_body() {
    assert!(matches!(MessageBody::from(Read {}), MessageBody::Read(_)));
    assert!(matches!(MessageBody::from(BroadcastOk {}), MessageBody::BroadcastOk(_)));
    let body: MessageBody = ReadOk { messages: vec![3] }.into();
    match body {
        MessageBody::ReadOk(r) => assert_eq!(r.messages, vec![3]),
        other => panic!("unexpected {:?}", other),
    }
}

#[test]
fn message_accessors() {
    let m = Message {
        src: node("c1"),
        dest: node("n1"),
        body: Body {
            msg_id: Some(MessageId(4)),
            in_reply_to: Some(MessageId(9)),
            payload: Payload::Undecoded("frobnicate".to_string()),
        },
    };
    assert_eq!(m.msg_id(), Some(MessageId(4)));
    assert_eq!(m.in_reply_to(), Some(MessageId(9)));
    assert_eq!(m.msg_type(), Some("frobnicate".to_string()));
    let untyped = Message {
        src: node("c1"),
        dest: node("n1"),
        body: Body { msg_id: None, in_reply_to: None, payload: Payload::Untyped },
    };
    assert_eq!(untyped.msg_type(), None);
    assert_eq!(untyped.msg_id(), None);
}

#[test]
fn clones_keep_contents() {
    let body = MessageBody::Topology(Topology {
        topology: vec![(node("n1"), vec![node("n2"), node("n3")])],
    });
    match body.clone() {
        MessageBody::Topology(t) => {
            assert_eq!(t.topology.len(), 1);
            assert_eq!(t.topology[0].0, node("n1"));
            assert_eq!(t.topology[0].1, vec![node("n2"), node("n3")]);
        }
        other => panic!("unexpected {:?}", other),
    }
    let e = MessageBody::Echo(Echo { echo: serde_json::Value::from(vec![1, 2, 3]) });
    match e.clone() {
        MessageBody::Echo(Echo { echo }) => assert_eq!(echo, serde_json::Value::from(vec![1, 2, 3])),
        other => panic!("unexpected {:?}", other),
    }
    let b = MessageBody::Broadcast(Broadcast { message: BroadcastMessage::Batch(vec![1, 2]) });
    match b.clone() {
        MessageBody::Broadcast(Broadcast { message: BroadcastMessage::Batch(vs) }) => {
            assert_eq!(vs, vec![1, 2])
        }
        other => panic!("unexpected {:?}", other),
    }
}
