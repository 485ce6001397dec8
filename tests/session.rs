use gossip_glomers::error::Error;
use gossip_glomers::node::NodeContext;
use gossip_glomers::protocol::{
    Body, Generate, Init, InitOk, Message, MessageBody, MessageId, NodeId, Payload, Read,
};
use gossip_glomers::server::Server;
use gossip_glomers::unique_id::{generate, serve_generate};

fn node(name: &str) -> NodeId {
    NodeId::new(name.to_string())
}

#[test]
fn init_starts_the_session() {
    let init = Message {
        src: node("c0"),
        dest: node("n3"),
        body: Body {
            msg_id: Some(MessageId(1)),
            in_reply_to: None,
            payload: Payload::Decoded(MessageBody::Init(Init {
                node_id: node("n3"),
                node_ids: vec![node("n1"), node("n2"), node("n3")],
            })),
        },
    };
    let (ctx, reply): (NodeContext<u32>, Message) =
        Server::default().initialize(&init).expect("init is accepted");
    assert_eq!(ctx.node_id(), node("n3"));
    assert_eq!(reply.src, node("n3"));
    assert_eq!(reply.dest, node("c0"));
    assert_eq!(reply.body.msg_id, Some(MessageId(0)));
    assert_eq!(reply.body.in_reply_to, Some(MessageId(1)));
    assert!(matches!(
        reply.body.payload,
        Payload::Decoded(MessageBody::InitOk(InitOk {}))
    ));
}

#[test]
fn first_message_other_than_init_is_refused() {
    let read = Message {
        src: node("c0"),
        dest: node("n3"),
        body: Body {
            msg_id: Some(MessageId(1)),
            in_reply_to: None,
            payload: Payload::Decoded(MessageBody::Read(Read {})),
        },
    };
    let r: Result<(NodeContext<u32>, Message), Error> = Server.initialize(&read);
    assert!(matches!(r, Err(Error::DecodeFailure)));
}

#[test]
fn two_generate_calls_give_distinct_ids() {
    let a = generate(Generate {});
    let b = generate(Generate {});
    assert_ne!(a.id, b.id);
    for id in [a.id, b.id] {
        assert_eq!((id >> 76) & 0xf, 4);
        assert_eq!((id >> 62) & 0x3, 2);
    }
}

#[test]
fn generate_route_serves_only_generate() {
    match serve_generate(MessageBody::Generate(Generate {})) {
        Ok(MessageBody::GenerateOk(ok)) => assert_eq!((ok.id >> 76) & 0xf, 4),
        other => panic!("unexpected {:?}", other),
    }
    assert!(matches!(
        serve_generate(MessageBody::Read(Read {})),
        Err(Error::DecodeFailure)
    ));
}
