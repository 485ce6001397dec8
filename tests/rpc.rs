use gossip_glomers::error::Error;
use gossip_glomers::node::{NodeContext, Node, Router};
use gossip_glomers::protocol::{
    Body, Message, MessageBody, MessageId, NodeId, Payload, Read, ReadOk,
};

fn node(name: &str) -> NodeId {
    NodeId::new(name.to_string())
}

fn reply_to(id: u64, payload: Payload) -> Message {
    Message {
        src: node("n2"),
        dest: node("n1"),
        body: Body { msg_id: Some(MessageId(50)), in_reply_to: Some(MessageId(id)), payload },
    }
}

fn read_ok(values: Vec<i64>) -> Payload {
    Payload::Decoded(MessageBody::ReadOk(ReadOk { messages: values }))
}

#[test]
fn reply_is_tagged_with_fresh_id_and_request_id() {
    let mut ctx: NodeContext<u32> = NodeContext::new(node("n1"));
    let request = Message {
        src: node("c1"),
        dest: node("n1"),
        body: Body {
            msg_id: Some(MessageId(7)),
            in_reply_to: None,
            payload: Payload::Decoded(MessageBody::Read(Read {})),
        },
    };
    let first = ctx.reply(&request, MessageBody::ReadOk(ReadOk { messages: vec![] }));
    let second = ctx.reply(&request, MessageBody::ReadOk(ReadOk { messages: vec![] }));
    assert_eq!(first.src, node("n1"));
    assert_eq!(first.dest, node("c1"));
    assert_eq!(first.body.msg_id, Some(MessageId(0)));
    assert_eq!(first.body.in_reply_to, Some(MessageId(7)));
    assert_eq!(second.body.msg_id, Some(MessageId(1)));
}

#[test]
fn reply_to_message_without_id_answers_nothing() {
    let mut ctx: NodeContext<u32> = NodeContext::new(node("n1"));
    let request = Message {
        src: node("c1"),
        dest: node("n1"),
        body: Body {
            msg_id: None,
            in_reply_to: None,
            payload: Payload::Decoded(MessageBody::Read(Read {})),
        },
    };
    let r = ctx.reply(&request, MessageBody::ReadOk(ReadOk { messages: vec![] }));
    assert_eq!(r.body.in_reply_to, None);
}

#[test]
fn call_builds_request_and_registers_it() {
    let mut ctx: NodeContext<u32> = NodeContext::new(node("n1"));
    let mut service = ctx.send_to(node("n2"));
    assert_eq!(service.msg_id(), None);
    let (message, superseded) = service.call(&mut ctx, MessageBody::Read(Read {}), 10);
    assert!(superseded.is_none());
    assert_eq!(message.src, node("n1"));
    assert_eq!(message.dest, node("n2"));
    assert_eq!(message.body.msg_id, Some(MessageId(0)));
    assert_eq!(message.body.in_reply_to, None);
    assert_eq!(service.msg_id(), Some(MessageId(0)));
    assert_eq!(service.dst(), &node("n2"));
}

#[test]
fn second_request_on_a_handle_cancels_the_first() {
    let mut ctx: NodeContext<u32> = NodeContext::new(node("n1"));
    let mut service = ctx.send_to(node("n2"));
    let (_, none) = service.call(&mut ctx, MessageBody::Read(Read {}), 10);
    assert!(none.is_none());
    let (second, superseded) = service.call(&mut ctx, MessageBody::Read(Read {}), 11);
    let cancelled = superseded.expect("the first request is superseded");
    assert_eq!(cancelled.completion, 10);
    assert!(matches!(cancelled.outcome, Err(Error::RequestCancelled)));
    assert_eq!(second.body.msg_id, Some(MessageId(1)));
    // the first id no longer resolves anything; the second still does
    assert!(ctx.acknowledge(MessageId(0), None).is_none());
    let answered = ctx.acknowledge(MessageId(1), None).expect("second is pending");
    assert_eq!(answered.completion, 11);
}

#[test]
fn abandoning_a_handle_resolves_as_answered() {
    let mut ctx: NodeContext<u32> = NodeContext::new(node("n1"));
    let mut service = ctx.send_to(node("n2"));
    service.call(&mut ctx, MessageBody::Read(Read {}), 3);
    let res = service.abandon(&mut ctx).expect("was pending");
    assert_eq!(res.completion, 3);
    assert!(matches!(res.outcome, Ok(None)));
    assert_eq!(service.msg_id(), None);
    assert!(service.abandon(&mut ctx).is_none());
}

#[test]
fn cancel_resolves_once() {
    let mut ctx: NodeContext<u32> = NodeContext::new(node("n1"));
    let mut service = ctx.send_to(node("n2"));
    service.call(&mut ctx, MessageBody::Read(Read {}), 4);
    let res = ctx.cancel(MessageId(0)).expect("pending");
    assert!(matches!(res.outcome, Err(Error::RequestCancelled)));
    assert!(ctx.cancel(MessageId(0)).is_none());
    assert!(ctx.acknowledge(MessageId(0), None).is_none());
}

#[test]
fn only_matching_reply_resolves_request() {
    let router: Router<u8> = Router::new();
    let mut ctx: NodeContext<u32> = NodeContext::new(node("n1"));
    let mut service = ctx.send_to(node("n2"));
    service.call(&mut ctx, MessageBody::Read(Read {}), 21);
    let stray = router.handle(&mut ctx, reply_to(99, read_ok(vec![1])));
    assert!(stray.resolved.is_none());
    assert!(matches!(stray.routed, Err(Error::UnroutableMessage)));
    let matching = router.handle(&mut ctx, reply_to(0, read_ok(vec![4, 5])));
    let res = matching.resolved.expect("the reply resolves the request");
    assert_eq!(res.completion, 21);
    match res.outcome {
        Ok(Some(Payload::Decoded(MessageBody::ReadOk(r)))) => assert_eq!(r.messages, vec![4, 5]),
        other => panic!("unexpected outcome {:?}", other),
    }
    // a duplicate reply finds nothing pending
    let again = router.handle(&mut ctx, reply_to(0, read_ok(vec![4, 5])));
    assert!(again.resolved.is_none());
}

#[test]
fn routed_message_reaches_its_handler() {
    let router: Router<u8> = Node::with_state(())
        .add_handler("read", 1u8)
        .add_handler("broadcast", 2u8)
        .into_parts()
        .1;
    let mut ctx: NodeContext<u32> = NodeContext::new(node("n1"));
    let message = Message {
        src: node("c1"),
        dest: node("n1"),
        body: Body {
            msg_id: Some(MessageId(1)),
            in_reply_to: None,
            payload: Payload::Decoded(MessageBody::Read(Read {})),
        },
    };
    let inbound = router.handle(&mut ctx, message);
    assert!(inbound.resolved.is_none());
    let routed = inbound.routed.expect("read is routed");
    assert_eq!(routed.handler, 1);
    assert_eq!(routed.message.body.msg_id, Some(MessageId(1)));
}

#[test]
fn reply_that_is_also_routed_resolves_and_routes() {
    let mut router: Router<u8> = Router::new();
    router.register("read_ok", 5);
    let mut ctx: NodeContext<u32> = NodeContext::new(node("n1"));
    let mut service = ctx.send_to(node("n2"));
    service.call(&mut ctx, MessageBody::Read(Read {}), 8);
    let inbound = router.handle(&mut ctx, reply_to(0, read_ok(vec![])));
    assert_eq!(inbound.resolved.expect("resolved").completion, 8);
    assert_eq!(inbound.routed.expect("routed").handler, 5);
}

#[test]
fn unknown_type_is_unroutable() {
    let mut router: Router<u8> = Router::new();
    router.register("read", 1);
    let mut ctx: NodeContext<u32> = NodeContext::new(node("n1"));
    let m = Message {
        src: node("c1"),
        dest: node("n1"),
        body: Body {
            msg_id: Some(MessageId(1)),
            in_reply_to: None,
            payload: Payload::Undecoded("gossip".to_string()),
        },
    };
    assert!(matches!(router.handle(&mut ctx, m).routed, Err(Error::UnroutableMessage)));
    let untyped = Message {
        src: node("c1"),
        dest: node("n1"),
        body: Body { msg_id: None, in_reply_to: None, payload: Payload::Untyped },
    };
    assert!(matches!(router.handle(&mut ctx, untyped).routed, Err(Error::UnroutableMessage)));
}

#[test]
fn mismatched_fields_fail_to_decode() {
    let mut router: Router<u8> = Router::new();
    router.register("broadcast", 2);
    let mut ctx: NodeContext<u32> = NodeContext::new(node("n1"));
    let m = Message {
        src: node("c1"),
        dest: node("n1"),
        body: Body {
            msg_id: Some(MessageId(1)),
            in_reply_to: None,
            payload: Payload::Undecoded("broadcast".to_string()),
        },
    };
    assert!(matches!(router.handle(&mut ctx, m).routed, Err(Error::DecodeFailure)));
}

#[test]
fn registering_again_replaces_the_handler() {
    let mut router: Router<u8> = Router::new();
    assert_eq!(router.lookup(&"read".to_string()), None);
    router.register("read", 1);
    router.register("echo", 3);
    router.register("read", 2);
    assert_eq!(router.lookup(&"read".to_string()), Some(2));
    assert_eq!(router.lookup(&"echo".to_string()), Some(3));
    assert_eq!(router.lookup(&"topology".to_string()), None);
}

#[test]
fn context_reports_its_node() {
    let ctx: NodeContext<u32> = NodeContext::new(node("n4"));
    assert_eq!(ctx.node_id(), node("n4"));
    assert!(ctx.can_issue());
}

#[test]
fn respond_only_when_a_reply_is_expected() {
    let mut ctx: NodeContext<u32> = NodeContext::new(node("n1"));
    let fire_and_forget = Message {
        src: node("c1"),
        dest: node("n1"),
        body: Body {
            msg_id: None,
            in_reply_to: None,
            payload: Payload::Decoded(MessageBody::Read(Read {})),
        },
    };
    assert!(ctx
        .respond(&fire_and_forget, MessageBody::ReadOk(ReadOk { messages: vec![] }))
        .is_none());
    let request = Message {
        src: node("c1"),
        dest: node("n1"),
        body: Body {
            msg_id: Some(MessageId(12)),
            in_reply_to: None,
            payload: Payload::Decoded(MessageBody::Read(Read {})),
        },
    };
    let reply = ctx
        .respond(&request, MessageBody::ReadOk(ReadOk { messages: vec![] }))
        .expect("a reply is expected");
    assert_eq!(reply.body.msg_id, Some(MessageId(0)));
    assert_eq!(reply.body.in_reply_to, Some(MessageId(12)));
    assert_eq!(reply.dest, node("c1"));
}
