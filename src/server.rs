use crate::error::Error;
use crate::node::NodeContext;
use crate::protocol::{InitOk, Message, MessageBody, MessageId, Payload};
use vstd::prelude::*;

verus! {

/// Starts a node's session with the driving process.
#[derive(Debug, Default, Clone, Copy, PartialEq, Eq, Structural)]
pub struct Server;

impl Server {
    /// Takes the first message of a session, which must be `init`: the node
    /// takes the id that it names, and answers with `init_ok` under the
    /// first outbound id. Any other first message is refused.
    pub fn initialize<C>(self, message: &Message) -> (r: Result<(NodeContext<C>, Message), Error>)
        ensures
            match message.body.payload {
                Payload::Decoded(MessageBody::Init(init)) => {
                    &&& r matches Ok((context, reply))
                    &&& context.node() == init.node_id
                    &&& context.pending() == Map::<u64, C>::empty()
                    &&& context.upcoming_id() == 1
                    &&& context.wf()
                    &&& reply.src == init.node_id
                    &&& reply.dest == message.src
                    &&& reply.body.msg_id == Some(MessageId(0))
                    &&& reply.body.in_reply_to == message.body.msg_id
                    &&& reply.body.payload == Payload::Decoded(MessageBody::InitOk(InitOk {}))
                },
                _ => r matches Err(Error::DecodeFailure),
            },
    {
        let node_id = match &message.body.payload {
            Payload::Decoded(MessageBody::Init(init)) => init.node_id.clone(),
            _ => return Err(Error::DecodeFailure),
        };
        let mut context: NodeContext<C> = NodeContext::new(node_id);
        let reply = context.reply(message, MessageBody::InitOk(InitOk {}));
        Ok((context, reply))
    }
}

} // verus!
