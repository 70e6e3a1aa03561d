//! Messages between chains.

use vstd::prelude::*;

use crate::state::{copied, ChainId};

verus! {

/// What a message is about.
#[derive(Clone, Copy, Debug, PartialEq, Eq, Structural)]
pub enum MessageType {
    StateTransition,
    StateProof,
}

/// A message from one chain to another, or to any chain where no target is named.
#[derive(Debug)]
pub struct FrostMessage {
    pub message_type: MessageType,
    pub payload: Vec<u8>,
    pub source_chain: ChainId,
    pub target_chain: Option<ChainId>,
}

/// What a message says.
#[verifier::ext_equal]
pub struct MessageView {
    pub message_type: MessageType,
    pub payload: Seq<u8>,
    pub source_chain: Seq<char>,
    pub target_chain: Option<Seq<char>>,
}

impl View for FrostMessage {
    type V = MessageView;

    open spec fn view(&self) -> MessageView {
        MessageView {
            message_type: self.message_type,
            payload: self.payload@,
            source_chain: self.source_chain.id@,
            target_chain: match self.target_chain {
                Some(chain) => Some(chain.id@),
                None => None,
            },
        }
    }
}

impl FrostMessage {
    /// A message from the chain `source` to the chain `target`.
    pub fn new(
        message_type: MessageType,
        payload: Vec<u8>,
        source: String,
        target: Option<String>,
    ) -> (r: Self)
        ensures
            r@ == (MessageView {
                message_type,
                payload: payload@,
                source_chain: source@,
                target_chain: match target {
                    Some(chain) => Some(chain@),
                    None => None,
                },
            }),
    {
        let target_chain = match target {
            Some(chain) => Some(ChainId { id: chain }),
            None => None,
        };
        FrostMessage { message_type, payload, source_chain: ChainId { id: source }, target_chain }
    }
}

impl Clone for FrostMessage {
    fn clone(&self) -> (r: Self)
        ensures
            r@ == self@,
    {
        let target_chain = match &self.target_chain {
            Some(chain) => Some(chain.clone()),
            None => None,
        };
        FrostMessage {
            message_type: self.message_type,
            payload: copied(self.payload.as_slice()),
            source_chain: self.source_chain.clone(),
            target_chain,
        }
    }
}

/// What a message says is what it holds.
pub proof fn law_messages_say_what_they_hold(m: FrostMessage)
    ensures
        m@.message_type == m.message_type,
        m@.payload == m.payload@,
        m@.source_chain == m.source_chain.id@,
        m.target_chain matches Some(chain) ==> m@.target_chain == Some(chain.id@),
        m.target_chain is None ==> m@.target_chain is None,
{
}

} // verus!
