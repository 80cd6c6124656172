//! What a handler asks the platform to send, and what comes back.

use vstd::prelude::*;
use crate::address::Address;
use crate::encoding::{IpldBlock, IpldBlockView, option_block_view};
use crate::error::{ActorError, ActorErrorView};

verus! {

/// A message for the platform to send to another actor.
#[derive(Clone, Debug, PartialEq, Eq)]
pub struct OutboundMessage {
    /// The receiver.
    pub to: Address,
    /// The number of the method to invoke on the receiver.
    pub method: u64,
    /// The encoded parameters of the method, if it takes any.
    pub params: Option<IpldBlock>,
    /// The funds sent along.
    pub value: u64,
}

/// What an [`OutboundMessage`] holds.
pub struct OutboundMessageView {
    pub to: Seq<u8>,
    pub method: u64,
    pub params: Option<IpldBlockView>,
    pub value: u64,
}

impl View for OutboundMessage {
    type V = OutboundMessageView;

    open spec fn view(&self) -> OutboundMessageView {
        OutboundMessageView {
            to: self.to@,
            method: self.method,
            params: option_block_view(self.params),
            value: self.value,
        }
    }
}

/// The outcome of a send, as the platform reports it: what the receiver
/// returned, or why the send failed or the receiver aborted.
pub type SendResult = Result<Option<IpldBlock>, ActorError>;

/// What a [`SendResult`] holds.
pub type SendResultView = Result<Option<IpldBlockView>, ActorErrorView>;

/// What the outcome of a send holds.
pub open spec fn send_result_view(reply: SendResult) -> SendResultView {
    match reply {
        Ok(block) => Ok(option_block_view(block)),
        Err(e) => Err(e@),
    }
}

} // verus!
