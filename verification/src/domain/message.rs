use vstd::prelude::*;

use crate::domain::ids::{ChannelIndex, NodeId, PacketId};

verus! {

/// Which way a message travelled.
#[derive(Copy, Clone, Debug, PartialEq, Eq, Structural)]
pub enum Direction {
    Incoming,
    Outgoing,
}

/// Who a message is addressed to.
#[derive(Copy, Clone, Debug, PartialEq, Eq, Structural)]
pub enum Recipient {
    Broadcast,
    Node(NodeId),
}

/// Delivery progress of a message: queued, handed to the radio, acknowledged
/// by the recipient, or failed (with a reason).
#[derive(Debug, PartialEq, Eq)]
pub enum DeliveryState {
    Queued,
    Sent,
    Acked,
    Failed(String),
}

impl Clone for DeliveryState {
    fn clone(&self) -> (r: Self)
        ensures
            r == *self,
    {
        match self {
            DeliveryState::Queued => DeliveryState::Queued,
            DeliveryState::Sent => DeliveryState::Sent,
            DeliveryState::Acked => DeliveryState::Acked,
            DeliveryState::Failed(reason) => DeliveryState::Failed(reason.clone()),
        }
    }
}

/// How far along a delivery is: queued 0, sent 1, acknowledged or failed 2.
pub open spec fn rank_of(s: DeliveryState) -> nat {
    match s {
        DeliveryState::Queued => 0,
        DeliveryState::Sent => 1,
        DeliveryState::Acked => 2,
        DeliveryState::Failed(_) => 2,
    }
}

impl DeliveryState {
    /// How far along the delivery is: `Queued < Sent < Acked = Failed`.
    pub fn rank(&self) -> (r: u8)
        ensures
            r as nat == rank_of(*self),
    {
        match self {
            Self::Queued => 0,
            Self::Sent => 1,
            Self::Acked => 2,
            Self::Failed(_) => 2,
        }
    }

    /// The delivery has finished, successfully or not.
    pub fn is_terminal(&self) -> (r: bool)
        ensures
            r == (*self is Acked || *self is Failed),
    {
        match self {
            Self::Acked => true,
            Self::Failed(_) => true,
            _ => false,
        }
    }
}

/// A text message on a channel or between two nodes. `received_at_ms` is the
/// reception (or sending) time in milliseconds since the Unix epoch.
#[derive(Debug, PartialEq, Eq)]
pub struct TextMessage {
    pub id: PacketId,
    pub channel: ChannelIndex,
    pub from: NodeId,
    pub to: Recipient,
    pub text: String,
    pub received_at_ms: u64,
    pub direction: Direction,
    pub state: DeliveryState,
}

impl Clone for TextMessage {
    fn clone(&self) -> (r: Self)
        ensures
            r == *self,
    {
        TextMessage {
            id: self.id,
            channel: self.channel,
            from: self.from,
            to: self.to,
            text: self.text.clone(),
            received_at_ms: self.received_at_ms,
            direction: self.direction,
            state: self.state.clone(),
        }
    }
}

} // verus!
