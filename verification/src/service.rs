//! Request-handler logic that does not touch the node: extracting the
//! coinbase reward from a block's outputs, rendering balances and the
//! coin supply, and deciding what a WebSocket text message asks for.

use vstd::prelude::*;
use crate::text::str_eq;

verus! {

/// The value the block-reward endpoint reports, in sompi: the first
/// output of the coinbase transaction, or zero when the transaction has
/// no outputs.
pub fn coinbase_reward_sompi(outputs: &Vec<u64>) -> (r: u64)
    ensures
        outputs@.len() > 0 ==> r == outputs@[0],
        outputs@.len() == 0 ==> r == 0,
{
    if outputs.len() > 0 {
        outputs[0]
    } else {
        0
    }
}

/// What the WebSocket service does in answer to one text message.
#[derive(Clone, Copy, Debug, PartialEq, Eq, Structural)]
pub enum WsAction {
    /// Fetch the latest blocks again and push them.
    PushBlocks,
    /// Acknowledge joining the room.
    AckJoin,
    /// Say and do nothing.
    Ignore,
}

/// The action a text message asks for.
pub open spec fn spec_ws_action(m: Seq<char>) -> WsAction {
    if m == "last-blocks"@ {
        WsAction::PushBlocks
    } else if m == "join-room"@ {
        WsAction::AckJoin
    } else {
        WsAction::Ignore
    }
}

/// Decides what to do with one WebSocket text message: only the exact
/// messages `last-blocks` and `join-room` are acted on.
pub fn ws_action_for(msg: &str) -> (r: WsAction)
    ensures
        r == spec_ws_action(msg@),
{
    if str_eq(msg, "last-blocks") {
        WsAction::PushBlocks
    } else if str_eq(msg, "join-room") {
        WsAction::AckJoin
    } else {
        WsAction::Ignore
    }
}

/// The acknowledgment text sent in answer to `join-room`.
pub fn join_ack_text() -> (r: String)
    ensures
        r@ == "Joined room"@,
{
    let s: &str = "Joined room";
    s.to_owned()
}

} // verus!
