//! The channel on which the state machine hands its actions to the executor.

use crate::statemanager::types::{ActionCommand, ActionCommandView};
use tokio::sync::mpsc::{unbounded_channel, UnboundedReceiver, UnboundedSender};
use vstd::prelude::*;

verus! {

/// The sending half of a tokio channel.
#[verifier::external_type_specification]
#[verifier::external_body]
#[verifier::reject_recursive_types(T)]
pub struct ExUnboundedSender<T>(tokio::sync::mpsc::UnboundedSender<T>);

/// The receiving half of a tokio channel.
#[verifier::external_type_specification]
#[verifier::external_body]
#[verifier::reject_recursive_types(T)]
pub struct ExUnboundedReceiver<T>(tokio::sync::mpsc::UnboundedReceiver<T>);

/// The commands that the channel has accepted from this sender, the oldest first.
pub uninterp spec fn accepted_actions(sender: UnboundedSender<ActionCommand>) -> Seq<
    ActionCommandView,
>;

/// The receiving half of the sender's channel is closed, or gone. That does not change again.
pub uninterp spec fn receiver_closed(sender: UnboundedSender<ActionCommand>) -> bool;

/// The two halves belong to one channel: what the sender sends comes out at the receiver.
pub uninterp spec fn joined(
    sender: UnboundedSender<ActionCommand>,
    receiver: UnboundedReceiver<ActionCommand>,
) -> bool;

/// Calls `tokio::sync::mpsc::unbounded_channel`. The two halves belong to one new channel, on
/// which nothing has been sent.
#[verifier::external_body]
pub(crate) fn open_action_queue() -> (halves: (
    UnboundedSender<ActionCommand>,
    UnboundedReceiver<ActionCommand>,
))
    ensures
        accepted_actions(halves.0) == Seq::<ActionCommandView>::empty(),
        joined(halves.0, halves.1),
{
    unbounded_channel()
}

/// Calls `tokio::sync::mpsc::UnboundedSender::send`. The channel takes the command as its
/// newest, or hands it back unchanged, which it does only when the receiving half is closed
/// or gone. The sender stays joined to the halves that it was joined to.
#[verifier::external_body]
pub(crate) fn queue_action(
    sender: &mut UnboundedSender<ActionCommand>,
    command: ActionCommand,
) -> (refused: Option<ActionCommand>)
    ensures
        match refused {
            None => accepted_actions(*final(sender)) == accepted_actions(*old(sender)).push(
                command@,
            ),
            Some(back) => {
                &&& accepted_actions(*final(sender)) == accepted_actions(*old(sender))
                &&& back@ == command@
                &&& receiver_closed(*final(sender))
            },
        },
        forall|receiver: UnboundedReceiver<ActionCommand>| #[trigger]
            joined(*final(sender), receiver) == joined(*old(sender), receiver),
{
    match sender.send(command) {
        Ok(()) => None,
        Err(error) => Some(error.0),
    }
}

} // verus!
