//! The change-event bus: a broadcast channel that fans every published
//! event out to the listeners subscribed at that moment.
//!
//! The channel is tokio's. Very little is assumed of it: whether a
//! listener sees an event depends on which listeners are alive and on how
//! far each has fallen behind, so no outcome of a send is promised. What
//! the bus does state is its own side of the bargain: which events it was
//! given to send, in which order.

use crate::persistence::database::Update;
use tokio::sync::broadcast::Receiver;
use tokio::sync::broadcast::Sender;
use vstd::prelude::*;

verus! {

/// `tokio::sync::broadcast::Sender`, the publishing half of the channel.
/// Verus sees nothing inside a value of it.
#[verifier::external_type_specification]
#[verifier::external_body]
#[verifier::reject_recursive_types(T)]
pub struct ExSender<T>(tokio::sync::broadcast::Sender<T>);

/// `tokio::sync::broadcast::Receiver`, one listener of the channel.
/// Verus sees nothing inside a value of it.
#[verifier::external_type_specification]
#[verifier::external_body]
#[verifier::reject_recursive_types(T)]
pub struct ExReceiver<T>(tokio::sync::broadcast::Receiver<T>);

/// The bus of one database.
pub struct EventBus {
    sender: Sender<Update>,
    announced: Ghost<Seq<Update>>,
}

impl EventBus {
    /// Every event that was handed to the channel so far, oldest first.
    /// This is a record of the sends, not of the deliveries.
    pub closed spec fn announced(&self) -> Seq<Update> {
        self.announced@
    }

    /// A bus without listeners that holds back up to `capacity` events for
    /// a listener that has fallen behind.
    pub fn new(capacity: usize) -> (bus: Self)
        requires
            0 < capacity <= usize::MAX / 2,
        ensures
            bus.announced() == Seq::<Update>::empty(),
    {
        EventBus { sender: open_channel(capacity), announced: Ghost(Seq::empty()) }
    }

    /// Hands `event` to the channel, once, and notes it in the record.
    /// Never blocks: a listener that is too far behind loses its oldest
    /// events instead.
    pub fn announce(&mut self, event: Update)
        ensures
            final(self).announced() == old(self).announced().push(event),
    {
        publish(&self.sender, event);
        self.announced = Ghost(self.announced@.push(event));
    }

    /// A new listener for the events announced from now on.
    pub fn subscribe(&self) -> (listener: Receiver<Update>) {
        listen(&self.sender)
    }
}

/// Calls `tokio::sync::broadcast::channel` and keeps the sender only, so
/// that the channel starts without a listener. tokio panics on a capacity
/// of zero or above `usize::MAX / 2`; both are excluded here. Nothing is
/// claimed of the channel that comes back.
#[verifier::external_body]
fn open_channel(capacity: usize) -> (sender: Sender<Update>)
    requires
        0 < capacity <= usize::MAX / 2,
{
    let (sender, _) = tokio::sync::broadcast::channel(capacity);
    sender
}

/// Calls `tokio::sync::broadcast::Sender::send` and discards its result.
/// The call never blocks. With no listener alive the event is dropped;
/// with listeners alive each of them may still miss it by lagging. Hence
/// no postcondition.
#[verifier::external_body]
fn publish(sender: &Sender<Update>, event: Update) {
    let _ = sender.send(event);
}

/// Calls `tokio::sync::broadcast::Sender::subscribe`: a new listener that
/// is handed the events sent after this call. Nothing is claimed of what
/// it will receive. tokio panics where the channel already has
/// `usize::MAX / 4` listeners, which is more than memory holds.
#[verifier::external_body]
fn listen(sender: &Sender<Update>) -> (listener: Receiver<Update>) {
    sender.subscribe()
}

} // verus!
