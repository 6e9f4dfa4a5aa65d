//! Pushing messages into a connection, and the messages a connection hands to
//! the application.

use iced_futures::futures::channel::mpsc::SendError;
use vstd::prelude::*;

use crate::channel::Sender;

verus! {

/// An item was refused because the receiving half of the channel is gone.
#[derive(Debug, Clone, Copy, PartialEq, Eq, Structural)]
pub struct SendFailure;

/// What a connection hands to the application.
#[derive(Clone)]
#[verifier::reject_recursive_types(T)]
pub enum Message<T> {
    /// Indicates that the sender is ready to receive messages.
    Ready(Sender<T>),
    /// Provides an update to the application.
    Update(T),
}

impl<T> Sender<T> {
    /// Hands `item` to the connection's channel.  The channel accepts it
    /// unless its receiving half is gone; the result is `Ok` exactly when the
    /// item was accepted (enqueued).  Either way the sender keeps its channel
    /// and the item is recorded as handed.
    pub fn start_send(&mut self, item: T) -> (r: Result<(), SendFailure>)
        ensures
            final(self).channel() == old(self).channel(),
            final(self).handed() == old(self).handed().push(item),
            r is Ok ==> final(self).accepted() == old(self).accepted().push(item),
            r is Err ==> final(self).accepted() == old(self).accepted(),
    {
        let answer = self.hand_to_channel(item);
        send_outcome(answer)
    }
}

/// Reads what the channel answered to an item: accepted, or refused because
/// its receiving half is gone.
pub fn send_outcome(answer: Result<(), SendError>) -> (r: Result<(), SendFailure>)
    ensures
        r is Ok <==> answer is Ok,
{
    match answer {
        Ok(()) => Ok(()),
        Err(_) => Err(SendFailure),
    }
}

} // verus!
