//! The decisions a connection makes.
//!
//! A connection emits `Message::Ready` carrying a sender exactly once, before
//! anything else.  Every message that comes in through the sender first goes
//! through the application's update function, then reaches the operator.
//! Every message the operator produces is pushed back into the sender and
//! handed to the application as `Message::Update`.

use vstd::prelude::*;

use crate::error::Error;
use crate::channel::Sender;
use crate::sender::Message;

verus! {

/// One step of the announcement: a pending sender is announced as
/// `Message::Ready`, after which nothing is pending any more.
pub open spec fn announcement<T>(pending: Option<Sender<T>>) -> Option<(Message<T>, Option<Sender<T>>)> {
    match pending {
        Some(sender) => Some((Message::Ready(sender), None)),
        None => None,
    }
}

/// Every message the announcement produces when stepped until it stops.
pub open spec fn announced<T>(pending: Option<Sender<T>>) -> Seq<Message<T>>
    decreases (if pending is Some { 1nat } else { 0nat }),
{
    match announcement(pending) {
        Some((message, next)) => seq![message] + announced(next),
        None => Seq::empty(),
    }
}

/// What the connection hands to the application for one operator output.
pub open spec fn delivery<T>(output: T) -> Option<Message<T>> {
    Some(Message::Update(output))
}

/// Every message the connection hands on for a run of operator outputs,
/// stepping `delivery` until it stops.
pub open spec fn delivered<T>(outputs: Seq<T>) -> Seq<Message<T>>
    decreases outputs.len(),
{
    if outputs.len() == 0 {
        Seq::empty()
    } else {
        match delivery(outputs[0]) {
            Some(message) => seq![message] + delivered(outputs.drop_first()),
            None => Seq::empty(),
        }
    }
}

/// The whole stream a connection hands to the application when its operator
/// produces `outputs`: the announcement, then the deliveries.
pub open spec fn connection_messages<T>(sender: Sender<T>, outputs: Seq<T>) -> Seq<Message<T>> {
    announced(Some(sender)) + delivered(outputs)
}

/// How the first message of a connection decides the outcome of connecting.
pub open spec fn ready_outcome<T>(first: Option<Message<T>>) -> Result<Sender<T>, Error> {
    match first {
        Some(Message::Ready(sender)) => Ok(sender),
        _ => Err(Error::ConnectionFailed),
    }
}

/// One step of the announcement: announces a pending sender as
/// `Message::Ready` and leaves nothing pending; with nothing pending, stops.
pub fn announce<T>(pending: Option<Sender<T>>) -> (r: Option<(Message<T>, Option<Sender<T>>)>)
    ensures
        r == announcement(pending),
{
    match pending {
        Some(sender) => Some((Message::Ready(sender), None)),
        None => None,
    }
}

/// Takes in one message: applies the application's `update` to the shared
/// state (with a clone of the message), then hands the message on for the
/// operator.
pub fn receive<U, T: Clone, F: Fn(&mut U, T)>(data: &mut U, update: &F, message: T) -> (r:
    std::sync::Arc<T>)
    requires
        forall|d: &mut U, m: T| call_requires(*update, (d, m)),
    ensures
        *r == message,
        exists|copy: T, d: &mut U|
            cloned::<T>(message, copy) && *d == *old(data) && *final(d) == *final(data)
                && call_ensures(*update, (d, copy), ()),
{
    let copy = message.clone();
    update(data, copy);
    std::sync::Arc::new(message)
}

/// Delivers one operator output: hands a clone of it back to `sender`'s
/// channel, which enqueues it unless its receiving half is gone, and hands the
/// output to the application as `Message::Update`.  Never stops the stream,
/// whatever the channel answers.
pub fn deliver<T: Clone>(sender: &mut Sender<T>, output: T) -> (r: Option<Message<T>>)
    ensures
        r == delivery(output),
        final(sender).channel() == old(sender).channel(),
        exists|copy: T|
            {
                &&& cloned::<T>(output, copy)
                &&& final(sender).handed() == old(sender).handed().push(copy)
                &&& (final(sender).accepted() == old(sender).accepted().push(copy)
                    || final(sender).accepted() == old(sender).accepted())
            },
{
    let copy = output.clone();
    let ghost fed_back = copy;
    let _ = sender.start_send(copy);
    assert(cloned::<T>(output, fed_back) && sender.handed() == old(sender).handed().push(fed_back)
        && (sender.accepted() == old(sender).accepted().push(fed_back) || sender.accepted() == old(
        sender,
    ).accepted()));
    Some(Message::Update(output))
}

/// Decides the outcome of connecting from the connection's first message:
/// the announced sender when that message is `Message::Ready`, and
/// `Error::ConnectionFailed` otherwise (no message, or an update).
pub fn ready_sender<T>(first: Option<Message<T>>) -> (r: Result<Sender<T>, Error>)
    ensures
        r == ready_outcome(first),
        r is Ok <==> (first is Some && first->0 is Ready),
{
    match first {
        Some(Message::Ready(sender)) => Ok(sender),
        _ => Err(Error::ConnectionFailed),
    }
}

/// Messages are folded into the state in the order they come in: when the
/// application's `update` computes `f` (every call leaves `f(before, message)`
/// behind), a run of `receive` over `messages`, started on `states[0]`, ends
/// on `f` folded over the copies of the messages that `update` was given, in
/// order.  Each step of the run is what one call of `receive` ensures, with
/// `copies[i]` and `borrows[i]` its witnesses.
pub proof fn lemma_state_after_messages<U, T: Clone, F: Fn(&mut U, T)>(
    update: F,
    f: spec_fn(U, T) -> U,
    messages: Seq<T>,
    copies: Seq<T>,
    borrows: Seq<&mut U>,
    states: Seq<U>,
)
    requires
        forall|d: &mut U, m: T|
            call_ensures(update, (d, m), ()) ==> mut_ref_future(d) == f(mut_ref_current(d), m),
        copies.len() == messages.len(),
        borrows.len() == messages.len(),
        states.len() == messages.len() + 1,
        forall|i: int|
            0 <= i < messages.len() ==> {
                &&& cloned::<T>(messages[i], #[trigger] copies[i])
                &&& mut_ref_current(borrows[i]) == states[i]
                &&& mut_ref_future(borrows[i]) == states[i + 1]
                &&& call_ensures(update, (borrows[i], copies[i]), ())
            },
    ensures
        states.last() == copies.fold_left(states[0], f),
    decreases messages.len(),
{
    if messages.len() > 0 {
        let n = messages.len() - 1;
        lemma_state_after_messages(
            update,
            f,
            messages.drop_last(),
            copies.drop_last(),
            borrows.drop_last(),
            states.drop_last(),
        );
        assert(copies.drop_last().fold_left(states[0], f) == states[n]);
    }
}

/// A connection announces its sender exactly once: stepping the announcement
/// from a pending sender yields `Message::Ready` with that sender, then stops.
pub proof fn lemma_announced_once<T>(sender: Sender<T>)
    ensures
        announced(Some(sender)) == seq![Message::Ready(sender)],
{
    assert(announced(None::<Sender<T>>) == Seq::<Message<T>>::empty());
    assert(announced(Some(sender)) =~= seq![Message::Ready(sender)]);
}

/// Every operator output is handed to the application, in order, as an update.
pub proof fn lemma_delivered_all<T>(outputs: Seq<T>)
    ensures
        delivered(outputs) == outputs.map_values(|output: T| Message::Update(output)),
    decreases outputs.len(),
{
    if outputs.len() == 0 {
        assert(delivered(outputs) =~= outputs.map_values(|output: T| Message::Update(output)));
    } else {
        lemma_delivered_all(outputs.drop_first());
        assert(delivered(outputs) =~= outputs.map_values(|output: T| Message::Update(output)));
    }
}

/// The stream a connection hands to the application is its sender, announced
/// as `Message::Ready`, followed by one `Message::Update` per operator output
/// in the order the operator produced them; nothing but the first message is
/// `Message::Ready`.
pub proof fn lemma_connection_messages<T>(sender: Sender<T>, outputs: Seq<T>)
    ensures
        connection_messages(sender, outputs) == seq![Message::Ready(sender)]
            + outputs.map_values(|output: T| Message::Update(output)),
        connection_messages(sender, outputs).len() == outputs.len() + 1,
        connection_messages(sender, outputs)[0] == Message::Ready(sender),
        forall|i: int|
            1 <= i < connection_messages(sender, outputs).len() ==> #[trigger] connection_messages(
                sender,
                outputs,
            )[i] == Message::Update(outputs[i - 1]),
{
    lemma_announced_once(sender);
    lemma_delivered_all(outputs);
}

/// Connecting succeeds on every connection: the first message of any
/// connection stream decides the outcome as the announced sender.
pub proof fn lemma_connection_is_ready<T>(sender: Sender<T>, outputs: Seq<T>)
    ensures
        ready_outcome(Some(connection_messages(sender, outputs)[0])) == Ok::<Sender<T>, Error>(
            sender,
        ),
{
    lemma_connection_messages(sender, outputs);
}

} // verus!
