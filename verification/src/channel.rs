//! The library's handles on `futures` channels, and the trusted hand-offs to
//! them.
//!
//! A `Sender` and a `FanOut` keep ghost records of what was handed to their
//! channels and what the channels accepted.  Those records are private to
//! this module: only the constructors here (which start them empty or record
//! the pairing they were given) and the trusted items that make the channel
//! calls write them.  The trusted contracts restate what the
//! `futures-channel` and `futures-util` sources show.

use iced_futures::futures::channel::mpsc::{SendError, UnboundedSender};
use iced_futures::futures::sink::Fanout;
use vstd::prelude::*;

verus! {

/// The sending half of an unbounded `futures` channel.  Opaque to Verus.
#[verifier::external_type_specification]
#[verifier::external_body]
#[verifier::reject_recursive_types(T)]
pub struct ExUnboundedSender<T>(UnboundedSender<T>);

/// The error a `futures` channel sender reports when an item is refused.
#[verifier::external_type_specification]
#[verifier::external_body]
pub struct ExSendError(SendError);

/// The sink of `futures` that clones each item into two sinks.
#[verifier::external_type_specification]
#[verifier::external_body]
#[verifier::reject_recursive_types(Si1)]
#[verifier::reject_recursive_types(Si2)]
pub struct ExFanout<Si1, Si2>(Fanout<Si1, Si2>);

/// `UnboundedSender::clone` yields another handle on the same channel.  Nothing
/// is claimed of the new handle: it is a different value (the channel counts
/// its senders).
pub assume_specification<T>[<UnboundedSender<T> as std::clone::Clone>::clone](
    sender: &UnboundedSender<T>,
) -> UnboundedSender<T>;

/// The handle through which messages are pushed into a connection.
///
/// Besides the channel handle, a sender keeps ghost records, kept by the
/// trusted hand-off to the channel: every item this handle has handed to the
/// channel, and every item the channel accepted (enqueued) from it, in order.
#[derive(Clone)]
#[verifier::reject_recursive_types(T)]
pub struct Sender<T> {
    sender: UnboundedSender<T>,
    handed: Ghost<Seq<T>>,
    accepted: Ghost<Seq<T>>,
}

impl<T> Sender<T> {
    /// The channel handle this sender pushes into.
    pub closed spec fn channel(&self) -> UnboundedSender<T> {
        self.sender
    }

    /// Every item this sender has handed to its channel, oldest first.
    pub closed spec fn handed(&self) -> Seq<T> {
        self.handed@
    }

    /// Every item the channel accepted from this sender, oldest first.
    pub closed spec fn accepted(&self) -> Seq<T> {
        self.accepted@
    }

    /// Wraps the sending half of a channel; nothing has been handed through
    /// this handle yet.
    pub fn from_channel(sender: UnboundedSender<T>) -> (s: Self)
        ensures
            s.channel() == sender,
            s.handed() == Seq::<T>::empty(),
            s.accepted() == Seq::<T>::empty(),
    {
        Sender { sender, handed: Ghost(Seq::empty()), accepted: Ghost(Seq::empty()) }
    }

    /// Gives back the sending half of the channel.
    pub fn into_channel(self) -> (sender: UnboundedSender<T>)
        ensures
            sender == self.channel(),
    {
        self.sender
    }

    /// Calls `UnboundedSender::start_send` through a library `Sender`.  The
    /// source (`do_send_nb`) enqueues `item` exactly when it answers `Ok`, and
    /// answers `Err` (enqueueing nothing) once the receiving half is gone; it only
    /// reads the handle.  The claims: the sender keeps its channel, `item` is
    /// recorded as handed, and it is recorded as accepted exactly when the answer
    /// is `Ok`.  Which answer comes back depends on the receiver.
    #[verifier::external_body]
    pub(crate) fn hand_to_channel(&mut self, item: T) -> (r: Result<(), SendError>)
        ensures
            final(self).channel() == old(self).channel(),
            final(self).handed() == old(self).handed().push(item),
            r is Ok ==> final(self).accepted() == old(self).accepted().push(item),
            r is Err ==> final(self).accepted() == old(self).accepted(),
    {
        self.sender.start_send(item)
    }
}

/// The sink that fans input items out to two operators' channels.
///
/// Besides the sink, it keeps ghost records, kept by the trusted constructor
/// and hand-off: the two senders it pairs (first and second), every item
/// handed to it, and what each sender's channel accepted (enqueued), in order.
#[verifier::reject_recursive_types(X)]
pub struct FanOut<X> {
    sinks: Fanout<UnboundedSender<X>, UnboundedSender<X>>,
    built_from: Ghost<(UnboundedSender<X>, UnboundedSender<X>)>,
    handed: Ghost<Seq<X>>,
    first_accepted: Ghost<Seq<X>>,
    second_accepted: Ghost<Seq<X>>,
}

impl<X: Clone> FanOut<X> {
    /// The sender of the first operator's channel.
    pub closed spec fn first(&self) -> UnboundedSender<X> {
        self.built_from@.0
    }

    /// The sender of the second operator's channel.
    pub closed spec fn second(&self) -> UnboundedSender<X> {
        self.built_from@.1
    }

    /// Every item handed to the fan-out, oldest first.
    pub closed spec fn handed(&self) -> Seq<X> {
        self.handed@
    }

    /// Every item the first operator's channel accepted, oldest first.
    pub closed spec fn first_accepted(&self) -> Seq<X> {
        self.first_accepted@
    }

    /// Every item the second operator's channel accepted, oldest first.
    pub closed spec fn second_accepted(&self) -> Seq<X> {
        self.second_accepted@
    }

    /// Calls `SinkExt::start_send_unpin` on the fan-out, which (`Fanout::start_send`)
    /// offers a clone of `item` to the first sender and, only if the first
    /// accepted it, `item` itself to the second; each sender enqueues exactly when
    /// it answers `Ok`.  The answer is `Ok` exactly when both accepted.  Both
    /// senders are only read.  The claims: the fan-out keeps its pairing, `item`
    /// is recorded as handed, each sink's acceptance record grows by what that
    /// sink enqueued, and the answer is `Ok` exactly when both records grew.
    /// Which sinks accept depends on their receivers.
    #[verifier::external_body]
    pub(crate) fn hand_to_sinks(&mut self, item: X) -> (r: Result<(), SendError>)
        ensures
            final(self).first() == old(self).first(),
            final(self).second() == old(self).second(),
            final(self).handed() == old(self).handed().push(item),
            final(self).first_accepted() == old(self).first_accepted()
                || (final(self).first_accepted().len() == old(self).first_accepted().len() + 1
                && final(self).first_accepted().drop_last() == old(self).first_accepted()
                && cloned::<X>(item, final(self).first_accepted().last())),
            final(self).first_accepted() == old(self).first_accepted()
                ==> final(self).second_accepted() == old(self).second_accepted(),
            final(self).second_accepted() == old(self).second_accepted().push(item)
                || final(self).second_accepted() == old(self).second_accepted(),
            r is Ok <==> (final(self).first_accepted() != old(self).first_accepted()
                && final(self).second_accepted() != old(self).second_accepted()),
    {
        iced_futures::futures::SinkExt::start_send_unpin(&mut self.sinks, item)
    }
}

/// Calls `SinkExt::fanout`, which pairs two channel senders into one sink,
/// `first` as its first sink and `second` as its second.  The claims: the
/// fan-out records that pairing, and nothing has been handed to it or
/// accepted by either sink yet.
#[verifier::external_body]
pub(crate) fn fanout_of<X: Clone>(first: UnboundedSender<X>, second: UnboundedSender<X>) -> (f:
    FanOut<X>)
    ensures
        f.first() == first,
        f.second() == second,
        f.handed() == Seq::<X>::empty(),
        f.first_accepted() == Seq::<X>::empty(),
        f.second_accepted() == Seq::<X>::empty(),
{
    let pairing = Ghost((first, second));
    FanOut {
        sinks: iced_futures::futures::SinkExt::fanout(first, second),
        built_from: pairing,
        handed: Ghost(Seq::empty()),
        first_accepted: Ghost(Seq::empty()),
        second_accepted: Ghost(Seq::empty()),
    }
}

} // verus!
