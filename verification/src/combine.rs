//! The decision that combining two operators makes for each input item.
//!
//! The combined operator fans every input item out to both operators and
//! merges what they produce; input items themselves leave only a placeholder
//! (`None`) in the merged stream, which the combined output drops.

use iced_futures::futures::channel::mpsc::UnboundedSender;
use vstd::prelude::*;

use crate::channel::{fanout_of, FanOut};

verus! {

impl<X: Clone> FanOut<X> {
    /// Pairs the two operators' channel senders, `first` first; nothing has
    /// been handed yet.
    pub fn new(first: UnboundedSender<X>, second: UnboundedSender<X>) -> (f: Self)
        ensures
            f.first() == first,
            f.second() == second,
            f.handed() == Seq::<X>::empty(),
            f.first_accepted() == Seq::<X>::empty(),
            f.second_accepted() == Seq::<X>::empty(),
    {
        fanout_of(first, second)
    }
}

/// Hands one input item to the fan-out and leaves a placeholder in the merged
/// stream.  The first operator's channel is offered a clone of the item and
/// the second, only if the first accepted, the item itself; each accepts
/// unless its receiving half is gone.  The fan-out keeps its pairing and
/// records the item as handed.
pub fn broadcast<X: Clone, O>(fanout: &mut FanOut<X>, item: X) -> (r: Option<Option<O>>)
    ensures
        r == Some(None::<O>),
        final(fanout).first() == old(fanout).first(),
        final(fanout).second() == old(fanout).second(),
        final(fanout).handed() == old(fanout).handed().push(item),
        final(fanout).first_accepted() == old(fanout).first_accepted()
            || (final(fanout).first_accepted().len() == old(fanout).first_accepted().len() + 1
            && final(fanout).first_accepted().drop_last() == old(fanout).first_accepted()
            && cloned::<X>(item, final(fanout).first_accepted().last())),
        final(fanout).first_accepted() == old(fanout).first_accepted()
            ==> final(fanout).second_accepted() == old(fanout).second_accepted(),
        final(fanout).second_accepted() == old(fanout).second_accepted().push(item)
            || final(fanout).second_accepted() == old(fanout).second_accepted(),
{
    let _ = fanout.hand_to_sinks(item);
    Some(None)
}

} // verus!
