//! The state that all sessions of the service share: the room registry and
//! the view counter.

use crate::channel::{open_channel, share_sender, subscribe, ROOM_CAPACITY};
use crate::decimal::{decimal, to_decimal};
use crate::message::Tweet;
use std::collections::HashMap;
use tokio::sync::broadcast::{Receiver, Sender};
use vstd::prelude::*;
use vstd::std_specs::hash::*;

verus! {

/// A room: one broadcast channel, held by its publishing handle.
pub struct Room {
    pub tx: Sender<Tweet>,
}

/// The view counter's next value: one more, and zero after the largest.
pub open spec fn bump(views: usize) -> usize {
    if views == usize::MAX {
        0
    } else {
        (views + 1) as usize
    }
}

/// One operation on the view counter.
pub enum CounterOp {
    /// One message was handed to one subscriber.
    Increment,
    /// The counter was set back.
    Reset,
}

/// The counter's value after one operation.
pub open spec fn counter_next(views: usize, op: CounterOp) -> usize {
    match op {
        CounterOp::Increment => bump(views),
        CounterOp::Reset => 0,
    }
}

/// The counter's value after `ops`, applied in order from `start`.
pub open spec fn views_through(start: usize, ops: Seq<CounterOp>) -> usize
    decreases ops.len(),
{
    if ops.len() == 0 {
        start
    } else {
        counter_next(views_through(start, ops.drop_last()), ops.last())
    }
}

/// A run of `deliveries` increments.
pub open spec fn increments(deliveries: nat) -> Seq<CounterOp> {
    Seq::new(deliveries, |i: int| CounterOp::Increment)
}

/// The room registry and the view counter of one service.
pub struct TwitterState {
    views: usize,
    rooms: HashMap<usize, Room>,
}

impl TwitterState {
    /// The view counter's value.
    pub closed spec fn view_count(&self) -> usize {
        self.views
    }

    /// The rooms that exist, by key.
    pub closed spec fn rooms(&self) -> Map<usize, Room> {
        self.rooms@
    }

    /// Whether every room of `self` is still there in `later`, with the
    /// channel it had.
    pub open spec fn keeps_rooms(&self, later: &TwitterState) -> bool {
        forall|k: usize| #[trigger]
            self.rooms().contains_key(k) ==> later.rooms().contains_key(k) && later.rooms()[k]
                == self.rooms()[k]
    }

    /// A service with no room and no view.
    pub fn new() -> (s: Self)
        ensures
            s.view_count() == 0,
            s.rooms() == Map::<usize, Room>::empty(),
    {
        TwitterState { views: 0, rooms: HashMap::new() }
    }

    /// Hands out the publishing handle of `room` and a fresh subscription to
    /// it, creating the room first if no session has asked for it before.
    ///
    /// A room that exists keeps its channel: every later caller joins the
    /// channel that the first one created, and no other room is touched.
    pub fn join(&mut self, room: usize) -> (r: (Sender<Tweet>, Receiver<Tweet>))
        ensures
            final(self).rooms().dom() == old(self).rooms().dom().insert(room),
            old(self).keeps_rooms(final(self)),
            r.0 == final(self).rooms()[room].tx,
            final(self).view_count() == old(self).view_count(),
    {
        broadcast use group_hash_axioms;

        if !self.rooms.contains_key(&room) {
            let (tx, _rx) = open_channel(ROOM_CAPACITY);
            self.rooms.insert(room, Room { tx });
        }
        let entry = self.rooms.get(&room).unwrap();
        (share_sender(&entry.tx), subscribe(&entry.tx))
    }

    /// Counts one message handed to one subscriber.
    pub fn inc_views(&mut self)
        ensures
            final(self).view_count() == counter_next(
                old(self).view_count(),
                CounterOp::Increment,
            ),
            final(self).rooms() == old(self).rooms(),
    {
        self.views = self.views.wrapping_add(1);
    }

    /// Sets the view counter back to zero.
    pub fn reset_views(&mut self)
        ensures
            final(self).view_count() == counter_next(old(self).view_count(), CounterOp::Reset),
            final(self).rooms() == old(self).rooms(),
    {
        self.views = 0;
    }

    /// The view counter's value.
    pub fn views(&self) -> (n: usize)
        ensures
            n == self.view_count(),
    {
        self.views
    }

    /// The view counter's value as decimal text, as a reader of the counter
    /// is answered.
    pub fn views_text(&self) -> (text: String)
        ensures
            text@ == decimal(self.view_count() as nat),
    {
        to_decimal(self.views)
    }
}

impl Default for TwitterState {
    fn default() -> (s: Self)
        ensures
            s.view_count() == 0,
            s.rooms() == Map::<usize, Room>::empty(),
    {
        TwitterState::new()
    }
}

/// Applying `head` and then `tail` is applying `tail` to where `head` left the
/// counter.
pub proof fn lemma_views_through_splits(start: usize, head: Seq<CounterOp>, tail: Seq<CounterOp>)
    ensures
        views_through(start, head + tail) == views_through(views_through(start, head), tail),
    decreases tail.len(),
{
    if tail.len() == 0 {
        assert(head + tail =~= head);
    } else {
        assert((head + tail).drop_last() =~= head + tail.drop_last());
        lemma_views_through_splits(start, head, tail.drop_last());
    }
}

/// With no reset in between, the counter stands at the number of deliveries
/// counted so far, as long as that number fits the counter.
pub proof fn lemma_views_count_deliveries(start: usize, deliveries: nat)
    requires
        start + deliveries <= usize::MAX,
    ensures
        views_through(start, increments(deliveries)) == start + deliveries,
    decreases deliveries,
{
    if deliveries > 0 {
        let fewer = (deliveries - 1) as nat;
        assert(increments(deliveries).drop_last() =~= increments(fewer));
        lemma_views_count_deliveries(start, fewer);
    }
}

/// After a reset the counter stands at the number of deliveries counted since,
/// whatever happened before: at zero when it is read at once.
pub proof fn lemma_views_count_since_reset(start: usize, before: Seq<CounterOp>, deliveries: nat)
    requires
        deliveries <= usize::MAX,
    ensures
        views_through(start, before + seq![CounterOp::Reset] + increments(deliveries))
            == deliveries,
{
    let reset = before + seq![CounterOp::Reset];
    assert(reset.drop_last() =~= before);
    assert(views_through(start, reset) == 0);
    lemma_views_through_splits(start, reset, increments(deliveries));
    lemma_views_count_deliveries(0, deliveries);
}

} // verus!
