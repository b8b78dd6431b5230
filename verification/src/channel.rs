//! The broadcast channel of a room, as `tokio::sync::broadcast` provides it.
//!
//! A channel is shared between tasks, so nothing here says what it holds: the
//! contracts state only what is true of every call, whatever other handles do
//! at the same time.

use crate::message::Tweet;
use tokio::sync::broadcast::{Receiver, Sender};
use vstd::prelude::*;

verus! {

/// `tokio::sync::broadcast::Sender`: the publishing handle of a channel.
/// Nothing inside it is visible to proofs.
#[verifier::external_type_specification]
#[verifier::external_body]
#[verifier::reject_recursive_types(T)]
pub struct ExSender<T>(tokio::sync::broadcast::Sender<T>);

/// `tokio::sync::broadcast::Receiver`: one subscription to a channel.
/// Nothing inside it is visible to proofs.
#[verifier::external_type_specification]
#[verifier::external_body]
#[verifier::reject_recursive_types(T)]
pub struct ExReceiver<T>(tokio::sync::broadcast::Receiver<T>);

/// The number of messages a room's channel retains for its slowest subscriber.
pub const ROOM_CAPACITY: usize = 1_000_000;

/// Calls `tokio::sync::broadcast::channel`, which makes a new channel and its
/// first subscription. It panics on a capacity of zero or above
/// `usize::MAX / 2`, which `requires` leaves out. Nothing is claimed of the
/// handles it returns.
#[verifier::external_body]
pub(crate) fn open_channel(capacity: usize) -> (r: (Sender<Tweet>, Receiver<Tweet>))
    requires
        0 < capacity <= usize::MAX / 2,
{
    tokio::sync::broadcast::channel(capacity)
}

/// Calls `Sender::clone`. The clone holds the same shared channel as the
/// handle it was made from, which the contract states as equality of the two.
#[verifier::external_body]
pub(crate) fn share_sender(tx: &Sender<Tweet>) -> (r: Sender<Tweet>)
    ensures
        r == *tx,
{
    tx.clone()
}

/// Calls `Sender::subscribe`, which adds a subscription that sees what is sent
/// after the call. Nothing is claimed of the handle it returns. The call
/// panics only on a channel that already has `usize::MAX / 4` subscriptions,
/// more than memory can hold.
#[verifier::external_body]
pub(crate) fn subscribe(tx: &Sender<Tweet>) -> (r: Receiver<Tweet>) {
    tx.subscribe()
}

/// Calls `Sender::send`. With at least one subscription alive the message is
/// queued for all of them and their number comes back, which is then at least
/// one; with none, the message comes back untouched. Which of the two happens
/// depends on the other handles of the channel, so the contract leaves it open.
#[verifier::external_body]
pub(crate) fn send(tx: &Sender<Tweet>, tweet: Tweet) -> (r: Result<usize, Tweet>)
    ensures
        match r {
            Ok(receivers) => receivers >= 1,
            Err(back) => back == tweet,
        },
{
    match tx.send(tweet) {
        Ok(receivers) => Ok(receivers),
        Err(refused) => Err(refused.0),
    }
}

} // verus!
