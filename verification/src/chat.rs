//! A chat session: one participant's connection to one room.
//!
//! A session is driven by two sources, the frames that its participant sends
//! and the messages that its room delivers. It decides here what each of them
//! leads to; waiting for them and writing to the connection is the caller's
//! part.

use crate::channel::send;
use crate::message::{text_fits, Tweet, TweetMessage, TweetView, MAX_TEXT_LEN};
use crate::state::{bump, TwitterState};
use tokio::sync::broadcast::{Receiver, Sender};
use vstd::prelude::*;
use vstd::string::*;

verus! {

/// What the connection yielded when the session asked for the next frame.
#[derive(Debug)]
pub enum Inbound {
    /// The remote side closed the connection, or receiving from it failed.
    Closed,
    /// A frame arrived that is no envelope.
    Malformed,
    /// A frame arrived and was decoded.
    Envelope(TweetMessage),
}

/// What a session does with an inbound frame.
#[derive(Debug)]
pub enum Verdict {
    /// End the session.
    Close,
    /// Drop the frame and go on.
    Discard,
    /// Hand this message to the room.
    Publish(Tweet),
}

/// A `Verdict`, with the message as plain sequences of characters.
pub enum VerdictView {
    Close,
    Discard,
    Publish(TweetView),
}

impl View for Verdict {
    type V = VerdictView;

    open spec fn view(&self) -> VerdictView {
        match self {
            Verdict::Close => VerdictView::Close,
            Verdict::Discard => VerdictView::Discard,
            Verdict::Publish(tweet) => VerdictView::Publish(tweet@),
        }
    }
}

/// The rule for inbound frames. A closed connection and a frame that does not
/// decode end the session. A text of more than `MAX_TEXT_LEN` characters is
/// dropped without a word. Any other text is published under the
/// participant's name.
pub open spec fn verdict_on(user: Seq<char>, frame: Inbound) -> VerdictView {
    match frame {
        Inbound::Closed => VerdictView::Close,
        Inbound::Malformed => VerdictView::Close,
        Inbound::Envelope(envelope) => if text_fits(envelope.message@) {
            VerdictView::Publish(TweetView { user, message: envelope.message@ })
        } else {
            VerdictView::Discard
        },
    }
}

/// The messages that a session of `user` hands to its room while `frames`
/// arrive in order, up to the frame that ends it.
pub open spec fn published_by(user: Seq<char>, frames: Seq<Inbound>) -> Seq<TweetView>
    decreases frames.len(),
{
    if frames.len() == 0 {
        Seq::empty()
    } else {
        match verdict_on(user, frames.first()) {
            VerdictView::Close => Seq::empty(),
            VerdictView::Discard => published_by(user, frames.drop_first()),
            VerdictView::Publish(tweet) => seq![tweet] + published_by(user, frames.drop_first()),
        }
    }
}

/// What became of an inbound frame.
#[derive(Clone, Copy, Debug, PartialEq, Eq, Structural)]
pub enum InboundOutcome {
    /// The session is over; nothing was published.
    Ended,
    /// The text was too long and was dropped; the session goes on.
    Discarded,
    /// The message was queued for this many subscribers; the session goes on.
    Published(usize),
}

/// What a session's subscription yielded.
#[derive(Debug)]
pub enum Delivery {
    /// The next message of the room.
    Message(Tweet),
    /// The subscription fell behind and lost messages.
    Lagged,
}

/// One thing that happened to a session: either of its two sources yielded.
#[derive(Debug)]
pub enum ChatEvent {
    /// The connection yielded.
    Inbound(Inbound),
    /// The subscription yielded.
    Delivery(Delivery),
}

/// What the caller of a session does next.
#[derive(Debug)]
pub enum ChatAction {
    /// Wait for the next event.
    Wait,
    /// Write this message to the participant, report how that went, and wait
    /// for the next event.
    Forward(Tweet),
    /// The session is over: release the subscription and the connection.
    Stop,
}

/// One participant's session in one room.
pub struct ChatSession {
    room: usize,
    user: String,
    tx: Sender<Tweet>,
    joined: bool,
}

impl ChatSession {
    /// The key of the session's room.
    pub closed spec fn room(&self) -> usize {
        self.room
    }

    /// The participant's name.
    pub closed spec fn user(&self) -> Seq<char> {
        self.user@
    }

    /// The handle on which the session publishes.
    pub closed spec fn publisher(&self) -> Sender<Tweet> {
        self.tx
    }

    /// Whether the session is in its room; once it has ended it never is
    /// again.
    pub closed spec fn is_joined(&self) -> bool {
        self.joined
    }

    /// Whether `other` is this session but for having ended or not.
    pub open spec fn same_seat(&self, other: &ChatSession) -> bool {
        &&& self.room() == other.room()
        &&& self.user() == other.user()
        &&& self.publisher() == other.publisher()
    }

    /// Whether the session publishes on the channel that `state` holds for
    /// the session's room.
    pub open spec fn seated(&self, state: &TwitterState) -> bool {
        &&& state.rooms().contains_key(self.room())
        &&& self.publisher() == state.rooms()[self.room()].tx
    }

    /// Starts a session for `user` in `room`: it gets the room's channel from
    /// the registry, which creates the room if this is its first session, and
    /// returns the session with its subscription.
    pub fn join(state: &mut TwitterState, room: usize, user: String) -> (r: (
        ChatSession,
        Receiver<Tweet>,
    ))
        ensures
            r.0.is_joined(),
            r.0.room() == room,
            r.0.user() == user@,
            r.0.seated(final(state)),
            final(state).rooms().dom() == old(state).rooms().dom().insert(room),
            old(state).keeps_rooms(final(state)),
            final(state).view_count() == old(state).view_count(),
    {
        let (tx, rx) = state.join(room);
        (ChatSession { room, user, tx, joined: true }, rx)
    }

    /// Whether the session is in its room.
    pub fn joined(&self) -> (b: bool)
        ensures
            b == self.is_joined(),
    {
        self.joined
    }

    /// The key of the session's room.
    pub fn room_key(&self) -> (k: usize)
        ensures
            k == self.room(),
    {
        self.room
    }

    /// The participant's name.
    pub fn user_name(&self) -> (name: &String)
        ensures
            name@ == self.user(),
    {
        &self.user
    }

    /// Applies the rule for inbound frames to one frame.
    pub fn judge(&self, frame: Inbound) -> (v: Verdict)
        ensures
            v@ == verdict_on(self.user(), frame),
    {
        match frame {
            Inbound::Closed => Verdict::Close,
            Inbound::Malformed => Verdict::Close,
            Inbound::Envelope(envelope) => {
                if envelope.message.as_str().unicode_len() > MAX_TEXT_LEN {
                    Verdict::Discard
                } else {
                    Verdict::Publish(Tweet { user: self.user.clone(), message: envelope.message })
                }
            },
        }
    }

    /// Settles a publish attempt. A message that the channel took keeps the
    /// session going; one that it gave back, for want of any subscriber, ends
    /// the session. A session that has ended stays so.
    pub fn on_published(&mut self, sent: &Result<usize, Tweet>) -> (out: InboundOutcome)
        ensures
            final(self).same_seat(old(self)),
            final(self).is_joined() == (old(self).is_joined() && sent is Ok),
            final(self).is_joined() ==> out == InboundOutcome::Published(sent->Ok_0),
            !final(self).is_joined() ==> out == InboundOutcome::Ended,
    {
        if !self.joined {
            return InboundOutcome::Ended;
        }
        match sent {
            Ok(receivers) => InboundOutcome::Published(*receivers),
            Err(_) => {
                self.joined = false;
                InboundOutcome::Ended
            },
        }
    }

    /// Takes what the connection yielded and acts on it.
    ///
    /// A session that has ended ignores the frame. Otherwise the rule for
    /// inbound frames decides: the session ends, or drops the frame and stays
    /// as it was, or hands the message to its room. Whether the room's channel
    /// takes a message depends on its subscribers at that moment; if it does,
    /// the session goes on, and if not, the session ends.
    pub fn on_inbound(&mut self, frame: Inbound) -> (out: InboundOutcome)
        ensures
            final(self).same_seat(old(self)),
            final(self).is_joined() ==> old(self).is_joined(),
            (out == InboundOutcome::Ended) == !final(self).is_joined(),
            old(self).is_joined() ==> match verdict_on(old(self).user(), frame) {
                VerdictView::Close => out == InboundOutcome::Ended,
                VerdictView::Discard => out == InboundOutcome::Discarded,
                VerdictView::Publish(_) => {
                    ||| out == InboundOutcome::Ended
                    ||| (out matches InboundOutcome::Published(receivers) && receivers >= 1)
                },
            },
    {
        if !self.joined {
            return InboundOutcome::Ended;
        }
        match self.judge(frame) {
            Verdict::Close => {
                self.joined = false;
                InboundOutcome::Ended
            },
            Verdict::Discard => InboundOutcome::Discarded,
            Verdict::Publish(tweet) => {
                let sent = send(&self.tx, tweet);
                self.on_published(&sent)
            },
        }
    }

    /// Takes what the subscription yielded and says what to forward to the
    /// participant.
    ///
    /// A message that reaches a session in its room is counted as one view
    /// and forwarded as it is. A gap in the subscription is passed over.
    /// A session that has ended counts and forwards nothing.
    pub fn on_delivery(&self, state: &mut TwitterState, item: Delivery) -> (forward: Option<Tweet>)
        ensures
            final(state).rooms() == old(state).rooms(),
            self.is_joined() && item is Message ==> forward == Some(item->Message_0)
                && final(state).view_count() == bump(old(state).view_count()),
            !(self.is_joined() && item is Message) ==> forward is None
                && final(state).view_count() == old(state).view_count(),
    {
        if !self.joined {
            return None;
        }
        match item {
            Delivery::Message(tweet) => {
                state.inc_views();
                Some(tweet)
            },
            Delivery::Lagged => None,
        }
    }

    /// Takes one event from either source and says what to do next.
    ///
    /// An inbound frame never moves the view counter, whatever it holds, and
    /// forwards nothing. A delivered message is counted once and forwarded. A
    /// session that has ended answers every event with `Stop` and leaves the
    /// counter alone.
    pub fn step(&mut self, state: &mut TwitterState, event: ChatEvent) -> (action: ChatAction)
        ensures
            final(self).same_seat(old(self)),
            final(self).is_joined() ==> old(self).is_joined(),
            final(state).rooms() == old(state).rooms(),
            (action is Stop) == !final(self).is_joined(),
            !old(self).is_joined() ==> final(state).view_count() == old(state).view_count(),
            old(self).is_joined() ==> match event {
                ChatEvent::Inbound(frame) => {
                    &&& final(state).view_count() == old(state).view_count()
                    &&& !(action is Forward)
                    &&& match verdict_on(old(self).user(), frame) {
                        VerdictView::Close => action is Stop,
                        VerdictView::Discard => action is Wait,
                        VerdictView::Publish(_) => true,
                    }
                },
                ChatEvent::Delivery(Delivery::Message(tweet)) => {
                    &&& action == ChatAction::Forward(tweet)
                    &&& final(state).view_count() == bump(old(state).view_count())
                },
                ChatEvent::Delivery(Delivery::Lagged) => {
                    &&& action is Wait
                    &&& final(state).view_count() == old(state).view_count()
                },
            },
    {
        if !self.joined {
            return ChatAction::Stop;
        }
        match event {
            ChatEvent::Inbound(frame) => match self.on_inbound(frame) {
                InboundOutcome::Ended => ChatAction::Stop,
                InboundOutcome::Discarded => ChatAction::Wait,
                InboundOutcome::Published(_) => ChatAction::Wait,
            },
            ChatEvent::Delivery(item) => match self.on_delivery(state, item) {
                Some(tweet) => ChatAction::Forward(tweet),
                None => ChatAction::Wait,
            },
        }
    }

    /// Records whether a forwarded message reached the participant. One that
    /// could not be written ends the session.
    pub fn on_forwarded(&mut self, delivered: bool)
        ensures
            final(self).same_seat(old(self)),
            final(self).is_joined() == (old(self).is_joined() && delivered),
    {
        if !delivered {
            self.joined = false;
        }
    }

    /// Ends the session.
    pub fn close(&mut self)
        ensures
            final(self).same_seat(old(self)),
            !final(self).is_joined(),
    {
        self.joined = false;
    }
}

/// A session keeps publishing on the channel of its own room whatever the
/// registry goes through later: rooms are added, never replaced.
pub proof fn lemma_seat_is_kept(session: ChatSession, before: TwitterState, after: TwitterState)
    requires
        session.seated(&before),
        before.keeps_rooms(&after),
    ensures
        session.seated(&after),
{
}

/// Two sessions that sit in the same room publish on the same channel.
pub proof fn lemma_same_room_same_channel(a: ChatSession, b: ChatSession, state: TwitterState)
    requires
        a.seated(&state),
        b.seated(&state),
        a.room() == b.room(),
    ensures
        a.publisher() == b.publisher(),
{
}

/// While nothing ends the session, every text that fits is published under
/// the participant's name, once, and in the order in which the texts arrived.
pub proof fn lemma_fitting_texts_are_published_in_order(user: Seq<char>, frames: Seq<Inbound>)
    requires
        forall|i: int|
            0 <= i < frames.len() ==> (#[trigger] frames[i] matches Inbound::Envelope(envelope)
                && text_fits(envelope.message@)),
    ensures
        published_by(user, frames).len() == frames.len(),
        forall|i: int|
            0 <= i < frames.len() ==> (#[trigger] published_by(user, frames)[i]) == (TweetView {
                user,
                message: frames[i]->Envelope_0.message@,
            }),
    decreases frames.len(),
{
    if frames.len() > 0 {
        let rest = frames.drop_first();
        lemma_fitting_texts_are_published_in_order(user, rest);
        assert forall|i: int| 0 <= i < frames.len() implies (#[trigger] published_by(
            user,
            frames,
        )[i]) == (TweetView { user, message: frames[i]->Envelope_0.message@ }) by {
            if i > 0 {
                assert(rest[i - 1] == frames[i]);
            }
        }
    }
}

/// A text that is too long leaves no trace: what the session publishes is
/// what it would have published had the frame never arrived.
pub proof fn lemma_long_text_is_suppressed(
    user: Seq<char>,
    head: Seq<Inbound>,
    long: TweetMessage,
    tail: Seq<Inbound>,
)
    requires
        !text_fits(long.message@),
    ensures
        published_by(user, head + seq![Inbound::Envelope(long)] + tail) == published_by(
            user,
            head + tail,
        ),
    decreases head.len(),
{
    let with = head + seq![Inbound::Envelope(long)] + tail;
    let without = head + tail;
    if head.len() == 0 {
        assert(with.drop_first() =~= without);
    } else {
        assert(with.drop_first() =~= head.drop_first() + seq![Inbound::Envelope(long)] + tail);
        assert(without.drop_first() =~= head.drop_first() + tail);
        lemma_long_text_is_suppressed(user, head.drop_first(), long, tail);
    }
}

/// Whatever arrives, every message that a session publishes carries the
/// participant's name and a text that fits.
pub proof fn lemma_published_texts_fit(user: Seq<char>, frames: Seq<Inbound>)
    ensures
        published_by(user, frames).len() <= frames.len(),
        forall|i: int|
            0 <= i < published_by(user, frames).len() ==> {
                let tweet = #[trigger] published_by(user, frames)[i];
                tweet.user == user && text_fits(tweet.message)
            },
    decreases frames.len(),
{
    if frames.len() > 0 {
        lemma_published_texts_fit(user, frames.drop_first());
    }
}

} // verus!
