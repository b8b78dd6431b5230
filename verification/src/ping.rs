//! The ping handshake: a session answers `"ping"` with `"pong"`, but only
//! after it has been told to `"serve"`.

use vstd::prelude::*;
use vstd::string::*;

verus! {

/// Where a ping session stands in its handshake.
#[derive(Clone, Copy, Debug, PartialEq, Eq, Structural)]
pub enum PingState {
    /// Nothing is answered yet.
    Idle,
    /// `"serve"` has been received: every `"ping"` is answered.
    Started,
}

/// The state that follows `state` when `token` arrives.
pub open spec fn ping_next(state: PingState, token: Seq<char>) -> PingState {
    match state {
        PingState::Idle => if token == "serve"@ {
            PingState::Started
        } else {
            PingState::Idle
        },
        PingState::Started => PingState::Started,
    }
}

/// Whether `token`, arriving in `state`, is answered with one `"pong"`.
pub open spec fn ping_answers(state: PingState, token: Seq<char>) -> bool {
    state == PingState::Started && token == "ping"@
}

/// The state reached from `state` once all of `tokens` have arrived in order.
pub open spec fn ping_state_after(state: PingState, tokens: Seq<Seq<char>>) -> PingState
    decreases tokens.len(),
{
    if tokens.len() == 0 {
        state
    } else {
        ping_next(ping_state_after(state, tokens.drop_last()), tokens.last())
    }
}

/// How many `"pong"` replies a session that starts in `state` sends while
/// `tokens` arrive in order.
pub open spec fn ping_replies(state: PingState, tokens: Seq<Seq<char>>) -> nat
    decreases tokens.len(),
{
    if tokens.len() == 0 {
        0
    } else {
        let before = tokens.drop_last();
        let answered: nat = if ping_answers(ping_state_after(state, before), tokens.last()) {
            1
        } else {
            0
        };
        ping_replies(state, before) + answered
    }
}

/// How many of `tokens` are `"ping"`.
pub open spec fn count_pings(tokens: Seq<Seq<char>>) -> nat
    decreases tokens.len(),
{
    if tokens.len() == 0 {
        0
    } else {
        let hit: nat = if tokens.last() == "ping"@ {
            1
        } else {
            0
        };
        count_pings(tokens.drop_last()) + hit
    }
}

/// Whether two strings hold the same characters.
pub fn same_text(a: &str, b: &str) -> (r: bool)
    ensures
        r == (a@ == b@),
{
    let n: usize = a.unicode_len();
    if n != b.unicode_len() {
        return false;
    }
    let mut i: usize = 0;
    while i < n
        invariant
            i <= n,
            n == a@.len(),
            n == b@.len(),
            forall|j: int| 0 <= j < i ==> a@[j] == b@[j],
        decreases n - i,
    {
        if a.get_char(i) != b.get_char(i) {
            return false;
        }
        i += 1;
    }
    proof {
        assert(a@ =~= b@);
    }
    true
}

/// One connection's ping handshake.
#[derive(Debug)]
pub struct PingSession {
    state: PingState,
    live: bool,
}

impl PingSession {
    /// The handshake state.
    pub closed spec fn state(&self) -> PingState {
        self.state
    }

    /// Whether the session still takes frames.
    pub closed spec fn is_live(&self) -> bool {
        self.live
    }

    /// A session for a fresh connection: live and idle.
    pub fn new() -> (s: Self)
        ensures
            s.state() == PingState::Idle,
            s.is_live(),
    {
        PingSession { state: PingState::Idle, live: true }
    }

    /// The handshake state.
    pub fn current(&self) -> (st: PingState)
        ensures
            st == self.state(),
    {
        self.state
    }

    /// Whether the session still takes frames.
    pub fn live(&self) -> (b: bool)
        ensures
            b == self.is_live(),
    {
        self.live
    }

    /// Takes one text frame from the remote side and says what to send back.
    ///
    /// An idle session starts on `"serve"` and ignores everything else. A
    /// started session answers `"ping"` with `"pong"` and ignores everything
    /// else. A session that has ended ignores every frame.
    pub fn on_frame(&mut self, token: &str) -> (reply: Option<&'static str>)
        ensures
            final(self).is_live() == old(self).is_live(),
            old(self).is_live() ==> final(self).state() == ping_next(old(self).state(), token@),
            !old(self).is_live() ==> final(self).state() == old(self).state(),
            reply.is_some() == (old(self).is_live() && ping_answers(old(self).state(), token@)),
            reply.is_some() ==> reply.unwrap()@ == "pong"@,
    {
        if !self.live {
            return None;
        }
        match self.state {
            PingState::Idle => {
                if same_text(token, "serve") {
                    self.state = PingState::Started;
                }
                None
            },
            PingState::Started => {
                if same_text(token, "ping") {
                    Some("pong")
                } else {
                    None
                }
            },
        }
    }

    /// Records whether a reply reached the remote side. A reply that could not
    /// be sent ends the session.
    pub fn on_reply_sent(&mut self, delivered: bool)
        ensures
            final(self).state() == old(self).state(),
            final(self).is_live() == (old(self).is_live() && delivered),
    {
        if !delivered {
            self.live = false;
        }
    }

    /// Ends the session: the remote side closed the connection, or receiving
    /// from it failed.
    pub fn close(&mut self)
        ensures
            final(self).state() == old(self).state(),
            !final(self).is_live(),
    {
        self.live = false;
    }
}

/// Once started, a session stays started whatever arrives.
pub proof fn lemma_started_is_kept(tokens: Seq<Seq<char>>)
    ensures
        ping_state_after(PingState::Started, tokens) == PingState::Started,
    decreases tokens.len(),
{
    if tokens.len() > 0 {
        lemma_started_is_kept(tokens.drop_last());
    }
}

/// A session that was never told to `"serve"` stays idle and sends nothing,
/// however many `"ping"` frames arrive.
pub proof fn lemma_silent_before_serve(tokens: Seq<Seq<char>>)
    requires
        forall|i: int| 0 <= i < tokens.len() ==> tokens[i] != "serve"@,
    ensures
        ping_state_after(PingState::Idle, tokens) == PingState::Idle,
        ping_replies(PingState::Idle, tokens) == 0,
    decreases tokens.len(),
{
    if tokens.len() > 0 {
        lemma_silent_before_serve(tokens.drop_last());
    }
}

/// A started session sends exactly one `"pong"` for each `"ping"` it receives.
pub proof fn lemma_started_answers_every_ping(tokens: Seq<Seq<char>>)
    ensures
        ping_replies(PingState::Started, tokens) == count_pings(tokens),
    decreases tokens.len(),
{
    if tokens.len() > 0 {
        lemma_started_answers_every_ping(tokens.drop_last());
        lemma_started_is_kept(tokens.drop_last());
    }
}

/// The state after `head` followed by `tail` is the state that `tail` leads to
/// from where `head` ended, and the replies add up.
pub proof fn lemma_ping_run_splits(state: PingState, head: Seq<Seq<char>>, tail: Seq<Seq<char>>)
    ensures
        ping_state_after(state, head + tail) == ping_state_after(
            ping_state_after(state, head),
            tail,
        ),
        ping_replies(state, head + tail) == ping_replies(state, head) + ping_replies(
            ping_state_after(state, head),
            tail,
        ),
    decreases tail.len(),
{
    if tail.len() == 0 {
        assert(head + tail =~= head);
    } else {
        assert((head + tail).drop_last() =~= head + tail.drop_last());
        lemma_ping_run_splits(state, head, tail.drop_last());
    }
}

/// A session that receives `"serve"` after frames that were not `"serve"`
/// sends, over the whole run, one `"pong"` for each `"ping"` that came after
/// the `"serve"`, and none for those before it.
pub proof fn lemma_pongs_count_pings_after_serve(before: Seq<Seq<char>>, after: Seq<Seq<char>>)
    requires
        forall|i: int| 0 <= i < before.len() ==> before[i] != "serve"@,
    ensures
        ping_replies(PingState::Idle, before + seq!["serve"@] + after) == count_pings(after),
{
    let served = before + seq!["serve"@];
    lemma_silent_before_serve(before);
    assert(served.drop_last() =~= before);
    lemma_ping_run_splits(PingState::Idle, served, after);
    lemma_started_answers_every_ping(after);
}

} // verus!
