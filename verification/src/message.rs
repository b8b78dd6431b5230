//! The values that travel through a room.

use vstd::prelude::*;

verus! {

/// The longest message text, in characters, that a session publishes.
pub const MAX_TEXT_LEN: usize = 128;

/// A message as every subscriber of a room receives it.
#[derive(Clone, Debug)]
pub struct Tweet {
    /// The name of the participant who sent it.
    pub user: String,
    /// What they wrote.
    pub message: String,
}

/// What a `Tweet` is, as plain sequences of characters.
pub struct TweetView {
    pub user: Seq<char>,
    pub message: Seq<char>,
}

impl View for Tweet {
    type V = TweetView;

    open spec fn view(&self) -> TweetView {
        TweetView { user: self.user@, message: self.message@ }
    }
}

/// What a participant sends: a text, not yet tied to a name.
#[derive(Debug)]
pub struct TweetMessage {
    /// The text as it was decoded from the frame.
    pub message: String,
}

/// Whether a text is short enough to be published.
pub open spec fn text_fits(text: Seq<char>) -> bool {
    text.len() <= MAX_TEXT_LEN
}

} // verus!
