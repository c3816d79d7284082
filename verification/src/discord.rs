//! The chat notifier: where an alert goes and what of it is delivered.

use vstd::prelude::*;

verus! {

/// The longest message, in characters, that the chat service accepts.
pub const CHARACTERS_LIMIT: usize = 2000;

/// The leading characters of `message`, up to the limit of the chat service.
pub open spec fn truncated(message: Seq<char>) -> Seq<char> {
    if message.len() <= CHARACTERS_LIMIT {
        message
    } else {
        message.subrange(0, CHARACTERS_LIMIT as int)
    }
}

/// The chat destination of this process: a bot token and a channel.
#[derive(Debug, PartialEq, Eq)]
pub struct Discord {
    token: String,
    channel_id: u64,
}

/// One message, ready to be handed to the chat service.
#[derive(Debug, PartialEq, Eq)]
pub struct Delivery {
    /// The channel it goes to; never zero.
    pub channel_id: u64,
    /// Its text, within the limit of the chat service.
    pub content: String,
}

impl Discord {
    #[verifier::type_invariant]
    spec fn channel_is_set(&self) -> bool {
        self.channel_id != 0
    }

    /// The channel that messages go to.
    pub closed spec fn channel(&self) -> u64 {
        self.channel_id
    }

    /// The bot token, as characters.
    pub closed spec fn secret(&self) -> Seq<char> {
        self.token@
    }

    /// A destination for the given token and channel. The chat service has no
    /// channel zero, so none is made for it.
    pub fn new(token: &str, id: u64) -> (discord: Option<Discord>)
        ensures
            discord is Some <==> id != 0,
            discord matches Some(d) ==> d.channel() == id && d.secret() == token@,
    {
        if id == 0 {
            None
        } else {
            Some(Discord { token: String::from_str(token), channel_id: id })
        }
    }

    /// The channel that messages go to; never zero.
    pub fn channel_id(&self) -> (id: u64)
        ensures
            id == self.channel(),
            id != 0,
    {
        proof {
            use_type_invariant(self);
        }
        self.channel_id
    }

    /// The bot token.
    pub fn token(&self) -> (token: &str)
        ensures
            token@ == self.secret(),
    {
        self.token.as_str()
    }

    /// Prepares `message` for delivery: a message longer than the limit is cut
    /// down to exactly the limit, keeping its leading characters; a shorter
    /// one goes out unchanged.
    pub fn send_discord_message(&self, message: &str) -> (delivery: Delivery)
        ensures
            delivery.channel_id == self.channel(),
            delivery.channel_id != 0,
            delivery.content@ == truncated(message@),
            message@.len() > CHARACTERS_LIMIT ==> delivery.content@.len() == CHARACTERS_LIMIT,
            delivery.content@.is_prefix_of(message@),
    {
        proof {
            use_type_invariant(self);
        }
        let length = message.unicode_len();
        let content = if length <= CHARACTERS_LIMIT {
            String::from_str(message)
        } else {
            String::from_str(message.substring_char(0, CHARACTERS_LIMIT))
        };
        Delivery { channel_id: self.channel_id, content }
    }
}

} // verus!
