//! A repeater of mentions, driven by commands in chat.
//!
//! A user writes a short command that names a user to mention, a count and,
//! for a timed request, an interval. The library parses the command, holds
//! the request to its limits and says what is to be sent; it lets no user
//! have two requests in flight at once. Connecting to the chat platform,
//! waiting and sending are left to the program around it.

use vstd::prelude::*;

pub mod error;
pub mod guard;
pub mod handler;
pub mod interval;
pub mod number;
pub mod pacer;
pub mod parse;
pub mod spam;
pub mod text;

verus! {

/// What the program is started with.
pub struct Args {
    discord_token: String,
}

impl View for Args {
    type V = Seq<char>;

    /// The token with which the bot signs in.
    closed spec fn view(&self) -> Seq<char> {
        self.discord_token@
    }
}

impl Args {
    /// What the program is started with, given the token.
    pub fn new(discord_token: String) -> (args: Self)
        ensures
            args@ == discord_token@,
    {
        Self { discord_token }
    }

    /// The token with which the bot signs in.
    pub fn discord_token(&self) -> (token: &str)
        ensures
            token@ == self@,
    {
        self.discord_token.as_str()
    }
}

} // verus!
