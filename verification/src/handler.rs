//! What to do about a message: whether it is a request at all, whether its
//! author may make one now, and what is to be sent in return.
//!
//! Handling a message takes two steps, because only the first touches the set
//! of busy users: [`Handler::intake`], then [`react`]. When what `react` asked
//! for is done, [`Handler::release`] frees the author for the next request.

use crate::error::parse_error_text;
use crate::guard::{acquires, after_op, GuardOp, GuardSet};
use crate::interval::Interval;
use crate::number::decimal;
use crate::parse::{command_outcome, parse_command};
use crate::spam::{spam, spam_outcome, validation_error_text, Delivery, DeliveryView};
use crate::text::words;
use vstd::prelude::*;
use vstd::string::*;

verus! {

/// Whether `content` is a request: whether it begins with the command word
/// of a timed request, with which that of a burst request begins too.
pub open spec fn is_request_text(content: Seq<char>) -> bool {
    "'sp"@.is_prefix_of(content)
}

/// The text that mentions the user `user`.
pub open spec fn mention_text(user: u64) -> Seq<char> {
    "<@"@ + decimal(user as nat) + ">"@
}

/// The line that tells the user `author` that `content`.
pub open spec fn reply_line(author: u64, content: Seq<char>) -> Seq<char> {
    mention_text(author) + " "@ + content
}

/// What an author is told whose earlier request is still in flight.
pub open spec fn busy_text() -> Seq<char> {
    "please wait until your previous request ends"@
}

/// Whether `content` is a request.
pub fn is_request(content: &str) -> (b: bool)
    ensures
        b == is_request_text(content@),
{
    proof {
        reveal_strlit("'sp");
        assert("'sp"@ =~= seq!['\'', 's', 'p']);
    }
    let ghost prefix = "'sp"@;
    let mut i: usize = 0;
    for c in it: content.chars()
        invariant
            i == it.index(),
            it.seq() == content@,
            i <= 3,
            prefix == "'sp"@,
            prefix == seq!['\'', 's', 'p'],
            forall|j: int| 0 <= j < i ==> content@[j] == prefix[j],
    {
        if i == 3 {
            assert(prefix =~= content@.subrange(0, 3));
            return true;
        }
        let want = if i == 0 {
            '\''
        } else if i == 1 {
            's'
        } else {
            'p'
        };
        if c != want {
            proof {
                if prefix.is_prefix_of(content@) {
                    assert(content@.subrange(0, 3)[i as int] == prefix[i as int]);
                }
            }
            return false;
        }
        i = i + 1;
    }
    if i == 3 {
        assert(prefix =~= content@.subrange(0, 3));
    }
    i == 3
}

/// The text that mentions the user `user`, as serenity writes it: calls
/// `Mentionable::mention` on a `UserId` and writes the `Mention` out through
/// its `Display`. The contract claims that this gives `<@`, the identifier in
/// decimal, and `>`.
#[verifier::external_body]
fn user_mention(user: u64) -> (mention: String)
    ensures
        mention@ == mention_text(user),
{
    serenity::model::misc::Mentionable::mention(&serenity::model::id::UserId(user)).to_string()
}

/// Writes the line that tells the user `author` that `content`.
pub fn reply_text(author: u64, content: &str) -> (line: String)
    ensures
        line@ == reply_line(author, content@),
{
    let mut line = user_mention(author);
    line.append(" ");
    line.append(content);
    line
}

/// What became of a message at the door.
#[derive(Clone, Copy, Debug, PartialEq, Eq, Structural)]
pub enum Intake {
    /// The message is no request.
    Ignored,
    /// An earlier request of the author is still in flight.
    Busy,
    /// The request is let in, and the author is busy from now on.
    Admitted,
}

/// What is to be done about a message.
#[derive(Debug, PartialEq, Eq)]
pub enum Reaction {
    /// Nothing.
    Ignore,
    /// Send this line, and nothing else.
    Reply(String),
    /// Send what the request asked for.
    Deliver(Delivery),
}

/// A reaction as a plain value.
pub enum ReactionView {
    Ignore,
    Reply(Seq<char>),
    Deliver(DeliveryView),
}

impl View for Reaction {
    type V = ReactionView;

    open spec fn view(&self) -> ReactionView {
        match self {
            Reaction::Ignore => ReactionView::Ignore,
            Reaction::Reply(line) => ReactionView::Reply(line@),
            Reaction::Deliver(delivery) => ReactionView::Deliver(delivery@),
        }
    }
}

/// What becomes of a message of `author` at the door, the busy users being `busy`.
pub open spec fn intake_of(busy: Set<u64>, author: u64, content: Seq<char>) -> Intake {
    if !is_request_text(content) {
        Intake::Ignored
    } else if acquires(busy, author) {
        Intake::Admitted
    } else {
        Intake::Busy
    }
}

/// What is to be done about a message of `author`, given what became of it at
/// the door and what reading its interval word gave: a request that was let
/// in is parsed and held to its limits, and whatever is wrong with it is told
/// to the author in one line.
pub open spec fn reaction_of(
    intake: Intake,
    author: u64,
    content: Seq<char>,
    reading: Option<Interval>,
) -> ReactionView {
    match intake {
        Intake::Ignored => ReactionView::Ignore,
        Intake::Busy => ReactionView::Reply(reply_line(author, busy_text())),
        Intake::Admitted => match command_outcome(words(content), reading) {
            Err(e) => ReactionView::Reply(reply_line(author, parse_error_text(e))),
            Ok(args) => match spam_outcome(args) {
                Err(e) => ReactionView::Reply(reply_line(author, validation_error_text(e))),
                Ok(delivery) => ReactionView::Deliver(delivery),
            },
        },
    }
}

/// The door through which every message comes.
pub struct Handler {
    blocked_users: GuardSet,
}

impl View for Handler {
    type V = Set<u64>;

    /// The users who have a request in flight.
    closed spec fn view(&self) -> Set<u64> {
        self.blocked_users@
    }
}

impl Handler {
    /// A handler with no request in flight.
    pub fn new() -> (handler: Self)
        ensures
            handler@ == Set::<u64>::empty(),
    {
        Self { blocked_users: GuardSet::new() }
    }

    /// Decides whether a message of `author` is let in. Only a request that is
    /// let in changes the set of busy users: its author joins it.
    pub fn intake(&mut self, author: u64, content: &str) -> (intake: Intake)
        ensures
            intake == intake_of(old(self)@, author, content@),
            final(self)@ == if intake == Intake::Admitted {
                after_op(old(self)@, GuardOp::Acquire(author))
            } else {
                old(self)@
            },
    {
        if !is_request(content) {
            Intake::Ignored
        } else if self.blocked_users.try_acquire(author) {
            Intake::Admitted
        } else {
            proof {
                assert(old(self)@.insert(author) =~= old(self)@);
            }
            Intake::Busy
        }
    }

    /// Frees `author` for their next request. Returns whether they were busy.
    pub fn release(&mut self, author: u64) -> (released: bool)
        ensures
            released == old(self)@.contains(author),
            final(self)@ == after_op(old(self)@, GuardOp::Release(author)),
    {
        self.blocked_users.release(author)
    }
}

/// Decides what is to be done about a message of `author`. `intake` is what
/// became of the message at the door, and `reading` is what reading its
/// interval word as a binary32 number gave.
pub fn react(intake: Intake, author: u64, content: &str, reading: Option<Interval>) -> (reaction:
    Reaction)
    ensures
        reaction@ == reaction_of(intake, author, content@, reading),
{
    match intake {
        Intake::Ignored => Reaction::Ignore,
        Intake::Busy => Reaction::Reply(
            reply_text(author, "please wait until your previous request ends"),
        ),
        Intake::Admitted => match parse_command(content, reading) {
            Err(e) => Reaction::Reply(reply_text(author, e.message().as_str())),
            Ok(args) => match spam(args) {
                Err(e) => Reaction::Reply(reply_text(author, e.message().as_str())),
                Ok(delivery) => Reaction::Deliver(delivery),
            },
        },
    }
}

} // verus!
