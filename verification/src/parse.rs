//! Parsing of a command line into a request.
//!
//! A line is split into words. The first word is the command, the second the
//! user to mention, and the words after it are the numbers that the command
//! takes, in a fixed order. A number that is left out has a default; a word
//! beyond the last number is ignored.
//!
//! An interval is a binary32 number of seconds. Reading one from decimal text
//! is left to the caller, who hands in what the reading of the word in the
//! interval's place gave: see [`interval_word`].

use crate::error::{
    CommandError, CountError, IntervalError, ParseError, ParseErrorView, RepetitionError,
    UsernameError,
};
use crate::interval::{Interval, ONE_SECOND_BITS};
use crate::number::{
    decimal, lemma_decimal_reads_back, parse_usize, push_decimal, usize_reading,
};
use crate::text::{
    is_blank, is_word, lemma_words_are_words, lemma_words_of_blank, lemma_words_of_three,
    split_words, texts, words,
};
use std::collections::VecDeque;
use vstd::prelude::*;
use vstd::string::*;

verus! {

/// The count of a request that names none.
pub const DEFAULT_REPEAT: usize = 5;

/// What a timed request asks for: `repeat` messages, one per `interval`.
#[derive(Clone, Copy, Debug, PartialEq, Eq, Structural)]
pub struct SpamForArgs {
    pub interval: Interval,
    pub repeat: usize,
}

/// What a burst request asks for: one message that mentions `repeat` times.
#[derive(Clone, Copy, Debug, PartialEq, Eq, Structural)]
pub struct SpamOnceArgs {
    pub repeat: usize,
}

/// The two kinds of request, each with what it asks for.
#[derive(Clone, Copy, Debug, PartialEq, Eq, Structural)]
pub enum SpamArgsKind {
    SpamFor(SpamForArgs),
    SpamOnce(SpamOnceArgs),
}

/// A request: what to do, and whom to mention.
#[derive(Debug, PartialEq, Eq)]
pub struct SpamArgs {
    pub kind: SpamArgsKind,
    pub username: String,
}

/// A request as a plain value.
pub struct SpamArgsView {
    pub kind: SpamArgsKind,
    pub username: Seq<char>,
}

impl View for SpamArgs {
    type V = SpamArgsView;

    open spec fn view(&self) -> SpamArgsView {
        SpamArgsView { kind: self.kind, username: self.username@ }
    }
}

/// The command word of a burst request.
pub open spec fn spam_once_word() -> Seq<char> {
    "'spo"@
}

/// The command word of a timed request.
pub open spec fn spam_for_word() -> Seq<char> {
    "'sp"@
}

/// The first of `args`, or the empty text where there is none.
pub open spec fn first_or_empty(args: Seq<Seq<char>>) -> Seq<char> {
    if args.len() > 0 {
        args[0]
    } else {
        Seq::empty()
    }
}

/// `args` without its first, or `args` itself where it is empty.
pub open spec fn rest(args: Seq<Seq<char>>) -> Seq<Seq<char>> {
    if args.len() > 0 {
        args.skip(1)
    } else {
        args
    }
}

/// What the numbers of a burst request parse to: the first of `args` is the
/// count, which defaults to 5.
pub open spec fn once_outcome(args: Seq<Seq<char>>) -> Result<SpamOnceArgs, ParseErrorView> {
    if args.len() == 0 {
        Ok(SpamOnceArgs { repeat: DEFAULT_REPEAT })
    } else {
        match usize_reading(args[0]) {
            Some(repeat) => Ok(SpamOnceArgs { repeat }),
            None => Err(ParseErrorView::Count(args[0])),
        }
    }
}

/// What the numbers of a timed request parse to: the first of `args` is the
/// interval, which defaults to one second, and `reading` is what reading it
/// as a binary32 number gave; the second is the count, which defaults to 5.
pub open spec fn for_outcome(args: Seq<Seq<char>>, reading: Option<Interval>) -> Result<
    SpamForArgs,
    ParseErrorView,
> {
    if args.len() == 0 {
        Ok(SpamForArgs { interval: Interval { bits: ONE_SECOND_BITS }, repeat: DEFAULT_REPEAT })
    } else {
        match reading {
            None => Err(ParseErrorView::Interval(args[0])),
            Some(interval) => if args.len() == 1 {
                Ok(SpamForArgs { interval, repeat: DEFAULT_REPEAT })
            } else {
                match usize_reading(args[1]) {
                    Some(repeat) => Ok(SpamForArgs { interval, repeat }),
                    None => Err(ParseErrorView::Repetition(args[1])),
                }
            },
        }
    }
}

/// What the user name parses to: the first of `args`, which must not be empty.
pub open spec fn username_outcome(args: Seq<Seq<char>>) -> Result<Seq<char>, ParseErrorView> {
    let username = first_or_empty(args);
    if username.len() == 0 {
        Err(ParseErrorView::Username(username))
    } else {
        Ok(username)
    }
}

/// What the words after the command of a burst request parse to.
pub open spec fn spam_once_outcome(args: Seq<Seq<char>>) -> Result<SpamArgsView, ParseErrorView> {
    match username_outcome(args) {
        Err(e) => Err(e),
        Ok(username) => match once_outcome(rest(args)) {
            Err(e) => Err(e),
            Ok(once) => Ok(SpamArgsView { kind: SpamArgsKind::SpamOnce(once), username }),
        },
    }
}

/// What the words after the command of a timed request parse to.
pub open spec fn spam_for_outcome(args: Seq<Seq<char>>, reading: Option<Interval>) -> Result<
    SpamArgsView,
    ParseErrorView,
> {
    match username_outcome(args) {
        Err(e) => Err(e),
        Ok(username) => match for_outcome(rest(args), reading) {
            Err(e) => Err(e),
            Ok(timed) => Ok(SpamArgsView { kind: SpamArgsKind::SpamFor(timed), username }),
        },
    }
}

/// What the words of a line parse to.
pub open spec fn command_outcome(line: Seq<Seq<char>>, reading: Option<Interval>) -> Result<
    SpamArgsView,
    ParseErrorView,
> {
    let command = first_or_empty(line);
    if command == spam_once_word() {
        spam_once_outcome(rest(line))
    } else if command == spam_for_word() {
        spam_for_outcome(rest(line), reading)
    } else {
        Err(ParseErrorView::Command(command))
    }
}

/// The word of a line that stands in the interval's place: the third word
/// of a timed request.
pub open spec fn interval_word_of(line: Seq<Seq<char>>) -> Option<Seq<char>> {
    if line.len() >= 3 && line[0] == spam_for_word() {
        Some(line[2])
    } else {
        None
    }
}

/// Whether `r` is the outcome `o`, as plain values.
pub open spec fn is_outcome<T>(r: Result<T, ParseError>, o: Result<T, ParseErrorView>) -> bool {
    match o {
        Ok(v) => r == Ok::<T, ParseError>(v),
        Err(e) => r is Err && r->Err_0@ == e,
    }
}

/// Whether `r` is the outcome `o`, as plain values.
pub open spec fn is_args_outcome(
    r: Result<SpamArgs, ParseError>,
    o: Result<SpamArgsView, ParseErrorView>,
) -> bool {
    match o {
        Ok(v) => r is Ok && r->Ok_0@ == v,
        Err(e) => r is Err && r->Err_0@ == e,
    }
}

impl SpamForArgs {
    /// Parses the numbers of a timed request. `reading` is what reading the
    /// first of `args` as a binary32 number gave, and is not looked at where
    /// `args` is empty.
    pub fn parse_args(mut args: VecDeque<String>, reading: Option<Interval>) -> (r: Result<
        Self,
        ParseError,
    >)
        ensures
            is_outcome(r, for_outcome(texts(args@), reading)),
    {
        let interval = match args.pop_front() {
            None => Interval { bits: ONE_SECOND_BITS },
            Some(arg) => match reading {
                Some(interval) => interval,
                None => {
                    return Err(ParseError::from(IntervalError::new(arg)));
                },
            },
        };
        let repeat = match args.pop_front() {
            None => DEFAULT_REPEAT,
            Some(arg) => match parse_usize(arg.as_str()) {
                Some(repeat) => repeat,
                None => {
                    return Err(ParseError::from(RepetitionError::new(arg)));
                },
            },
        };
        Ok(Self { interval, repeat })
    }
}

impl SpamOnceArgs {
    /// Parses the numbers of a burst request.
    pub fn parse_args(mut args: VecDeque<String>) -> (r: Result<Self, ParseError>)
        ensures
            is_outcome(r, once_outcome(texts(args@))),
    {
        let repeat = match args.pop_front() {
            None => DEFAULT_REPEAT,
            Some(arg) => match parse_usize(arg.as_str()) {
                Some(repeat) => repeat,
                None => {
                    return Err(ParseError::from(CountError::new(arg)));
                },
            },
        };
        Ok(Self { repeat })
    }
}

impl From<SpamForArgs> for SpamArgsKind {
    fn from(args: SpamForArgs) -> (kind: Self) {
        Self::SpamFor(args)
    }
}

impl vstd::std_specs::convert::FromSpecImpl<SpamForArgs> for SpamArgsKind {
    open spec fn obeys_from_spec() -> bool {
        true
    }

    open spec fn from_spec(args: SpamForArgs) -> Self {
        Self::SpamFor(args)
    }
}

impl From<SpamOnceArgs> for SpamArgsKind {
    fn from(args: SpamOnceArgs) -> (kind: Self) {
        Self::SpamOnce(args)
    }
}

impl vstd::std_specs::convert::FromSpecImpl<SpamOnceArgs> for SpamArgsKind {
    open spec fn obeys_from_spec() -> bool {
        true
    }

    open spec fn from_spec(args: SpamOnceArgs) -> Self {
        Self::SpamOnce(args)
    }
}

impl SpamArgs {
    /// Parses the words after the command of a timed request.
    pub fn parse_spam_for(mut args: VecDeque<String>, reading: Option<Interval>) -> (r: Result<
        Self,
        ParseError,
    >)
        ensures
            is_args_outcome(r, spam_for_outcome(texts(args@), reading)),
    {
        let username = match Self::parse_username(&mut args) {
            Ok(username) => username,
            Err(e) => {
                return Err(e);
            },
        };
        match SpamForArgs::parse_args(args, reading) {
            Ok(timed) => Ok(Self { kind: SpamArgsKind::from(timed), username }),
            Err(e) => Err(e),
        }
    }

    /// Parses the words after the command of a burst request.
    pub fn parse_spam_once(mut args: VecDeque<String>) -> (r: Result<Self, ParseError>)
        ensures
            is_args_outcome(r, spam_once_outcome(texts(args@))),
    {
        let username = match Self::parse_username(&mut args) {
            Ok(username) => username,
            Err(e) => {
                return Err(e);
            },
        };
        match SpamOnceArgs::parse_args(args) {
            Ok(once) => Ok(Self { kind: SpamArgsKind::from(once), username }),
            Err(e) => Err(e),
        }
    }

    /// Takes the user name from the front of `args`.
    pub fn parse_username(args: &mut VecDeque<String>) -> (r: Result<String, ParseError>)
        ensures
            texts(final(args)@) == rest(texts(old(args)@)),
            match username_outcome(texts(old(args)@)) {
                Ok(username) => r is Ok && r->Ok_0@ == username,
                Err(e) => r is Err && r->Err_0@ == e,
            },
    {
        let username = match args.pop_front() {
            Some(username) => username,
            None => String::new(),
        };
        proof {
            assert(texts(args@) =~= rest(texts(old(args)@)));
        }
        if username.as_str().is_empty() {
            Err(ParseError::from(UsernameError::new(username)))
        } else {
            Ok(username)
        }
    }
}

/// Parses a command line. `reading` is what reading the line's
/// [`interval_word`] as a binary32 number gave, and is not looked at where
/// the line has no such word.
pub fn parse_command(command: &str, reading: Option<Interval>) -> (r: Result<
    SpamArgs,
    ParseError,
>)
    ensures
        is_args_outcome(r, command_outcome(words(command@), reading)),
{
    let mut args = split_words(command);
    let ghost line = texts(args@);
    let command = match args.pop_front() {
        Some(command) => command,
        None => String::new(),
    };
    proof {
        assert(texts(args@) =~= rest(line));
    }
    if command == "'spo".to_owned() {
        SpamArgs::parse_spam_once(args)
    } else if command == "'sp".to_owned() {
        SpamArgs::parse_spam_for(args, reading)
    } else {
        Err(ParseError::from(CommandError::new(command)))
    }
}

/// The word of a command line that is to be read as the interval, if the
/// line has one.
pub fn interval_word(command: &str) -> (word: Option<String>)
    ensures
        match interval_word_of(words(command@)) {
            Some(w) => word is Some && word->Some_0@ == w,
            None => word is None,
        },
{
    let mut args = split_words(command);
    if args.len() >= 3 {
        let first = args.pop_front();
        let _username = args.pop_front();
        let third = args.pop_front();
        match (first, third) {
            (Some(command), Some(word)) => {
                if command == "'sp".to_owned() {
                    Some(word)
                } else {
                    None
                }
            },
            _ => None,
        }
    } else {
        None
    }
}

/// The line that asks for a burst of `repeat` mentions of `username`: the
/// command, the name and the count, with one space between them.
pub open spec fn burst_line(username: Seq<char>, repeat: nat) -> Seq<char> {
    spam_once_word() + seq![' '] + username + seq![' '] + decimal(repeat)
}

/// Writes the line that asks for a burst of `repeat` mentions of `username`.
pub fn burst_command(username: &str, repeat: usize) -> (line: String)
    ensures
        line@ == burst_line(username@, repeat as nat),
{
    proof {
        reveal_strlit(" ");
    }
    let mut line = "'spo".to_owned();
    line.append(" ");
    line.append(username);
    line.append(" ");
    push_decimal(&mut line, repeat as u64);
    proof {
        assert(" "@ =~= seq![' ']);
    }
    line
}

/// A burst request, written as a line in the canonical way and parsed again,
/// is the same request: whatever line it was parsed from first, and whatever
/// the reading of an interval is said to be.
pub proof fn lemma_burst_round_trip(
    line: Seq<char>,
    reading: Option<Interval>,
    args: SpamArgsView,
    again: Option<Interval>,
)
    requires
        command_outcome(words(line), reading) == Ok::<SpamArgsView, ParseErrorView>(args),
        args.kind is SpamOnce,
    ensures
        command_outcome(
            words(burst_line(args.username, args.kind->SpamOnce_0.repeat as nat)),
            again,
        ) == Ok::<SpamArgsView, ParseErrorView>(args),
{
    let parts = words(line);
    let repeat = args.kind->SpamOnce_0.repeat;
    reveal_strlit("'spo");
    reveal_strlit("'sp");
    assert(spam_once_word() != spam_for_word());
    assert(first_or_empty(parts) == spam_once_word());
    assert(rest(parts).len() > 0);
    assert(args.username == parts[1]);
    lemma_words_are_words(line, 1);
    lemma_decimal_reads_back(repeat as nat);
    assert(is_word(decimal(repeat as nat)));
    assert(is_word(spam_once_word()));
    lemma_words_of_three(spam_once_word(), args.username, decimal(repeat as nat));
    let back = words(burst_line(args.username, repeat as nat));
    assert(rest(back) =~= seq![args.username, decimal(repeat as nat)]);
    assert(rest(rest(back)) =~= seq![decimal(repeat as nat)]);
}

/// A line of nothing but white space, the empty line among them, misses its
/// command.
pub proof fn lemma_blank_line_misses_command(line: Seq<char>, reading: Option<Interval>)
    requires
        is_blank(line),
    ensures
        command_outcome(words(line), reading) == Err::<SpamArgsView, ParseErrorView>(
            ParseErrorView::Command(Seq::empty()),
        ),
{
    lemma_words_of_blank(line);
    reveal_strlit("'spo");
    reveal_strlit("'sp");
}

/// Words beyond the last number that a command takes make no difference:
/// a line parses as its first four words do.
pub proof fn lemma_extra_words_ignored(line: Seq<Seq<char>>, reading: Option<Interval>)
    requires
        line.len() >= 4,
    ensures
        command_outcome(line.take(4), reading) == command_outcome(line, reading),
{
    let head = line.take(4);
    assert(rest(head) =~= rest(line).take(3));
    assert(rest(rest(head)) =~= rest(rest(line)).take(2));
}

} // verus!
