//! What can be wrong with a command line, and the line of text that tells
//! the requester so.

use crate::text::{is_blank, text_is_blank};
use vstd::prelude::*;
use vstd::std_specs::convert::FromSpecImpl;
use vstd::string::*;

verus! {

/// Why no command was recognised.
#[derive(Clone, Copy, Debug, PartialEq, Eq, Structural)]
pub enum CommandErrorKind {
    InvalidCommand,
    NotProvided,
}

/// Why no user name was recognised.
#[derive(Clone, Copy, Debug, PartialEq, Eq, Structural)]
pub enum UsernameErrorKind {
    InvalidUsername,
    NotProvided,
}

/// The first word of the line is not a command, or the line has no word.
#[derive(Debug, PartialEq, Eq)]
pub struct CommandError {
    kind: CommandErrorKind,
    user_value: String,
}

/// The word after the command names no user, or there is no such word.
#[derive(Debug, PartialEq, Eq)]
pub struct UsernameError {
    kind: UsernameErrorKind,
    user_value: String,
}

/// The word in the place of the interval is not a number.
#[derive(Debug, PartialEq, Eq)]
pub struct IntervalError {
    user_value: String,
}

/// The word in the place of a timed request's count is not a count.
#[derive(Debug, PartialEq, Eq)]
pub struct RepetitionError {
    user_value: String,
}

/// The word in the place of a burst request's count is not a count.
#[derive(Debug, PartialEq, Eq)]
pub struct CountError {
    user_value: String,
}

/// Everything that parsing a command line can fail with.
#[derive(Debug, PartialEq, Eq)]
pub enum ParseError {
    CommandError(CommandError),
    UsernameError(UsernameError),
    IntervalError(IntervalError),
    RepetitionError(RepetitionError),
    CountError(CountError),
}

/// A parse error as a plain value: which word was wrong, and in which place.
pub enum ParseErrorView {
    Command(Seq<char>),
    Username(Seq<char>),
    Interval(Seq<char>),
    Repetition(Seq<char>),
    Count(Seq<char>),
}

/// The kind of a command error follows from the offending text.
pub open spec fn command_error_kind(user_value: Seq<char>) -> CommandErrorKind {
    if is_blank(user_value) {
        CommandErrorKind::NotProvided
    } else {
        CommandErrorKind::InvalidCommand
    }
}

/// The kind of a user name error follows from the offending text.
pub open spec fn username_error_kind(user_value: Seq<char>) -> UsernameErrorKind {
    if is_blank(user_value) {
        UsernameErrorKind::NotProvided
    } else {
        UsernameErrorKind::InvalidUsername
    }
}

/// The line that reports a command error.
pub open spec fn command_error_text(user_value: Seq<char>) -> Seq<char> {
    if is_blank(user_value) {
        "command must be provided!"@
    } else {
        user_value + " is not a valid command"@
    }
}

/// The line that reports a user name error.
pub open spec fn username_error_text(user_value: Seq<char>) -> Seq<char> {
    user_value + " does not seem to exist or is not a valid username"@
}

/// The line that reports an interval error.
pub open spec fn interval_error_text(user_value: Seq<char>) -> Seq<char> {
    user_value + " can't be converted into numeric interval value"@
}

/// The line that reports a repetition error.
pub open spec fn repetition_error_text(user_value: Seq<char>) -> Seq<char> {
    user_value + " can't be converted into integer repetition count value"@
}

/// The line that reports a count error.
pub open spec fn count_error_text(user_value: Seq<char>) -> Seq<char> {
    user_value + " can't be converted into integer mention count value"@
}

/// The line that reports a parse error.
pub open spec fn parse_error_text(e: ParseErrorView) -> Seq<char> {
    match e {
        ParseErrorView::Command(v) => command_error_text(v),
        ParseErrorView::Username(v) => username_error_text(v),
        ParseErrorView::Interval(v) => interval_error_text(v),
        ParseErrorView::Repetition(v) => repetition_error_text(v),
        ParseErrorView::Count(v) => count_error_text(v),
    }
}

impl View for CommandError {
    type V = Seq<char>;

    /// The offending text.
    closed spec fn view(&self) -> Seq<char> {
        self.user_value@
    }
}

impl CommandError {
    #[verifier::type_invariant]
    spec fn well_formed(self) -> bool {
        self.kind == command_error_kind(self.user_value@)
    }

    /// The error that `user_value` stands where something else was expected.
    pub fn new(user_value: String) -> (e: Self)
        ensures
            e@ == user_value@,
    {
        let kind = if text_is_blank(user_value.as_str()) {
            CommandErrorKind::NotProvided
        } else {
            CommandErrorKind::InvalidCommand
        };
        Self { kind, user_value }
    }

    /// Whether a command is missing or is none.
    pub fn kind(&self) -> (k: CommandErrorKind)
        ensures
            k == command_error_kind(self@),
    {
        proof {
            use_type_invariant(self);
        }
        self.kind
    }

    /// The offending text.
    pub fn user_value(&self) -> (v: &str)
        ensures
            v@ == self@,
    {
        self.user_value.as_str()
    }

    /// The line that reports this error.
    pub fn message(&self) -> (line: String)
        ensures
            line@ == command_error_text(self@),
    {
        proof {
            use_type_invariant(self);
        }
        match self.kind {
            CommandErrorKind::InvalidCommand => {
                let mut line = self.user_value.clone();
                line.append(" is not a valid command");
                line
            },
            CommandErrorKind::NotProvided => "command must be provided!".to_owned(),
        }
    }
}

impl View for UsernameError {
    type V = Seq<char>;

    /// The offending text.
    closed spec fn view(&self) -> Seq<char> {
        self.user_value@
    }
}

impl UsernameError {
    #[verifier::type_invariant]
    spec fn well_formed(self) -> bool {
        self.kind == username_error_kind(self.user_value@)
    }

    /// The error that `user_value` stands where something else was expected.
    pub fn new(user_value: String) -> (e: Self)
        ensures
            e@ == user_value@,
    {
        let kind = if text_is_blank(user_value.as_str()) {
            UsernameErrorKind::NotProvided
        } else {
            UsernameErrorKind::InvalidUsername
        };
        Self { kind, user_value }
    }

    /// Whether a user name is missing or is none.
    pub fn kind(&self) -> (k: UsernameErrorKind)
        ensures
            k == username_error_kind(self@),
    {
        proof {
            use_type_invariant(self);
        }
        self.kind
    }

    /// The offending text.
    pub fn user_value(&self) -> (v: &str)
        ensures
            v@ == self@,
    {
        self.user_value.as_str()
    }

    /// The line that reports this error.
    pub fn message(&self) -> (line: String)
        ensures
            line@ == username_error_text(self@),
    {
        let mut line = self.user_value.clone();
        line.append(" does not seem to exist or is not a valid username");
        line
    }
}

impl View for IntervalError {
    type V = Seq<char>;

    /// The offending text.
    closed spec fn view(&self) -> Seq<char> {
        self.user_value@
    }
}

impl IntervalError {
    /// The error that `user_value` stands where something else was expected.
    pub fn new(user_value: String) -> (e: Self)
        ensures
            e@ == user_value@,
    {
        Self { user_value }
    }

    /// The offending text.
    pub fn user_value(&self) -> (v: &str)
        ensures
            v@ == self@,
    {
        self.user_value.as_str()
    }

    /// The line that reports this error.
    pub fn message(&self) -> (line: String)
        ensures
            line@ == interval_error_text(self@),
    {
        let mut line = self.user_value.clone();
        line.append(" can't be converted into numeric interval value");
        line
    }
}

impl View for RepetitionError {
    type V = Seq<char>;

    /// The offending text.
    closed spec fn view(&self) -> Seq<char> {
        self.user_value@
    }
}

impl RepetitionError {
    /// The error that `user_value` stands where something else was expected.
    pub fn new(user_value: String) -> (e: Self)
        ensures
            e@ == user_value@,
    {
        Self { user_value }
    }

    /// The offending text.
    pub fn user_value(&self) -> (v: &str)
        ensures
            v@ == self@,
    {
        self.user_value.as_str()
    }

    /// The line that reports this error.
    pub fn message(&self) -> (line: String)
        ensures
            line@ == repetition_error_text(self@),
    {
        let mut line = self.user_value.clone();
        line.append(" can't be converted into integer repetition count value");
        line
    }
}

impl View for CountError {
    type V = Seq<char>;

    /// The offending text.
    closed spec fn view(&self) -> Seq<char> {
        self.user_value@
    }
}

impl CountError {
    /// The error that `user_value` stands where something else was expected.
    pub fn new(user_value: String) -> (e: Self)
        ensures
            e@ == user_value@,
    {
        Self { user_value }
    }

    /// The offending text.
    pub fn user_value(&self) -> (v: &str)
        ensures
            v@ == self@,
    {
        self.user_value.as_str()
    }

    /// The line that reports this error.
    pub fn message(&self) -> (line: String)
        ensures
            line@ == count_error_text(self@),
    {
        let mut line = self.user_value.clone();
        line.append(" can't be converted into integer mention count value");
        line
    }
}

impl View for ParseError {
    type V = ParseErrorView;

    open spec fn view(&self) -> ParseErrorView {
        match self {
            ParseError::CommandError(e) => ParseErrorView::Command(e@),
            ParseError::UsernameError(e) => ParseErrorView::Username(e@),
            ParseError::IntervalError(e) => ParseErrorView::Interval(e@),
            ParseError::RepetitionError(e) => ParseErrorView::Repetition(e@),
            ParseError::CountError(e) => ParseErrorView::Count(e@),
        }
    }
}

impl From<CommandError> for ParseError {
    fn from(error: CommandError) -> (e: Self) {
        Self::CommandError(error)
    }
}

impl FromSpecImpl<CommandError> for ParseError {
    open spec fn obeys_from_spec() -> bool {
        true
    }

    open spec fn from_spec(error: CommandError) -> Self {
        Self::CommandError(error)
    }
}

impl From<UsernameError> for ParseError {
    fn from(error: UsernameError) -> (e: Self) {
        Self::UsernameError(error)
    }
}

impl FromSpecImpl<UsernameError> for ParseError {
    open spec fn obeys_from_spec() -> bool {
        true
    }

    open spec fn from_spec(error: UsernameError) -> Self {
        Self::UsernameError(error)
    }
}

impl From<IntervalError> for ParseError {
    fn from(error: IntervalError) -> (e: Self) {
        Self::IntervalError(error)
    }
}

impl FromSpecImpl<IntervalError> for ParseError {
    open spec fn obeys_from_spec() -> bool {
        true
    }

    open spec fn from_spec(error: IntervalError) -> Self {
        Self::IntervalError(error)
    }
}

impl From<RepetitionError> for ParseError {
    fn from(error: RepetitionError) -> (e: Self) {
        Self::RepetitionError(error)
    }
}

impl FromSpecImpl<RepetitionError> for ParseError {
    open spec fn obeys_from_spec() -> bool {
        true
    }

    open spec fn from_spec(error: RepetitionError) -> Self {
        Self::RepetitionError(error)
    }
}

impl From<CountError> for ParseError {
    fn from(error: CountError) -> (e: Self) {
        Self::CountError(error)
    }
}

impl FromSpecImpl<CountError> for ParseError {
    open spec fn obeys_from_spec() -> bool {
        true
    }

    open spec fn from_spec(error: CountError) -> Self {
        Self::CountError(error)
    }
}

impl ParseError {
    /// The line that reports this error.
    pub fn message(&self) -> (line: String)
        ensures
            line@ == parse_error_text(self@),
    {
        match self {
            Self::CommandError(e) => e.message(),
            Self::UsernameError(e) => e.message(),
            Self::IntervalError(e) => e.message(),
            Self::RepetitionError(e) => e.message(),
            Self::CountError(e) => e.message(),
        }
    }
}

} // verus!
