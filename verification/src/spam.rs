//! The limits on a request, and what is sent for one that keeps them.

use crate::interval::Interval;
use crate::number::{decimal, push_decimal};
use crate::parse::{SpamArgs, SpamArgsKind, SpamArgsView};
use vstd::prelude::*;
use vstd::string::*;
use vstd::utf8::encode_utf8;

verus! {

/// The most mentions that one burst may hold.
pub const MAX_REPEAT: usize = 80;

/// The most bytes that the message of a burst may take.
pub const MAX_LENGTH: usize = 1800;

/// A limit that a well-formed request breaks.
#[derive(Clone, Copy, Debug, PartialEq, Eq, Structural)]
pub enum RuntimeValidationError {
    /// The interval of a timed request is less than half a second.
    IntervalTooShort,
    /// A timed request asks for more than 20 messages per second.
    RateTooHigh,
    /// A burst asks for more mentions than this cap.
    RepeatCapExceeded(usize),
    /// The message of a burst is longer than this limit.
    MessageTooLong(usize),
}

/// The line that reports a broken limit.
pub open spec fn validation_error_text(e: RuntimeValidationError) -> Seq<char> {
    match e {
        RuntimeValidationError::IntervalTooShort => "cannot use interval shorter than 0.5s"@,
        RuntimeValidationError::RateTooHigh => "sorry, but you can't spam this much"@,
        RuntimeValidationError::RepeatCapExceeded(max) => "cannot spam more than "@ + decimal(
            max as nat,
        ) + " times at once"@,
        RuntimeValidationError::MessageTooLong(_) => "message is too long"@,
    }
}

impl RuntimeValidationError {
    /// The line that reports this error.
    pub fn message(&self) -> (line: String)
        ensures
            line@ == validation_error_text(*self),
    {
        match self {
            Self::IntervalTooShort => "cannot use interval shorter than 0.5s".to_owned(),
            Self::RateTooHigh => "sorry, but you can't spam this much".to_owned(),
            Self::RepeatCapExceeded(max) => {
                let mut line = "cannot spam more than ".to_owned();
                push_decimal(&mut line, *max as u64);
                line.append(" times at once");
                line
            },
            Self::MessageTooLong(_) => "message is too long".to_owned(),
        }
    }
}

/// What is to be sent for a request that keeps the limits.
#[derive(Debug, PartialEq, Eq)]
pub enum Delivery {
    /// `repeat` messages of `text`, one after each further `interval`.
    Timed { interval: Interval, repeat: usize, text: String },
    /// One message of `text`, sent at once.
    Burst { text: String },
}

/// A delivery as a plain value.
pub enum DeliveryView {
    Timed { interval: Interval, repeat: usize, text: Seq<char> },
    Burst { text: Seq<char> },
}

impl View for Delivery {
    type V = DeliveryView;

    open spec fn view(&self) -> DeliveryView {
        match self {
            Delivery::Timed { interval, repeat, text } => DeliveryView::Timed {
                interval: *interval,
                repeat: *repeat,
                text: text@,
            },
            Delivery::Burst { text } => DeliveryView::Burst { text: text@ },
        }
    }
}

/// `text` written `n` times over, with nothing in between.
pub open spec fn repeated(text: Seq<char>, n: nat) -> Seq<char>
    decreases n,
{
    if n == 0 {
        Seq::empty()
    } else {
        repeated(text, (n - 1) as nat) + text
    }
}

/// The number of bytes that `text` takes in UTF-8.
pub open spec fn byte_len(text: Seq<char>) -> nat {
    encode_utf8(text).len()
}

/// What a timed request comes to: it is refused where the interval is less
/// than half a second, else where it asks for more than 20 messages per
/// second; otherwise each message is the user name.
pub open spec fn timed_outcome(username: Seq<char>, interval: Interval, repeat: usize) -> Result<
    DeliveryView,
    RuntimeValidationError,
> {
    if interval.below_half() {
        Err(RuntimeValidationError::IntervalTooShort)
    } else if interval.rate_too_high(repeat as nat) {
        Err(RuntimeValidationError::RateTooHigh)
    } else {
        Ok(DeliveryView::Timed { interval, repeat, text: username })
    }
}

/// What a burst request comes to: it is refused where it asks for more than
/// 80 mentions, else where the message would take more than 1800 bytes;
/// otherwise the message is the user name written `repeat` times over.
pub open spec fn burst_outcome(username: Seq<char>, repeat: usize) -> Result<
    DeliveryView,
    RuntimeValidationError,
> {
    if repeat > MAX_REPEAT {
        Err(RuntimeValidationError::RepeatCapExceeded(MAX_REPEAT))
    } else if byte_len(repeated(username, repeat as nat)) > MAX_LENGTH {
        Err(RuntimeValidationError::MessageTooLong(MAX_LENGTH))
    } else {
        Ok(DeliveryView::Burst { text: repeated(username, repeat as nat) })
    }
}

/// What a request comes to.
pub open spec fn spam_outcome(args: SpamArgsView) -> Result<DeliveryView, RuntimeValidationError> {
    match args.kind {
        SpamArgsKind::SpamFor(timed) => timed_outcome(args.username, timed.interval, timed.repeat),
        SpamArgsKind::SpamOnce(once) => burst_outcome(args.username, once.repeat),
    }
}

/// Whether `r` is the outcome `o`, as plain values.
pub open spec fn is_delivery_outcome(
    r: Result<Delivery, RuntimeValidationError>,
    o: Result<DeliveryView, RuntimeValidationError>,
) -> bool {
    match o {
        Ok(v) => r is Ok && r->Ok_0@ == v,
        Err(e) => r == Err::<Delivery, RuntimeValidationError>(e),
    }
}

/// Holds a timed request to its limits.
pub fn spam_for(username: String, interval: Interval, repeat: usize) -> (r: Result<
    Delivery,
    RuntimeValidationError,
>)
    ensures
        is_delivery_outcome(r, timed_outcome(username@, interval, repeat)),
{
    if interval.is_below_half() {
        return Err(RuntimeValidationError::IntervalTooShort);
    }
    if interval.is_rate_too_high(repeat) {
        return Err(RuntimeValidationError::RateTooHigh);
    }
    Ok(Delivery::Timed { interval, repeat, text: username })
}

/// Holds a burst request to its limits and composes its message. Nothing is
/// composed for a request that breaks a limit.
pub fn spam_once(username: String, repeat: usize) -> (r: Result<Delivery, RuntimeValidationError>)
    ensures
        is_delivery_outcome(r, burst_outcome(username@, repeat)),
{
    if repeat > MAX_REPEAT {
        return Err(RuntimeValidationError::RepeatCapExceeded(MAX_REPEAT));
    }
    let unit = username.as_str().as_bytes().len();
    proof {
        lemma_repeated_byte_len(username@, repeat as nat);
        assert(repeat > 0 && unit > MAX_LENGTH ==> repeat * unit > MAX_LENGTH) by (nonlinear_arith);
        assert(unit <= MAX_LENGTH ==> repeat * unit <= MAX_REPEAT * MAX_LENGTH)
            by (nonlinear_arith)
            requires
                repeat <= MAX_REPEAT,
        ;
    }
    if repeat > 0 && (unit > MAX_LENGTH || repeat * unit > MAX_LENGTH) {
        return Err(RuntimeValidationError::MessageTooLong(MAX_LENGTH));
    }
    let mut message = String::new();
    let mut i: usize = 0;
    while i < repeat
        invariant
            i <= repeat,
            message@ == repeated(username@, i as nat),
        decreases repeat - i,
    {
        message.append(username.as_str());
        i = i + 1;
    }
    Ok(Delivery::Burst { text: message })
}

/// Holds a request to the limits of its kind.
pub fn spam(args: SpamArgs) -> (r: Result<Delivery, RuntimeValidationError>)
    ensures
        is_delivery_outcome(r, spam_outcome(args@)),
{
    match args.kind {
        SpamArgsKind::SpamFor(timed) => spam_for(args.username, timed.interval, timed.repeat),
        SpamArgsKind::SpamOnce(once) => spam_once(args.username, once.repeat),
    }
}

/// The UTF-8 encoding of two texts in a row is that of the first followed
/// by that of the second.
pub proof fn lemma_encode_concat(a: Seq<char>, b: Seq<char>)
    ensures
        encode_utf8(a + b) == encode_utf8(a) + encode_utf8(b),
    decreases a.len(),
{
    if a.len() == 0 {
        assert(a + b =~= b);
        assert(encode_utf8(a) + encode_utf8(b) =~= encode_utf8(b));
    } else {
        lemma_encode_concat(a.drop_first(), b);
        assert((a + b).drop_first() =~= a.drop_first() + b);
        assert(encode_utf8(a + b) =~= encode_utf8(a) + encode_utf8(b));
    }
}

/// The message of a burst takes as many bytes as the user name takes, times
/// the count.
pub proof fn lemma_repeated_byte_len(text: Seq<char>, n: nat)
    ensures
        byte_len(repeated(text, n)) == n * byte_len(text),
    decreases n,
{
    if n == 0 {
        assert(0 * byte_len(text) == 0);
    } else {
        lemma_repeated_byte_len(text, (n - 1) as nat);
        lemma_encode_concat(repeated(text, (n - 1) as nat), text);
        assert(n * byte_len(text) == (n - 1) * byte_len(text) + byte_len(text))
            by (nonlinear_arith);
    }
}

} // verus!
