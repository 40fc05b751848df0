use std::collections::VecDeque;

use spammer_bot::error::{
    CommandError, CommandErrorKind, CountError, IntervalError, ParseError, RepetitionError,
    UsernameError, UsernameErrorKind,
};
use spammer_bot::interval::{Interval, ONE_SECOND_BITS};
use spammer_bot::parse::{
    burst_command, interval_word, parse_command, SpamArgs, SpamArgsKind, SpamForArgs,
    SpamOnceArgs, DEFAULT_REPEAT,
};

fn read(word: &str) -> Option<Interval> {
    word.parse::<f32>().ok().map(|seconds| Interval { bits: seconds.to_bits() })
}

fn parse(line: &str) -> Result<SpamArgs, ParseError> {
    let reading = interval_word(line).and_then(|word| read(&word));
    parse_command(line, reading)
}

fn burst(username: &str, repeat: usize) -> SpamArgs {
    SpamArgs { kind: SpamArgsKind::SpamOnce(SpamOnceArgs { repeat }), username: username.to_string() }
}

fn timed(username: &str, seconds: f32, repeat: usize) -> SpamArgs {
    SpamArgs {
        kind: SpamArgsKind::SpamFor(SpamForArgs {
            interval: Interval { bits: seconds.to_bits() },
            repeat,
        }),
        username: username.to_string(),
    }
}

fn deque(words: &[&str]) -> VecDeque<String> {
    words.iter().map(|w| w.to_string()).collect()
}

#[test]
fn burst_with_target_and_count() {
    assert_eq!(parse("'spo bob 3"), Ok(burst("bob", 3)));
    assert_eq!(parse("'spo alice 10"), Ok(burst("alice", 10)));
}

#[test]
fn burst_count_defaults_to_five() {
    assert_eq!(DEFAULT_REPEAT, 5);
    assert_eq!(parse("'spo bob"), Ok(burst("bob", 5)));
}

#[test]
fn timed_with_target_interval_and_count() {
    assert_eq!(parse("'sp alice 1.0 2"), Ok(timed("alice", 1.0, 2)));
    assert_eq!(parse("'sp bob 2.0 5"), Ok(timed("bob", 2.0, 5)));
    assert_eq!(parse("'sp bob 0.5 10"), Ok(timed("bob", 0.5, 10)));
}

#[test]
fn timed_interval_defaults_to_one_second() {
    assert_eq!(parse("'sp bob"), Ok(timed("bob", 1.0, 5)));
    let args = parse("'sp bob").unwrap();
    match args.kind {
        SpamArgsKind::SpamFor(t) => assert_eq!(t.interval.bits, ONE_SECOND_BITS),
        SpamArgsKind::SpamOnce(_) => panic!("a timed request was asked for"),
    }
}

#[test]
fn timed_count_defaults_to_five() {
    assert_eq!(parse("'sp bob 2.5"), Ok(timed("bob", 2.5, 5)));
}

#[test]
fn timed_numbers_are_positional() {
    // A single number after the name is the interval, never the count.
    assert_eq!(parse("'sp bob 7"), Ok(timed("bob", 7.0, 5)));
}

#[test]
fn timed_interval_is_whatever_binary32_reads() {
    assert_eq!(parse("'sp bob 1e1 3"), Ok(timed("bob", 10.0, 3)));
    assert_eq!(parse("'sp bob .5 3"), Ok(timed("bob", 0.5, 3)));
    assert_eq!(parse("'sp bob -1 3"), Ok(timed("bob", -1.0, 3)));
    assert_eq!(parse("'sp bob inf 3"), Ok(timed("bob", f32::INFINITY, 3)));
    let args = parse("'sp bob 0.4999 3").unwrap();
    assert_eq!(args, timed("bob", 0.4999, 3));
}

#[test]
fn extra_words_are_ignored() {
    assert_eq!(parse("'spo bob 3 and more words"), Ok(burst("bob", 3)));
    assert_eq!(parse("'sp alice 1.0 2 x y z"), Ok(timed("alice", 1.0, 2)));
    assert_eq!(parse("'sp alice 1.0 2 notanumber"), Ok(timed("alice", 1.0, 2)));
}

#[test]
fn whitespace_between_words_does_not_matter() {
    assert_eq!(parse("  'spo \t bob\n3  "), Ok(burst("bob", 3)));
}

#[test]
fn the_target_is_taken_as_it_is() {
    assert_eq!(parse("'spo <@1234> 2"), Ok(burst("<@1234>", 2)));
    assert_eq!(parse("'spo 12 2"), Ok(burst("12", 2)));
}

#[test]
fn empty_line_misses_the_command() {
    for line in ["", "   ", "\t\n"] {
        match parse(line) {
            Err(ParseError::CommandError(e)) => {
                assert_eq!(e.kind(), CommandErrorKind::NotProvided);
                assert_eq!(e.user_value(), "");
            },
            other => panic!("{:?}", other),
        }
    }
}

#[test]
fn unknown_command_is_refused_with_its_word() {
    for (line, word) in [("hello bob 3", "hello"), ("'spx bob", "'spx"), ("'SP bob", "'SP"), ("sp bob", "sp")] {
        match parse(line) {
            Err(ParseError::CommandError(e)) => {
                assert_eq!(e.kind(), CommandErrorKind::InvalidCommand);
                assert_eq!(e.user_value(), word);
            },
            other => panic!("{:?}", other),
        }
    }
}

#[test]
fn missing_target_is_refused() {
    for line in ["'sp", "'spo", " 'sp  "] {
        match parse(line) {
            Err(ParseError::UsernameError(e)) => {
                assert_eq!(e.kind(), UsernameErrorKind::NotProvided);
                assert_eq!(e.user_value(), "");
            },
            other => panic!("{:?}", other),
        }
    }
}

#[test]
fn bad_interval_is_refused_with_its_word() {
    for (line, word) in [("'sp bob abc 3", "abc"), ("'sp bob 1,5", "1,5"), ("'sp bob 1.0.0 x", "1.0.0")] {
        match parse(line) {
            Err(ParseError::IntervalError(e)) => assert_eq!(e.user_value(), word),
            other => panic!("{:?}", other),
        }
    }
}

#[test]
fn bad_repetition_count_is_refused_with_its_word() {
    for (line, word) in [("'sp bob 1.0 x", "x"), ("'sp bob 1.0 -2", "-2"), ("'sp bob 1.0 2.5", "2.5")] {
        match parse(line) {
            Err(ParseError::RepetitionError(e)) => assert_eq!(e.user_value(), word),
            other => panic!("{:?}", other),
        }
    }
}

#[test]
fn bad_mention_count_is_refused_with_its_word() {
    for (line, word) in [("'spo bob x", "x"), ("'spo bob -3", "-3"), ("'spo bob 1.0", "1.0"), ("'spo bob 99999999999999999999999", "99999999999999999999999")] {
        match parse(line) {
            Err(ParseError::CountError(e)) => assert_eq!(e.user_value(), word),
            other => panic!("{:?}", other),
        }
    }
}

#[test]
fn the_interval_is_judged_before_the_count() {
    match parse("'sp bob abc xyz") {
        Err(ParseError::IntervalError(e)) => assert_eq!(e.user_value(), "abc"),
        other => panic!("{:?}", other),
    }
}

#[test]
fn interval_word_is_the_third_word_of_a_timed_request() {
    assert_eq!(interval_word("'sp bob 2.0 5"), Some("2.0".to_string()));
    assert_eq!(interval_word("  'sp   bob   abc"), Some("abc".to_string()));
    assert_eq!(interval_word("'sp bob"), None);
    assert_eq!(interval_word("'sp"), None);
    assert_eq!(interval_word(""), None);
    assert_eq!(interval_word("'spo bob 3"), None);
    assert_eq!(interval_word("hello bob 3"), None);
}

#[test]
fn a_reading_is_not_looked_at_where_no_interval_stands() {
    let reading = Some(Interval { bits: 9.0f32.to_bits() });
    assert_eq!(parse_command("'sp bob", reading), Ok(timed("bob", 1.0, 5)));
    assert_eq!(parse_command("'spo bob 3", reading), Ok(burst("bob", 3)));
    assert_eq!(parse_command("'sp bob 2.0 4", reading), Ok(timed("bob", 9.0, 4)));
}

#[test]
fn parse_args_of_a_burst() {
    assert_eq!(SpamOnceArgs::parse_args(deque(&[])), Ok(SpamOnceArgs { repeat: 5 }));
    assert_eq!(SpamOnceArgs::parse_args(deque(&["7"])), Ok(SpamOnceArgs { repeat: 7 }));
    assert_eq!(SpamOnceArgs::parse_args(deque(&["7", "x"])), Ok(SpamOnceArgs { repeat: 7 }));
    assert_eq!(
        SpamOnceArgs::parse_args(deque(&["x"])),
        Err(ParseError::CountError(CountError::new("x".to_string())))
    );
}

#[test]
fn parse_args_of_a_timed_request() {
    let two = Interval { bits: 2.0f32.to_bits() };
    assert_eq!(
        SpamForArgs::parse_args(deque(&[]), None),
        Ok(SpamForArgs { interval: Interval { bits: 1.0f32.to_bits() }, repeat: 5 })
    );
    assert_eq!(
        SpamForArgs::parse_args(deque(&["2.0"]), Some(two)),
        Ok(SpamForArgs { interval: two, repeat: 5 })
    );
    assert_eq!(
        SpamForArgs::parse_args(deque(&["2.0", "9"]), Some(two)),
        Ok(SpamForArgs { interval: two, repeat: 9 })
    );
    assert_eq!(
        SpamForArgs::parse_args(deque(&["two", "9"]), None),
        Err(ParseError::IntervalError(IntervalError::new("two".to_string())))
    );
    assert_eq!(
        SpamForArgs::parse_args(deque(&["2.0", "nine"]), Some(two)),
        Err(ParseError::RepetitionError(RepetitionError::new("nine".to_string())))
    );
}

#[test]
fn parse_username_takes_the_first_word() {
    let mut args = deque(&["bob", "3"]);
    assert_eq!(SpamArgs::parse_username(&mut args), Ok("bob".to_string()));
    assert_eq!(args, deque(&["3"]));
    let mut none = deque(&[]);
    assert_eq!(
        SpamArgs::parse_username(&mut none),
        Err(ParseError::UsernameError(UsernameError::new(String::new())))
    );
    assert_eq!(none, deque(&[]));
    let mut empty = deque(&["", "3"]);
    assert_eq!(
        SpamArgs::parse_username(&mut empty),
        Err(ParseError::UsernameError(UsernameError::new(String::new())))
    );
    assert_eq!(empty, deque(&["3"]));
}

#[test]
fn parse_spam_once_and_for() {
    assert_eq!(SpamArgs::parse_spam_once(deque(&["bob", "3"])), Ok(burst("bob", 3)));
    assert_eq!(
        SpamArgs::parse_spam_for(deque(&["bob", "2.0", "3"]), read("2.0")),
        Ok(timed("bob", 2.0, 3))
    );
}

#[test]
fn kinds_come_from_their_arguments() {
    let once = SpamOnceArgs { repeat: 3 };
    let timed = SpamForArgs { interval: Interval { bits: 1.0f32.to_bits() }, repeat: 2 };
    assert_eq!(SpamArgsKind::from(once), SpamArgsKind::SpamOnce(once));
    assert_eq!(SpamArgsKind::from(timed), SpamArgsKind::SpamFor(timed));
}

#[test]
fn errors_come_from_their_kinds() {
    assert_eq!(
        ParseError::from(CommandError::new("x".to_string())),
        ParseError::CommandError(CommandError::new("x".to_string()))
    );
    assert_eq!(
        ParseError::from(UsernameError::new("x".to_string())),
        ParseError::UsernameError(UsernameError::new("x".to_string()))
    );
    assert_eq!(
        ParseError::from(IntervalError::new("x".to_string())),
        ParseError::IntervalError(IntervalError::new("x".to_string()))
    );
    assert_eq!(
        ParseError::from(RepetitionError::new("x".to_string())),
        ParseError::RepetitionError(RepetitionError::new("x".to_string()))
    );
    assert_eq!(
        ParseError::from(CountError::new("x".to_string())),
        ParseError::CountError(CountError::new("x".to_string()))
    );
}

#[test]
fn burst_command_is_the_canonical_line() {
    assert_eq!(burst_command("bob", 3), "'spo bob 3");
    assert_eq!(burst_command("<@99>", 80), "'spo <@99> 80");
    assert_eq!(burst_command("x", 0), "'spo x 0");
}

#[test]
fn burst_requests_survive_the_round_trip() {
    let lines = [
        "'spo bob 3",
        "'spo bob",
        "  'spo   alice   0080   trailing",
        "'spo <@123456789> +7",
        "'spo ñandú 12",
        "'spo 5 5",
    ];
    for line in lines {
        let first = parse(line).unwrap();
        let repeat = match first.kind {
            SpamArgsKind::SpamOnce(once) => once.repeat,
            SpamArgsKind::SpamFor(_) => panic!("a burst was asked for"),
        };
        let canonical = burst_command(&first.username, repeat);
        assert_eq!(parse(&canonical), Ok(first), "{:?}", line);
    }
}

#[test]
fn burst_round_trip_at_the_largest_count() {
    let line = burst_command("bob", usize::MAX);
    assert_eq!(parse(&line), Ok(burst("bob", usize::MAX)));
}
