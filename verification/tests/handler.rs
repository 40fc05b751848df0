use spammer_bot::handler::{is_request, react, reply_text, Handler, Intake, Reaction};
use spammer_bot::interval::Interval;
use spammer_bot::pacer::{Pacer, Step};
use spammer_bot::parse::interval_word;
use spammer_bot::spam::Delivery;
use spammer_bot::Args;

fn read(word: &str) -> Option<Interval> {
    word.parse::<f32>().ok().map(|seconds| Interval { bits: seconds.to_bits() })
}

/// Handles one message from beginning to end and returns the lines that were sent.
fn handle(handler: &mut Handler, author: u64, content: &str) -> Vec<String> {
    let intake = handler.intake(author, content);
    let reading = interval_word(content).and_then(|word| read(&word));
    let mut sent = Vec::new();
    match react(intake, author, content, reading) {
        Reaction::Ignore => {},
        Reaction::Reply(line) => sent.push(line),
        Reaction::Deliver(Delivery::Burst { text }) => sent.push(text),
        Reaction::Deliver(Delivery::Timed { repeat, text, .. }) => {
            let mut pacer = Pacer::new(repeat);
            loop {
                match pacer.step() {
                    Step::Wait => {},
                    Step::Send => sent.push(text.clone()),
                    Step::Stop => break,
                }
                pacer.advance();
            }
        },
    }
    if intake == Intake::Admitted {
        assert!(handler.release(author));
    }
    sent
}

#[test]
fn reply_text_mentions_the_author() {
    assert_eq!(reply_text(42, "hi"), "<@42> hi");
    assert_eq!(reply_text(0, ""), "<@0> ");
    assert_eq!(
        reply_text(u64::MAX, "message is too long"),
        "<@18446744073709551615> message is too long"
    );
}

#[test]
fn requests_begin_with_the_command_word() {
    assert!(is_request("'sp"));
    assert!(is_request("'spo bob 3"));
    assert!(is_request("'sp alice 1.0 2"));
    assert!(is_request("'spanything"));
    assert!(!is_request(""));
    assert!(!is_request("'s"));
    assert!(!is_request(" 'sp bob"));
    assert!(!is_request("sp bob"));
    assert!(!is_request("hello"));
    assert!(!is_request("'Sp bob"));
    for line in ["", "'", "'s", "'sp", "'spo", "x'sp", "'sq", "''sp"] {
        assert_eq!(is_request(line), line.starts_with("'sp"), "{:?}", line);
    }
}

#[test]
fn burst_of_three_is_one_message() {
    let mut handler = Handler::new();
    assert_eq!(handle(&mut handler, 1, "'spo bob 3"), vec!["bobbobbob"]);
}

#[test]
fn timed_request_of_two_is_two_messages() {
    let mut handler = Handler::new();
    assert_eq!(handler.intake(1, "'sp alice 1.0 2"), Intake::Admitted);
    let reaction = react(Intake::Admitted, 1, "'sp alice 1.0 2", read("1.0"));
    assert_eq!(
        reaction,
        Reaction::Deliver(Delivery::Timed {
            interval: Interval { bits: 1.0f32.to_bits() },
            repeat: 2,
            text: "alice".to_string(),
        })
    );
    assert!(handler.release(1));
    assert_eq!(handle(&mut handler, 1, "'sp alice 1.0 2"), vec!["alice", "alice"]);
}

#[test]
fn timed_request_without_target_is_reported_and_the_author_is_freed() {
    let mut handler = Handler::new();
    assert_eq!(
        handle(&mut handler, 7, "'sp"),
        vec!["<@7>  does not seem to exist or is not a valid username"]
    );
    // Nothing was sent but the report, and the author may ask again.
    assert_eq!(handler.intake(7, "'sp"), Intake::Admitted);
}

#[test]
fn messages_that_are_no_requests_are_ignored() {
    let mut handler = Handler::new();
    assert_eq!(handler.intake(1, "hello there"), Intake::Ignored);
    assert_eq!(react(Intake::Ignored, 1, "hello there", None), Reaction::Ignore);
    assert_eq!(handle(&mut handler, 1, "good morning"), Vec::<String>::new());
    // An ignored message leaves its author free.
    assert_eq!(handler.intake(1, "'spo bob"), Intake::Admitted);
}

#[test]
fn busy_author_is_told_to_wait() {
    let mut handler = Handler::new();
    assert_eq!(handler.intake(3, "'spo bob 3"), Intake::Admitted);
    assert_eq!(handler.intake(3, "'spo bob 3"), Intake::Busy);
    assert_eq!(
        react(Intake::Busy, 3, "'spo bob 3", None),
        Reaction::Reply("<@3> please wait until your previous request ends".to_string())
    );
    // Being turned away does not free the author.
    assert_eq!(handler.intake(3, "'spo bob 3"), Intake::Busy);
    // Others are let in meanwhile.
    assert_eq!(handler.intake(4, "'spo bob 3"), Intake::Admitted);
    assert!(handler.release(3));
    assert_eq!(handler.intake(3, "'spo bob 3"), Intake::Admitted);
}

#[test]
fn a_busy_author_who_writes_no_request_is_ignored() {
    let mut handler = Handler::new();
    assert_eq!(handler.intake(3, "'spo bob 3"), Intake::Admitted);
    assert_eq!(handler.intake(3, "never mind"), Intake::Ignored);
    assert_eq!(handler.intake(3, "'sp bob"), Intake::Busy);
}

#[test]
fn what_is_wrong_with_a_request_is_told_in_one_line() {
    let mut handler = Handler::new();
    assert_eq!(handle(&mut handler, 9, "'spx bob"), vec!["<@9> 'spx is not a valid command"]);
    assert_eq!(
        handle(&mut handler, 9, "'sp bob abc"),
        vec!["<@9> abc can't be converted into numeric interval value"]
    );
    assert_eq!(
        handle(&mut handler, 9, "'sp bob 1.0 x"),
        vec!["<@9> x can't be converted into integer repetition count value"]
    );
    assert_eq!(
        handle(&mut handler, 9, "'spo bob x"),
        vec!["<@9> x can't be converted into integer mention count value"]
    );
    assert_eq!(
        handle(&mut handler, 9, "'sp bob 0.4999 1"),
        vec!["<@9> cannot use interval shorter than 0.5s"]
    );
    assert_eq!(
        handle(&mut handler, 9, "'sp bob 0.5 11"),
        vec!["<@9> sorry, but you can't spam this much"]
    );
    assert_eq!(
        handle(&mut handler, 9, "'spo bob 81"),
        vec!["<@9> cannot spam more than 80 times at once"]
    );
    let long = format!("'spo {} 2", "x".repeat(901));
    assert_eq!(handle(&mut handler, 9, &long), vec!["<@9> message is too long"]);
    // After each of them the author was freed.
    assert_eq!(handle(&mut handler, 9, "'spo bob 2"), vec!["bobbob"]);
}

#[test]
fn limits_at_their_boundaries_from_the_line() {
    let mut handler = Handler::new();
    assert_eq!(handle(&mut handler, 1, "'sp bob 0.5 10"), vec!["bob"; 10]);
    assert_eq!(handle(&mut handler, 1, "'spo b 80"), vec!["b".repeat(80)]);
}

#[test]
fn args_keep_the_token() {
    let args = Args::new("a-token".to_string());
    assert_eq!(args.discord_token(), "a-token");
}
