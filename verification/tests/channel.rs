use mimicry::answers::{AnswerSource, AnswersChannel, Repeat, Values};
use mimicry::{Answers, UnconsumedAnswers};

#[test]
fn new_channel_has_nothing_pending() {
    let mut channel: AnswersChannel<u8> = AnswersChannel::new();
    assert_eq!(channel.remaining(), 0);
    assert_eq!(channel.pop(), None);
    assert_eq!(channel.check_consumed(), Ok(()));
}

#[test]
fn channel_hands_out_in_sending_order() {
    let mut channel = AnswersChannel::new();
    channel.replace(vec!['a', 'b', 'c']);
    assert_eq!(channel.remaining(), 3);
    assert_eq!(channel.pop(), Some('a'));
    assert_eq!(channel.pop(), Some('b'));
    assert_eq!(channel.remaining(), 1);
    assert_eq!(channel.pop(), Some('c'));
    assert_eq!(channel.pop(), None);
    assert_eq!(channel.remaining(), 0);
}

#[test]
fn sending_replaces_what_was_pending() {
    let mut channel = AnswersChannel::new();
    channel.replace(vec![1, 2, 3]);
    assert_eq!(channel.pop(), Some(1));
    channel.replace(vec![7, 8]);
    assert_eq!(channel.remaining(), 2);
    assert_eq!(channel.pop(), Some(7));
    assert_eq!(channel.pop(), Some(8));
    assert_eq!(channel.pop(), None);
}

#[test]
fn consumption_check_counts_what_is_left() {
    let mut channel = AnswersChannel::new();
    channel.replace(vec![10, 20, 30, 40]);
    assert_eq!(channel.check_consumed(), Err(UnconsumedAnswers { count: 4 }));
    assert_eq!(channel.pop(), Some(10));
    assert_eq!(channel.check_consumed(), Err(UnconsumedAnswers { count: 3 }));
    assert_eq!(channel.pop(), Some(20));
    assert_eq!(channel.pop(), Some(30));
    assert_eq!(channel.check_consumed(), Err(UnconsumedAnswers { count: 1 }));
    assert_eq!(channel.pop(), Some(40));
    assert_eq!(channel.check_consumed(), Ok(()));
}

#[test]
fn cleared_channel_passes_the_check() {
    let mut channel = AnswersChannel::new();
    channel.replace(vec![1, 2]);
    channel.clear();
    assert_eq!(channel.remaining(), 0);
    assert_eq!(channel.check_consumed(), Ok(()));
    assert_eq!(channel.pop(), None);
}

#[test]
fn consuming_all_sent_answers_passes_silently() {
    let (mut answers, mut sx) = Answers::channel();
    let sent = vec![3, 1, 4, 1, 5];
    let guard = sx.send_all(sent.clone());
    for expected in sent {
        assert_eq!(answers.try_next_for(()), Some(expected));
    }
    assert_eq!(guard.finish(), Ok(()));
}

#[test]
fn consuming_fewer_answers_reports_the_remaining_count() {
    let (mut answers, mut sx) = Answers::channel();
    let guard = sx.send_all(vec![3, 1, 4, 1, 5]);
    assert_eq!(answers.try_next_for(()), Some(3));
    assert_eq!(answers.try_next_for(()), Some(1));
    assert_eq!(guard.finish(), Err(UnconsumedAnswers { count: 3 }));
}

#[test]
fn scope_reports_unconsumed_answers() {
    let (mut answers, mut sx) = Answers::channel();
    let scoped = sx.send_all(vec!["a", "b"]).scope(|| answers.try_next_for(0_u8));
    assert_eq!(scoped, Err(UnconsumedAnswers { count: 1 }));
    assert_eq!(answers.take_calls(), [0]);
}

#[test]
fn scope_hands_on_the_result_of_the_action() {
    let (mut answers, mut sx) = Answers::channel();
    let scoped = sx
        .send_all(vec![2, 3])
        .scope(|| answers.try_next_for(()).unwrap() * answers.try_next_for(()).unwrap());
    assert_eq!(scoped, Ok(6));
}

#[test]
fn discard_suppresses_the_consumption_check() {
    let (mut answers, mut sx) = Answers::channel();
    let guard = sx.send_all(vec![0, 1, 2, 0, 1]);
    for i in 0..4 {
        assert_eq!(answers.try_next_for(i), Some(i % 3));
    }
    guard.discard(); // ignore the remaining answer
    assert_eq!(answers.try_next_for(4), None);
    assert_eq!(sx.send_all(Vec::new()).finish(), Ok(()));
    assert_eq!(answers.take_calls(), [0, 1, 2, 3]);
}

#[test]
fn empty_channel_gives_no_answer_and_records_nothing() {
    let (mut answers, mut sx) = Answers::<u8, &str, _>::channel();
    assert_eq!(answers.try_next_for("early"), None);
    let guard = sx.send(9);
    assert_eq!(answers.try_next_for("first"), Some(9));
    assert_eq!(answers.try_next_for("second"), None);
    assert_eq!(guard.finish(), Ok(()));
    assert_eq!(answers.take_calls(), ["first"]);
}

#[test]
fn take_calls_round_trip() {
    let mut answers: Answers<u8, String, _> = Answers::from_value(0);
    assert!(answers.take_calls().is_empty());
    let contexts = ["x", "yy", "x", "zzz"];
    for context in contexts {
        assert_eq!(answers.next_for(context.to_owned()), 0);
    }
    assert_eq!(answers.take_calls(), contexts);
    assert!(answers.take_calls().is_empty());
    assert_eq!(answers.next_for(String::from("later")), 0);
    assert_eq!(answers.take_calls(), ["later"]);
}

#[test]
fn value_once_answers_once() {
    let mut answers: Answers<&str> = Answers::from_value_once("only");
    assert_eq!(answers.try_next_for(()), Some("only"));
    assert_eq!(answers.try_next_for(()), None);
    assert_eq!(answers.try_next_for(()), None);
    assert_eq!(answers.take_calls().len(), 1);
}

#[test]
fn repeated_value_never_runs_out() {
    let mut answers: Answers<String, u32, _> = Answers::from_value(String::from("again"));
    for context in 0..100 {
        assert_eq!(answers.next_for(context), "again");
    }
    assert_eq!(answers.take_calls().len(), 100);
}

#[test]
fn default_answers_have_no_answer() {
    let mut answers: Answers<u8, u8> = Answers::default();
    assert_eq!(answers.try_next_for(1), None);
    assert!(answers.take_calls().is_empty());
}

#[test]
fn exhausted_values_record_no_call() {
    let mut answers: Answers<u8, char> = Answers::from_values(vec![1]);
    assert_eq!(answers.try_next_for('a'), Some(1));
    assert_eq!(answers.try_next_for('b'), None);
    assert_eq!(answers.take_calls(), ['a']);
}

#[test]
fn function_answers_depend_on_context() {
    let mut answers = Answers::from_fn(|context: &(u32, u32)| context.0 + context.1);
    assert_eq!(answers.next_for((1, 2)), 3);
    assert_eq!(answers.next_for((40, 2)), 42);
    assert_eq!(answers.take_calls(), [(1, 2), (40, 2)]);
}

#[test]
fn sources_answer_on_their_own() {
    let mut values = Values::new(vec![1, 2]);
    assert_eq!(values.next_answer(), Some(1));
    assert_eq!(values.next_answer(), Some(2));
    assert_eq!(values.next_answer(), None);
    let mut repeat = Repeat::new('r');
    assert_eq!(repeat.next_answer(), Some('r'));
    assert_eq!(repeat.next_answer(), Some('r'));
    let mut answers = Answers::from_source(Values::new(vec!["x"]));
    assert_eq!(answers.next_for(1), "x");
    assert_eq!(answers.take_calls(), [1]);
}
