use interview::message::Message;
use interview::user::{Need, User};

fn user_with_contents(contents: &[&str]) -> User {
    let mut u = User::new(7);
    for c in contents {
        u.add_message(Message::User { content: c.to_string() });
    }
    u
}

#[test]
fn window_keeps_the_longest_fitting_suffix() {
    // sizes 5, 3, 4 from oldest to newest
    let u = user_with_contents(&["aaaaa", "bbb", "cccc"]);
    // budget 7 holds the last two (3 + 4), not the first (5 more)
    let w = u.get_messages(Some(7));
    assert_eq!(w.len(), 2);
    assert!(matches!(&w[0], Message::User { content } if content == "bbb"));
    assert!(matches!(&w[1], Message::User { content } if content == "cccc"));
}

#[test]
fn window_boundary_budget_is_inclusive() {
    let u = user_with_contents(&["aaaaa", "bbb", "cccc"]);
    let w = u.get_messages(Some(12));
    assert_eq!(w.len(), 3);
    let w = u.get_messages(Some(11));
    assert_eq!(w.len(), 2);
}

#[test]
fn window_is_empty_when_newest_alone_exceeds() {
    let u = user_with_contents(&["aaaaa", "bbb", "cccc"]);
    let w = u.get_messages(Some(3));
    assert!(w.is_empty());
}

#[test]
fn no_limit_returns_whole_transcript_unaltered() {
    let u = user_with_contents(&["one", "two"]);
    let w = u.get_messages(None);
    assert_eq!(w.len(), 2);
    // the stored transcript is untouched by windowing
    assert_eq!(u.messages.len(), 2);
}

#[test]
fn window_counts_content_bytes_not_chars() {
    let mut u = User::new(7);
    // two-byte character: three of them weigh six bytes
    u.add_message(Message::User { content: "\u{00e9}\u{00e9}\u{00e9}".to_string() });
    assert!(u.get_messages(Some(5)).is_empty());
    assert_eq!(u.get_messages(Some(6)).len(), 1);
}

#[test]
fn assistant_message_without_content_weighs_nothing() {
    let mut u = User::new(7);
    u.add_message(Message::User { content: "abc".to_string() });
    u.add_message(Message::Assistant { content: None, invocations: Vec::new() });
    let w = u.get_messages(Some(3));
    assert_eq!(w.len(), 2);
}

#[test]
fn need_projection_follows_the_stages() {
    let mut u = User::new(1);
    assert_eq!(u.need(), Need::Profession);
    u.set_profession("dev");
    assert_eq!(u.need(), Need::Questions);
    u.set_questions(vec!["a".to_string(), "b".to_string()]);
    assert_eq!(u.need(), Need::Answers);
    assert_eq!(u.set_answer(0, "x"), None);
    assert_eq!(u.need(), Need::Answers);
    assert_eq!(u.set_answer(1, "y"), None);
    assert_eq!(u.need(), Need::Resume);
    u.set_resume("done");
    assert_eq!(u.need(), Need::Terminal);
}

#[test]
fn need_is_stable_without_mutation() {
    let mut u = User::new(1);
    u.set_profession("dev");
    let first = u.need();
    let second = u.need();
    assert_eq!(first, second);
    // the transcript and the spend play no part in it
    u.add_message(Message::User { content: "hi".to_string() });
    u.add_tokens_spent(5);
    assert_eq!(u.need(), first);
}

#[test]
fn set_answer_rejects_bad_states() {
    let mut u = User::new(1);
    assert_eq!(u.set_answer(0, "x"), Some("no questions"));
    u.set_questions(vec!["a".to_string()]);
    assert_eq!(u.set_answer(1, "x"), Some("invalid question index"));
    assert_eq!(u.set_answer(0, "x"), None);
    assert_eq!(
        u.questions.as_ref().unwrap()[0].answer.as_deref(),
        Some("x")
    );
}

#[test]
fn spend_saturates_at_the_top() {
    let mut u = User::new(1);
    u.add_tokens_spent(u64::MAX - 1);
    u.add_tokens_spent(10);
    assert_eq!(u.get_tokens_spent(), u64::MAX);
}
