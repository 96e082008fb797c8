use interview::ask::{Asker, CompletionOutcome};
use interview::message::ToolInvocation;
use interview::dialogue::{Dialogue, Instruction, TurnError, TurnOutcome, TurnStep};
use interview::user::{Need, User};

fn fresh_dialogue() -> Dialogue {
    Dialogue::new(
        User::new(1),
        Asker::new("key".to_string(), None, None, None),
        None,
        None,
    )
}

fn invocation(call_id: &str, operation: &str, raw: &str) -> ToolInvocation {
    ToolInvocation::new(call_id.to_string(), operation.to_string(), raw.to_string())
}

fn answered(invocations: Vec<ToolInvocation>, usage: u64) -> CompletionOutcome {
    CompletionOutcome::Answered { content: None, invocations, usage }
}

#[test]
fn scenario_profession_sets_field_and_continues() {
    let mut d = fresh_dialogue();
    let step = d.begin_turn(Some("I want to be a backend developer"));
    let stage = match step {
        TurnStep::CallBackend(stage, request) => {
            assert_eq!(request.operations.len(), 1);
            assert_eq!(request.operations[0].name, "save_profession");
            // the appended user text is the last message of the window
            let last = request.messages.last().unwrap();
            assert!(
                matches!(last, interview::message::Message::User { content } if content == "I want to be a backend developer")
            );
            stage
        }
        other => panic!("expected a backend call, got {:?}", other),
    };
    assert_eq!(stage, Need::Profession);
    let reply = answered(
        vec![invocation(
            "call-1",
            "save_profession",
            "{\"profession\":\"backend developer\"}",
        )],
        11,
    );
    let (outcome, instructions) = d.complete_turn(stage, reply).unwrap();
    assert_eq!(outcome, TurnOutcome::Continue);
    assert!(instructions.is_empty());
    assert_eq!(d.user.profession.as_deref(), Some("backend developer"));
    assert_eq!(d.user.need(), Need::Questions);
    assert_eq!(d.user.get_tokens_spent(), 11);
    // driving on with no input immediately asks for the questions
    match d.begin_turn(None) {
        TurnStep::CallBackend(stage, request) => {
            assert_eq!(stage, Need::Questions);
            assert_eq!(request.operations[0].name, "add_questions");
        }
        other => panic!("expected a backend call, got {:?}", other),
    }
}

#[test]
fn scenario_partial_answers_both_recorded() {
    let mut d = fresh_dialogue();
    d.user.set_profession("dev");
    d.user.set_questions(vec![
        "name".to_string(),
        "gender".to_string(),
        "age".to_string(),
    ]);
    assert_eq!(d.user.need(), Need::Answers);
    let reply = answered(
        vec![
            invocation("c0", "set_answer", "{\"index\":0,\"answer\":\"Alex\"}"),
            invocation("c2", "set_answer", "{\"index\":2,\"answer\":\"25\"}"),
        ],
        7,
    );
    let (outcome, instructions) = d.complete_turn(Need::Answers, reply).unwrap();
    assert_eq!(outcome, TurnOutcome::Continue);
    assert!(instructions.is_empty());
    let questions = d.user.questions.as_ref().unwrap();
    assert_eq!(questions[0].answer.as_deref(), Some("Alex"));
    assert_eq!(questions[1].answer, None);
    assert_eq!(questions[2].answer.as_deref(), Some("25"));
    assert_eq!(d.user.need(), Need::Answers);
    assert_eq!(d.user.resume, None);
}

#[test]
fn scenario_spend_guard_blocks_before_any_call() {
    let mut d = fresh_dialogue();
    d.user.add_tokens_spent(50000);
    d.max_tokens = 50000;
    let step = d.begin_turn(Some("hello"));
    match step {
        TurnStep::Finished(TurnOutcome::UserFacing(text), instructions) => {
            assert_eq!(text, "Limit exceeded");
            assert!(instructions.is_empty());
        }
        other => panic!("expected the limit reply, got {:?}", other),
    }
    assert_eq!(d.user.get_tokens_spent(), 50000);
}

#[test]
fn scenario_reset_wipes_and_deletes_artifact() {
    let mut d = fresh_dialogue();
    d.user.add_tokens_spent(123);
    d.user.set_profession("dev");
    d.user.set_questions(vec!["q".to_string()]);
    d.user.set_resume("resume text");
    d.set_resume("x.pdf").unwrap();
    let step = d.begin_turn(Some("reset"));
    match step {
        TurnStep::Finished(TurnOutcome::UserFacing(text), instructions) => {
            assert_eq!(text, "Data reset");
            assert_eq!(instructions, vec![Instruction::DeleteArtifact("x.pdf".to_string())]);
        }
        other => panic!("expected the reset reply, got {:?}", other),
    }
    assert_eq!(d.user.id, 1);
    assert_eq!(d.user.get_tokens_spent(), 123);
    assert_eq!(d.user.profession, None);
    assert!(d.user.questions.is_none());
    assert_eq!(d.user.resume, None);
    assert!(d.user.messages.is_empty());
}

#[test]
fn reset_without_resume_emits_no_instruction() {
    let mut d = fresh_dialogue();
    d.user.set_profession("dev");
    let step = d.begin_turn(Some("reset"));
    match step {
        TurnStep::Finished(TurnOutcome::UserFacing(text), instructions) => {
            assert_eq!(text, "Data reset");
            assert!(instructions.is_empty());
        }
        other => panic!("expected the reset reply, got {:?}", other),
    }
}

#[test]
fn questions_reply_numbers_the_questions() {
    let mut d = fresh_dialogue();
    d.user.set_profession("dev");
    let reply = answered(
        vec![invocation(
            "c1",
            "add_questions",
            "{\"questions\":[\"full name\",\"gender\",\"experience\",\"skills\",\"education\"]}",
        )],
        9,
    );
    let (outcome, _) = d.complete_turn(Need::Questions, reply).unwrap();
    assert_eq!(outcome, TurnOutcome::Continue);
    let questions = d.user.questions.as_ref().unwrap();
    assert_eq!(questions.len(), 5);
    assert_eq!(questions[0].index, 0);
    assert_eq!(questions[0].question, "full name");
    assert_eq!(questions[4].index, 4);
    assert_eq!(questions[4].question, "education");
    assert!(questions.iter().all(|q| q.answer.is_none()));
}

#[test]
fn resume_reply_emits_render_instruction_and_terminates() {
    let mut d = fresh_dialogue();
    d.user.set_profession("dev");
    d.user.set_questions(vec!["name".to_string()]);
    let _ = d.user.set_answer(0, "Alex");
    assert_eq!(d.user.need(), Need::Resume);
    let reply = answered(
        vec![invocation("c9", "save_resume", "{\"resume\":\"Alex, dev\"}")],
        21,
    );
    let (outcome, instructions) = d.complete_turn(Need::Resume, reply).unwrap();
    assert_eq!(outcome, TurnOutcome::Continue);
    assert_eq!(
        instructions,
        vec![Instruction::RenderAndStore("Alex, dev".to_string())]
    );
    assert_eq!(d.user.resume.as_deref(), Some("Alex, dev"));
    assert_eq!(d.user.need(), Need::Terminal);
    // the next driven step finishes the turn with the generic message
    match d.begin_turn(None) {
        TurnStep::Finished(TurnOutcome::UserFacing(text), _) => assert_eq!(text, "the end"),
        other => panic!("expected a finished turn, got {:?}", other),
    }
    // and the replay command hands the resume back without any call
    match d.begin_turn(Some("resume")) {
        TurnStep::Finished(TurnOutcome::UserFacing(text), _) => assert_eq!(text, "Alex, dev"),
        other => panic!("expected the stored resume, got {:?}", other),
    }
}

#[test]
fn transport_failure_charges_and_changes_nothing() {
    let mut d = fresh_dialogue();
    d.user.set_profession("dev");
    let before_messages = d.user.messages.len();
    let err = d
        .complete_turn(Need::Questions, CompletionOutcome::Failed("boom".to_string()))
        .unwrap_err();
    assert_eq!(err, TurnError::TransportError("boom".to_string()));
    assert_eq!(d.user.get_tokens_spent(), 0);
    assert_eq!(d.user.messages.len(), before_messages);
    assert!(d.user.questions.is_none());
}

#[test]
fn undecodable_single_result_is_fatal_but_charged() {
    let mut d = fresh_dialogue();
    let reply = answered(vec![invocation("c1", "save_profession", "{\"nope\":3}")], 13);
    let err = d.complete_turn(Need::Profession, reply).unwrap_err();
    assert_eq!(
        err,
        TurnError::MalformedStructuredResult(Need::Profession, "{\"nope\":3}".to_string())
    );
    assert_eq!(d.user.get_tokens_spent(), 13);
    assert_eq!(d.user.profession, None);
}

#[test]
fn answers_with_no_decodable_item_is_fatal() {
    let mut d = fresh_dialogue();
    d.user.set_profession("dev");
    d.user.set_questions(vec!["name".to_string()]);
    let reply = answered(vec![invocation("c1", "set_answer", "not json at all")], 4);
    let err = d.complete_turn(Need::Answers, reply).unwrap_err();
    assert_eq!(
        err,
        TurnError::MalformedStructuredResult(Need::Answers, "not json at all".to_string())
    );
    assert_eq!(d.user.get_tokens_spent(), 4);
}

#[test]
fn out_of_range_answer_index_is_dropped() {
    let mut d = fresh_dialogue();
    d.user.set_profession("dev");
    d.user.set_questions(vec!["name".to_string()]);
    let reply = answered(
        vec![
            invocation("c1", "set_answer", "{\"index\":9,\"answer\":\"lost\"}"),
            invocation("c2", "set_answer", "{\"index\":0,\"answer\":\"kept\"}"),
        ],
        5,
    );
    let (outcome, _) = d.complete_turn(Need::Answers, reply).unwrap();
    assert_eq!(outcome, TurnOutcome::Continue);
    let questions = d.user.questions.as_ref().unwrap();
    assert_eq!(questions[0].answer.as_deref(), Some("kept"));
}

#[test]
fn free_text_reply_passes_through_and_mutates_no_field() {
    let mut d = fresh_dialogue();
    let reply = CompletionOutcome::Answered {
        content: Some("What do you want to be?".to_string()),
        invocations: Vec::new(),
        usage: 6,
    };
    let (outcome, instructions) = d.complete_turn(Need::Profession, reply).unwrap();
    assert_eq!(
        outcome,
        TurnOutcome::UserFacing("What do you want to be?".to_string())
    );
    assert!(instructions.is_empty());
    assert_eq!(d.user.profession, None);
    assert_eq!(d.user.get_tokens_spent(), 6);
    // the text was kept in the transcript as an assistant message
    assert!(matches!(
        d.user.messages.last().unwrap(),
        interview::message::Message::Assistant { content: Some(c), .. } if c == "What do you want to be?"
    ));
}

#[test]
fn spend_accumulates_over_turns_and_failed_calls_add_zero() {
    let mut d = fresh_dialogue();
    let reply = answered(
        vec![invocation("c1", "save_profession", "{\"profession\":\"dev\"}")],
        10,
    );
    d.complete_turn(Need::Profession, reply).unwrap();
    assert_eq!(d.user.get_tokens_spent(), 10);
    let _ = d.complete_turn(Need::Questions, CompletionOutcome::Failed("down".to_string()));
    assert_eq!(d.user.get_tokens_spent(), 10);
    let reply = answered(
        vec![invocation(
            "c2",
            "add_questions",
            "{\"questions\":[\"a\",\"b\",\"c\",\"d\",\"e\"]}",
        )],
        7,
    );
    d.complete_turn(Need::Questions, reply).unwrap();
    assert_eq!(d.user.get_tokens_spent(), 17);
}

#[test]
fn answers_stage_sends_survey_payload_first() {
    let mut d = fresh_dialogue();
    d.user.set_profession("dev");
    d.user.set_questions(vec!["name".to_string()]);
    match d.begin_turn(None) {
        TurnStep::CallBackend(stage, request) => {
            assert_eq!(stage, Need::Answers);
            // message 0 is the stage prompt, message 1 the survey payload
            assert!(matches!(
                &request.messages[1],
                interview::message::Message::System { content }
                    if content == "[{\"index\":0,\"question\":\"name\",\"answer\":null}]"
            ));
        }
        other => panic!("expected a backend call, got {:?}", other),
    }
}

#[test]
fn acknowledgements_are_correlated_tool_results() {
    let mut d = fresh_dialogue();
    let reply = CompletionOutcome::Answered {
        content: None,
        invocations: vec![invocation(
            "call-77",
            "save_profession",
            "{\"profession\":\"dev\"}",
        )],
        usage: 3,
    };
    d.complete_turn(Need::Profession, reply).unwrap();
    // transcript: the assistant record, then the acknowledgement
    let n = d.user.messages.len();
    assert!(matches!(
        &d.user.messages[n - 2],
        interview::message::Message::Assistant { .. }
    ));
    assert!(matches!(
        &d.user.messages[n - 1],
        interview::message::Message::ToolResult { call_id, content }
            if call_id == "call-77" && content == "success"
    ));
}

#[test]
fn structured_invocations_win_over_text() {
    let mut d = fresh_dialogue();
    let reply = CompletionOutcome::Answered {
        content: Some("also some prose".to_string()),
        invocations: vec![invocation(
            "c1",
            "save_profession",
            "{\"profession\":\"dev\"}",
        )],
        usage: 2,
    };
    let (outcome, _) = d.complete_turn(Need::Profession, reply).unwrap();
    assert_eq!(outcome, TurnOutcome::Continue);
    assert_eq!(d.user.profession.as_deref(), Some("dev"));
}

#[test]
fn answer_with_undecodable_index_is_dropped() {
    let mut d = fresh_dialogue();
    d.user.set_profession("dev");
    d.user.set_questions(vec!["name".to_string()]);
    let reply = answered(
        vec![
            invocation("c1", "set_answer", "{\"index\":\"zero\",\"answer\":\"lost\"}"),
            invocation("c2", "set_answer", "{\"index\":0,\"answer\":\"kept\"}"),
        ],
        5,
    );
    let (outcome, _) = d.complete_turn(Need::Answers, reply).unwrap();
    assert_eq!(outcome, TurnOutcome::Continue);
    let questions = d.user.questions.as_ref().unwrap();
    assert_eq!(questions[0].answer.as_deref(), Some("kept"));
}

#[test]
fn outbound_request_respects_the_history_budget() {
    let mut d = fresh_dialogue();
    d.max_history = 10;
    d.user.add_message(interview::message::Message::User {
        content: "an old long message".to_string(),
    });
    let step = d.begin_turn(Some("short"));
    match step {
        TurnStep::CallBackend(_, request) => {
            // stage prompt plus the windowed transcript: only "short" fits
            assert_eq!(request.messages.len(), 2);
            assert!(matches!(
                &request.messages[1],
                interview::message::Message::User { content } if content == "short"
            ));
        }
        other => panic!("expected a backend call, got {:?}", other),
    }
}
