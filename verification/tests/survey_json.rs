use interview::ask::{Asker, Request};
use interview::message::Message;
use interview::survey::questions_to_json;
use interview::user::{Question, User};

#[test]
fn survey_json_renders_answers_and_nulls() {
    let mut q0 = Question::new(0, "name");
    q0.set_answer("Alex");
    let q1 = Question::new(1, "age");
    let rendered = questions_to_json(&vec![q0, q1]);
    assert_eq!(
        rendered,
        "[{\"index\":0,\"question\":\"name\",\"answer\":\"Alex\"},{\"index\":1,\"question\":\"age\",\"answer\":null}]"
    );
}

#[test]
fn survey_json_escapes_quotes_and_controls() {
    let mut q = Question::new(0, "say \"hi\"\\now");
    q.set_answer("line\nbreak\ttab\u{000b}end");
    let rendered = questions_to_json(&vec![q]);
    assert_eq!(
        rendered,
        "[{\"index\":0,\"question\":\"say \\\"hi\\\"\\\\now\",\"answer\":\"line\\nbreak\\ttab\\u000bend\"}]"
    );
}

#[test]
fn survey_json_of_empty_list_is_empty_array() {
    let rendered = questions_to_json(&Vec::new());
    assert_eq!(rendered, "[]");
}

#[test]
fn survey_json_keeps_multidigit_indices() {
    let mut questions = Vec::new();
    for i in 0..12 {
        questions.push(Question::new(i, "q"));
    }
    let rendered = questions_to_json(&questions);
    assert!(rendered.contains("{\"index\":11,\"question\":\"q\",\"answer\":null}"));
}

#[test]
fn user_survey_payload_matches_question_state() {
    let mut u = User::new(1);
    assert_eq!(u.get_answers_as_json_str(), None);
    u.set_questions(vec!["name".to_string()]);
    assert_eq!(
        u.get_answers_as_json_str().as_deref(),
        Some("[{\"index\":0,\"question\":\"name\",\"answer\":null}]")
    );
}

#[test]
fn request_defaults_fill_in_cap_and_model() {
    let r = Request::new("k".to_string(), Vec::new(), None, None, Vec::new());
    assert_eq!(r.max_tokens, 512);
    assert_eq!(r.model, "gpt-3.5-turbo");
    let r = Request::new(
        "k".to_string(),
        Vec::new(),
        Some(4000),
        Some("gpt-4".to_string()),
        Vec::new(),
    );
    assert_eq!(r.max_tokens, 4000);
    assert_eq!(r.model, "gpt-4");
}

#[test]
fn stage_request_uses_override_prompt_when_configured() {
    let asker = Asker::new(
        "k".to_string(),
        Some(100),
        None,
        Some("do as I say".to_string()),
    );
    let r = asker.profession_request(vec![Message::User { content: "hi".to_string() }]);
    assert_eq!(r.api_key, "k");
    assert_eq!(r.max_tokens, 100);
    assert_eq!(r.messages.len(), 2);
    assert!(matches!(
        &r.messages[0],
        Message::System { content } if content == "do as I say"
    ));
    assert_eq!(r.operations.len(), 1);
    assert_eq!(r.operations[0].name, "save_profession");
    assert!(r.operations[0].parameters.contains("\"required\":[\"profession\"]"));
}

#[test]
fn each_stage_offers_its_own_operation() {
    let asker = Asker::new("k".to_string(), None, None, None);
    assert_eq!(asker.questions_request(Vec::new()).operations[0].name, "add_questions");
    assert_eq!(asker.answers_request(Vec::new()).operations[0].name, "set_answer");
    assert_eq!(asker.resume_request(Vec::new()).operations[0].name, "save_resume");
}

#[test]
fn message_content_size_is_bytes_of_content() {
    assert_eq!(
        Message::User { content: "abc".to_string() }.content_size(),
        3
    );
    assert_eq!(
        Message::Assistant { content: None, invocations: Vec::new() }.content_size(),
        0
    );
    assert_eq!(
        Message::ToolResult { call_id: "long id ignored".to_string(), content: "xy".to_string() }
            .content_size(),
        2
    );
}
