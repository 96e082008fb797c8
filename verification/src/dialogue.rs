//! The turn processor.  One externally visible turn is split in two around
//! the single backend call it may make: `begin_turn` handles the reserved
//! commands, appends the incoming text, computes the stage, enforces the
//! spend guard and builds the outbound request; `complete_turn` charges the
//! usage, interprets the reply for the stage and applies it to the state.
//!
//! The caller drives the loop: invoke `begin_turn` with the new input once;
//! when it asks for a backend call, perform it and hand the outcome to
//! `complete_turn`; while the outcome is `Continue`, start over with no
//! input.  The caller persists the conversation only after a user-facing
//! outcome, and carries out the emitted instructions.

use vstd::prelude::*;
use vstd::string::StringExecFns;

use crate::ask::{Asker, AskerV, CompletionOutcome, CompletionOutcomeV, PayableResponseV, Request,
    RequestV, Response, ResponseV, AnswerEntryV, answers_operation,
    answers_prompt, interp_answers, interp_profession, interp_questions, interp_resume,
    profession_operation, profession_prompt, questions_operation, questions_prompt,
    resume_operation, resume_prompt, stage_request, answer_entry_views};
use crate::message::{Message, MessageV};
use crate::survey::questions_json;
use crate::user::{Need, QuestionV, User, UserV, blank_user, need_of, window_of};

verus! {

/// The default history budget for outbound requests, in bytes.
pub const MAX_HISTORY: usize = 5000;

/// The default spend ceiling, in usage units.
pub const MAX_TOKENS: u64 = 50000;

/// A side effect the caller must carry out: render the finished resume text
/// and store the artifact, or delete a stored artifact.
#[derive(Debug, PartialEq, Eq)]
pub enum Instruction {
    RenderAndStore(String),
    DeleteArtifact(String),
}

pub ghost enum InstructionV {
    RenderAndStore(Seq<char>),
    DeleteArtifact(Seq<char>),
}

impl View for Instruction {
    type V = InstructionV;

    open spec fn view(&self) -> InstructionV {
        match self {
            Instruction::RenderAndStore(t) => InstructionV::RenderAndStore(t@),
            Instruction::DeleteArtifact(n) => InstructionV::DeleteArtifact(n@),
        }
    }
}

pub open spec fn instruction_views(ins: Seq<Instruction>) -> Seq<InstructionV> {
    ins.map_values(|i: Instruction| i@)
}

/// What a turn came to: text for the user, or a signal to keep driving with
/// no new input.
#[derive(Debug, PartialEq, Eq)]
pub enum TurnOutcome {
    UserFacing(String),
    Continue,
}

pub ghost enum TurnOutcomeV {
    UserFacing(Seq<char>),
    Continue,
}

impl View for TurnOutcome {
    type V = TurnOutcomeV;

    open spec fn view(&self) -> TurnOutcomeV {
        match self {
            TurnOutcome::UserFacing(t) => TurnOutcomeV::UserFacing(t@),
            TurnOutcome::Continue => TurnOutcomeV::Continue,
        }
    }
}

/// A failed turn: the backend call itself failed, or its reply held no
/// decodable structured result where the stage demanded one.  The state is
/// not corrupted either way; the caller decides whether to rerun the turn.
#[derive(Debug, PartialEq, Eq)]
pub enum TurnError {
    TransportError(String),
    MalformedStructuredResult(Need, String),
}

pub ghost enum TurnErrorV {
    TransportError(Seq<char>),
    MalformedStructuredResult(Need, Seq<char>),
}

impl View for TurnError {
    type V = TurnErrorV;

    open spec fn view(&self) -> TurnErrorV {
        match self {
            TurnError::TransportError(e) => TurnErrorV::TransportError(e@),
            TurnError::MalformedStructuredResult(n, s) => TurnErrorV::MalformedStructuredResult(
                *n,
                s@,
            ),
        }
    }
}

/// Where a turn stands after `begin_turn`: finished without a backend call,
/// or waiting on the stage's request being performed.
#[derive(Debug)]
pub enum TurnStep {
    Finished(TurnOutcome, Vec<Instruction>),
    CallBackend(Need, Request),
}

pub ghost enum TurnStepV {
    Finished(TurnOutcomeV, Seq<InstructionV>),
    CallBackend(Need, RequestV),
}

impl View for TurnStep {
    type V = TurnStepV;

    open spec fn view(&self) -> TurnStepV {
        match self {
            TurnStep::Finished(o, ins) => TurnStepV::Finished(o@, instruction_views(ins@)),
            TurnStep::CallBackend(n, r) => TurnStepV::CallBackend(*n, r@),
        }
    }
}

/// One driven conversation: the state, the backend configuration, and the
/// two budgets.
#[derive(Debug)]
pub struct Dialogue {
    pub user: User,
    pub asker: Asker,
    pub max_history: usize,
    pub max_tokens: u64,
}

pub ghost struct DialogueV {
    pub user: UserV,
    pub asker: AskerV,
    pub max_history: int,
    pub max_tokens: int,
}

impl View for Dialogue {
    type V = DialogueV;

    open spec fn view(&self) -> DialogueV {
        DialogueV {
            user: self.user@,
            asker: self.asker@,
            max_history: self.max_history as int,
            max_tokens: self.max_tokens as int,
        }
    }
}

pub open spec fn user_with_message(u: UserV, m: MessageV) -> UserV {
    UserV { messages: u.messages.push(m), ..u }
}

/// The acknowledgement appended for a handled invocation.
pub open spec fn ack_message(call_id: Seq<char>) -> MessageV {
    MessageV::ToolResult { call_id, content: "success"@ }
}

/// What a reset emits: one deletion for the stored artifact, if one was
/// recorded.
pub open spec fn reset_instructions(u: UserV) -> Seq<InstructionV> {
    match u.artifact {
        Some(name) => seq![InstructionV::DeleteArtifact(name)],
        None => Seq::empty(),
    }
}

/// The message list a stage sends: for the answer and resume stages the
/// question/answer state as a leading system payload, then the windowed
/// transcript; for the others the windowed transcript alone.
pub open spec fn stage_messages(u: UserV, max_history: int, stage: Need) -> Seq<MessageV> {
    let window = window_of(u.messages, max_history);
    if stage == Need::Answers || stage == Need::Resume {
        match u.questions {
            Some(qs) => seq![MessageV::System { content: questions_json(qs) }] + window,
            None => window,
        }
    } else {
        window
    }
}

/// The request a stage sends, over the dialogue's own configuration.
pub open spec fn stage_request_of(d: DialogueV, stage: Need) -> RequestV {
    let messages = stage_messages(d.user, d.max_history, stage);
    match stage {
        Need::Profession => stage_request(
            d.asker,
            profession_prompt(),
            messages,
            profession_operation(),
        ),
        Need::Questions => stage_request(
            d.asker,
            questions_prompt(),
            messages,
            questions_operation(),
        ),
        Need::Answers => stage_request(d.asker, answers_prompt(), messages, answers_operation()),
        Need::Resume => stage_request(d.asker, resume_prompt(), messages, resume_operation()),
        Need::Terminal => stage_request(
            d.asker,
            profession_prompt(),
            messages,
            profession_operation(),
        ),
    }
}

/// What `begin_turn` does, as a function of the state and the input: the
/// new state, and either a finished turn or the backend call to perform.
pub open spec fn begin_turn_spec(d: DialogueV, input: Option<Seq<char>>) -> (DialogueV, TurnStepV) {
    if input == Some("reset"@) {
        (
            DialogueV { user: blank_user(d.user.id, d.user.tokens_spent), ..d },
            TurnStepV::Finished(
                TurnOutcomeV::UserFacing("Data reset"@),
                reset_instructions(d.user),
            ),
        )
    } else if need_of(d.user) is Terminal && input == Some("resume"@) {
        (d, TurnStepV::Finished(TurnOutcomeV::UserFacing(d.user.resume->Some_0), Seq::empty()))
    } else {
        let u1 = match input {
            Some(t) => user_with_message(d.user, MessageV::User { content: t }),
            None => d.user,
        };
        let d1 = DialogueV { user: u1, ..d };
        if need_of(u1) is Terminal {
            (d1, TurnStepV::Finished(TurnOutcomeV::UserFacing("the end"@), Seq::empty()))
        } else if u1.tokens_spent >= d.max_tokens {
            (d1, TurnStepV::Finished(TurnOutcomeV::UserFacing("Limit exceeded"@), Seq::empty()))
        } else {
            (d1, TurnStepV::CallBackend(need_of(u1), stage_request_of(d1, need_of(u1))))
        }
    }
}

/// The usage a turn is charged for: what the reply carried, and nothing for
/// a failed call.
pub open spec fn charge_of(o: CompletionOutcomeV) -> int {
    match o {
        CompletionOutcomeV::Failed(_) => 0,
        CompletionOutcomeV::Answered { usage, .. } => usage as int,
    }
}

/// A charge added to the spend, saturating at the largest representable
/// value.
pub open spec fn spend_after(tokens_spent: int, charge: int) -> int {
    if tokens_spent + charge <= u64::MAX {
        tokens_spent + charge
    } else {
        u64::MAX as int
    }
}

/// The stage's reading of a backend reply.
pub open spec fn interp_for_stage(stage: Need, o: CompletionOutcomeV) -> PayableResponseV
    recommends
        stage != Need::Terminal,
{
    match stage {
        Need::Profession => interp_profession(o),
        Need::Questions => interp_questions(o),
        Need::Answers => interp_answers(o),
        Need::Resume => interp_resume(o),
        Need::Terminal => interp_profession(o),
    }
}

/// One decoded answer applied to the state: an index inside the question
/// list records its answer and appends its acknowledgement; any other entry
/// is dropped.
pub open spec fn apply_one_answer(u: UserV, e: AnswerEntryV) -> UserV {
    match u.questions {
        Some(qs) => if e.index < qs.len() {
            UserV {
                questions: Some(
                    qs.update(e.index as int, QuestionV {
                        answer: Some(e.answer),
                        ..qs[e.index as int]
                    }),
                ),
                messages: u.messages.push(ack_message(e.call.call_id)),
                ..u
            }
        } else {
            u
        },
        None => u,
    }
}

/// Decoded answers applied one by one, in order.
pub open spec fn apply_answer_entries(u: UserV, es: Seq<AnswerEntryV>) -> UserV
    decreases es.len(),
{
    if es.len() == 0 {
        u
    } else {
        apply_answer_entries(apply_one_answer(u, es[0]), es.skip(1))
    }
}

proof fn lemma_apply_answers_snoc(u: UserV, es: Seq<AnswerEntryV>, x: AnswerEntryV)
    ensures
        apply_answer_entries(u, es.push(x)) == apply_one_answer(apply_answer_entries(u, es), x),
    decreases es.len(),
{
    if es.len() == 0 {
        assert(es.push(x)[0] == x);
        assert(es.push(x).skip(1) =~= Seq::<AnswerEntryV>::empty());
        assert(apply_answer_entries(apply_one_answer(u, x), Seq::<AnswerEntryV>::empty())
            == apply_one_answer(u, x));
        assert(apply_answer_entries(u, es) == u);
    } else {
        assert(es.push(x)[0] == es[0]);
        assert(es.push(x).skip(1) =~= es.skip(1).push(x));
        lemma_apply_answers_snoc(apply_one_answer(u, es[0]), es.skip(1), x);
        assert(apply_answer_entries(u, es.push(x)) == apply_answer_entries(
            apply_one_answer(u, es[0]),
            es.skip(1).push(x),
        ));
    }
}

/// Applying decoded answers touches the question list and the transcript
/// alone; every other field stays as it was.
pub proof fn lemma_apply_answers_preserves(u: UserV, es: Seq<AnswerEntryV>)
    ensures
        ({
            let r = apply_answer_entries(u, es);
            &&& r.id == u.id
            &&& r.profession == u.profession
            &&& r.resume == u.resume
            &&& r.artifact == u.artifact
            &&& r.tokens_spent == u.tokens_spent
        }),
    decreases es.len(),
{
    if es.len() > 0 {
        lemma_apply_answers_preserves(apply_one_answer(u, es[0]), es.skip(1));
    }
}

/// What `complete_turn` does, as a function of the state, the stage, and
/// the backend outcome: the new state, and the turn's result.
pub open spec fn complete_turn_spec(d: DialogueV, stage: Need, o: CompletionOutcomeV) -> (
    DialogueV,
    Result<(TurnOutcomeV, Seq<InstructionV>), TurnErrorV>,
)
    recommends
        stage != Need::Terminal,
{
    let pr = interp_for_stage(stage, o);
    let uc = UserV {
        tokens_spent: spend_after(d.user.tokens_spent, pr.tokens_spent as int),
        ..d.user
    };
    match pr.response {
        ResponseV::Transport(e) => (
            DialogueV { user: uc, ..d },
            Err(TurnErrorV::TransportError(e)),
        ),
        ResponseV::Malformed(s) => (
            DialogueV { user: uc, ..d },
            Err(TurnErrorV::MalformedStructuredResult(stage, s)),
        ),
        ResponseV::Text(t) => (
            DialogueV {
                user: user_with_message(
                    uc,
                    MessageV::Assistant { content: Some(t), invocations: Seq::empty() },
                ),
                ..d
            },
            Ok((TurnOutcomeV::UserFacing(t), Seq::empty())),
        ),
        ResponseV::Profession(tc, p) => (
            DialogueV {
                user: UserV {
                    profession: Some(p),
                    ..user_with_message(
                        user_with_message(uc, tc.request_message->Some_0),
                        ack_message(tc.call_id),
                    )
                },
                ..d
            },
            Ok((TurnOutcomeV::Continue, Seq::empty())),
        ),
        ResponseV::Questions(tc, qs) => (
            DialogueV {
                user: UserV {
                    questions: Some(
                        Seq::new(qs.len(), |i: int| QuestionV {
                            index: i,
                            question: qs[i],
                            answer: None,
                        }),
                    ),
                    ..user_with_message(
                        user_with_message(uc, tc.request_message->Some_0),
                        ack_message(tc.call_id),
                    )
                },
                ..d
            },
            Ok((TurnOutcomeV::Continue, Seq::empty())),
        ),
        ResponseV::Answers(record, es) => (
            DialogueV { user: apply_answer_entries(user_with_message(uc, record), es), ..d },
            Ok((TurnOutcomeV::Continue, Seq::empty())),
        ),
        ResponseV::Resume(tc, text) => (
            DialogueV {
                user: UserV {
                    resume: Some(text),
                    ..user_with_message(
                        user_with_message(uc, tc.request_message->Some_0),
                        ack_message(tc.call_id),
                    )
                },
                ..d
            },
            Ok((TurnOutcomeV::Continue, seq![InstructionV::RenderAndStore(text)])),
        ),
    }
}

/// Lifts a turn result to its abstract value.
pub open spec fn turn_result_view(r: Result<(TurnOutcome, Vec<Instruction>), TurnError>) -> Result<
    (TurnOutcomeV, Seq<InstructionV>),
    TurnErrorV,
> {
    match r {
        Ok((o, ins)) => Ok((o@, instruction_views(ins@))),
        Err(e) => Err(e@),
    }
}

/// Relies on std's `PartialEq` for `str`: equality of the two string
/// slices.
#[verifier::external_body]
fn str_eq(a: &str, b: &str) -> (r: bool)
    ensures
        r == (a@ == b@),
{
    a == b
}

impl Dialogue {
    pub fn new(user: User, asker: Asker, max_history: Option<usize>, max_tokens: Option<u64>) -> (r:
        Dialogue)
        ensures
            r@ == (DialogueV {
                user: user@,
                asker: asker@,
                max_history: match max_history {
                    Some(h) => h as int,
                    None => MAX_HISTORY as int,
                },
                max_tokens: match max_tokens {
                    Some(t) => t as int,
                    None => MAX_TOKENS as int,
                },
            }),
    {
        let max_history = match max_history {
            Some(h) => h,
            None => MAX_HISTORY,
        };
        let max_tokens = match max_tokens {
            Some(t) => t,
            None => MAX_TOKENS,
        };
        Dialogue { user, asker, max_history, max_tokens }
    }

    /// Records the name the caller stored the rendered artifact under.
    pub fn set_resume(&mut self, name: &str) -> (r: Result<(), &'static str>)
        ensures
            r is Ok,
            final(self)@ == (DialogueV {
                user: (UserV { artifact: Some(name@), ..old(self)@.user }),
                ..old(self)@
            }),
    {
        self.user.set_artifact(name);
        Ok(())
    }

    /// Opens a turn: handles the reserved commands, appends the input to the
    /// transcript, and either finishes the turn locally or hands back the
    /// stage's backend request.  Never calls the backend and never charges;
    /// once the spend ceiling is reached, no call is requested until a
    /// reset.
    pub fn begin_turn(&mut self, input: Option<&str>) -> (r: TurnStep)
        ensures
            ({
                let iv = match input {
                    Some(t) => Some(t@),
                    None => None,
                };
                &&& final(self)@ == begin_turn_spec(old(self)@, iv).0
                &&& r@ == begin_turn_spec(old(self)@, iv).1
            }),
            final(self)@.user.tokens_spent == old(self)@.user.tokens_spent,
            old(self)@.user.tokens_spent >= old(self)@.max_tokens ==> !(r@ is CallBackend),
    {
        if let Some(text) = input {
            if str_eq(text, "reset") {
                let mut instructions: Vec<Instruction> = Vec::new();
                match self.user.get_artifact() {
                    Some(name) => {
                        instructions.push(Instruction::DeleteArtifact(name));
                        proof {
                            assert(instruction_views(instructions@) =~= reset_instructions(
                                old(self)@.user,
                            ));
                        }
                    },
                    None => {
                        proof {
                            assert(instruction_views(instructions@) =~= reset_instructions(
                                old(self)@.user,
                            ));
                        }
                    },
                }
                self.user.reset();
                return TurnStep::Finished(
                    TurnOutcome::UserFacing(String::from_str("Data reset")),
                    instructions,
                );
            }
        }
        let stage = self.user.need();
        if stage == Need::Terminal {
            if let Some(text) = input {
                if str_eq(text, "resume") {
                    match self.user.get_resume() {
                        Some(resume) => {
                            let no_instructions: Vec<Instruction> = Vec::new();
                            proof {
                                assert(instruction_views(no_instructions@)
                                    =~= Seq::<InstructionV>::empty());
                            }
                            return TurnStep::Finished(
                                TurnOutcome::UserFacing(resume),
                                no_instructions,
                            );
                        },
                        None => {
                            return vstd::pervasive::unreached();
                        },
                    }
                }
            }
        }
        if let Some(text) = input {
            self.user.add_message(Message::User { content: text.to_owned() });
        }
        let stage = self.user.need();
        if stage == Need::Terminal {
            let no_instructions: Vec<Instruction> = Vec::new();
            proof {
                assert(instruction_views(no_instructions@) =~= Seq::<InstructionV>::empty());
            }
            return TurnStep::Finished(
                TurnOutcome::UserFacing(String::from_str("the end")),
                no_instructions,
            );
        }
        if self.user.not_enough_tokens(self.max_tokens) {
            let no_instructions: Vec<Instruction> = Vec::new();
            proof {
                assert(instruction_views(no_instructions@) =~= Seq::<InstructionV>::empty());
            }
            return TurnStep::Finished(
                TurnOutcome::UserFacing(String::from_str("Limit exceeded")),
                no_instructions,
            );
        }
        let window = self.user.get_messages(Some(self.max_history));
        let messages = if stage == Need::Answers || stage == Need::Resume {
            match self.user.get_answers_as_json_str() {
                Some(payload) => {
                    let mut with_payload = window;
                    with_payload.insert(0, Message::System { content: payload });
                    proof {
                        assert(crate::message::message_views(with_payload@) =~= stage_messages(
                            self@.user,
                            self@.max_history,
                            stage,
                        ));
                    }
                    with_payload
                },
                None => window,
            }
        } else {
            window
        };
        let request = match stage {
            Need::Profession => self.asker.profession_request(messages),
            Need::Questions => self.asker.questions_request(messages),
            Need::Answers => self.asker.answers_request(messages),
            Need::Resume => self.asker.resume_request(messages),
            Need::Terminal => vstd::pervasive::unreached(),
        };
        TurnStep::CallBackend(stage, request)
    }

    /// Closes a turn around the backend outcome the caller obtained for
    /// `stage`: charges whatever usage the reply carried - nothing for a
    /// failed call - then interprets the reply and applies the stage's
    /// result to the state.  A failed call mutates nothing; a reply that
    /// defies the stage's schema is charged but mutates nothing else.  The
    /// answer stage never touches the resume.
    pub fn complete_turn(&mut self, stage: Need, outcome: CompletionOutcome) -> (r: Result<
        (TurnOutcome, Vec<Instruction>),
        TurnError,
    >)
        requires
            stage != Need::Terminal,
        ensures
            final(self)@ == complete_turn_spec(old(self)@, stage, outcome@).0,
            turn_result_view(r) == complete_turn_spec(old(self)@, stage, outcome@).1,
            final(self)@.user.tokens_spent == spend_after(
                old(self)@.user.tokens_spent,
                charge_of(outcome@),
            ),
            stage == Need::Answers ==> final(self)@.user.resume == old(self)@.user.resume,
    {
        proof {
            lemma_interp_charge(stage, outcome@);
        }
        let pr = match stage {
            Need::Profession => self.asker.get_profession(outcome),
            Need::Questions => self.asker.get_questions(outcome),
            Need::Answers => self.asker.get_answers(outcome),
            Need::Resume => self.asker.get_resume(outcome),
            Need::Terminal => vstd::pervasive::unreached(),
        };
        self.user.add_tokens_spent(pr.tokens_spent);
        match pr.response {
            Response::Transport(e) => Err(TurnError::TransportError(e)),
            Response::Malformed(s) => Err(TurnError::MalformedStructuredResult(stage, s)),
            Response::Text(t) => {
                self.user.add_message(Message::Assistant {
                    content: Some(t.clone()),
                    invocations: Vec::new(),
                });
                let no_instructions: Vec<Instruction> = Vec::new();
                proof {
                    assert(crate::message::invocation_views(Seq::empty())
                        =~= Seq::<crate::message::ToolInvocationV>::empty());
                    assert(instruction_views(no_instructions@) =~= Seq::<InstructionV>::empty());
                }
                Ok((TurnOutcome::UserFacing(t), no_instructions))
            },
            Response::Profession(tc, p) => {
                let record = match tc.request_message {
                    Some(m) => m,
                    None => vstd::pervasive::unreached(),
                };
                self.user.add_message(record);
                self.user.add_func_success(tc.call_id.as_str(), tc.function_name.as_str());
                self.user.set_profession(p.as_str());
                let no_instructions: Vec<Instruction> = Vec::new();
                proof {
                    assert(instruction_views(no_instructions@) =~= Seq::<InstructionV>::empty());
                }
                Ok((TurnOutcome::Continue, no_instructions))
            },
            Response::Questions(tc, qs) => {
                let ghost qs_views = qs.deep_view();
                let record = match tc.request_message {
                    Some(m) => m,
                    None => vstd::pervasive::unreached(),
                };
                self.user.add_message(record);
                self.user.add_func_success(tc.call_id.as_str(), tc.function_name.as_str());
                self.user.set_questions(qs);
                proof {
                    assert(self@.user.questions->Some_0 =~= Seq::new(
                        qs_views.len(),
                        |i: int| QuestionV { index: i, question: qs_views[i], answer: None },
                    ));
                }
                let no_instructions: Vec<Instruction> = Vec::new();
                proof {
                    assert(instruction_views(no_instructions@) =~= Seq::<InstructionV>::empty());
                }
                Ok((TurnOutcome::Continue, no_instructions))
            },
            Response::Answers(record, entries) => {
                self.user.add_message(record);
                let ghost u_start = self.user@;
                let ghost entry_views = answer_entry_views(entries@);
                let mut i: usize = 0;
                while i < entries.len()
                    invariant
                        i <= entries@.len(),
                        entry_views == answer_entry_views(entries@),
                        self.user@ == apply_answer_entries(u_start, entry_views.take(i as int)),
                        self.asker == old(self).asker,
                        self.max_history == old(self).max_history,
                        self.max_tokens == old(self).max_tokens,
                    decreases entries@.len() - i,
                {
                    proof {
                        lemma_apply_answers_snoc(
                            u_start,
                            entry_views.take(i as int),
                            entry_views[i as int],
                        );
                        assert(entry_views.take(i as int).push(entry_views[i as int])
                            =~= entry_views.take(i as int + 1));
                        assert(entry_views[i as int] == entries@[i as int]@);
                    }
                    let e = &entries[i];
                    let valid = match self.user.questions.as_ref() {
                        Some(qlist) => e.index < qlist.len() as u64,
                        None => false,
                    };
                    if valid {
                        let ind = e.index as usize;
                        let res = self.user.set_answer(ind, e.answer.as_str());
                        proof {
                            assert(res is None);
                        }
                        self.user.add_func_success(
                            e.call.call_id.as_str(),
                            e.call.function_name.as_str(),
                        );
                    }
                    i += 1;
                }
                proof {
                    assert(entry_views.take(entry_views.len() as int) =~= entry_views);
                    lemma_apply_answers_preserves(u_start, entry_views);
                }
                let no_instructions: Vec<Instruction> = Vec::new();
                proof {
                    assert(instruction_views(no_instructions@) =~= Seq::<InstructionV>::empty());
                }
                Ok((TurnOutcome::Continue, no_instructions))
            },
            Response::Resume(tc, text) => {
                let record = match tc.request_message {
                    Some(m) => m,
                    None => vstd::pervasive::unreached(),
                };
                self.user.add_message(record);
                self.user.add_func_success(tc.call_id.as_str(), tc.function_name.as_str());
                self.user.set_resume(text.as_str());
                let mut instructions: Vec<Instruction> = Vec::new();
                instructions.push(Instruction::RenderAndStore(text));
                proof {
                    assert(instruction_views(instructions@) =~= seq![
                        complete_turn_spec(old(self)@, stage, outcome@).1->Ok_0.1[0],
                    ]);
                }
                Ok((TurnOutcome::Continue, instructions))
            },
        }
    }
}

/// The stage's reading of a reply is charged exactly what the backend
/// reported: the reply's usage, and nothing for a failed call.
proof fn lemma_interp_charge(stage: Need, o: CompletionOutcomeV)
    requires
        stage != Need::Terminal,
    ensures
        interp_for_stage(stage, o).tokens_spent as int == charge_of(o),
{
}

/// What the reset command does: it preserves the identity and the spend,
/// clears the profession, the questions, the resume and the transcript,
/// answers "Data reset", and emits exactly one artifact deletion iff a
/// resume stood.  Stated for committed states - ones where an artifact
/// name is recorded exactly when a resume is set, as the driving loop
/// leaves them once the caller has stored the rendered artifact.
pub proof fn lemma_reset_turn(d: DialogueV)
    requires
        d.user.artifact is Some <==> d.user.resume is Some,
    ensures
        ({
            let (d1, step) = begin_turn_spec(d, Some("reset"@));
            &&& d1.user.id == d.user.id
            &&& d1.user.tokens_spent == d.user.tokens_spent
            &&& d1.user.profession is None
            &&& d1.user.questions is None
            &&& d1.user.resume is None
            &&& d1.user.messages == Seq::<MessageV>::empty()
            &&& d1.asker == d.asker
            &&& d1.max_history == d.max_history
            &&& d1.max_tokens == d.max_tokens
            &&& step matches TurnStepV::Finished(o, ins) && {
                &&& o == TurnOutcomeV::UserFacing("Data reset"@)
                &&& (d.user.resume is Some ==> ins =~= seq![
                    InstructionV::DeleteArtifact(d.user.artifact->Some_0),
                ])
                &&& (d.user.resume is None ==> ins =~= Seq::<InstructionV>::empty())
            }
        }),
{
}

/// The spend guard: a turn opened once the spend has reached the ceiling
/// never asks for a backend call, and closing a turn is the only thing that
/// charges - so no further backend call happens until a reset lets the
/// ceiling matter afresh.
pub proof fn lemma_spend_guard(d: DialogueV, input: Option<Seq<char>>)
    ensures
        begin_turn_spec(d, input).1 is CallBackend ==> d.user.tokens_spent < d.max_tokens,
{
}

/// The answer stage never sets the resume, whatever the backend replied.
pub proof fn lemma_answers_never_set_resume(d: DialogueV, o: CompletionOutcomeV)
    ensures
        complete_turn_spec(d, Need::Answers, o).0.user.resume == d.user.resume,
{
    let pr = interp_for_stage(Need::Answers, o);
    let uc = UserV {
        tokens_spent: spend_after(d.user.tokens_spent, pr.tokens_spent as int),
        ..d.user
    };
    match pr.response {
        ResponseV::Answers(record, es) => {
            lemma_apply_answers_preserves(user_with_message(uc, record), es);
        },
        _ => {},
    }
}

/// The resume stage is reachable only when a question list stands and
/// every question in it has an answer.
pub proof fn lemma_resume_needs_all_answered(u: UserV)
    requires
        need_of(u) == Need::Resume,
    ensures
        u.questions is Some,
        crate::user::all_answered(u.questions->Some_0),
{
}

/// Closing a turn moves the spend by exactly the charge of the outcome,
/// saturating only at the top of the representable range.
pub proof fn lemma_complete_turn_spend(d: DialogueV, stage: Need, o: CompletionOutcomeV)
    requires
        stage != Need::Terminal,
    ensures
        complete_turn_spec(d, stage, o).0.user.tokens_spent == spend_after(
            d.user.tokens_spent,
            charge_of(o),
        ),
{
    lemma_interp_charge(stage, o);
    let pr = interp_for_stage(stage, o);
    let uc = UserV {
        tokens_spent: spend_after(d.user.tokens_spent, pr.tokens_spent as int),
        ..d.user
    };
    match pr.response {
        ResponseV::Answers(record, es) => {
            lemma_apply_answers_preserves(user_with_message(uc, record), es);
        },
        _ => {},
    }
}

/// One driven turn: what `begin_turn` leaves behind, then, if a backend
/// call was performed, what `complete_turn` makes of its outcome.
pub open spec fn turn_after(
    d: DialogueV,
    input: Option<Seq<char>>,
    call: Option<(Need, CompletionOutcomeV)>,
) -> DialogueV {
    let d1 = begin_turn_spec(d, input).0;
    match call {
        Some((stage, o)) => complete_turn_spec(d1, stage, o).0,
        None => d1,
    }
}

/// A run of turns, applied oldest first.
pub open spec fn run_after(
    d: DialogueV,
    turns: Seq<(Option<Seq<char>>, Option<(Need, CompletionOutcomeV)>)>,
) -> DialogueV
    decreases turns.len(),
{
    if turns.len() == 0 {
        d
    } else {
        run_after(turn_after(d, turns[0].0, turns[0].1), turns.skip(1))
    }
}

/// The summed usage of the backend calls a run actually made; a turn
/// without a call adds zero.
pub open spec fn run_usage(
    turns: Seq<(Option<Seq<char>>, Option<(Need, CompletionOutcomeV)>)>,
) -> int
    decreases turns.len(),
{
    if turns.len() == 0 {
        0
    } else {
        (match turns[0].1 {
            Some((_stage, o)) => charge_of(o),
            None => 0,
        }) + run_usage(turns.skip(1))
    }
}

/// A run's summed usage is never negative.
pub proof fn lemma_run_usage_nonneg(
    turns: Seq<(Option<Seq<char>>, Option<(Need, CompletionOutcomeV)>)>,
)
    ensures
        run_usage(turns) >= 0,
    decreases turns.len(),
{
    if turns.len() > 0 {
        lemma_run_usage_nonneg(turns.skip(1));
    }
}

/// After any run of turns whose summed usage stays representable, the
/// spend equals the starting spend plus the usage of every backend call
/// actually made: opening a turn charges nothing - a reset in particular
/// preserves the spend - and closing one charges exactly the reply's usage,
/// zero for a failed call.
pub proof fn lemma_spend_is_sum_of_charges(
    d: DialogueV,
    turns: Seq<(Option<Seq<char>>, Option<(Need, CompletionOutcomeV)>)>,
)
    requires
        forall|i: int| 0 <= i < turns.len() ==> ((#[trigger] turns[i].1) matches Some(c)
            ==> c.0 != Need::Terminal),
        d.user.tokens_spent >= 0,
        d.user.tokens_spent + run_usage(turns) <= u64::MAX,
    ensures
        run_after(d, turns).user.tokens_spent == d.user.tokens_spent + run_usage(turns),
    decreases turns.len(),
{
    if turns.len() > 0 {
        let d1 = begin_turn_spec(d, turns[0].0).0;
        let d2 = turn_after(d, turns[0].0, turns[0].1);
        lemma_run_usage_nonneg(turns.skip(1));
        match turns[0].1 {
            Some((stage, o)) => {
                lemma_complete_turn_spend(d1, stage, o);
            },
            None => {},
        }
        assert(forall|i: int| 0 <= i < turns.skip(1).len()
            ==> ((#[trigger] turns.skip(1)[i].1) matches Some(c) ==> c.0 != Need::Terminal));
        lemma_spend_is_sum_of_charges(d2, turns.skip(1));
    }
}

} // verus!
