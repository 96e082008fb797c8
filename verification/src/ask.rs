//! The stage-specific face of the completion backend: building the outbound
//! request for each stage, and interpreting what came back — free text, a
//! transport failure, or structured invocations whose raw arguments are
//! decoded and validated per stage.

use vstd::prelude::*;
use vstd::string::StringExecFns;

use crate::json::{
    get_string_field, get_string_array_field, get_u64_field, json_string_field,
    json_string_array_field, json_u64_field,
};
use crate::message::{Message, MessageV, ToolInvocation, ToolInvocationV, invocation_views,
    message_views};

verus! {

/// One structured operation offered to the backend: its name, what it is
/// for, and its parameter schema as JSON text.
#[derive(Debug, Clone, PartialEq, Eq)]
pub struct OperationSchema {
    pub name: String,
    pub description: String,
    pub parameters: String,
}

pub ghost struct OperationSchemaV {
    pub name: Seq<char>,
    pub description: Seq<char>,
    pub parameters: Seq<char>,
}

impl View for OperationSchema {
    type V = OperationSchemaV;

    open spec fn view(&self) -> OperationSchemaV {
        OperationSchemaV {
            name: self.name@,
            description: self.description@,
            parameters: self.parameters@,
        }
    }
}

pub open spec fn operation_views(ops: Seq<OperationSchema>) -> Seq<OperationSchemaV> {
    ops.map_values(|o: OperationSchema| o@)
}

/// One outbound request: the ordered message list, the operations on offer,
/// the output cap, the model, and the credential the transport must use.
#[derive(Debug)]
pub struct Request {
    pub api_key: String,
    pub max_tokens: u16,
    pub model: String,
    pub messages: Vec<Message>,
    pub operations: Vec<OperationSchema>,
}

pub ghost struct RequestV {
    pub api_key: Seq<char>,
    pub max_tokens: int,
    pub model: Seq<char>,
    pub messages: Seq<MessageV>,
    pub operations: Seq<OperationSchemaV>,
}

impl View for Request {
    type V = RequestV;

    open spec fn view(&self) -> RequestV {
        RequestV {
            api_key: self.api_key@,
            max_tokens: self.max_tokens as int,
            model: self.model@,
            messages: message_views(self.messages@),
            operations: operation_views(self.operations@),
        }
    }
}

/// The output cap used when the caller names none.
pub open spec fn default_max_tokens() -> int {
    512
}

/// The model used when the caller names none.
pub open spec fn default_model() -> Seq<char> {
    "gpt-3.5-turbo"@
}

impl Request {
    pub fn new(
        api_key: String,
        messages: Vec<Message>,
        max_tokens: Option<u16>,
        model: Option<String>,
        operations: Vec<OperationSchema>,
    ) -> (r: Request)
        ensures
            r@ == (RequestV {
                api_key: api_key@,
                max_tokens: match max_tokens {
                    Some(m) => m as int,
                    None => default_max_tokens(),
                },
                model: match model {
                    Some(m) => m@,
                    None => default_model(),
                },
                messages: message_views(messages@),
                operations: operation_views(operations@),
            }),
    {
        let max_tokens = match max_tokens {
            Some(m) => m,
            None => 512,
        };
        let model = match model {
            Some(m) => m,
            None => String::from_str("gpt-3.5-turbo"),
        };
        Request { api_key, max_tokens, model, messages, operations }
    }
}

/// What one call to the backend came to: a transport failure, or a reply
/// carrying optional free text, the structured invocations, and the usage
/// cost charged for it.
#[derive(Debug)]
pub enum CompletionOutcome {
    Failed(String),
    Answered { content: Option<String>, invocations: Vec<ToolInvocation>, usage: u64 },
}

pub ghost enum CompletionOutcomeV {
    Failed(Seq<char>),
    Answered { content: Option<Seq<char>>, invocations: Seq<ToolInvocationV>, usage: u64 },
}

impl View for CompletionOutcome {
    type V = CompletionOutcomeV;

    open spec fn view(&self) -> CompletionOutcomeV {
        match self {
            CompletionOutcome::Failed(e) => CompletionOutcomeV::Failed(e@),
            CompletionOutcome::Answered { content, invocations, usage } =>
                CompletionOutcomeV::Answered {
                    content: match content {
                        Some(c) => Some(c@),
                        None => None,
                    },
                    invocations: invocation_views(invocations@),
                    usage: *usage,
                },
        }
    }
}

/// The handled invocation a stage result answers: its correlation id, the
/// operation's name, and, for single-result stages, the assistant message
/// that carried it and belongs in the transcript.
#[derive(Debug)]
pub struct ToolCallRequest {
    pub call_id: String,
    pub function_name: String,
    pub request_message: Option<Message>,
}

pub ghost struct ToolCallRequestV {
    pub call_id: Seq<char>,
    pub function_name: Seq<char>,
    pub request_message: Option<MessageV>,
}

impl View for ToolCallRequest {
    type V = ToolCallRequestV;

    open spec fn view(&self) -> ToolCallRequestV {
        ToolCallRequestV {
            call_id: self.call_id@,
            function_name: self.function_name@,
            request_message: match &self.request_message {
                Some(m) => Some(m@),
                None => None,
            },
        }
    }
}

/// One decoded answer from the answer stage: which question, and what the
/// user said.
#[derive(Debug)]
pub struct AnswerEntry {
    pub call: ToolCallRequest,
    pub index: u64,
    pub answer: String,
}

pub ghost struct AnswerEntryV {
    pub call: ToolCallRequestV,
    pub index: u64,
    pub answer: Seq<char>,
}

impl View for AnswerEntry {
    type V = AnswerEntryV;

    open spec fn view(&self) -> AnswerEntryV {
        AnswerEntryV { call: self.call@, index: self.index, answer: self.answer@ }
    }
}

pub open spec fn answer_entry_views(es: Seq<AnswerEntry>) -> Seq<AnswerEntryV> {
    es.map_values(|e: AnswerEntry| e@)
}

/// A stage's reading of one backend reply.  `Transport` carries a failed
/// call's description; `Malformed` the raw payload that failed to decode
/// (empty when the reply held neither text nor invocations).
#[derive(Debug)]
pub enum Response {
    Text(String),
    Transport(String),
    Malformed(String),
    Profession(ToolCallRequest, String),
    Questions(ToolCallRequest, Vec<String>),
    Answers(Message, Vec<AnswerEntry>),
    Resume(ToolCallRequest, String),
}

pub ghost enum ResponseV {
    Text(Seq<char>),
    Transport(Seq<char>),
    Malformed(Seq<char>),
    Profession(ToolCallRequestV, Seq<char>),
    Questions(ToolCallRequestV, Seq<Seq<char>>),
    Answers(MessageV, Seq<AnswerEntryV>),
    Resume(ToolCallRequestV, Seq<char>),
}

impl View for Response {
    type V = ResponseV;

    open spec fn view(&self) -> ResponseV {
        match self {
            Response::Text(t) => ResponseV::Text(t@),
            Response::Transport(e) => ResponseV::Transport(e@),
            Response::Malformed(s) => ResponseV::Malformed(s@),
            Response::Profession(tc, p) => ResponseV::Profession(tc@, p@),
            Response::Questions(tc, qs) => ResponseV::Questions(tc@, qs.deep_view()),
            Response::Answers(m, es) => ResponseV::Answers(m@, answer_entry_views(es@)),
            Response::Resume(tc, r) => ResponseV::Resume(tc@, r@),
        }
    }
}

/// A stage's reading of a reply together with the usage cost it carried.
#[derive(Debug)]
pub struct PayableResponse {
    pub response: Response,
    pub tokens_spent: u64,
}

pub ghost struct PayableResponseV {
    pub response: ResponseV,
    pub tokens_spent: u64,
}

impl View for PayableResponse {
    type V = PayableResponseV;

    open spec fn view(&self) -> PayableResponseV {
        PayableResponseV { response: self.response@, tokens_spent: self.tokens_spent }
    }
}

/// The assistant message recording a structured reply in the transcript.
pub open spec fn assistant_record(
    content: Option<Seq<char>>,
    invs: Seq<ToolInvocationV>,
) -> MessageV {
    MessageV::Assistant { content, invocations: invs }
}

/// The handled-invocation record for a single-result stage: the first
/// invocation, with the whole assistant reply attached for the transcript.
pub open spec fn single_call_of(
    content: Option<Seq<char>>,
    invs: Seq<ToolInvocationV>,
) -> ToolCallRequestV {
    ToolCallRequestV {
        call_id: invs[0].call_id,
        function_name: invs[0].operation,
        request_message: Some(assistant_record(content, invs)),
    }
}

/// How the profession stage reads a reply: a failed call is surfaced
/// uncharged; otherwise the cost is charged and the first invocation must
/// decode to a `profession` string, free text passes through, and anything
/// else is malformed.
pub open spec fn interp_profession(o: CompletionOutcomeV) -> PayableResponseV {
    match o {
        CompletionOutcomeV::Failed(e) => PayableResponseV {
            response: ResponseV::Transport(e),
            tokens_spent: 0,
        },
        CompletionOutcomeV::Answered { content, invocations, usage } => PayableResponseV {
            response: if invocations.len() > 0 {
                match json_string_field(invocations[0].raw_arguments, "profession"@) {
                    Some(p) => ResponseV::Profession(single_call_of(content, invocations), p),
                    None => ResponseV::Malformed(invocations[0].raw_arguments),
                }
            } else {
                match content {
                    Some(t) => ResponseV::Text(t),
                    None => ResponseV::Malformed(Seq::empty()),
                }
            },
            tokens_spent: usage,
        },
    }
}

/// How the resume stage reads a reply; as the profession stage, with the
/// `resume` string.
pub open spec fn interp_resume(o: CompletionOutcomeV) -> PayableResponseV {
    match o {
        CompletionOutcomeV::Failed(e) => PayableResponseV {
            response: ResponseV::Transport(e),
            tokens_spent: 0,
        },
        CompletionOutcomeV::Answered { content, invocations, usage } => PayableResponseV {
            response: if invocations.len() > 0 {
                match json_string_field(invocations[0].raw_arguments, "resume"@) {
                    Some(r) => ResponseV::Resume(single_call_of(content, invocations), r),
                    None => ResponseV::Malformed(invocations[0].raw_arguments),
                }
            } else {
                match content {
                    Some(t) => ResponseV::Text(t),
                    None => ResponseV::Malformed(Seq::empty()),
                }
            },
            tokens_spent: usage,
        },
    }
}

/// How the question stage reads a reply; the first invocation must decode
/// to a `questions` array of strings.
pub open spec fn interp_questions(o: CompletionOutcomeV) -> PayableResponseV {
    match o {
        CompletionOutcomeV::Failed(e) => PayableResponseV {
            response: ResponseV::Transport(e),
            tokens_spent: 0,
        },
        CompletionOutcomeV::Answered { content, invocations, usage } => PayableResponseV {
            response: if invocations.len() > 0 {
                match json_string_array_field(invocations[0].raw_arguments, "questions"@) {
                    Some(qs) => ResponseV::Questions(single_call_of(content, invocations), qs),
                    None => ResponseV::Malformed(invocations[0].raw_arguments),
                }
            } else {
                match content {
                    Some(t) => ResponseV::Text(t),
                    None => ResponseV::Malformed(Seq::empty()),
                }
            },
            tokens_spent: usage,
        },
    }
}

/// What one invocation of the answer stage decodes to, if both required
/// fields are present and well typed.
pub open spec fn decoded_answer(inv: ToolInvocationV) -> Option<AnswerEntryV> {
    match (json_u64_field(inv.raw_arguments, "index"@), json_string_field(
        inv.raw_arguments,
        "answer"@,
    )) {
        (Some(i), Some(a)) => Some(
            AnswerEntryV {
                call: ToolCallRequestV {
                    call_id: inv.call_id,
                    function_name: inv.operation,
                    request_message: None,
                },
                index: i,
                answer: a,
            },
        ),
        _ => None,
    }
}

/// The decodable invocations of an answer reply, in order; the undecodable
/// ones are dropped one by one.
pub open spec fn decoded_answers(invs: Seq<ToolInvocationV>) -> Seq<AnswerEntryV>
    decreases invs.len(),
{
    if invs.len() == 0 {
        Seq::empty()
    } else {
        match decoded_answer(invs[0]) {
            Some(e) => seq![e] + decoded_answers(invs.skip(1)),
            None => decoded_answers(invs.skip(1)),
        }
    }
}

/// How the answer stage reads a reply: every invocation is considered; the
/// reply is malformed only when none of them decodes.
pub open spec fn interp_answers(o: CompletionOutcomeV) -> PayableResponseV {
    match o {
        CompletionOutcomeV::Failed(e) => PayableResponseV {
            response: ResponseV::Transport(e),
            tokens_spent: 0,
        },
        CompletionOutcomeV::Answered { content, invocations, usage } => PayableResponseV {
            response: if invocations.len() > 0 {
                if decoded_answers(invocations).len() > 0 {
                    ResponseV::Answers(
                        assistant_record(content, invocations),
                        decoded_answers(invocations),
                    )
                } else {
                    ResponseV::Malformed(invocations[0].raw_arguments)
                }
            } else {
                match content {
                    Some(t) => ResponseV::Text(t),
                    None => ResponseV::Malformed(Seq::empty()),
                }
            },
            tokens_spent: usage,
        },
    }
}

/// The stage-independent face of the backend: the credential, caps and an
/// optional system-prompt override used for every stage.
#[derive(Debug)]
pub struct Asker {
    pub api_key: String,
    pub max_tokens: Option<u16>,
    pub model: Option<String>,
    pub system_message: Option<String>,
}

pub ghost struct AskerV {
    pub api_key: Seq<char>,
    pub max_tokens: Option<int>,
    pub model: Option<Seq<char>>,
    pub system_message: Option<Seq<char>>,
}

impl View for Asker {
    type V = AskerV;

    open spec fn view(&self) -> AskerV {
        AskerV {
            api_key: self.api_key@,
            max_tokens: match self.max_tokens {
                Some(m) => Some(m as int),
                None => None,
            },
            model: match self.model {
                Some(m) => Some(m@),
                None => None,
            },
            system_message: match self.system_message {
                Some(m) => Some(m@),
                None => None,
            },
        }
    }
}

/// The system prompt a stage uses: the configured override if any, else the
/// stage's compiled-in default.
pub open spec fn prompt_of(asker: AskerV, default_prompt: Seq<char>) -> Seq<char> {
    match asker.system_message {
        Some(m) => m,
        None => default_prompt,
    }
}

/// The request a stage sends: the stage's system prompt first, then the
/// given messages, offering exactly the stage's operation.
pub open spec fn stage_request(
    asker: AskerV,
    default_prompt: Seq<char>,
    messages: Seq<MessageV>,
    operation: OperationSchemaV,
) -> RequestV {
    RequestV {
        api_key: asker.api_key,
        max_tokens: match asker.max_tokens {
            Some(m) => m,
            None => default_max_tokens(),
        },
        model: match asker.model {
            Some(m) => m,
            None => default_model(),
        },
        messages: seq![MessageV::System { content: prompt_of(asker, default_prompt) }] + messages,
        operations: seq![operation],
    }
}

/// The compiled-in system prompt of the profession stage.
pub open spec fn profession_prompt() -> Seq<char> {
    "You conduct a short interview whose goal is a finished resume. First learn the profession the user wants the resume for. Once it is clear, call save_profession with it; until then, ask for it in plain text."@
}

/// The compiled-in system prompt of the question stage.
pub open spec fn questions_prompt() -> Seq<char> {
    "For the profession under discussion, put together between five and twenty short interview questions whose answers a resume needs, and call add_questions with the list."@
}

/// The compiled-in system prompt of the answer stage.
pub open spec fn answers_prompt() -> Seq<char> {
    "A system message holds the survey state as JSON. Read every answer the user's latest messages give and record each one by calling set_answer with the question's index; ask in plain text for whatever is still missing."@
}

/// The compiled-in system prompt of the resume stage.
pub open spec fn resume_prompt() -> Seq<char> {
    "A system message holds the completed survey as JSON. Write the final resume text from it and call save_resume with the result."@
}

/// The operation the profession stage offers.
pub open spec fn profession_operation() -> OperationSchemaV {
    OperationSchemaV {
        name: "save_profession"@,
        description: "Save the profession"@,
        parameters: "{\"type\":\"object\",\"properties\":{\"profession\":{\"type\":\"string\",\"description\":\"Name of profession, e.g. Software Developer\"}},\"required\":[\"profession\"]}"@,
    }
}

/// The operation the question stage offers.
pub open spec fn questions_operation() -> OperationSchemaV {
    OperationSchemaV {
        name: "add_questions"@,
        description: "Set a list of questions for creating a resume for a profession"@,
        parameters: "{\"type\":\"object\",\"properties\":{\"questions\":{\"type\":\"array\",\"description\":\"A list of questions\",\"items\":{\"type\":\"string\",\"description\":\"Question, e.g. full name, work experience, list of programming languages studied\"},\"minItems\":5,\"maxItems\":20}},\"required\":[\"questions\"]}"@,
    }
}

/// The operation the answer stage offers; it may be invoked several times
/// in one reply.
pub open spec fn answers_operation() -> OperationSchemaV {
    OperationSchemaV {
        name: "set_answer"@,
        description: "Set answer to the survey question by index"@,
        parameters: "{\"type\":\"object\",\"properties\":{\"index\":{\"type\":\"integer\",\"description\":\"index question from the survey\"},\"answer\":{\"type\":\"string\",\"description\":\"answer to the survey question\"}},\"required\":[\"index\",\"answer\"]}"@,
    }
}

/// The operation the resume stage offers.
pub open spec fn resume_operation() -> OperationSchemaV {
    OperationSchemaV {
        name: "save_resume"@,
        description: "Save the resume"@,
        parameters: "{\"type\":\"object\",\"properties\":{\"resume\":{\"type\":\"string\"}},\"required\":[\"resume\"]}"@,
    }
}

impl Asker {
    pub fn new(
        api_key: String,
        max_tokens: Option<u16>,
        model: Option<String>,
        system_message: Option<String>,
    ) -> (r: Asker)
        ensures
            r@ == (AskerV {
                api_key: api_key@,
                max_tokens: match max_tokens {
                    Some(m) => Some(m as int),
                    None => None,
                },
                model: match model {
                    Some(m) => Some(m@),
                    None => None,
                },
                system_message: match system_message {
                    Some(m) => Some(m@),
                    None => None,
                },
            }),
    {
        Asker { api_key, max_tokens, model, system_message }
    }

    /// The stage prompt: the configured override, else the given default.
    fn prompt(&self, default_prompt: &str) -> (r: String)
        ensures
            r@ == prompt_of(self@, default_prompt@),
    {
        match self.system_message.as_ref() {
            Some(m) => m.clone(),
            None => default_prompt.to_owned(),
        }
    }

    /// Builds the stage request around the given transcript window.
    fn build_request(
        &self,
        prompt: String,
        messages: Vec<Message>,
        operation: OperationSchema,
    ) -> (r: Request)
        ensures
            r@ == (RequestV {
                api_key: self@.api_key,
                max_tokens: match self@.max_tokens {
                    Some(m) => m,
                    None => default_max_tokens(),
                },
                model: match self@.model {
                    Some(m) => m,
                    None => default_model(),
                },
                messages: seq![MessageV::System { content: prompt@ }] + message_views(messages@),
                operations: seq![operation@],
            }),
    {
        let ghost old_messages = messages@;
        let mut messages = messages;
        messages.insert(0, Message::System { content: prompt });
        let mut operations: Vec<OperationSchema> = Vec::new();
        operations.push(operation);
        let r = Request::new(
            self.api_key.clone(),
            messages,
            self.max_tokens,
            self.model.clone(),
            operations,
        );
        proof {
            assert(message_views(messages@) =~= seq![
                MessageV::System { content: r@.messages[0]->System_content },
            ] + message_views(old_messages));
            assert(operation_views(operations@) =~= seq![operation@]);
        }
        r
    }

    /// The profession stage's outbound request over the given window.
    pub fn profession_request(&self, messages: Vec<Message>) -> (r: Request)
        ensures
            r@ == stage_request(
                self@,
                profession_prompt(),
                message_views(messages@),
                profession_operation(),
            ),
    {
        let prompt = self.prompt(
            "You conduct a short interview whose goal is a finished resume. First learn the profession the user wants the resume for. Once it is clear, call save_profession with it; until then, ask for it in plain text.",
        );
        self.build_request(
            prompt,
            messages,
            OperationSchema {
                name: String::from_str("save_profession"),
                description: String::from_str("Save the profession"),
                parameters: String::from_str(
                    "{\"type\":\"object\",\"properties\":{\"profession\":{\"type\":\"string\",\"description\":\"Name of profession, e.g. Software Developer\"}},\"required\":[\"profession\"]}",
                ),
            },
        )
    }

    /// The question stage's outbound request over the given window.
    pub fn questions_request(&self, messages: Vec<Message>) -> (r: Request)
        ensures
            r@ == stage_request(
                self@,
                questions_prompt(),
                message_views(messages@),
                questions_operation(),
            ),
    {
        let prompt = self.prompt(
            "For the profession under discussion, put together between five and twenty short interview questions whose answers a resume needs, and call add_questions with the list.",
        );
        self.build_request(
            prompt,
            messages,
            OperationSchema {
                name: String::from_str("add_questions"),
                description: String::from_str(
                    "Set a list of questions for creating a resume for a profession",
                ),
                parameters: String::from_str(
                    "{\"type\":\"object\",\"properties\":{\"questions\":{\"type\":\"array\",\"description\":\"A list of questions\",\"items\":{\"type\":\"string\",\"description\":\"Question, e.g. full name, work experience, list of programming languages studied\"},\"minItems\":5,\"maxItems\":20}},\"required\":[\"questions\"]}",
                ),
            },
        )
    }

    /// The answer stage's outbound request over the given window.
    pub fn answers_request(&self, messages: Vec<Message>) -> (r: Request)
        ensures
            r@ == stage_request(
                self@,
                answers_prompt(),
                message_views(messages@),
                answers_operation(),
            ),
    {
        let prompt = self.prompt(
            "A system message holds the survey state as JSON. Read every answer the user's latest messages give and record each one by calling set_answer with the question's index; ask in plain text for whatever is still missing.",
        );
        self.build_request(
            prompt,
            messages,
            OperationSchema {
                name: String::from_str("set_answer"),
                description: String::from_str("Set answer to the survey question by index"),
                parameters: String::from_str(
                    "{\"type\":\"object\",\"properties\":{\"index\":{\"type\":\"integer\",\"description\":\"index question from the survey\"},\"answer\":{\"type\":\"string\",\"description\":\"answer to the survey question\"}},\"required\":[\"index\",\"answer\"]}",
                ),
            },
        )
    }

    /// The resume stage's outbound request over the given window.
    pub fn resume_request(&self, messages: Vec<Message>) -> (r: Request)
        ensures
            r@ == stage_request(
                self@,
                resume_prompt(),
                message_views(messages@),
                resume_operation(),
            ),
    {
        let prompt = self.prompt(
            "A system message holds the completed survey as JSON. Write the final resume text from it and call save_resume with the result.",
        );
        self.build_request(
            prompt,
            messages,
            OperationSchema {
                name: String::from_str("save_resume"),
                description: String::from_str("Save the resume"),
                parameters: String::from_str(
                    "{\"type\":\"object\",\"properties\":{\"resume\":{\"type\":\"string\"}},\"required\":[\"resume\"]}",
                ),
            },
        )
    }

    /// Reads a profession-stage reply.
    pub fn get_profession(&self, outcome: CompletionOutcome) -> (r: PayableResponse)
        ensures
            r@ == interp_profession(outcome@),
    {
        match outcome {
            CompletionOutcome::Failed(e) => PayableResponse {
                response: Response::Transport(e),
                tokens_spent: 0,
            },
            CompletionOutcome::Answered { content, invocations, usage } => {
                if invocations.len() > 0 {
                    match get_string_field(invocations[0].raw_arguments.as_str(), "profession") {
                        Some(p) => {
                            let call_id = invocations[0].call_id.clone();
                            let function_name = invocations[0].operation.clone();
                            let record = Message::Assistant { content, invocations };
                            PayableResponse {
                                response: Response::Profession(
                                    ToolCallRequest {
                                        call_id,
                                        function_name,
                                        request_message: Some(record),
                                    },
                                    p,
                                ),
                                tokens_spent: usage,
                            }
                        },
                        None => {
                            let raw = invocations[0].raw_arguments.clone();
                            PayableResponse { response: Response::Malformed(raw), tokens_spent: usage }
                        },
                    }
                } else {
                    match content {
                        Some(t) => PayableResponse {
                            response: Response::Text(t),
                            tokens_spent: usage,
                        },
                        None => PayableResponse {
                            response: Response::Malformed(String::new()),
                            tokens_spent: usage,
                        },
                    }
                }
            },
        }
    }

    /// Reads a resume-stage reply.
    pub fn get_resume(&self, outcome: CompletionOutcome) -> (r: PayableResponse)
        ensures
            r@ == interp_resume(outcome@),
    {
        match outcome {
            CompletionOutcome::Failed(e) => PayableResponse {
                response: Response::Transport(e),
                tokens_spent: 0,
            },
            CompletionOutcome::Answered { content, invocations, usage } => {
                if invocations.len() > 0 {
                    match get_string_field(invocations[0].raw_arguments.as_str(), "resume") {
                        Some(r) => {
                            let call_id = invocations[0].call_id.clone();
                            let function_name = invocations[0].operation.clone();
                            let record = Message::Assistant { content, invocations };
                            PayableResponse {
                                response: Response::Resume(
                                    ToolCallRequest {
                                        call_id,
                                        function_name,
                                        request_message: Some(record),
                                    },
                                    r,
                                ),
                                tokens_spent: usage,
                            }
                        },
                        None => {
                            let raw = invocations[0].raw_arguments.clone();
                            PayableResponse { response: Response::Malformed(raw), tokens_spent: usage }
                        },
                    }
                } else {
                    match content {
                        Some(t) => PayableResponse {
                            response: Response::Text(t),
                            tokens_spent: usage,
                        },
                        None => PayableResponse {
                            response: Response::Malformed(String::new()),
                            tokens_spent: usage,
                        },
                    }
                }
            },
        }
    }

    /// Reads a question-stage reply.
    pub fn get_questions(&self, outcome: CompletionOutcome) -> (r: PayableResponse)
        ensures
            r@ == interp_questions(outcome@),
    {
        match outcome {
            CompletionOutcome::Failed(e) => PayableResponse {
                response: Response::Transport(e),
                tokens_spent: 0,
            },
            CompletionOutcome::Answered { content, invocations, usage } => {
                if invocations.len() > 0 {
                    match get_string_array_field(
                        invocations[0].raw_arguments.as_str(),
                        "questions",
                    ) {
                        Some(qs) => {
                            let call_id = invocations[0].call_id.clone();
                            let function_name = invocations[0].operation.clone();
                            let record = Message::Assistant { content, invocations };
                            PayableResponse {
                                response: Response::Questions(
                                    ToolCallRequest {
                                        call_id,
                                        function_name,
                                        request_message: Some(record),
                                    },
                                    qs,
                                ),
                                tokens_spent: usage,
                            }
                        },
                        None => {
                            let raw = invocations[0].raw_arguments.clone();
                            PayableResponse { response: Response::Malformed(raw), tokens_spent: usage }
                        },
                    }
                } else {
                    match content {
                        Some(t) => PayableResponse {
                            response: Response::Text(t),
                            tokens_spent: usage,
                        },
                        None => PayableResponse {
                            response: Response::Malformed(String::new()),
                            tokens_spent: usage,
                        },
                    }
                }
            },
        }
    }

    /// Reads an answer-stage reply, keeping every decodable invocation.
    pub fn get_answers(&self, outcome: CompletionOutcome) -> (r: PayableResponse)
        ensures
            r@ == interp_answers(outcome@),
    {
        match outcome {
            CompletionOutcome::Failed(e) => PayableResponse {
                response: Response::Transport(e),
                tokens_spent: 0,
            },
            CompletionOutcome::Answered { content, invocations, usage } => {
                if invocations.len() > 0 {
                    let mut entries: Vec<AnswerEntry> = Vec::new();
                    let mut i: usize = 0;
                    while i < invocations.len()
                        invariant
                            i <= invocations@.len(),
                            answer_entry_views(entries@) == decoded_answers(
                                invocation_views(invocations@).take(i as int),
                            ),
                        decreases invocations@.len() - i,
                    {
                        let inv = &invocations[i];
                        let idx = get_u64_field(inv.raw_arguments.as_str(), "index");
                        let ans = get_string_field(inv.raw_arguments.as_str(), "answer");
                        proof {
                            let views = invocation_views(invocations@);
                            lemma_decoded_answers_snoc(views.take(i as int), views[i as int]);
                            assert(views.take(i as int).push(views[i as int]) =~= views.take(
                                i as int + 1,
                            ));
                        }
                        match (idx, ans) {
                            (Some(index), Some(answer)) => {
                                entries.push(AnswerEntry {
                                    call: ToolCallRequest {
                                        call_id: inv.call_id.clone(),
                                        function_name: inv.operation.clone(),
                                        request_message: None,
                                    },
                                    index,
                                    answer,
                                });
                                proof {
                                    let views = invocation_views(invocations@);
                                    assert(answer_entry_views(entries@) =~= decoded_answers(
                                        views.take(i as int),
                                    ) + seq![decoded_answer(views[i as int])->Some_0]);
                                    assert(answer_entry_views(entries@) =~= decoded_answers(
                                        views.take(i as int + 1),
                                    ));
                                }
                            },
                            _ => {
                                proof {
                                    let views = invocation_views(invocations@);
                                    assert(decoded_answer(views[i as int]) is None);
                                }
                            },
                        }
                        i += 1;
                    }
                    proof {
                        let views = invocation_views(invocations@);
                        assert(views.take(views.len() as int) =~= views);
                    }
                    if entries.len() > 0 {
                        let record = Message::Assistant { content, invocations };
                        PayableResponse {
                            response: Response::Answers(record, entries),
                            tokens_spent: usage,
                        }
                    } else {
                        let raw = invocations[0].raw_arguments.clone();
                        PayableResponse { response: Response::Malformed(raw), tokens_spent: usage }
                    }
                } else {
                    match content {
                        Some(t) => PayableResponse {
                            response: Response::Text(t),
                            tokens_spent: usage,
                        },
                        None => PayableResponse {
                            response: Response::Malformed(String::new()),
                            tokens_spent: usage,
                        },
                    }
                }
            },
        }
    }
}

proof fn lemma_decoded_answers_snoc(invs: Seq<ToolInvocationV>, x: ToolInvocationV)
    ensures
        decoded_answers(invs.push(x)) == decoded_answers(invs) + (match decoded_answer(x) {
            Some(e) => seq![e],
            None => Seq::<AnswerEntryV>::empty(),
        }),
    decreases invs.len(),
{
    if invs.len() == 0 {
        assert(invs.push(x)[0] == x);
        assert(invs.push(x).skip(1) =~= Seq::<ToolInvocationV>::empty());
        assert(decoded_answers(Seq::<ToolInvocationV>::empty()) =~= Seq::<AnswerEntryV>::empty());
        assert(decoded_answers(invs.push(x)) =~= decoded_answers(invs) + (match decoded_answer(x) {
            Some(e) => seq![e],
            None => Seq::<AnswerEntryV>::empty(),
        }));
    } else {
        assert(invs.push(x)[0] == invs[0]);
        assert(invs.push(x).skip(1) =~= invs.skip(1).push(x));
        lemma_decoded_answers_snoc(invs.skip(1), x);
        assert(decoded_answers(invs.push(x)) =~= decoded_answers(invs) + (match decoded_answer(x) {
            Some(e) => seq![e],
            None => Seq::<AnswerEntryV>::empty(),
        }));
    }
}

} // verus!
