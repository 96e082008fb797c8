//! The persisted interview state: profession, questions with their answers,
//! the synthesized resume, the transcript, and the cumulative spend, together
//! with the pure projection that tells which action is still needed.

use vstd::prelude::*;

use crate::message::{Message, MessageV, message_size, message_views};

verus! {

/// The action the interview still requires, projected from the state alone.
#[derive(Debug, Clone, Copy, PartialEq, Eq, Structural)]
pub enum Need {
    Profession,
    Questions,
    Answers,
    Resume,
    Terminal,
}

/// One interview question: its position, its immutable text, and the answer
/// once one has been recorded.
#[derive(Debug, Clone, PartialEq, Eq)]
pub struct Question {
    pub index: usize,
    pub question: String,
    pub answer: Option<String>,
}

pub ghost struct QuestionV {
    pub index: int,
    pub question: Seq<char>,
    pub answer: Option<Seq<char>>,
}

impl View for Question {
    type V = QuestionV;

    open spec fn view(&self) -> QuestionV {
        QuestionV {
            index: self.index as int,
            question: self.question@,
            answer: match &self.answer {
                Some(a) => Some(a@),
                None => None,
            },
        }
    }
}

impl Question {
    pub fn new(index: usize, question: &str) -> (r: Question)
        ensures
            r@ == (QuestionV { index: index as int, question: question@, answer: None }),
    {
        Question { index, question: question.to_owned(), answer: None }
    }

    pub fn set_answer(&mut self, answer: &str)
        ensures
            final(self)@ == (QuestionV { answer: Some(answer@), ..old(self)@ }),
    {
        self.answer = Some(answer.to_owned());
    }

    /// A deep copy whose abstract value equals this one's.
    pub fn duplicate(&self) -> (r: Question)
        ensures
            r@ == self@,
    {
        Question {
            index: self.index,
            question: self.question.clone(),
            answer: match &self.answer {
                Some(a) => Some(a.clone()),
                None => None,
            },
        }
    }
}

/// The views of a list of questions, in order.
pub open spec fn question_views(qs: Seq<Question>) -> Seq<QuestionV> {
    qs.map_values(|q: Question| q@)
}

/// Whether every question in the list carries an answer.
pub open spec fn all_answered(qs: Seq<QuestionV>) -> bool {
    forall|i: int| 0 <= i < qs.len() ==> qs[i].answer is Some
}

/// One interview, owned by one identity.  `artifact` records the name under
/// which the caller stored the rendered document, once it has.
#[derive(Debug)]
pub struct User {
    pub id: u64,
    pub profession: Option<String>,
    pub questions: Option<Vec<Question>>,
    pub resume: Option<String>,
    pub artifact: Option<String>,
    pub messages: Vec<Message>,
    pub tokens_spent: u64,
}

pub ghost struct UserV {
    pub id: int,
    pub profession: Option<Seq<char>>,
    pub questions: Option<Seq<QuestionV>>,
    pub resume: Option<Seq<char>>,
    pub artifact: Option<Seq<char>>,
    pub messages: Seq<MessageV>,
    pub tokens_spent: int,
}

impl View for User {
    type V = UserV;

    open spec fn view(&self) -> UserV {
        UserV {
            id: self.id as int,
            profession: match self.profession {
                Some(p) => Some(p@),
                None => None,
            },
            questions: match self.questions {
                Some(qs) => Some(question_views(qs@)),
                None => None,
            },
            resume: match self.resume {
                Some(r) => Some(r@),
                None => None,
            },
            artifact: match self.artifact {
                Some(a) => Some(a@),
                None => None,
            },
            messages: message_views(self.messages@),
            tokens_spent: self.tokens_spent as int,
        }
    }
}

/// The state of a freshly created interview for `id`, with `tokens_spent`
/// carried over from the owning identity.
pub open spec fn blank_user(id: int, tokens_spent: int) -> UserV {
    UserV {
        id: id,
        profession: None,
        questions: None,
        resume: None,
        artifact: None,
        messages: Seq::empty(),
        tokens_spent: tokens_spent,
    }
}

/// The required next action, as a pure projection of the state: a set resume
/// is terminal; otherwise a full question list still waiting on answers asks
/// for answers, a fully answered one for the resume; otherwise a set
/// profession asks for questions, and an empty state for the profession.
pub open spec fn need_of(u: UserV) -> Need {
    if u.resume is Some {
        Need::Terminal
    } else {
        match u.questions {
            Some(qs) => if all_answered(qs) {
                Need::Resume
            } else {
                Need::Answers
            },
            None => if u.profession is Some {
                Need::Questions
            } else {
                Need::Profession
            },
        }
    }
}

/// The total budget-relevant size of a transcript: the sum of its messages'
/// content sizes.
pub open spec fn transcript_size(ms: Seq<MessageV>) -> int
    decreases ms.len(),
{
    if ms.len() == 0 {
        0
    } else {
        message_size(ms[0]) + transcript_size(ms.skip(1))
    }
}

/// The byte-budgeted window over a transcript: the longest suffix whose
/// total content size stays within `budget`.  Walking from the newest
/// message backwards, the first message that would push the running total
/// over the budget is excluded together with everything before it.
pub open spec fn window_of(ms: Seq<MessageV>, budget: int) -> Seq<MessageV>
    decreases ms.len(),
{
    if transcript_size(ms) <= budget {
        ms
    } else if ms.len() == 0 {
        ms
    } else {
        window_of(ms.skip(1), budget)
    }
}

/// Peeling one message off the front of a suffix.
pub proof fn lemma_suffix_step(ms: Seq<MessageV>, k: int)
    requires
        0 <= k < ms.len(),
    ensures
        transcript_size(ms.skip(k)) == message_size(ms[k]) + transcript_size(ms.skip(k + 1)),
{
    assert(ms.skip(k).len() > 0);
    assert(ms.skip(k)[0] == ms[k]);
    assert(ms.skip(k).skip(1) =~= ms.skip(k + 1));
}

/// Suffix sizes only shrink as the suffix gets shorter.
pub proof fn lemma_suffix_size_antitone(ms: Seq<MessageV>, j: int, k: int)
    requires
        0 <= j <= k <= ms.len(),
    ensures
        transcript_size(ms.skip(j)) >= transcript_size(ms.skip(k)),
    decreases k - j,
{
    if j < k {
        lemma_suffix_step(ms, j);
        lemma_suffix_size_antitone(ms, j + 1, k);
    }
}

/// The window is exactly the suffix starting at the least index that fits
/// the budget.
pub proof fn lemma_window_is_skip(ms: Seq<MessageV>, budget: int, k: int)
    requires
        0 <= k <= ms.len(),
        transcript_size(ms.skip(k)) <= budget,
        k > 0 ==> transcript_size(ms.skip(k - 1)) > budget,
    ensures
        window_of(ms, budget) == ms.skip(k),
    decreases k,
{
    if k == 0 {
        assert(ms.skip(0) =~= ms);
    } else {
        lemma_suffix_size_antitone(ms, 0, k - 1);
        assert(ms.skip(0) =~= ms);
        assert(transcript_size(ms) > budget);
        let tail = ms.skip(1);
        assert(tail.skip(k - 1) =~= ms.skip(k));
        if k - 1 > 0 {
            assert(tail.skip(k - 2) =~= ms.skip(k - 1));
        }
        lemma_window_is_skip(tail, budget, k - 1);
    }
}

/// What the windower guarantees: for any transcript and nonnegative budget,
/// the window is a suffix of the transcript, its total content size is
/// within the budget, and if anything was left out, then taking in just the
/// next earlier message as well would already exceed the budget.
pub proof fn lemma_window_properties(ms: Seq<MessageV>, budget: int)
    requires
        budget >= 0,
    ensures
        ({
            let w = window_of(ms, budget);
            &&& w.len() <= ms.len()
            &&& w == ms.skip(ms.len() - w.len())
            &&& transcript_size(w) <= budget
            &&& w.len() < ms.len() ==> transcript_size(ms.skip(ms.len() - w.len() - 1))
                > budget
        }),
    decreases ms.len(),
{
    let w = window_of(ms, budget);
    if transcript_size(ms) <= budget {
        assert(ms.skip(0) =~= ms);
    } else if ms.len() == 0 {
    } else {
        let tail = ms.skip(1);
        lemma_window_properties(tail, budget);
        let k = tail.len() - w.len();
        assert(tail.skip(k) =~= ms.skip(k + 1));
        if w.len() < tail.len() {
            assert(tail.skip(k - 1) =~= ms.skip(k));
        } else {
            assert(ms.skip(0) =~= ms);
        }
    }
}

impl User {
    pub fn new(id: u64) -> (r: User)
        ensures
            r@ == blank_user(id as int, 0),
    {
        let r = User {
            id,
            profession: None,
            questions: None,
            resume: None,
            artifact: None,
            messages: Vec::new(),
            tokens_spent: 0,
        };
        proof {
            assert(r@.questions is None);
            assert(r@.messages =~= Seq::<MessageV>::empty());
        }
        r
    }

    /// Computes the required next action; never mutates.
    pub fn need(&self) -> (n: Need)
        ensures
            n == need_of(self@),
    {
        if self.resume.is_some() {
            return Need::Terminal;
        }
        match self.questions.as_ref() {
            Some(qs) => {
                let mut i: usize = 0;
                while i < qs.len()
                    invariant
                        i <= qs.len(),
                        self.resume is None,
                        self.questions is Some,
                        *qs == self.questions->Some_0,
                        forall|j: int| 0 <= j < i ==> qs@[j]@.answer is Some,
                    decreases qs.len() - i,
                {
                    if qs[i].answer.is_none() {
                        proof {
                            assert(question_views(qs@)[i as int] == qs@[i as int]@);
                            assert(!all_answered(question_views(qs@)));
                        }
                        return Need::Answers;
                    }
                    i += 1;
                }
                proof {
                    assert(forall|j: int| 0 <= j < qs@.len()
                        ==> #[trigger] question_views(qs@)[j].answer is Some) by {
                        assert(forall|j: int| 0 <= j < qs@.len()
                            ==> #[trigger] question_views(qs@)[j] == qs@[j]@);
                    }
                }
                Need::Resume
            },
            None => {
                if self.profession.is_some() {
                    Need::Questions
                } else {
                    Need::Profession
                }
            },
        }
    }

    pub fn set_profession(&mut self, profession: &str)
        ensures
            final(self)@ == (UserV { profession: Some(profession@), ..old(self)@ }),
    {
        self.profession = Some(profession.to_owned());
    }

    /// Installs the question list, numbering the questions by position; any
    /// previously stored answers are discarded with the old list.
    pub fn set_questions(&mut self, questions: Vec<String>)
        ensures
            final(self)@ == (UserV {
                questions: Some(
                    Seq::new(questions@.len(), |i: int| QuestionV {
                        index: i,
                        question: questions@[i]@,
                        answer: None,
                    }),
                ),
                ..old(self)@
            }),
    {
        let mut qs: Vec<Question> = Vec::new();
        let mut i: usize = 0;
        while i < questions.len()
            invariant
                i <= questions.len(),
                qs@.len() == i,
                forall|j: int| 0 <= j < i ==> qs@[j]@ == (QuestionV {
                    index: j,
                    question: questions@[j]@,
                    answer: None,
                }),
            decreases questions.len() - i,
        {
            qs.push(Question::new(i, questions[i].as_str()));
            i += 1;
        }
        proof {
            assert(question_views(qs@) =~= Seq::new(questions@.len(), |i: int| QuestionV {
                index: i,
                question: questions@[i]@,
                answer: None,
            }));
        }
        self.questions = Some(qs);
    }

    /// Records the answer to question `ind`; reports an error when there is
    /// no question list or the index is out of range, leaving the state
    /// unchanged.
    pub fn set_answer(&mut self, ind: usize, answer: &str) -> (r: Option<&'static str>)
        ensures
            match old(self)@.questions {
                Some(qs) => {
                    if ind < qs.len() {
                        &&& r is None
                        &&& final(self)@ == (UserV {
                            questions: Some(
                                qs.update(ind as int, QuestionV {
                                    answer: Some(answer@),
                                    ..qs[ind as int]
                                }),
                            ),
                            ..old(self)@
                        })
                    } else {
                        r is Some && final(self)@ == old(self)@
                    }
                },
                None => r is Some && final(self)@ == old(self)@,
            },
    {
        match &mut self.questions {
            Some(qs) => {
                if ind < qs.len() {
                    let q = &mut qs[ind];
                    q.set_answer(answer);
                    proof {
                        assert(question_views(self.questions->Some_0@) =~= old(
                            self,
                        )@.questions->Some_0.update(ind as int, QuestionV {
                            answer: Some(answer@),
                            ..old(self)@.questions->Some_0[ind as int]
                        }));
                    }
                    None
                } else {
                    Some("invalid question index")
                }
            },
            None => Some("no questions"),
        }
    }

    pub fn set_resume(&mut self, resume: &str)
        ensures
            final(self)@ == (UserV { resume: Some(resume@), ..old(self)@ }),
    {
        self.resume = Some(resume.to_owned());
    }

    pub fn get_resume(&self) -> (r: Option<String>)
        ensures
            match self@.resume {
                Some(s) => r matches Some(v) && v@ == s,
                None => r is None,
            },
    {
        match &self.resume {
            Some(r) => Some(r.clone()),
            None => None,
        }
    }

    /// Records the name under which the caller stored the rendered artifact.
    pub fn set_artifact(&mut self, name: &str)
        ensures
            final(self)@ == (UserV { artifact: Some(name@), ..old(self)@ }),
    {
        self.artifact = Some(name.to_owned());
    }

    pub fn get_artifact(&self) -> (r: Option<String>)
        ensures
            match self@.artifact {
                Some(s) => r matches Some(v) && v@ == s,
                None => r is None,
            },
    {
        match &self.artifact {
            Some(a) => Some(a.clone()),
            None => None,
        }
    }

    /// Wipes the interview back to the blank state, preserving the identity
    /// and the cumulative spend, which belong to the owner rather than to one
    /// interview.
    pub fn reset(&mut self)
        ensures
            final(self)@ == blank_user(old(self)@.id, old(self)@.tokens_spent),
    {
        let id = self.id;
        let tokens_spent = self.tokens_spent;
        let mut fresh = User::new(id);
        fresh.tokens_spent = tokens_spent;
        *self = fresh;
    }

    pub fn add_message(&mut self, message: Message)
        ensures
            final(self)@ == (UserV {
                messages: old(self)@.messages.push(message@),
                ..old(self)@
            }),
    {
        self.messages.push(message);
        proof {
            assert(message_views(self.messages@) =~= old(self)@.messages.push(message@));
        }
    }

    /// Appends the correlated acknowledgement for a handled invocation: a
    /// tool-result entry with content `"success"`.
    pub fn add_func_success(&mut self, call_id: &str, _operation: &str)
        ensures
            final(self)@ == (UserV {
                messages: old(self)@.messages.push(MessageV::ToolResult {
                    call_id: call_id@,
                    content: "success"@,
                }),
                ..old(self)@
            }),
    {
        self.add_message(Message::ToolResult {
            call_id: call_id.to_owned(),
            content: String::from_str("success"),
        });
    }

    /// The messages to send outbound: the whole transcript when no limit is
    /// given, and the byte-budgeted window over it otherwise.  The stored
    /// transcript itself is never altered.
    pub fn get_messages(&self, limit: Option<usize>) -> (r: Vec<Message>)
        ensures
            message_views(r@) == match limit {
                Some(b) => window_of(self@.messages, b as int),
                None => self@.messages,
            },
    {
        let n = self.messages.len();
        let mut start: usize = 0;
        if let Some(b) = limit {
            let mut k: usize = n;
            let mut acc: usize = 0;
            while k > 0
                invariant_except_break
                    k <= n,
                    n == self.messages@.len(),
                    acc <= b,
                    acc as int == transcript_size(self@.messages.skip(k as int)),
                ensures
                    k <= n,
                    n == self.messages@.len(),
                    acc <= b,
                    acc as int == transcript_size(self@.messages.skip(k as int)),
                    k > 0 ==> transcript_size(self@.messages.skip(k as int - 1)) > b,
                decreases k,
            {
                let s = self.messages[k - 1].content_size();
                proof {
                    assert(self@.messages[k as int - 1] == self.messages@[k as int - 1]@);
                    lemma_suffix_step(self@.messages, k as int - 1);
                }
                if s > b - acc {
                    break;
                }
                acc = acc + s;
                k = k - 1;
            }
            proof {
                lemma_window_is_skip(self@.messages, b as int, k as int);
            }
            start = k;
        }
        let mut r: Vec<Message> = Vec::new();
        let mut i: usize = start;
        while i < n
            invariant
                start <= i <= n,
                n == self.messages@.len(),
                r@.len() == i - start,
                forall|j: int| 0 <= j < r@.len() ==> r@[j]@ == self.messages@[start + j]@,
            decreases n - i,
        {
            r.push(self.messages[i].duplicate());
            i += 1;
        }
        proof {
            assert(message_views(r@) =~= self@.messages.skip(start as int));
            if limit is None {
                assert(self@.messages.skip(0) =~= self@.messages);
            }
        }
        r
    }

    /// The current question/answer state as the JSON payload shown to the
    /// backend; nothing when no questions have been set yet.
    pub fn get_answers_as_json_str(&self) -> (r: Option<String>)
        ensures
            match self@.questions {
                Some(qs) => r matches Some(s) && s@ == crate::survey::questions_json(qs),
                None => r is None,
            },
    {
        match self.questions.as_ref() {
            Some(qs) => Some(crate::survey::questions_to_json(qs)),
            None => None,
        }
    }

    /// Charges `tokens` against the cumulative spend, saturating at the
    /// largest representable value.
    pub fn add_tokens_spent(&mut self, tokens: u64)
        ensures
            final(self)@ == (UserV {
                tokens_spent: if old(self)@.tokens_spent + tokens <= u64::MAX {
                    old(self)@.tokens_spent + tokens
                } else {
                    u64::MAX as int
                },
                ..old(self)@
            }),
    {
        if self.tokens_spent <= u64::MAX - tokens {
            self.tokens_spent = self.tokens_spent + tokens;
        } else {
            self.tokens_spent = u64::MAX;
        }
    }

    /// Whether the spend guard trips against the given ceiling.
    pub fn not_enough_tokens(&self, tokens: u64) -> (r: bool)
        ensures
            r == (self@.tokens_spent >= tokens),
    {
        self.tokens_spent >= tokens
    }

    pub fn get_tokens_spent(&self) -> (r: u64)
        ensures
            r == self@.tokens_spent,
    {
        self.tokens_spent
    }
}

/// The required action is a function of the profession, question and resume
/// fields alone: two states agreeing there agree on it, whatever else
/// differs.
pub proof fn lemma_need_deterministic(a: UserV, b: UserV)
    requires
        a.profession == b.profession,
        a.questions == b.questions,
        a.resume == b.resume,
    ensures
        need_of(a) == need_of(b),
{
}

} // verus!
