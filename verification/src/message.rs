//! Role-tagged transcript messages and the record of a structured invocation
//! returned by the completion backend.

use vstd::prelude::*;

verus! {

/// One structured operation invocation taken from a backend response:
/// which operation the model asked for, under which correlation id, and the
/// raw argument payload it supplied.
#[derive(Debug, Clone, PartialEq, Eq)]
pub struct ToolInvocation {
    pub call_id: String,
    pub operation: String,
    pub raw_arguments: String,
}

pub ghost struct ToolInvocationV {
    pub call_id: Seq<char>,
    pub operation: Seq<char>,
    pub raw_arguments: Seq<char>,
}

impl View for ToolInvocation {
    type V = ToolInvocationV;

    open spec fn view(&self) -> ToolInvocationV {
        ToolInvocationV {
            call_id: self.call_id@,
            operation: self.operation@,
            raw_arguments: self.raw_arguments@,
        }
    }
}

impl ToolInvocation {
    pub fn new(call_id: String, operation: String, raw_arguments: String) -> (r: ToolInvocation)
        ensures
            r@ == (ToolInvocationV {
                call_id: call_id@,
                operation: operation@,
                raw_arguments: raw_arguments@,
            }),
    {
        ToolInvocation { call_id, operation, raw_arguments }
    }

    /// A deep copy whose abstract value equals this one's.
    pub fn duplicate(&self) -> (r: ToolInvocation)
        ensures
            r@ == self@,
    {
        ToolInvocation {
            call_id: self.call_id.clone(),
            operation: self.operation.clone(),
            raw_arguments: self.raw_arguments.clone(),
        }
    }
}

/// One transcript entry.  A tool-result entry carries the correlation id of
/// the assistant invocation it acknowledges; an assistant entry embeds the
/// invocations the model requested in that reply.
#[derive(Debug, Clone, PartialEq, Eq)]
pub enum Message {
    System { content: String },
    User { content: String },
    Assistant { content: Option<String>, invocations: Vec<ToolInvocation> },
    ToolResult { call_id: String, content: String },
}

pub ghost enum MessageV {
    System { content: Seq<char> },
    User { content: Seq<char> },
    Assistant { content: Option<Seq<char>>, invocations: Seq<ToolInvocationV> },
    ToolResult { call_id: Seq<char>, content: Seq<char> },
}

pub open spec fn invocation_views(invs: Seq<ToolInvocation>) -> Seq<ToolInvocationV> {
    invs.map_values(|t: ToolInvocation| t@)
}

impl View for Message {
    type V = MessageV;

    open spec fn view(&self) -> MessageV {
        match self {
            Message::System { content } => MessageV::System { content: content@ },
            Message::User { content } => MessageV::User { content: content@ },
            Message::Assistant { content, invocations } => MessageV::Assistant {
                content: match content {
                    Some(c) => Some(c@),
                    None => None,
                },
                invocations: invocation_views(invocations@),
            },
            Message::ToolResult { call_id, content } => MessageV::ToolResult {
                call_id: call_id@,
                content: content@,
            },
        }
    }
}

/// The text of a message as it counts against the history budget: the
/// content for system, user and tool-result entries; an assistant entry
/// without content counts as empty.
pub open spec fn message_content(m: MessageV) -> Seq<char> {
    match m {
        MessageV::System { content } => content,
        MessageV::User { content } => content,
        MessageV::Assistant { content, .. } => match content {
            Some(c) => c,
            None => Seq::empty(),
        },
        MessageV::ToolResult { content, .. } => content,
    }
}

/// The size a message contributes to the history budget: the byte length of
/// its content under UTF-8, as the machine reports it (a `usize`).
pub open spec fn message_size(m: MessageV) -> usize {
    vstd::utf8::encode_utf8(message_content(m)).len() as usize
}

impl Message {
    /// The byte length of this message's budget-relevant content.
    pub fn content_size(&self) -> (n: usize)
        ensures
            n == message_size(self@),
    {
        match self {
            Message::System { content } => content.as_str().len(),
            Message::User { content } => content.as_str().len(),
            Message::Assistant { content, .. } => match content {
                Some(c) => c.as_str().len(),
                None => 0,
            },
            Message::ToolResult { content, .. } => content.as_str().len(),
        }
    }

    /// A deep copy whose abstract value equals this one's.
    pub fn duplicate(&self) -> (r: Message)
        ensures
            r@ == self@,
    {
        match self {
            Message::System { content } => Message::System { content: content.clone() },
            Message::User { content } => Message::User { content: content.clone() },
            Message::Assistant { content, invocations } => {
                let copied_content = match content {
                    Some(c) => Some(c.clone()),
                    None => None,
                };
                let mut copied: Vec<ToolInvocation> = Vec::new();
                let mut i: usize = 0;
                while i < invocations.len()
                    invariant
                        i <= invocations.len(),
                        copied@.len() == i,
                        forall|j: int| 0 <= j < i ==> copied@[j]@ == invocations@[j]@,
                    decreases invocations.len() - i,
                {
                    copied.push(invocations[i].duplicate());
                    i += 1;
                }
                proof {
                    assert(invocation_views(copied@) =~= invocation_views(invocations@));
                }
                Message::Assistant { content: copied_content, invocations: copied }
            },
            Message::ToolResult { call_id, content } => Message::ToolResult {
                call_id: call_id.clone(),
                content: content.clone(),
            },
        }
    }
}

/// The views of a list of messages, in order.
pub open spec fn message_views(ms: Seq<Message>) -> Seq<MessageV> {
    ms.map_values(|m: Message| m@)
}

} // verus!
