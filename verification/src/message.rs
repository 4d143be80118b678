//! The conversation: roles, messages and the tool calls they may carry.

use vstd::prelude::*;
use crate::text::same_text;

verus! {

/// Who speaks in a message.
#[derive(Clone, Copy, Debug, PartialEq, Eq, Structural)]
pub enum Role {
    System,
    User,
    Assistant,
    Function,
}

/// The wire name of a role.
pub open spec fn role_name(role: Role) -> Seq<char> {
    match role {
        Role::System => "system"@,
        Role::User => "user"@,
        Role::Assistant => "assistant"@,
        Role::Function => "function"@,
    }
}

/// The role that a wire name stands for.
pub open spec fn role_named(name: Seq<char>) -> Option<Role> {
    if name == "system"@ {
        Some(Role::System)
    } else if name == "user"@ {
        Some(Role::User)
    } else if name == "assistant"@ {
        Some(Role::Assistant)
    } else if name == "function"@ {
        Some(Role::Function)
    } else {
        None
    }
}

impl Role {
    /// The wire name of this role.
    pub fn name(&self) -> (r: &'static str)
        ensures
            r@ == role_name(*self),
    {
        match self {
            Role::System => "system",
            Role::User => "user",
            Role::Assistant => "assistant",
            Role::Function => "function",
        }
    }

    /// The role that `name` stands for, if any.
    pub fn from_name(name: &str) -> (r: Option<Role>)
        ensures
            r == role_named(name@),
    {
        if same_text(name, "system") {
            Some(Role::System)
        } else if same_text(name, "user") {
            Some(Role::User)
        } else if same_text(name, "assistant") {
            Some(Role::Assistant)
        } else if same_text(name, "function") {
            Some(Role::Function)
        } else {
            None
        }
    }
}

/// Every role is found again from its wire name.
pub proof fn lemma_role_name_round_trip(role: Role)
    ensures
        role_named(role_name(role)) == Some(role),
{
    reveal_strlit("system");
    reveal_strlit("user");
    reveal_strlit("assistant");
    reveal_strlit("function");
    assert("system"@.len() == 6);
    assert("user"@.len() == 4);
    assert("assistant"@.len() == 9);
    assert("function"@.len() == 8);
}

/// A request by the model to run a named tool. The arguments are the text
/// of a JSON object, as the model wrote it.
#[derive(Debug, PartialEq, Eq)]
pub struct ToolCall {
    pub name: String,
    pub arguments: String,
}

/// The characters of a tool call.
pub struct ToolCallView {
    pub name: Seq<char>,
    pub arguments: Seq<char>,
}

impl View for ToolCall {
    type V = ToolCallView;

    open spec fn view(&self) -> ToolCallView {
        ToolCallView { name: self.name@, arguments: self.arguments@ }
    }
}

impl Clone for ToolCall {
    fn clone(&self) -> (r: Self)
        ensures
            r == *self,
    {
        ToolCall { name: self.name.clone(), arguments: self.arguments.clone() }
    }
}

/// One entry of a conversation.
#[derive(Debug, PartialEq, Eq)]
pub struct Message {
    pub role: Role,
    pub content: Option<String>,
    pub name: Option<String>,
    pub tool_call: Option<ToolCall>,
}

/// The characters of a message.
pub struct MessageView {
    pub role: Role,
    pub content: Option<Seq<char>>,
    pub name: Option<Seq<char>>,
    pub tool_call: Option<ToolCallView>,
}

/// The characters of an optional string.
pub open spec fn text_view(s: Option<String>) -> Option<Seq<char>> {
    match s {
        Some(t) => Some(t@),
        None => None,
    }
}

impl View for Message {
    type V = MessageView;

    open spec fn view(&self) -> MessageView {
        MessageView {
            role: self.role,
            content: text_view(self.content),
            name: text_view(self.name),
            tool_call: match self.tool_call {
                Some(c) => Some(c@),
                None => None,
            },
        }
    }
}

/// A message that carries only text.
pub open spec fn plain(role: Role, text: Seq<char>) -> MessageView {
    MessageView { role, content: Some(text), name: None, tool_call: None }
}

/// The assistant message that repeats a tool call, and nothing else.
pub open spec fn replay(call: ToolCallView) -> MessageView {
    MessageView { role: Role::Assistant, content: None, name: None, tool_call: Some(call) }
}

/// The message that hands the result `text` of the tool `tool` back.
pub open spec fn tool_result(tool: Seq<char>, text: Seq<char>) -> MessageView {
    MessageView { role: Role::Function, content: Some(text), name: Some(tool), tool_call: None }
}

/// The characters of a conversation, message by message.
pub open spec fn views(conversation: Seq<Message>) -> Seq<MessageView> {
    Seq::new(conversation.len(), |i: int| conversation[i]@)
}

/// Appending a message appends its view.
pub proof fn lemma_views_push(conversation: Seq<Message>, message: Message)
    ensures
        views(conversation.push(message)) == views(conversation).push(message@),
{
    assert(views(conversation.push(message)) =~= views(conversation).push(message@));
}

/// The views of a concatenation are the concatenated views.
pub proof fn lemma_views_add(a: Seq<Message>, b: Seq<Message>)
    ensures
        views(a + b) == views(a) + views(b),
{
    assert(views(a + b) =~= views(a) + views(b));
}

fn clone_text(s: &Option<String>) -> (r: Option<String>)
    ensures
        r == *s,
{
    match s {
        Some(t) => Some(t.clone()),
        None => None,
    }
}

impl Clone for Message {
    fn clone(&self) -> (r: Self)
        ensures
            r == *self,
    {
        Message {
            role: self.role,
            content: clone_text(&self.content),
            name: clone_text(&self.name),
            tool_call: match &self.tool_call {
                Some(c) => Some(c.clone()),
                None => None,
            },
        }
    }
}

impl Message {
    /// A message of `role` that carries only `text`.
    pub fn text(role: Role, text: String) -> (r: Message)
        ensures
            r@ == plain(role, text@),
    {
        Message { role, content: Some(text), name: None, tool_call: None }
    }

    /// The assistant message that repeats `call`.
    pub fn tool_request(call: ToolCall) -> (r: Message)
        ensures
            r@ == replay(call@),
            r.tool_call == Some(call),
    {
        Message { role: Role::Assistant, content: None, name: None, tool_call: Some(call) }
    }

    /// The message that hands the result `text` of the tool `tool` back.
    pub fn tool_result(tool: String, text: String) -> (r: Message)
        ensures
            r@ == tool_result(tool@, text@),
    {
        Message { role: Role::Function, content: Some(text), name: Some(tool), tool_call: None }
    }
}

/// A copy of a conversation.
pub fn clone_conversation(conversation: &Vec<Message>) -> (r: Vec<Message>)
    ensures
        r@ == conversation@,
{
    let mut out: Vec<Message> = Vec::new();
    let mut i: usize = 0;
    while i < conversation.len()
        invariant
            i <= conversation.len(),
            out@ == conversation@.take(i as int),
        decreases conversation.len() - i,
    {
        out.push(conversation[i].clone());
        assert(out@ =~= conversation@.take(i + 1));
        i += 1;
    }
    assert(conversation@.take(conversation.len() as int) =~= conversation@);
    out
}

} // verus!
