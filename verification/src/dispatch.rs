//! The tool dispatcher: which tool a reply asks for, with which arguments,
//! and the messages by which the result goes back into the conversation.

use vstd::prelude::*;
use vstd::utf8::encode_utf8;
use crate::json::{document, parse, Json};
use crate::message::{plain, replay, tool_result, views, Message, MessageView, Role, ToolCall};
use crate::text::{concatenate, same_text};

verus! {

/// The name under which the web search is offered to the model.
pub const SEARCH_TOOL: &'static str = "search_web";

/// What the web search is described as to the model.
pub const SEARCH_TOOL_DESCRIPTION: &'static str = "Search DuckDuckGo";

/// The argument that the web search requires.
pub const QUERY_ARGUMENT: &'static str = "query";

/// The tools that the dispatcher can run.
#[derive(Clone, Copy, Debug, PartialEq, Eq, Structural)]
pub enum ToolName {
    SearchWeb,
}

/// The tool that `name` names, if any.
pub open spec fn tool_named(name: Seq<char>) -> Option<ToolName> {
    if name == SEARCH_TOOL@ {
        Some(ToolName::SearchWeb)
    } else {
        None
    }
}

impl ToolName {
    /// The tool that `name` names, if any.
    pub fn recognize(name: &str) -> (r: Option<ToolName>)
        ensures
            r == tool_named(name@),
    {
        if same_text(name, SEARCH_TOOL) {
            Some(ToolName::SearchWeb)
        } else {
            None
        }
    }

    /// The name of this tool.
    pub fn name(&self) -> (r: &'static str)
        ensures
            tool_named(r@) == Some(*self),
    {
        match self {
            ToolName::SearchWeb => SEARCH_TOOL,
        }
    }
}

/// Why a tool call could not be run.
#[derive(Debug, PartialEq, Eq)]
pub enum DispatchError {
    /// The arguments are no JSON document; the arguments as they came.
    MalformedToolArguments(String),
    /// The arguments lack a required string; its name.
    MissingRequiredArgument(String),
}

/// The reason for rejecting arguments that are no JSON document.
pub open spec fn malformed_text(arguments: Seq<char>) -> Seq<char> {
    "Malformed tool arguments: "@ + arguments
}

/// The reason for rejecting arguments that lack the string `name`.
pub open spec fn missing_text(name: Seq<char>) -> Seq<char> {
    "Missing required argument: "@ + name
}

/// The text that describes why a tool call could not be run.
pub open spec fn error_text(error: DispatchError) -> Seq<char> {
    match error {
        DispatchError::MalformedToolArguments(arguments) => malformed_text(arguments@),
        DispatchError::MissingRequiredArgument(name) => missing_text(name@),
    }
}

impl DispatchError {
    /// The text that describes this failure.
    pub fn describe(&self) -> (r: String)
        ensures
            r@ == error_text(*self),
    {
        match self {
            DispatchError::MalformedToolArguments(arguments) => concatenate(
                "Malformed tool arguments: ",
                arguments.as_str(),
            ),
            DispatchError::MissingRequiredArgument(name) => concatenate(
                "Missing required argument: ",
                name.as_str(),
            ),
        }
    }
}

/// The query that decoded arguments hold: their member `query`, where that
/// is a string.
pub open spec fn query_of(arguments: Json) -> Option<Seq<char>> {
    match arguments.member(QUERY_ARGUMENT@) {
        Some(value) => value.text(),
        None => None,
    }
}

/// The query that decoded arguments hold.
pub fn read_query(arguments: &Json) -> (r: Option<String>)
    ensures
        match r {
            Some(q) => query_of(*arguments) == Some(q@),
            None => query_of(*arguments) is None,
        },
{
    match arguments.get(QUERY_ARGUMENT) {
        Some(value) => match value.as_text() {
            Some(text) => Some(text.to_owned()),
            None => None,
        },
        None => None,
    }
}

/// What the dispatcher makes of a reply.
pub enum Decision {
    /// The reply asks for no tool that the dispatcher knows.
    Pass,
    /// The reply asks for a web search; the query.
    Search(Seq<char>),
    /// The reply asks for a web search, with arguments that are no JSON.
    Malformed,
    /// The reply asks for a web search, without saying for what.
    Missing,
}

/// What the dispatcher makes of the arguments of a web search.
pub open spec fn arguments_decision(arguments: Seq<char>) -> Decision {
    match document(encode_utf8(arguments)) {
        None => Decision::Malformed,
        Some(json) => match query_of(json) {
            Some(query) => Decision::Search(query),
            None => Decision::Missing,
        },
    }
}

/// What the dispatcher makes of a reply.
pub open spec fn decision(reply: MessageView) -> Decision {
    match reply.tool_call {
        None => Decision::Pass,
        Some(call) => match tool_named(call.name) {
            None => Decision::Pass,
            Some(ToolName::SearchWeb) => arguments_decision(call.arguments),
        },
    }
}

/// What the dispatcher does about a reply.
#[derive(Debug, PartialEq, Eq)]
pub enum Dispatch {
    /// Nothing: the reply is passed on as it is.
    Pass,
    /// It runs a web search; the query.
    Search(String),
    /// It rejects the tool call.
    Rejected(DispatchError),
}

impl Dispatch {
    /// This dispatch is what `decision` asks for, for a tool call with the
    /// arguments `arguments`.
    pub open spec fn follows(self, decision: Decision, arguments: Seq<char>) -> bool {
        match decision {
            Decision::Pass => self is Pass,
            Decision::Search(query) => self matches Dispatch::Search(q) && q@ == query,
            Decision::Malformed => self matches Dispatch::Rejected(
                DispatchError::MalformedToolArguments(a),
            ) && a@ == arguments,
            Decision::Missing => self matches Dispatch::Rejected(
                DispatchError::MissingRequiredArgument(n),
            ) && n@ == QUERY_ARGUMENT@,
        }
    }
}

/// Decides on the arguments of a web search that were decoded.
pub fn dispatch_decoded(arguments: &Json) -> (r: Dispatch)
    ensures
        match query_of(*arguments) {
            Some(query) => r matches Dispatch::Search(q) && q@ == query,
            None => r matches Dispatch::Rejected(DispatchError::MissingRequiredArgument(n)) && n@
                == QUERY_ARGUMENT@,
        },
{
    match read_query(arguments) {
        Some(query) => Dispatch::Search(query),
        None => Dispatch::Rejected(
            DispatchError::MissingRequiredArgument(QUERY_ARGUMENT.to_owned()),
        ),
    }
}

/// Decides on the arguments of a web search as the model wrote them.
pub fn dispatch_arguments(arguments: &str) -> (r: Dispatch)
    ensures
        r.follows(arguments_decision(arguments@), arguments@),
{
    match parse(arguments.as_bytes()) {
        Ok(json) => dispatch_decoded(&json),
        Err(_) => Dispatch::Rejected(DispatchError::MalformedToolArguments(arguments.to_owned())),
    }
}

/// Decides what to do about a reply.
pub fn dispatch(reply: &Message) -> (r: Dispatch)
    ensures
        match reply.tool_call {
            Some(call) => r.follows(decision(reply@), call.arguments@),
            None => r is Pass,
        },
{
    match &reply.tool_call {
        None => Dispatch::Pass,
        Some(call) => match ToolName::recognize(call.name.as_str()) {
            None => Dispatch::Pass,
            Some(ToolName::SearchWeb) => dispatch_arguments(call.arguments.as_str()),
        },
    }
}

/// The text by which the outcome of a search goes back to the model: the
/// aggregate, or the cause of the failure behind `Search error: `.
pub open spec fn outcome_text(outcome: Result<String, String>) -> Seq<char> {
    match outcome {
        Ok(text) => text@,
        Err(cause) => "Search error: "@ + cause@,
    }
}

/// The text by which the outcome of a search goes back to the model.
pub fn write_outcome(outcome: Result<String, String>) -> (r: String)
    ensures
        r@ == outcome_text(outcome),
{
    match outcome {
        Ok(text) => text,
        Err(cause) => concatenate("Search error: ", cause.as_str()),
    }
}

/// The note that says what was searched for, and why.
pub open spec fn synthesis_note(query: Seq<char>) -> Seq<char> {
    "Searched the web for \""@ + query + "\" to gather information for the plan."@
}

/// The note that says what was searched for, and why.
pub fn write_synthesis_note(query: &str) -> (r: String)
    ensures
        r@ == synthesis_note(query@),
{
    let mut out = concatenate("Searched the web for \"", query);
    out.append("\" to gather information for the plan.");
    out
}

/// The messages that a search adds to the conversation: the note, the tool
/// call as the model made it, and the result under the name of the tool.
pub open spec fn dispatched(call: crate::message::ToolCallView, query: Seq<char>, result: Seq<char>) -> Seq<
    MessageView,
> {
    seq![
        plain(Role::System, synthesis_note(query)),
        replay(call),
        tool_result(SEARCH_TOOL@, result),
    ]
}

/// The messages that a rejected tool call adds to the conversation: the
/// tool call as the model made it, and the reason under the name of the
/// tool.
pub open spec fn rejected(call: crate::message::ToolCallView, reason: Seq<char>) -> Seq<MessageView> {
    seq![replay(call), tool_result(SEARCH_TOOL@, reason)]
}

/// The messages that a search adds to the conversation.
pub fn dispatch_messages(call: &ToolCall, query: &str, result: String) -> (r: Vec<Message>)
    ensures
        views(r@) == dispatched(call@, query@, result@),
        r@.len() == 3,
        r@[1].tool_call == Some(*call),
{
    let mut out: Vec<Message> = Vec::new();
    out.push(Message::text(Role::System, write_synthesis_note(query)));
    out.push(Message::tool_request(call.clone()));
    out.push(Message::tool_result(SEARCH_TOOL.to_owned(), result));
    assert(views(out@) =~= dispatched(call@, query@, result@));
    out
}

/// The messages that a rejected tool call adds to the conversation.
pub fn rejection_messages(call: &ToolCall, error: &DispatchError) -> (r: Vec<Message>)
    ensures
        views(r@) == rejected(call@, error_text(*error)),
        r@.len() == 2,
        r@[0].tool_call == Some(*call),
{
    let mut out: Vec<Message> = Vec::new();
    out.push(Message::tool_request(call.clone()));
    out.push(Message::tool_result(SEARCH_TOOL.to_owned(), error.describe()));
    assert(views(out@) =~= rejected(call@, error_text(*error)));
    out
}

/// The tool call that a search puts back into the conversation is the one
/// that the model made: same name, same arguments.
pub proof fn lemma_replay_is_exact(call: crate::message::ToolCallView, query: Seq<char>, result: Seq<char>)
    ensures
        dispatched(call, query, result)[1].tool_call == Some(call),
        dispatched(call, query, result)[1].role == Role::Assistant,
        dispatched(call, query, result).len() == 3,
        dispatched(call, query, result)[0].role == Role::System,
        dispatched(call, query, result)[2].role == Role::Function,
        dispatched(call, query, result)[2].content == Some(result),
        dispatched(call, query, result)[2].name == Some(SEARCH_TOOL@),
{
}

} // verus!
