//! The wire form of a completion request: which members an encoded message
//! and an encoded request have. What is absent is left out, never written
//! as null.

use vstd::prelude::*;
use crate::chat::Envelope;
use crate::dispatch::{QUERY_ARGUMENT, SEARCH_TOOL, SEARCH_TOOL_DESCRIPTION};
use crate::gateway::{message_of, MODEL};
use crate::json::{lemma_lookup_push, lookup, names, Json};
use crate::message::{
    lemma_role_name_round_trip, role_name, Message, MessageView, ToolCall, ToolCallView,
};

verus! {

/// A tool as it is offered to the model.
pub struct ToolDefinition {
    pub name: String,
    pub description: String,
    /// The JSON schema of the arguments.
    pub parameters: Json,
}

/// What is posted to the provider.
pub struct CompletionRequest {
    pub model: String,
    pub messages: Vec<Message>,
    pub stream: bool,
    pub tools: Option<Vec<ToolDefinition>>,
}

/// `object` has a string member `key` with the characters `value`, or,
/// where `value` is `None`, no member `key`.
pub open spec fn has_text(object: Json, key: Seq<char>, value: Option<Seq<char>>) -> bool {
    match value {
        Some(text) => object.member(key) matches Some(v) && v.text() == Some(text),
        None => object.member(key) is None,
    }
}

/// `object` has the member `function_call` that encodes `call`, or none.
pub open spec fn has_call(object: Json, call: Option<ToolCallView>) -> bool {
    match call {
        Some(c) => {
            &&& object.member("function_call"@) matches Some(f)
            &&& f is Object
            &&& f.member_names() == seq!["name"@, "arguments"@]
            &&& has_text(f, "name"@, Some(c.name))
            &&& has_text(f, "arguments"@, Some(c.arguments))
        },
        None => object.member("function_call"@) is None,
    }
}

/// `names` followed by `name` where `present` holds.
pub open spec fn with_name(names: Seq<Seq<char>>, present: bool, name: Seq<char>) -> Seq<Seq<char>> {
    if present {
        names.push(name)
    } else {
        names
    }
}

/// The members of an encoded message: `role` always, then `content`,
/// `name` and `function_call`, each only where the message has it.
pub open spec fn message_names(message: MessageView) -> Seq<Seq<char>> {
    with_name(
        with_name(
            with_name(seq!["role"@], message.content is Some, "content"@),
            message.name is Some,
            "name"@,
        ),
        message.tool_call is Some,
        "function_call"@,
    )
}

/// `json` is the wire form of `message`.
pub open spec fn encodes_message(json: Json, message: MessageView) -> bool {
    &&& json is Object
    &&& json.member_names() == message_names(message)
    &&& has_text(json, "role"@, Some(role_name(message.role)))
    &&& has_text(json, "content"@, message.content)
    &&& has_text(json, "name"@, message.name)
    &&& has_call(json, message.tool_call)
}

/// `json` is the wire form of `tool`.
pub open spec fn encodes_tool(json: Json, tool: ToolDefinition) -> bool {
    &&& json is Object
    &&& json.member_names() == seq!["name"@, "description"@, "parameters"@]
    &&& has_text(json, "name"@, Some(tool.name@))
    &&& has_text(json, "description"@, Some(tool.description@))
    &&& json.member("parameters"@) == Some(tool.parameters)
}

/// `json` is the array of the wire forms of `messages`.
pub open spec fn encodes_messages(json: Json, messages: Seq<Message>) -> bool {
    &&& json.items() matches Some(items)
    &&& items.len() == messages.len()
    &&& forall|i: int| 0 <= i < items.len() ==> encodes_message(#[trigger] items[i], messages[i]@)
}

/// `json` is the array of the wire forms of `tools`.
pub open spec fn encodes_tools(json: Json, tools: Seq<ToolDefinition>) -> bool {
    &&& json.items() matches Some(items)
    &&& items.len() == tools.len()
    &&& forall|i: int| 0 <= i < items.len() ==> encodes_tool(#[trigger] items[i], tools[i])
}

/// `json` is the wire form of `request`: `model`, `messages` and `stream`,
/// and `functions` only where tools are offered.
pub open spec fn encodes_request(json: Json, request: CompletionRequest) -> bool {
    &&& json is Object
    &&& json.member_names() == with_name(
        seq!["model"@, "messages"@, "stream"@],
        request.tools is Some,
        "functions"@,
    )
    &&& has_text(json, "model"@, Some(request.model@))
    &&& json.member("messages"@) matches Some(m) && encodes_messages(m, request.messages@)
    &&& json.member("stream"@) == Some(Json::Bool(request.stream))
    &&& match request.tools {
        Some(tools) => json.member("functions"@) matches Some(f) && encodes_tools(f, tools@),
        None => json.member("functions"@) is None,
    }
}

/// The names of the members of the wire forms differ from each other.
proof fn lemma_names_differ()
    ensures
        "role"@ != "content"@,
        "role"@ != "name"@,
        "role"@ != "function_call"@,
        "content"@ != "name"@,
        "content"@ != "function_call"@,
        "name"@ != "function_call"@,
        "name"@ != "arguments"@,
        "name"@ != "description"@,
        "name"@ != "parameters"@,
        "description"@ != "parameters"@,
        "model"@ != "messages"@,
        "model"@ != "stream"@,
        "model"@ != "functions"@,
        "messages"@ != "stream"@,
        "messages"@ != "functions"@,
        "stream"@ != "functions"@,
        "type"@ != "properties"@,
        "type"@ != "required"@,
        "properties"@ != "required"@,
{
    reveal_strlit("role");
    reveal_strlit("content");
    reveal_strlit("name");
    reveal_strlit("function_call");
    reveal_strlit("arguments");
    reveal_strlit("description");
    reveal_strlit("parameters");
    reveal_strlit("model");
    reveal_strlit("messages");
    reveal_strlit("stream");
    reveal_strlit("functions");
    reveal_strlit("type");
    reveal_strlit("properties");
    reveal_strlit("required");
    assert("role"@[0] == 'r' && "name"@[0] == 'n');
    assert("model"@[1] == 'o' && "messages"@[1] == 'e');
    assert("type"@.len() == 4 && "properties"@.len() == 10 && "required"@.len() == 8);
    assert("role"@.len() == 4 && "content"@.len() == 7 && "function_call"@.len() == 13);
    assert("arguments"@.len() == 9 && "description"@.len() == 11 && "parameters"@.len() == 10);
    assert("model"@.len() == 5 && "messages"@.len() == 8 && "stream"@.len() == 6
        && "functions"@.len() == 9);
}

/// `items` from the last to the first.
fn reversed<T>(items: Vec<T>) -> (r: Vec<T>)
    ensures
        r@.len() == items@.len(),
        forall|k: int| 0 <= k < r@.len() ==> #[trigger] r@[k] == items@[items@.len() - 1 - k],
{
    let ghost given = items@;
    let mut items = items;
    let mut rest: Vec<T> = Vec::new();
    while items.len() > 0
        invariant
            items@.len() + rest@.len() == given.len(),
            items@ == given.take(items@.len() as int),
            forall|k: int|
                0 <= k < rest@.len() ==> #[trigger] rest@[k] == given[given.len() - 1 - k],
        decreases items.len(),
    {
        let last = items.pop().unwrap();
        assert(items@ =~= given.take(items@.len() as int));
        rest.push(last);
    }
    rest
}

/// Puts one more member at the end of `members`.
fn put(members: &mut Vec<(String, Json)>, name: &str, value: Json)
    ensures
        final(members)@.len() == old(members)@.len() + 1,
        names(final(members)@) == names(old(members)@).push(name@),
        forall|key: Seq<char>|
            lookup(final(members)@, key) == (if lookup(old(members)@, key) is Some {
                lookup(old(members)@, key)
            } else if name@ == key {
                Some(value)
            } else {
                None
            }),
{
    let owned = name.to_owned();
    let ghost last = (owned, value);
    proof {
        assert forall|key: Seq<char>|
            lookup(members@.push(last), key) == (if lookup(members@, key) is Some {
                lookup(members@, key)
            } else if name@ == key {
                Some(value)
            } else {
                None
            }) by {
            lemma_lookup_push(members@, last, key);
        }
        assert(names(members@.push(last)) =~= names(members@).push(name@));
    }
    members.push((owned, value));
}

/// The wire form of a tool call.
fn encode_call(call: ToolCall) -> (r: Json)
    ensures
        r is Object,
        r.member_names() == seq!["name"@, "arguments"@],
        has_text(r, "name"@, Some(call.name@)),
        has_text(r, "arguments"@, Some(call.arguments@)),
{
    proof {
        lemma_names_differ();
    }
    let mut members: Vec<(String, Json)> = Vec::new();
    assert(names(members@) =~= Seq::<Seq<char>>::empty());
    put(&mut members, "name", Json::Text(call.name));
    put(&mut members, "arguments", Json::Text(call.arguments));
    assert(names(members@) =~= seq!["name"@, "arguments"@]);
    Json::Object(members)
}

/// The wire form of a message.
pub fn encode_message(message: Message) -> (r: Json)
    ensures
        encodes_message(r, message@),
{
    proof {
        lemma_names_differ();
    }
    let Message { role, content, name, tool_call } = message;
    let mut members: Vec<(String, Json)> = Vec::new();
    assert(names(members@) =~= Seq::<Seq<char>>::empty());
    put(&mut members, "role", Json::Text(role.name().to_owned()));
    assert(names(members@) =~= seq!["role"@]);
    match content {
        Some(text) => {
            put(&mut members, "content", Json::Text(text));
        },
        None => {},
    }
    match name {
        Some(text) => {
            put(&mut members, "name", Json::Text(text));
        },
        None => {},
    }
    match tool_call {
        Some(call) => {
            let encoded = encode_call(call);
            put(&mut members, "function_call", encoded);
        },
        None => {},
    }
    Json::Object(members)
}

/// Decoding the wire form of a message gives the message back.
pub proof fn lemma_message_round_trip(json: Json, message: MessageView)
    requires
        encodes_message(json, message),
    ensures
        message_of(json) == Ok::<MessageView, Seq<char>>(message),
{
    lemma_role_name_round_trip(message.role);
}

/// The wire form of a tool.
pub fn encode_tool(tool: ToolDefinition) -> (r: Json)
    ensures
        encodes_tool(r, tool),
{
    proof {
        lemma_names_differ();
    }
    let ToolDefinition { name, description, parameters } = tool;
    let mut members: Vec<(String, Json)> = Vec::new();
    assert(names(members@) =~= Seq::<Seq<char>>::empty());
    put(&mut members, "name", Json::Text(name));
    put(&mut members, "description", Json::Text(description));
    put(&mut members, "parameters", parameters);
    assert(names(members@) =~= seq!["name"@, "description"@, "parameters"@]);
    Json::Object(members)
}

/// The wire form of a request.
pub fn encode_request(request: CompletionRequest) -> (r: Json)
    ensures
        encodes_request(r, request),
{
    proof {
        lemma_names_differ();
    }
    let CompletionRequest { model, messages, stream, tools } = request;
    let ghost given = messages@;
    let mut encoded: Vec<Json> = Vec::new();
    let mut rest = reversed(messages);
    while rest.len() > 0
        invariant
            encoded@.len() + rest@.len() == given.len(),
            forall|k: int|
                0 <= k < rest@.len() ==> #[trigger] rest@[k] == given[given.len() - 1 - k],
            forall|i: int|
                0 <= i < encoded@.len() ==> encodes_message(#[trigger] encoded@[i], given[i]@),
        decreases rest.len(),
    {
        let ghost n = rest@.len() as int;
        let next = rest.pop().unwrap();
        assert(next == given[given.len() - n]);
        let json = encode_message(next);
        encoded.push(json);
    }
    let messages_json = Json::Array(encoded);
    assert(encodes_messages(messages_json, given));
    let mut members: Vec<(String, Json)> = Vec::new();
    assert(names(members@) =~= Seq::<Seq<char>>::empty());
    put(&mut members, "model", Json::Text(model));
    put(&mut members, "messages", messages_json);
    put(&mut members, "stream", Json::Bool(stream));
    assert(names(members@) =~= seq!["model"@, "messages"@, "stream"@]);
    match tools {
        Some(tools) => {
            let functions = encode_tools(tools);
            put(&mut members, "functions", functions);
        },
        None => {},
    }
    Json::Object(members)
}

/// The array of the wire forms of `tools`.
fn encode_tools(tools: Vec<ToolDefinition>) -> (r: Json)
    ensures
        encodes_tools(r, tools@),
{
    let ghost given = tools@;
    let mut rest = reversed(tools);
    let mut encoded: Vec<Json> = Vec::new();
    while rest.len() > 0
        invariant
            encoded@.len() + rest@.len() == given.len(),
            forall|k: int|
                0 <= k < rest@.len() ==> #[trigger] rest@[k] == given[given.len() - 1 - k],
            forall|i: int|
                0 <= i < encoded@.len() ==> encodes_tool(#[trigger] encoded@[i], given[i]),
        decreases rest.len(),
    {
        let ghost n = rest@.len() as int;
        let next = rest.pop().unwrap();
        assert(next == given[given.len() - n]);
        let json = encode_tool(next);
        encoded.push(json);
    }
    Json::Array(encoded)
}

/// `schema` is the schema of the arguments of the web search: an object
/// with one property, the string `query`, which is required.
pub open spec fn is_search_schema(schema: Json) -> bool {
    &&& schema is Object
    &&& schema.member_names() == seq!["type"@, "properties"@, "required"@]
    &&& has_text(schema, "type"@, Some("object"@))
    &&& schema.member("properties"@) matches Some(properties)
    &&& properties is Object
    &&& properties.member_names() == seq![QUERY_ARGUMENT@]
    &&& properties.member(QUERY_ARGUMENT@) matches Some(query)
    &&& query is Object
    &&& query.member_names() == seq!["type"@]
    &&& has_text(query, "type"@, Some("string"@))
    &&& schema.member("required"@) matches Some(required)
    &&& required.items() matches Some(items)
    &&& items.len() == 1
    &&& items[0].text() == Some(QUERY_ARGUMENT@)
}

/// The web search as it is offered to the model.
pub fn search_tool() -> (r: ToolDefinition)
    ensures
        r.name@ == SEARCH_TOOL@,
        r.description@ == SEARCH_TOOL_DESCRIPTION@,
        is_search_schema(r.parameters),
{
    proof {
        lemma_names_differ();
    }
    let mut query: Vec<(String, Json)> = Vec::new();
    assert(names(query@) =~= Seq::<Seq<char>>::empty());
    put(&mut query, "type", Json::Text("string".to_owned()));
    assert(names(query@) =~= seq!["type"@]);
    let mut properties: Vec<(String, Json)> = Vec::new();
    assert(names(properties@) =~= Seq::<Seq<char>>::empty());
    put(&mut properties, QUERY_ARGUMENT, Json::Object(query));
    assert(names(properties@) =~= seq![QUERY_ARGUMENT@]);
    let mut required: Vec<Json> = Vec::new();
    required.push(Json::Text(QUERY_ARGUMENT.to_owned()));
    let mut schema: Vec<(String, Json)> = Vec::new();
    assert(names(schema@) =~= Seq::<Seq<char>>::empty());
    put(&mut schema, "type", Json::Text("object".to_owned()));
    put(&mut schema, "properties", Json::Object(properties));
    put(&mut schema, "required", Json::Array(required));
    assert(names(schema@) =~= seq!["type"@, "properties"@, "required"@]);
    ToolDefinition {
        name: SEARCH_TOOL.to_owned(),
        description: SEARCH_TOOL_DESCRIPTION.to_owned(),
        parameters: Json::Object(schema),
    }
}

/// The request that continues `conversation`, offering the web search or
/// not, streamed or not.
pub fn completion_request(conversation: Vec<Message>, tools: bool, stream: bool) -> (r:
    CompletionRequest)
    ensures
        r.model@ == MODEL@,
        r.messages == conversation,
        r.stream == stream,
        tools ==> (r.tools matches Some(offered) && offered@.len() == 1 && offered@[0].name@
            == SEARCH_TOOL@ && offered@[0].description@ == SEARCH_TOOL_DESCRIPTION@
            && is_search_schema(offered@[0].parameters)),
        !tools ==> r.tools is None,
{
    let offered = if tools {
        let mut list: Vec<ToolDefinition> = Vec::new();
        list.push(search_tool());
        Some(list)
    } else {
        None
    };
    CompletionRequest { model: MODEL.to_owned(), messages: conversation, stream, tools: offered }
}

/// `json` is the wire form of `envelope`: an object with the one member
/// `content` or `error`.
pub open spec fn encodes_envelope(json: Json, envelope: Envelope) -> bool {
    &&& json is Object
    &&& match envelope {
        Envelope::Content(text) => json.member_names() == seq!["content"@] && has_text(
            json,
            "content"@,
            Some(text@),
        ),
        Envelope::Error(cause) => json.member_names() == seq!["error"@] && has_text(
            json,
            "error"@,
            Some(cause@),
        ),
    }
}

/// The wire form of an envelope.
pub fn encode_envelope(envelope: Envelope) -> (r: Json)
    ensures
        encodes_envelope(r, envelope),
{
    let mut members: Vec<(String, Json)> = Vec::new();
    assert(names(members@) =~= Seq::<Seq<char>>::empty());
    match envelope {
        Envelope::Content(text) => {
            put(&mut members, "content", Json::Text(text));
            assert(names(members@) =~= seq!["content"@]);
        },
        Envelope::Error(cause) => {
            put(&mut members, "error", Json::Text(cause));
            assert(names(members@) =~= seq!["error"@]);
        },
    }
    Json::Object(members)
}

} // verus!
