//! The completion gateway: what is sent to the provider, and how its
//! answer is read.

use vstd::prelude::*;
use crate::json::{document, parse, Json};
use crate::message::{role_named, Message, MessageView, Role, ToolCall, ToolCallView};
use crate::text::concatenate;

verus! {

/// The endpoint that completions are posted to.
pub const ENDPOINT: &'static str = "https://api.deepseek.com/chat/completions";

/// The model that is asked.
pub const MODEL: &'static str = "deepseek-chat";

/// Seconds allowed for a whole streamed completion.
pub const STREAM_TIMEOUT_SECS: u64 = 300;

/// Seconds allowed for a whole buffered completion.
pub const BUFFERED_TIMEOUT_SECS: u64 = 60;

/// Seconds allowed for establishing the connection.
pub const CONNECT_TIMEOUT_SECS: u64 = 30;

/// A failure of the configuration, found before any request.
#[derive(Debug, PartialEq, Eq)]
pub enum ConfigurationError {
    MissingCredential,
}

/// What the gateway needs to reach the provider.
#[derive(Debug)]
pub struct GatewayConfig {
    credential: String,
}

impl GatewayConfig {
    /// The credential that requests are signed with.
    pub closed spec fn key(self) -> Seq<char> {
        self.credential@
    }

    /// A configuration from the credential found in the environment, if one
    /// was found.
    pub fn new(credential: Option<String>) -> (r: Result<GatewayConfig, ConfigurationError>)
        ensures
            match credential {
                Some(c) => r matches Ok(config) && config.key() == c@,
                None => r == Err::<GatewayConfig, ConfigurationError>(
                    ConfigurationError::MissingCredential,
                ),
            },
    {
        match credential {
            Some(c) => Ok(GatewayConfig { credential: c }),
            None => Err(ConfigurationError::MissingCredential),
        }
    }

    /// The value of the `Authorization` header.
    pub fn authorization(&self) -> (r: String)
        ensures
            r@ == "Bearer "@ + self.key(),
    {
        concatenate("Bearer ", self.credential.as_str())
    }
}

/// Why a completion failed.
#[derive(Debug, PartialEq, Eq)]
pub enum GatewayError {
    /// The provider answered with a status that is no success; the status.
    Provider(String),
    /// The answer has not the expected shape; the cause.
    Decode(String),
    /// The request did not get through; the cause.
    Transport(String),
}

/// The text that describes a failure.
pub open spec fn failure_text(error: GatewayError) -> Seq<char> {
    match error {
        GatewayError::Provider(status) => "DeepSeek API error: "@ + status@,
        GatewayError::Decode(cause) => cause@,
        GatewayError::Transport(cause) => cause@,
    }
}

impl GatewayError {
    /// The text that describes this failure.
    pub fn describe(&self) -> (r: String)
        ensures
            r@ == failure_text(*self),
    {
        match self {
            GatewayError::Provider(status) => concatenate("DeepSeek API error: ", status.as_str()),
            GatewayError::Decode(cause) => cause.clone(),
            GatewayError::Transport(cause) => cause.clone(),
        }
    }
}

/// A status code of the success class.
pub open spec fn is_success(code: u16) -> bool {
    200 <= code <= 299
}

/// Accepts a response by its status: one that is no success is a provider
/// error that carries `status`, the status as the transport displays it.
pub fn check_status(code: u16, status: &str) -> (r: Result<(), GatewayError>)
    ensures
        is_success(code) ==> r is Ok,
        !is_success(code) ==> (r matches Err(GatewayError::Provider(s)) && s@ == status@),
{
    if 200 <= code && code <= 299 {
        Ok(())
    } else {
        Err(GatewayError::Provider(status.to_owned()))
    }
}

/// A member that must be a string where it is present and not null.
pub open spec fn optional_text(object: Json, key: Seq<char>) -> Result<Option<Seq<char>>, ()> {
    match object.member(key) {
        None => Ok(None),
        Some(Json::Null) => Ok(None),
        Some(Json::Text(s)) => Ok(Some(s@)),
        Some(_) => Err(()),
    }
}

/// The member `function_call`: absent or null, or an object with the
/// strings `name` and `arguments`.
pub open spec fn optional_call(object: Json) -> Result<Option<ToolCallView>, ()> {
    match object.member("function_call"@) {
        None => Ok(None),
        Some(Json::Null) => Ok(None),
        Some(call) => match (call.member("name"@), call.member("arguments"@)) {
            (Some(Json::Text(name)), Some(Json::Text(arguments))) => Ok(
                Some(ToolCallView { name: name@, arguments: arguments@ }),
            ),
            _ => Err(()),
        },
    }
}

/// The role that the member `role` names.
pub open spec fn required_role(object: Json) -> Option<Role> {
    match object.member("role"@) {
        Some(Json::Text(name)) => role_named(name@),
        _ => None,
    }
}

/// The message that a JSON object encodes, or the cause for which it
/// encodes none.
pub open spec fn message_of(object: Json) -> Result<MessageView, Seq<char>> {
    match required_role(object) {
        None => Err("invalid `role`"@),
        Some(role) => match optional_text(object, "content"@) {
            Err(_) => Err("invalid `content`"@),
            Ok(content) => match optional_text(object, "name"@) {
                Err(_) => Err("invalid `name`"@),
                Ok(name) => match optional_call(object) {
                    Err(_) => Err("invalid `function_call`"@),
                    Ok(tool_call) => Ok(MessageView { role, content, name, tool_call }),
                },
            },
        },
    }
}

/// The reply that a decoded response body holds: the member `message` of
/// the first element of its array `choices`.
pub open spec fn reply_of(body: Json) -> Result<MessageView, Seq<char>> {
    match body.member("choices"@) {
        None => Err("missing `choices`"@),
        Some(choices) => match choices.items() {
            None => Err("`choices` is not an array"@),
            Some(items) => if items.len() == 0 {
                Err("`choices` is empty"@)
            } else {
                match items[0].member("message"@) {
                    None => Err("missing `message`"@),
                    Some(message) => message_of(message),
                }
            },
        },
    }
}

fn read_optional_text(object: &Json, key: &str) -> (r: Result<Option<String>, ()>)
    ensures
        match r {
            Ok(Some(s)) => optional_text(*object, key@) == Ok::<Option<Seq<char>>, ()>(Some(s@)),
            Ok(None) => optional_text(*object, key@) == Ok::<Option<Seq<char>>, ()>(None),
            Err(_) => optional_text(*object, key@) is Err,
        },
{
    match object.get(key) {
        None => Ok(None),
        Some(Json::Null) => Ok(None),
        Some(Json::Text(s)) => Ok(Some(s.clone())),
        Some(_) => Err(()),
    }
}

fn read_optional_call(object: &Json) -> (r: Result<Option<ToolCall>, ()>)
    ensures
        match r {
            Ok(Some(c)) => optional_call(*object) == Ok::<Option<ToolCallView>, ()>(Some(c@)),
            Ok(None) => optional_call(*object) == Ok::<Option<ToolCallView>, ()>(None),
            Err(_) => optional_call(*object) is Err,
        },
{
    match object.get("function_call") {
        None => Ok(None),
        Some(Json::Null) => Ok(None),
        Some(call) => match (call.get("name"), call.get("arguments")) {
            (Some(Json::Text(name)), Some(Json::Text(arguments))) => Ok(
                Some(ToolCall { name: name.clone(), arguments: arguments.clone() }),
            ),
            _ => Err(()),
        },
    }
}

fn read_role(object: &Json) -> (r: Option<Role>)
    ensures
        r == required_role(*object),
{
    match object.get("role") {
        Some(Json::Text(name)) => Role::from_name(name.as_str()),
        _ => None,
    }
}

/// Reads the message that a JSON object encodes.
pub fn read_message(object: &Json) -> (r: Result<Message, String>)
    ensures
        match r {
            Ok(m) => message_of(*object) == Ok::<MessageView, Seq<char>>(m@),
            Err(cause) => message_of(*object) == Err::<MessageView, Seq<char>>(cause@),
        },
{
    let role = match read_role(object) {
        Some(role) => role,
        None => { return Err("invalid `role`".to_owned()); },
    };
    let content = match read_optional_text(object, "content") {
        Ok(content) => content,
        Err(_) => { return Err("invalid `content`".to_owned()); },
    };
    let name = match read_optional_text(object, "name") {
        Ok(name) => name,
        Err(_) => { return Err("invalid `name`".to_owned()); },
    };
    let tool_call = match read_optional_call(object) {
        Ok(call) => call,
        Err(_) => { return Err("invalid `function_call`".to_owned()); },
    };
    Ok(Message { role, content, name, tool_call })
}

/// Reads the reply that a decoded response body holds.
pub fn read_reply(body: &Json) -> (r: Result<Message, String>)
    ensures
        match r {
            Ok(m) => reply_of(*body) == Ok::<MessageView, Seq<char>>(m@),
            Err(cause) => reply_of(*body) == Err::<MessageView, Seq<char>>(cause@),
        },
{
    match body.get("choices") {
        None => Err("missing `choices`".to_owned()),
        Some(choices) => match choices.as_array() {
            None => Err("`choices` is not an array".to_owned()),
            Some(items) => {
                if items.len() == 0 {
                    Err("`choices` is empty".to_owned())
                } else {
                    match items[0].get("message") {
                        None => Err("missing `message`".to_owned()),
                        Some(message) => read_message(message),
                    }
                }
            },
        },
    }
}

/// Reads the reply out of a buffered response body. A body that is no JSON
/// document, or has not the expected shape, is a decode error.
pub fn decode_reply(body: &[u8]) -> (r: Result<Message, GatewayError>)
    ensures
        match document(body@) {
            None => r matches Err(GatewayError::Decode(_)),
            Some(json) => match reply_of(json) {
                Ok(view) => r matches Ok(m) && m@ == view,
                Err(cause) => r matches Err(GatewayError::Decode(c)) && c@ == cause,
            },
        },
{
    match parse(body) {
        Err(cause) => Err(GatewayError::Decode(cause)),
        Ok(json) => match read_reply(&json) {
            Ok(message) => Ok(message),
            Err(cause) => Err(GatewayError::Decode(cause)),
        },
    }
}

/// The reply of a buffered response: a provider error where the status is
/// no success, else what the body decodes to.
pub fn buffered_reply(code: u16, status: &str, body: &[u8]) -> (r: Result<Message, GatewayError>)
    ensures
        !is_success(code) ==> (r matches Err(GatewayError::Provider(s)) && s@ == status@),
        is_success(code) ==> match document(body@) {
            None => r matches Err(GatewayError::Decode(_)),
            Some(json) => match reply_of(json) {
                Ok(view) => r matches Ok(m) && m@ == view,
                Err(cause) => r matches Err(GatewayError::Decode(c)) && c@ == cause,
            },
        },
{
    match check_status(code, status) {
        Err(e) => Err(e),
        Ok(_) => decode_reply(body),
    }
}

/// The reply of a streamed response whose decoded text is `text`: an
/// assistant message with that content.
pub fn streamed_reply(text: String) -> (r: Message)
    ensures
        r@ == crate::message::plain(Role::Assistant, text@),
{
    Message::text(Role::Assistant, text)
}

/// The messages that the elements of an array encode, or the cause for
/// which the first that encodes none does so.
pub open spec fn messages_of(items: Seq<Json>) -> Result<Seq<MessageView>, Seq<char>>
    decreases items.len(),
{
    if items.len() == 0 {
        Ok(Seq::empty())
    } else {
        match messages_of(items.drop_last()) {
            Err(cause) => Err(cause),
            Ok(front) => match message_of(items.last()) {
                Err(cause) => Err(cause),
                Ok(message) => Ok(front.push(message)),
            },
        }
    }
}

/// The conversation that a decoded request body holds: the elements of its
/// array `messages`.
pub open spec fn conversation_of(body: Json) -> Result<Seq<MessageView>, Seq<char>> {
    match body.member("messages"@) {
        None => Err("missing `messages`"@),
        Some(messages) => match messages.items() {
            None => Err("`messages` is not an array"@),
            Some(items) => messages_of(items),
        },
    }
}

/// Reads the messages that the elements of an array encode.
pub fn read_messages(items: &Vec<Json>) -> (r: Result<Vec<Message>, String>)
    ensures
        match r {
            Ok(c) => messages_of(items@) == Ok::<Seq<MessageView>, Seq<char>>(
                crate::message::views(c@),
            ),
            Err(cause) => messages_of(items@) == Err::<Seq<MessageView>, Seq<char>>(cause@),
        },
{
    let mut out: Vec<Message> = Vec::new();
    let mut i: usize = 0;
    assert(items@.take(0) =~= Seq::<Json>::empty());
    assert(crate::message::views(out@) =~= Seq::<MessageView>::empty());
    while i < items.len()
        invariant
            i <= items.len(),
            messages_of(items@.take(i as int)) == Ok::<Seq<MessageView>, Seq<char>>(
                crate::message::views(out@),
            ),
        decreases items.len() - i,
    {
        assert(items@.take(i + 1).drop_last() =~= items@.take(i as int));
        assert(items@.take(i + 1).last() == items@[i as int]);
        match read_message(&items[i]) {
            Err(cause) => {
                proof {
                    lemma_messages_fail(items@, i as int);
                }
                return Err(cause);
            },
            Ok(message) => {
                proof {
                    crate::message::lemma_views_push(out@, message);
                }
                out.push(message);
            },
        }
        i += 1;
    }
    assert(items@.take(items.len() as int) =~= items@);
    Ok(out)
}

/// Reads the conversation that a decoded request body holds.
pub fn read_conversation(body: &Json) -> (r: Result<Vec<Message>, String>)
    ensures
        match r {
            Ok(c) => conversation_of(*body) == Ok::<Seq<MessageView>, Seq<char>>(
                crate::message::views(c@),
            ),
            Err(cause) => conversation_of(*body) == Err::<Seq<MessageView>, Seq<char>>(cause@),
        },
{
    match body.get("messages") {
        None => Err("missing `messages`".to_owned()),
        Some(messages) => match messages.as_array() {
            None => Err("`messages` is not an array".to_owned()),
            Some(items) => read_messages(items),
        },
    }
}

/// Where the first `i` elements encode messages and the next does not, the
/// whole array fails for the cause of that element.
proof fn lemma_messages_fail(items: Seq<Json>, i: int)
    requires
        0 <= i < items.len(),
        messages_of(items.take(i)) is Ok,
        message_of(items[i]) is Err,
    ensures
        messages_of(items) == Err::<Seq<MessageView>, Seq<char>>(message_of(items[i])->Err_0),
    decreases items.len(),
{
    if i == items.len() - 1 {
        assert(items.drop_last() =~= items.take(i));
    } else {
        let front = items.drop_last();
        assert(front.take(i) =~= items.take(i));
        assert(front[i] == items[i]);
        lemma_messages_fail(front, i);
    }
}

/// Reads the conversation out of a request body. The error says why the
/// body holds none.
pub fn read_request(body: &[u8]) -> (r: Result<Vec<Message>, String>)
    ensures
        match document(body@) {
            None => r is Err,
            Some(json) => match conversation_of(json) {
                Ok(conversation) => r matches Ok(c) && crate::message::views(c@) == conversation,
                Err(cause) => r matches Err(c) && c@ == cause,
            },
        },
{
    match parse(body) {
        Err(cause) => Err(cause),
        Ok(json) => read_conversation(&json),
    }
}

} // verus!
