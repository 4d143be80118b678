use planbot::dispatch::{
    dispatch, dispatch_arguments, dispatch_decoded, dispatch_messages, read_query,
    rejection_messages, write_outcome, write_synthesis_note, Dispatch, DispatchError, ToolName,
    QUERY_ARGUMENT, SEARCH_TOOL, SEARCH_TOOL_DESCRIPTION,
};
use planbot::json::parse;
use planbot::message::{Message, Role, ToolCall};

fn call(name: &str, arguments: &str) -> ToolCall {
    ToolCall { name: name.to_string(), arguments: arguments.to_string() }
}

#[test]
fn one_tool_is_known() {
    assert_eq!(SEARCH_TOOL, "search_web");
    assert_eq!(SEARCH_TOOL_DESCRIPTION, "Search DuckDuckGo");
    assert_eq!(QUERY_ARGUMENT, "query");
    assert_eq!(ToolName::recognize("search_web"), Some(ToolName::SearchWeb));
    assert_eq!(ToolName::recognize("search"), None);
    assert_eq!(ToolName::recognize("Search_Web"), None);
    assert_eq!(ToolName::SearchWeb.name(), "search_web");
}

#[test]
fn a_reply_without_tool_call_passes() {
    let reply = Message::text(Role::Assistant, "thinking".to_string());
    assert_eq!(dispatch(&reply), Dispatch::Pass);
}

#[test]
fn an_unknown_tool_passes() {
    let reply = Message::tool_request(call("run_code", "{\"query\":\"x\"}"));
    assert_eq!(dispatch(&reply), Dispatch::Pass);
}

#[test]
fn a_search_call_gives_its_query() {
    let reply = Message::tool_request(call("search_web", "{\"query\":\"todo app stack\"}"));
    assert_eq!(dispatch(&reply), Dispatch::Search("todo app stack".to_string()));
    assert_eq!(dispatch_arguments("{\"query\":\"\"}"), Dispatch::Search(String::new()));
}

#[test]
fn arguments_that_are_no_json_are_malformed() {
    let reply = Message::tool_request(call("search_web", "{query: x"));
    assert_eq!(
        dispatch(&reply),
        Dispatch::Rejected(DispatchError::MalformedToolArguments("{query: x".to_string()))
    );
    assert_eq!(
        dispatch_arguments(""),
        Dispatch::Rejected(DispatchError::MalformedToolArguments(String::new()))
    );
}

#[test]
fn arguments_without_query_miss_it() {
    let missing = Dispatch::Rejected(DispatchError::MissingRequiredArgument("query".to_string()));
    assert_eq!(dispatch_arguments("{}"), missing);
    assert_eq!(dispatch_arguments("{\"q\":\"x\"}"), missing);
    assert_eq!(dispatch_arguments("{\"query\":7}"), missing);
    assert_eq!(dispatch_arguments("{\"query\":null}"), missing);
    assert_eq!(dispatch_arguments("[\"query\"]"), missing);
    assert_eq!(dispatch_arguments("\"query\""), missing);
}

#[test]
fn decoded_arguments() {
    let arguments = parse(br#"{"query":"a","limit":3}"#).ok().expect("a document");
    assert_eq!(read_query(&arguments), Some("a".to_string()));
    assert_eq!(dispatch_decoded(&arguments), Dispatch::Search("a".to_string()));
    let none = parse(br#"{"limit":3}"#).ok().expect("a document");
    assert_eq!(read_query(&none), None);
}

#[test]
fn errors_describe_themselves() {
    assert_eq!(
        DispatchError::MalformedToolArguments("{x".to_string()).describe(),
        "Malformed tool arguments: {x"
    );
    assert_eq!(
        DispatchError::MissingRequiredArgument("query".to_string()).describe(),
        "Missing required argument: query"
    );
}

#[test]
fn a_failed_search_becomes_text() {
    assert_eq!(write_outcome(Ok("found".to_string())), "found");
    assert_eq!(write_outcome(Err("timed out".to_string())), "Search error: timed out");
}

#[test]
fn a_search_adds_three_messages_in_order() {
    let asked = call("search_web", "{ \"query\" : \"rust\" }");
    let added = dispatch_messages(&asked, "rust", "URL: u\nContent: c\n\n".to_string());
    assert_eq!(
        added,
        vec![
            Message::text(
                Role::System,
                "Searched the web for \"rust\" to gather information for the plan.".to_string()
            ),
            Message::tool_request(asked.clone()),
            Message::tool_result("search_web".to_string(), "URL: u\nContent: c\n\n".to_string()),
        ]
    );
    assert_eq!(write_synthesis_note("rust"), added[0].content.clone().unwrap());
}

#[test]
fn the_replay_reproduces_the_call() {
    let asked = call("search_web", "{\"query\":\"caf\u{e9}\",\n  \"extra\": [1, 2]}");
    let added = dispatch_messages(&asked, "caf\u{e9}", "r".to_string());
    let replayed = added[1].tool_call.as_ref().expect("the call");
    assert_eq!(replayed.name, asked.name);
    assert_eq!(replayed.arguments, asked.arguments);
    assert_eq!(added[1].role, Role::Assistant);
    assert_eq!(added[1].content, None);
}

#[test]
fn a_rejection_adds_the_call_and_the_reason() {
    let asked = call("search_web", "{}");
    let error = DispatchError::MissingRequiredArgument("query".to_string());
    assert_eq!(
        rejection_messages(&asked, &error),
        vec![
            Message::tool_request(asked.clone()),
            Message::tool_result(
                "search_web".to_string(),
                "Missing required argument: query".to_string()
            ),
        ]
    );
}
