use planbot::gateway::GatewayError;
use planbot::message::{Message, Role, ToolCall};
use planbot::orchestrator::{
    Action, Orchestrator, Phase, DEFAULT_MAX_SEARCHES, EMPTY_PROMPT, QUESTION_PROMPT,
    RESEARCH_PROMPT, SENTINEL, SYNTHESIS_PROMPT,
};

fn user(text: &str) -> Message {
    Message::text(Role::User, text.to_string())
}

fn assistant(text: &str) -> Message {
    Message::text(Role::Assistant, text.to_string())
}

fn search_call(query: &str) -> ToolCall {
    ToolCall { name: "search_web".to_string(), arguments: format!("{{\"query\":\"{}\"}}", query) }
}

fn answered() -> Vec<Message> {
    vec![user("Build a todo app"), assistant("Which platform?"), user("Web")]
}

fn synthesis_request(knowledge: &str) -> Vec<Message> {
    vec![
        Message::text(Role::System, SYNTHESIS_PROMPT.to_string()),
        Message::text(Role::User, knowledge.to_string()),
    ]
}

fn search_once(run: Orchestrator, query: &str, result: &str) -> (Orchestrator, Action) {
    let (run, action) = run.on_reply(Ok(Message::tool_request(search_call(query))));
    assert_eq!(action, Action::Search { query: query.to_string() });
    assert!(run.awaits_search());
    assert!(!run.awaits_reply());
    run.on_search(Ok(result.to_string()))
}

#[test]
fn constants() {
    assert_eq!(DEFAULT_MAX_SEARCHES, 50);
    assert_eq!(SENTINEL, "<<FINAL_ANSWER>>");
    assert!(QUESTION_PROMPT.starts_with("You are **PlanBot**."));
    assert!(QUESTION_PROMPT.ends_with("- Do NOT ask more than six questions."));
    assert!(RESEARCH_PROMPT.starts_with("\nYou are **PlanBot-researcher**.\nYou will be given the user\u{2019}s goal"));
    assert!(RESEARCH_PROMPT.ends_with("You may perform at most 50 searches.\n"));
    assert!(SYNTHESIS_PROMPT.starts_with("You are **PlanBot-final**.  Using the knowledge base below"));
}

#[test]
fn no_message_ends_at_once() {
    let (run, action) = Orchestrator::begin(vec![], DEFAULT_MAX_SEARCHES);
    assert_eq!(action, Action::Finish { output: EMPTY_PROMPT.to_string() });
    assert_eq!(EMPTY_PROMPT, "Error: empty prompt");
    assert_eq!(run.phase(), Phase::Done);
    assert!(!run.awaits_reply());
    assert!(!run.awaits_search());
}

#[test]
fn one_message_asks_six_questions_without_tools() {
    let (run, action) = Orchestrator::begin(vec![user("Build a todo app")], DEFAULT_MAX_SEARCHES);
    assert_eq!(run.phase(), Phase::Questioning);
    assert_eq!(
        action,
        Action::Complete {
            conversation: vec![
                Message::text(Role::System, QUESTION_PROMPT.to_string()),
                user("Build a todo app"),
            ],
            tools: false,
        }
    );
    assert!(run.awaits_reply());
    assert!(run.wants_stream());
    let questions = "Who uses it?\nWhich platform?\nOffline?\nAccounts?\nDeadline?\nBudget?";
    let (run, action) = run.on_reply(Ok(assistant(questions)));
    assert_eq!(action, Action::Finish { output: questions.to_string() });
    assert_eq!(questions.lines().count(), 6);
    assert_eq!(run.phase(), Phase::Done);
    assert_eq!(run.search_count(), 0);
}

#[test]
fn the_goal_is_trimmed_for_the_questions() {
    let (_, action) = Orchestrator::begin(vec![user("  Build a todo app \n")], 50);
    match action {
        Action::Complete { conversation, tools } => {
            assert!(!tools);
            assert_eq!(conversation[1], user("Build a todo app"));
        }
        other => panic!("unexpected {:?}", other),
    }
    let bare = Message { role: Role::User, content: None, name: None, tool_call: None };
    let (run, action) = Orchestrator::begin(vec![bare], 50);
    assert_eq!(run.phase(), Phase::Questioning);
    match action {
        Action::Complete { conversation, .. } => assert_eq!(conversation[1], user("")),
        other => panic!("unexpected {:?}", other),
    }
}

#[test]
fn a_tool_call_in_the_question_phase_is_not_run() {
    let (run, _) = Orchestrator::begin(vec![user("goal")], 50);
    let (run, action) = run.on_reply(Ok(Message::tool_request(search_call("x"))));
    assert_eq!(action, Action::Finish { output: String::new() });
    assert_eq!(run.phase(), Phase::Done);
    assert_eq!(run.search_count(), 0);
}

#[test]
fn a_failure_in_the_question_phase_is_reported() {
    let (run, _) = Orchestrator::begin(vec![user("goal")], 50);
    let (run, action) =
        run.on_reply(Err(GatewayError::Provider("500 Internal Server Error".to_string())));
    assert_eq!(
        action,
        Action::Finish {
            output: "api error: DeepSeek API error: 500 Internal Server Error".to_string()
        }
    );
    assert_eq!(run.phase(), Phase::Done);
}

#[test]
fn more_messages_research_with_tools() {
    let (run, action) = Orchestrator::begin(answered(), DEFAULT_MAX_SEARCHES);
    assert_eq!(run.phase(), Phase::Researching);
    let mut expected = vec![Message::text(Role::System, RESEARCH_PROMPT.to_string())];
    expected.extend(answered());
    assert_eq!(action, Action::Complete { conversation: expected.clone(), tools: true });
    assert_eq!(run.conversation(), &expected);
    assert!(!run.wants_stream());
    assert_eq!(run.search_count(), 0);
    assert_eq!(run.max_searches(), 50);
    assert_eq!(run.knowledge_base(), "");
}

#[test]
fn a_search_goes_back_into_the_conversation() {
    let (run, _) = Orchestrator::begin(answered(), 50);
    let before = run.conversation().clone();
    let (run, action) = search_once(run, "todo app stack", "URL: u\nContent: c\n\n");
    assert_eq!(run.phase(), Phase::Researching);
    assert_eq!(run.search_count(), 1);
    assert_eq!(run.knowledge_base(), "\n--- Search #1: todo app stack ---\n");
    let mut expected = before;
    expected.push(Message::text(
        Role::System,
        "Searched the web for \"todo app stack\" to gather information for the plan.".to_string(),
    ));
    expected.push(Message::tool_request(search_call("todo app stack")));
    expected.push(Message::tool_result(
        "search_web".to_string(),
        "URL: u\nContent: c\n\n".to_string(),
    ));
    assert_eq!(run.conversation(), &expected);
    assert_eq!(action, Action::Complete { conversation: expected, tools: true });
}

#[test]
fn a_failed_search_is_absorbed() {
    let (run, _) = Orchestrator::begin(answered(), 50);
    let (run, _) = run.on_reply(Ok(Message::tool_request(search_call("q"))));
    let (run, action) = run.on_search(Err("connection refused".to_string()));
    assert_eq!(run.phase(), Phase::Researching);
    assert_eq!(run.search_count(), 1);
    let last = run.conversation().last().expect("a message");
    assert_eq!(
        last,
        &Message::tool_result(
            "search_web".to_string(),
            "Search error: connection refused".to_string()
        )
    );
    assert!(matches!(action, Action::Complete { tools: true, .. }));
}

#[test]
fn intermediate_reasoning_is_kept_and_research_goes_on() {
    let (run, _) = Orchestrator::begin(answered(), 50);
    let (run, action) = run.on_reply(Ok(assistant("I should look at frameworks.")));
    assert_eq!(run.phase(), Phase::Researching);
    assert_eq!(run.search_count(), 0);
    assert_eq!(run.knowledge_base(), "I should look at frameworks.");
    assert_eq!(run.conversation().last(), Some(&assistant("I should look at frameworks.")));
    assert!(matches!(action, Action::Complete { tools: true, .. }));
}

#[test]
fn the_marker_after_three_searches_starts_synthesis() {
    let (mut run, _) = Orchestrator::begin(answered(), DEFAULT_MAX_SEARCHES);
    for query in ["one", "two", "three"] {
        let (next, action) = search_once(run, query, "r");
        assert!(matches!(action, Action::Complete { tools: true, .. }));
        run = next;
    }
    let (run, action) = run.on_reply(Ok(assistant("Enough. <<FINAL_ANSWER>>")));
    assert_eq!(run.phase(), Phase::Synthesizing);
    assert_eq!(run.search_count(), 3);
    let knowledge = "\n--- Search #1: one ---\n\n--- Search #2: two ---\n\n--- Search #3: three ---\nEnough. <<FINAL_ANSWER>>";
    assert_eq!(run.knowledge_base(), knowledge);
    assert!(run.knowledge_base().contains(SENTINEL));
    assert_eq!(
        action,
        Action::Complete { conversation: synthesis_request(knowledge), tools: false }
    );
    let (run, action) = run.on_reply(Ok(assistant("# Plan\n1. ...")));
    assert_eq!(action, Action::Finish { output: "# Plan\n1. ...".to_string() });
    assert_eq!(run.phase(), Phase::Done);
    assert_eq!(run.search_count(), 3);
}

#[test]
fn the_budget_ends_research_whatever_the_model_wants() {
    let (mut run, _) = Orchestrator::begin(answered(), 2);
    let (next, action) = search_once(run, "a", "r");
    assert!(matches!(action, Action::Complete { tools: true, .. }));
    assert_eq!(next.search_count(), 1);
    run = next;
    let (run, action) = search_once(run, "b", "r");
    assert_eq!(run.search_count(), 2);
    assert_eq!(run.phase(), Phase::Synthesizing);
    assert_eq!(
        action,
        Action::Complete {
            conversation: synthesis_request("\n--- Search #1: a ---\n\n--- Search #2: b ---\n"),
            tools: false,
        }
    );
    let (run, action) = run.on_reply(Ok(Message::tool_request(search_call("c"))));
    assert_eq!(action, Action::Finish { output: String::new() });
    assert_eq!(run.search_count(), 2);
    assert_eq!(run.phase(), Phase::Done);
}

#[test]
fn a_budget_of_nothing_goes_straight_to_synthesis() {
    let (run, action) = Orchestrator::begin(answered(), 0);
    assert_eq!(run.phase(), Phase::Synthesizing);
    assert_eq!(action, Action::Complete { conversation: synthesis_request(""), tools: false });
}

#[test]
fn malformed_arguments_are_absorbed_and_counted() {
    let (run, _) = Orchestrator::begin(answered(), 50);
    let before = run.conversation().len();
    let call = ToolCall { name: "search_web".to_string(), arguments: "{oops".to_string() };
    let (run, action) = run.on_reply(Ok(Message::tool_request(call.clone())));
    assert_eq!(run.phase(), Phase::Researching);
    assert_eq!(run.search_count(), 1);
    assert_eq!(
        run.knowledge_base(),
        "\n--- Search #1 rejected: Malformed tool arguments: {oops ---\n"
    );
    assert_eq!(run.conversation().len(), before + 2);
    assert_eq!(run.conversation()[before], Message::tool_request(call));
    assert_eq!(
        run.conversation()[before + 1],
        Message::tool_result(
            "search_web".to_string(),
            "Malformed tool arguments: {oops".to_string()
        )
    );
    assert!(matches!(action, Action::Complete { tools: true, .. }));
}

#[test]
fn a_missing_query_is_absorbed_and_counted() {
    let (run, _) = Orchestrator::begin(answered(), 1);
    let call = ToolCall { name: "search_web".to_string(), arguments: "{}".to_string() };
    let (run, action) = run.on_reply(Ok(Message::tool_request(call)));
    assert_eq!(run.search_count(), 1);
    assert_eq!(run.phase(), Phase::Synthesizing);
    assert_eq!(
        action,
        Action::Complete {
            conversation: synthesis_request(
                "\n--- Search #1 rejected: Missing required argument: query ---\n"
            ),
            tools: false,
        }
    );
}

#[test]
fn an_unknown_tool_is_passed_over() {
    let (run, _) = Orchestrator::begin(answered(), 50);
    let call = ToolCall { name: "run_code".to_string(), arguments: "{}".to_string() };
    let (run, action) = run.on_reply(Ok(Message::tool_request(call.clone())));
    assert_eq!(run.search_count(), 0);
    assert_eq!(run.knowledge_base(), "");
    assert_eq!(run.conversation().last(), Some(&Message::tool_request(call)));
    assert!(matches!(action, Action::Complete { tools: true, .. }));
}

#[test]
fn failures_during_research_end_the_run() {
    let (run, _) = Orchestrator::begin(answered(), 50);
    let (run, action) = run.on_reply(Err(GatewayError::Transport("timed out".to_string())));
    assert_eq!(action, Action::Finish { output: "DeepSeek error: timed out".to_string() });
    assert_eq!(run.phase(), Phase::Done);
    let (run, _) = Orchestrator::begin(answered(), 50);
    let (_, action) = run.on_reply(Err(GatewayError::Decode("missing `choices`".to_string())));
    assert_eq!(action, Action::Finish { output: "parse error: missing `choices`".to_string() });
}

#[test]
fn failures_during_synthesis_are_reported() {
    let (run, _) = Orchestrator::begin(answered(), 0);
    let (_, action) = run.on_reply(Err(GatewayError::Decode("bad".to_string())));
    assert_eq!(action, Action::Finish { output: "final parse error: bad".to_string() });
    let (run, _) = Orchestrator::begin(answered(), 0);
    let (_, action) = run.on_reply(Err(GatewayError::Provider("429".to_string())));
    assert_eq!(
        action,
        Action::Finish { output: "final api error: DeepSeek API error: 429".to_string() }
    );
}

#[test]
fn a_reply_without_content_gives_an_empty_plan() {
    let (run, _) = Orchestrator::begin(answered(), 0);
    let bare = Message { role: Role::Assistant, content: None, name: None, tool_call: None };
    let (_, action) = run.on_reply(Ok(bare));
    assert_eq!(action, Action::Finish { output: String::new() });
}
