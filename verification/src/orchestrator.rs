//! The planning orchestrator: a state machine that asks clarifying
//! questions, researches within a budget of searches, and then asks for the
//! plan. It decides; its caller performs each action and reports back.

use vstd::prelude::*;
use crate::dispatch::{
    decision, dispatch, dispatch_messages, dispatched, malformed_text, missing_text,
    outcome_text, rejected, rejection_messages, write_outcome, Decision, Dispatch,
    QUERY_ARGUMENT,
};
use crate::gateway::{failure_text, GatewayError};
use crate::message::{
    clone_conversation, lemma_views_add, lemma_views_push, plain, views, Message, MessageView,
    Role, ToolCall, ToolCallView,
};
use crate::text::{concatenate, contains, contains_text, decimal, decimal_text, trim, trimmed};

verus! {

/// The searches that one run may make, unless it is told otherwise.
pub const DEFAULT_MAX_SEARCHES: usize = 50;

/// The marker by which the model says that it has researched enough.
pub const SENTINEL: &'static str = "<<FINAL_ANSWER>>";

/// The answer to a request without any message.
pub const EMPTY_PROMPT: &'static str = "Error: empty prompt";

/// The instruction for the question phase.
pub const QUESTION_PROMPT: &'static str =
    "You are **PlanBot**.\nYour ONLY job right now is to ask the user **exactly six** crisp, high-impact questions that will let you write a bullet-proof technical plan later.\n\nRules:\n- One question per line, no numbering.\n- Do NOT greet or explain.\n- Do NOT ask more than six questions.";

/// The instruction for the research phase.
pub const RESEARCH_PROMPT: &'static str =
    "\nYou are **PlanBot-researcher**.\nYou will be given the user\u{2019}s goal + answers to your 6 questions.\nYour job: iteratively search, analyse, search again until you possess **enough** information to write the final plan.\n\nWorkflow inside this loop:\n1. Decide what you still need to know.\n2. Emit **exactly one** JSON call to function `search_web` with a sharp query.\n3. Read the returned snippets.\n4. Append a short synthesis to the knowledge base.\n5. If satisfied, append \"<<FINAL_ANSWER>>\" to the knowledge base and exit the loop.\n6. Otherwise repeat.\n\nYou may perform at most 50 searches.\n";

/// The instruction for the synthesis phase.
pub const SYNTHESIS_PROMPT: &'static str =
    "You are **PlanBot-final**.  Using the knowledge base below, write a **comprehensive technical plan** with clear sections, timelines, and deliverables.";

/// Where a run stands.
#[derive(Clone, Copy, Debug, PartialEq, Eq, Structural)]
pub enum Phase {
    Idle,
    Questioning,
    Researching,
    Synthesizing,
    Done,
}

/// What the caller is to do next.
#[derive(Debug, PartialEq, Eq)]
pub enum Action {
    /// Ask the model to continue `conversation`, offering the search tool
    /// or not, and report the reply.
    Complete { conversation: Vec<Message>, tools: bool },
    /// Search the web for `query`, and report the outcome.
    Search { query: String },
    /// The run is over; `output` is its result.
    Finish { output: String },
}

/// The characters of an action.
pub enum ActionView {
    Complete { conversation: Seq<MessageView>, tools: bool },
    Search { query: Seq<char> },
    Finish { output: Seq<char> },
}

impl View for Action {
    type V = ActionView;

    open spec fn view(&self) -> ActionView {
        match self {
            Action::Complete { conversation, tools } => ActionView::Complete {
                conversation: views(conversation@),
                tools: *tools,
            },
            Action::Search { query } => ActionView::Search { query: query@ },
            Action::Finish { output } => ActionView::Finish { output: output@ },
        }
    }
}

/// The state of a run.
pub struct State {
    pub phase: Phase,
    /// The dialogue that the research continues.
    pub conversation: Seq<MessageView>,
    /// What the research has gathered.
    pub knowledge: Seq<char>,
    /// The searches that were counted.
    pub count: nat,
    /// The searches that may be counted.
    pub max: nat,
    /// The search that the caller is making: the tool call and its query.
    pub pending: Option<(ToolCallView, Seq<char>)>,
}

impl State {
    /// The budget is kept: no more searches are counted than allowed,
    /// research goes on only while a search is left, and a search is under
    /// way only during research.
    pub open spec fn wf(self) -> bool {
        &&& self.count <= self.max
        &&& self.phase == Phase::Researching ==> self.count < self.max
        &&& self.pending is Some ==> self.phase == Phase::Researching
    }

    /// The run waits for a reply of the model.
    pub open spec fn awaits_reply(self) -> bool {
        &&& self.pending is None
        &&& (self.phase == Phase::Questioning || self.phase == Phase::Researching || self.phase
            == Phase::Synthesizing)
    }

    /// The run waits for the outcome of a search.
    pub open spec fn awaits_search(self) -> bool {
        self.phase == Phase::Researching && self.pending is Some
    }

    /// The searches that were begun: those counted, and the one under way.
    pub open spec fn spent(self) -> nat {
        if self.pending is Some {
            self.count + 1
        } else {
            self.count
        }
    }

    /// This state, ended.
    pub open spec fn ended(self) -> State {
        State { phase: Phase::Done, pending: None, ..self }
    }
}

/// The text of an optional content.
pub open spec fn content_or_empty(content: Option<Seq<char>>) -> Seq<char> {
    match content {
        Some(text) => text,
        None => Seq::empty(),
    }
}

/// The request of the question phase: the instruction, and the user's goal
/// without the white space around it.
pub open spec fn question_request(first: MessageView) -> Seq<MessageView> {
    seq![
        plain(Role::System, QUESTION_PROMPT@),
        plain(Role::User, trimmed(content_or_empty(first.content))),
    ]
}

/// The request of the synthesis phase: the instruction, and all that the
/// research gathered.
pub open spec fn synthesis_request(knowledge: Seq<char>) -> Seq<MessageView> {
    seq![plain(Role::System, SYNTHESIS_PROMPT@), plain(Role::User, knowledge)]
}

/// The line that records the `number`-th search in the knowledge base.
pub open spec fn search_line(number: nat, query: Seq<char>) -> Seq<char> {
    "\n--- Search #"@ + decimal(number) + ": "@ + query + " ---\n"@
}

/// The line that records a rejected tool call in the knowledge base.
pub open spec fn rejection_line(number: nat, reason: Seq<char>) -> Seq<char> {
    "\n--- Search #"@ + decimal(number) + " rejected: "@ + reason + " ---\n"@
}

/// Research goes on while a search is left; then synthesis begins.
pub open spec fn proceed(state: State) -> (State, ActionView) {
    if state.count < state.max {
        (
            State { phase: Phase::Researching, pending: None, ..state },
            ActionView::Complete { conversation: state.conversation, tools: true },
        )
    } else {
        synthesize(state)
    }
}

/// Synthesis begins.
pub open spec fn synthesize(state: State) -> (State, ActionView) {
    (
        State { phase: Phase::Synthesizing, pending: None, ..state },
        ActionView::Complete { conversation: synthesis_request(state.knowledge), tools: false },
    )
}

/// How a run begins: without a message it ends at once; with one message it
/// asks its questions; with more it researches.
pub open spec fn begin(max: nat, inbound: Seq<MessageView>) -> (State, ActionView) {
    let idle = State {
        phase: Phase::Idle,
        conversation: Seq::empty(),
        knowledge: Seq::empty(),
        count: 0,
        max,
        pending: None,
    };
    if inbound.len() == 0 {
        (idle.ended(), ActionView::Finish { output: EMPTY_PROMPT@ })
    } else if inbound.len() == 1 {
        (
            State { phase: Phase::Questioning, conversation: question_request(inbound[0]), ..idle },
            ActionView::Complete { conversation: question_request(inbound[0]), tools: false },
        )
    } else {
        proceed(
            State { conversation: seq![plain(Role::System, RESEARCH_PROMPT@)] + inbound, ..idle },
        )
    }
}

/// The result of a run whose completion failed.
pub open spec fn failure_output(phase: Phase, error: GatewayError) -> Seq<char> {
    match phase {
        Phase::Questioning => "api error: "@ + failure_text(error),
        Phase::Synthesizing => match error {
            GatewayError::Decode(cause) => "final parse error: "@ + cause@,
            _ => "final api error: "@ + failure_text(error),
        },
        _ => match error {
            GatewayError::Decode(cause) => "parse error: "@ + cause@,
            _ => "DeepSeek error: "@ + failure_text(error),
        },
    }
}

/// What a reply of the model does to research.
pub open spec fn research_reply(state: State, reply: MessageView) -> (State, ActionView) {
    match decision(reply) {
        Decision::Search(query) => (
            State { pending: Some((reply.tool_call->0, query)), ..state },
            ActionView::Search { query },
        ),
        Decision::Malformed => reject(
            state,
            reply.tool_call->0,
            malformed_text(reply.tool_call->0.arguments),
        ),
        Decision::Missing => reject(state, reply.tool_call->0, missing_text(QUERY_ARGUMENT@)),
        Decision::Pass => {
            let content = content_or_empty(reply.content);
            let gathered = State { knowledge: state.knowledge + content, ..state };
            if reply.content is Some && contains(content, SENTINEL@) {
                synthesize(gathered)
            } else {
                proceed(State { conversation: state.conversation.push(reply), ..gathered })
            }
        },
    }
}

/// A rejected tool call is counted like a search; the reason takes the
/// place of the result.
pub open spec fn reject(state: State, call: ToolCallView, reason: Seq<char>) -> (State, ActionView) {
    proceed(
        State {
            conversation: state.conversation + rejected(call, reason),
            knowledge: state.knowledge + rejection_line(state.count + 1, reason),
            count: state.count + 1,
            ..state
        },
    )
}

/// What a reply of the model, or the failure to get one, does to a run that
/// waits for it.
pub open spec fn after_reply(state: State, reply: Result<Message, GatewayError>) -> (
    State,
    ActionView,
) {
    match reply {
        Err(error) => (
            state.ended(),
            ActionView::Finish { output: failure_output(state.phase, error) },
        ),
        Ok(message) => match state.phase {
            Phase::Researching => research_reply(state, message@),
            _ => (
                state.ended(),
                ActionView::Finish { output: content_or_empty(message@.content) },
            ),
        },
    }
}

/// What the outcome of the search under way does to a run.
pub open spec fn after_search(state: State, outcome: Result<String, String>) -> (State, ActionView) {
    let (call, query) = state.pending->0;
    proceed(
        State {
            conversation: state.conversation + dispatched(call, query, outcome_text(outcome)),
            knowledge: state.knowledge + search_line(state.count + 1, query),
            count: state.count + 1,
            pending: None,
            ..state
        },
    )
}

/// A run begins well formed.
pub proof fn lemma_begin_wf(max: nat, inbound: Seq<MessageView>)
    ensures
        begin(max, inbound).0.wf(),
        begin(max, inbound).0.max == max,
        begin(max, inbound).0.count == 0,
{
}

/// A conversation of exactly one message leads to the questions, without
/// the search tool; and whatever the model replies then, the run ends
/// without a search.
pub proof fn lemma_one_message_asks(
    max: nat,
    inbound: Seq<MessageView>,
    reply: Result<Message, GatewayError>,
)
    requires
        inbound.len() == 1,
    ensures
        begin(max, inbound).0.phase == Phase::Questioning,
        begin(max, inbound).0.count == 0,
        begin(max, inbound).1 == (ActionView::Complete {
            conversation: question_request(inbound[0]),
            tools: false,
        }),
        after_reply(begin(max, inbound).0, reply).0.phase == Phase::Done,
        after_reply(begin(max, inbound).0, reply).0.count == 0,
        after_reply(begin(max, inbound).0, reply).1 is Finish,
{
}

/// A conversation of more than one message leads to research, or, where no
/// search is allowed, straight to synthesis: never to the questions.
pub proof fn lemma_more_messages_research(max: nat, inbound: Seq<MessageView>)
    requires
        inbound.len() > 1,
    ensures
        begin(max, inbound).0.phase == (if max > 0 {
            Phase::Researching
        } else {
            Phase::Synthesizing
        }),
        max > 0 ==> begin(max, inbound).1 == (ActionView::Complete {
            conversation: seq![plain(Role::System, RESEARCH_PROMPT@)] + inbound,
            tools: true,
        }),
{
}

/// A run that has left the start never asks the questions: from research,
/// synthesis or the end, every step leads to one of these three.
pub proof fn lemma_no_way_back_to_questions(
    state: State,
    reply: Result<Message, GatewayError>,
    outcome: Result<String, String>,
)
    requires
        state.phase == Phase::Researching || state.phase == Phase::Synthesizing || state.phase
            == Phase::Done,
    ensures
        after_reply(state, reply).0.phase != Phase::Questioning,
        after_reply(state, reply).0.phase != Phase::Idle,
        after_search(state, outcome).0.phase != Phase::Questioning,
        after_search(state, outcome).0.phase != Phase::Idle,
{
}

/// The budget holds at every step of a run that waits for a reply: the new
/// state is well formed, so the count never passes the maximum and research
/// ends at the latest when the count reaches it; the maximum stays; and the
/// searches begun never become fewer, and become one more exactly when a
/// search is asked for.
pub proof fn lemma_reply_keeps_budget(state: State, reply: Result<Message, GatewayError>)
    requires
        state.wf(),
        state.awaits_reply(),
    ensures
        after_reply(state, reply).0.wf(),
        after_reply(state, reply).0.max == state.max,
        after_reply(state, reply).0.count <= state.max,
        after_reply(state, reply).0.phase == Phase::Researching ==> after_reply(
            state,
            reply,
        ).0.count < state.max,
        after_reply(state, reply).1 is Search ==> state.phase == Phase::Researching
            && after_reply(state, reply).0.spent() == state.spent() + 1,
        after_reply(state, reply).0.spent() >= state.spent(),
        after_reply(state, reply).0.spent() <= state.max,
        (after_reply(state, reply).1 matches ActionView::Complete { tools, .. } && tools)
            ==> after_reply(state, reply).0.phase == Phase::Researching,
{
}

/// The budget holds when a search comes back: it is counted, once; the new
/// state is well formed; and where the count has reached the maximum the
/// run goes on to synthesis, whatever the model meant to do.
pub proof fn lemma_search_keeps_budget(state: State, outcome: Result<String, String>)
    requires
        state.wf(),
        state.awaits_search(),
    ensures
        after_search(state, outcome).0.wf(),
        after_search(state, outcome).0.max == state.max,
        after_search(state, outcome).0.count == state.count + 1,
        after_search(state, outcome).0.spent() == state.spent(),
        after_search(state, outcome).0.count == state.max ==> after_search(
            state,
            outcome,
        ).0.phase == Phase::Synthesizing,
        after_search(state, outcome).0.count < state.max ==> after_search(
            state,
            outcome,
        ).0.phase == Phase::Researching,
        !(after_search(state, outcome).1 is Search),
{
}

/// A reply whose content holds the marker ends research at once, with the
/// count as it stands.
pub proof fn lemma_marker_ends_research(state: State, message: Message)
    requires
        state.phase == Phase::Researching,
        decision(message@) is Pass,
        message@.content is Some,
        contains(message@.content->0, SENTINEL@),
    ensures
        after_reply(state, Ok(message)).0.phase == Phase::Synthesizing,
        after_reply(state, Ok(message)).0.count == state.count,
        after_reply(state, Ok(message)).1 == (ActionView::Complete {
            conversation: synthesis_request(state.knowledge + message@.content->0),
            tools: false,
        }),
{
}

/// The tool call that a search puts back into the conversation is the one
/// that the model made, and the conversation before it is kept as it was.
pub proof fn lemma_search_replays_call(state: State, outcome: Result<String, String>)
    requires
        state.awaits_search(),
    ensures
        ({
            let next = after_search(state, outcome).0;
            let n = state.conversation.len() as int;
            let (call, _) = state.pending->0;
            &&& next.conversation.len() == n + 3
            &&& next.conversation.take(n) == state.conversation
            &&& next.conversation[n + 1].role == Role::Assistant
            &&& next.conversation[n + 1].tool_call == Some(call)
        }),
{
    let next = after_search(state, outcome).0;
    let n = state.conversation.len() as int;
    assert(next.conversation.take(n) =~= state.conversation);
}

/// What the caller reports to a run.
pub enum Event {
    /// The reply of the model, or the failure to get one.
    Reply(Result<Message, GatewayError>),
    /// The outcome of the search that was asked for.
    Searched(Result<String, String>),
}

/// The event is what the run waits for.
pub open spec fn expected(state: State, event: Event) -> bool {
    match event {
        Event::Reply(_) => state.awaits_reply(),
        Event::Searched(_) => state.awaits_search(),
    }
}

/// What an event does to a run that waits for it.
pub open spec fn react(state: State, event: Event) -> (State, ActionView) {
    match event {
        Event::Reply(reply) => after_reply(state, reply),
        Event::Searched(outcome) => after_search(state, outcome),
    }
}

/// The state after `events`; an event that the run does not wait for leaves
/// it as it is.
pub open spec fn state_after(state: State, events: Seq<Event>) -> State
    decreases events.len(),
{
    if events.len() == 0 {
        state
    } else {
        let before = state_after(state, events.drop_last());
        if expected(before, events.last()) {
            react(before, events.last()).0
        } else {
            before
        }
    }
}

/// How many searches the run asks for in the course of `events`.
pub open spec fn searches_asked(state: State, events: Seq<Event>) -> nat
    decreases events.len(),
{
    if events.len() == 0 {
        0
    } else {
        let before = state_after(state, events.drop_last());
        let asked = searches_asked(state, events.drop_last());
        if expected(before, events.last()) && react(before, events.last()).1 is Search {
            asked + 1
        } else {
            asked
        }
    }
}

/// Whatever the model replies and whatever the searches give, a run asks
/// for no more searches than its budget leaves, and its count never passes
/// the maximum.
pub proof fn lemma_budget_bounds_searches(state: State, events: Seq<Event>)
    requires
        state.wf(),
    ensures
        state_after(state, events).wf(),
        state_after(state, events).max == state.max,
        state_after(state, events).count <= state.max,
        state.spent() + searches_asked(state, events) <= state_after(state, events).spent(),
        state.spent() + searches_asked(state, events) <= state.max,
    decreases events.len(),
{
    if events.len() > 0 {
        let before = state_after(state, events.drop_last());
        lemma_budget_bounds_searches(state, events.drop_last());
        if expected(before, events.last()) {
            match events.last() {
                Event::Reply(reply) => {
                    lemma_reply_keeps_budget(before, reply);
                },
                Event::Searched(outcome) => {
                    lemma_search_keeps_budget(before, outcome);
                },
            }
        }
    }
}

/// A run that begins asks for at most `max` searches, whatever follows.
pub proof fn lemma_run_searches_at_most_max(
    max: nat,
    inbound: Seq<MessageView>,
    events: Seq<Event>,
)
    ensures
        searches_asked(begin(max, inbound).0, events) <= max,
        state_after(begin(max, inbound).0, events).count <= max,
{
    lemma_begin_wf(max, inbound);
    lemma_budget_bounds_searches(begin(max, inbound).0, events);
}

/// A run only adds to what it keeps: after every event that it waits for,
/// the conversation and the knowledge base begin as they did before, and
/// the count is not smaller.
pub proof fn lemma_append_only(state: State, event: Event)
    requires
        expected(state, event),
    ensures
        state.conversation.is_prefix_of(react(state, event).0.conversation),
        state.knowledge.is_prefix_of(react(state, event).0.knowledge),
        state.count <= react(state, event).0.count,
{
    let next = react(state, event).0;
    assert(next.conversation.subrange(0, state.conversation.len() as int)
        =~= state.conversation);
    assert(next.knowledge.subrange(0, state.knowledge.len() as int) =~= state.knowledge);
}

/// A run on exactly one message never asks for a search and counts none,
/// whatever follows: it asks its questions and ends.
pub proof fn lemma_one_message_never_searches(
    max: nat,
    inbound: Seq<MessageView>,
    events: Seq<Event>,
)
    requires
        inbound.len() == 1,
    ensures
        searches_asked(begin(max, inbound).0, events) == 0,
        state_after(begin(max, inbound).0, events).count == 0,
        state_after(begin(max, inbound).0, events).pending is None,
        state_after(begin(max, inbound).0, events).phase == Phase::Questioning || state_after(
            begin(max, inbound).0,
            events,
        ).phase == Phase::Done,
    decreases events.len(),
{
    if events.len() > 0 {
        lemma_one_message_never_searches(max, inbound, events.drop_last());
    }
}

/// A run on more than one message never asks the questions, whatever
/// follows: it is never in the question phase.
pub proof fn lemma_more_messages_never_ask(
    max: nat,
    inbound: Seq<MessageView>,
    events: Seq<Event>,
)
    requires
        inbound.len() > 1,
    ensures
        state_after(begin(max, inbound).0, events).phase != Phase::Questioning,
        state_after(begin(max, inbound).0, events).phase != Phase::Idle,
    decreases events.len(),
{
    if events.len() > 0 {
        lemma_more_messages_never_ask(max, inbound, events.drop_last());
    }
}

/// One run of the planning workflow.
pub struct Orchestrator {
    phase: Phase,
    conversation: Vec<Message>,
    knowledge: String,
    count: usize,
    max: usize,
    pending: Option<(ToolCall, String)>,
}

impl View for Orchestrator {
    type V = State;

    closed spec fn view(&self) -> State {
        State {
            phase: self.phase,
            conversation: views(self.conversation@),
            knowledge: self.knowledge@,
            count: self.count as nat,
            max: self.max as nat,
            pending: match self.pending {
                Some(p) => Some((p.0@, p.1@)),
                None => None,
            },
        }
    }
}

/// The request of the synthesis phase.
fn write_synthesis_request(knowledge: &String) -> (r: Vec<Message>)
    ensures
        views(r@) == synthesis_request(knowledge@),
{
    let mut request: Vec<Message> = Vec::new();
    request.push(Message::text(Role::System, SYNTHESIS_PROMPT.to_owned()));
    request.push(Message::text(Role::User, knowledge.clone()));
    assert(views(request@) =~= synthesis_request(knowledge@));
    request
}

/// The request of the question phase.
fn write_question_request(first: &Message) -> (r: Vec<Message>)
    ensures
        views(r@) == question_request(first@),
{
    let goal = match &first.content {
        Some(content) => trim(content.as_str()),
        None => trim(""),
    };
    proof {
        if first.content is None {
            reveal_strlit("");
            assert(""@ =~= Seq::<char>::empty());
        }
    }
    let mut request: Vec<Message> = Vec::new();
    request.push(Message::text(Role::System, QUESTION_PROMPT.to_owned()));
    request.push(Message::text(Role::User, goal));
    assert(views(request@) =~= question_request(first@));
    request
}

/// The line that records the `number`-th search in the knowledge base.
fn write_search_line(number: usize, query: &str) -> (r: String)
    ensures
        r@ == search_line(number as nat, query@),
{
    let mut line = concatenate("\n--- Search #", decimal_text(number).as_str());
    line.append(": ");
    line.append(query);
    line.append(" ---\n");
    line
}

/// The line that records a rejected tool call in the knowledge base.
fn write_rejection_line(number: usize, reason: &str) -> (r: String)
    ensures
        r@ == rejection_line(number as nat, reason@),
{
    let mut line = concatenate("\n--- Search #", decimal_text(number).as_str());
    line.append(" rejected: ");
    line.append(reason);
    line.append(" ---\n");
    line
}

/// The result of a run whose completion failed.
fn write_failure_output(phase: Phase, error: &GatewayError) -> (r: String)
    ensures
        r@ == failure_output(phase, *error),
{
    match phase {
        Phase::Questioning => concatenate("api error: ", error.describe().as_str()),
        Phase::Synthesizing => match error {
            GatewayError::Decode(cause) => concatenate("final parse error: ", cause.as_str()),
            _ => concatenate("final api error: ", error.describe().as_str()),
        },
        _ => match error {
            GatewayError::Decode(cause) => concatenate("parse error: ", cause.as_str()),
            _ => concatenate("DeepSeek error: ", error.describe().as_str()),
        },
    }
}

/// `tail` put behind `conversation`.
fn extend(conversation: &mut Vec<Message>, tail: Vec<Message>)
    ensures
        final(conversation)@ == old(conversation)@ + tail@,
{
    let mut i: usize = 0;
    assert(tail@.take(0) =~= Seq::<Message>::empty());
    assert(conversation@ + tail@.take(0) =~= conversation@);
    while i < tail.len()
        invariant
            i <= tail.len(),
            conversation@ == old(conversation)@ + tail@.take(i as int),
        decreases tail.len() - i,
    {
        conversation.push(tail[i].clone());
        assert(old(conversation)@ + tail@.take(i + 1) =~= (old(conversation)@ + tail@.take(
            i as int,
        )).push(tail@[i as int]));
        i += 1;
    }
    assert(tail@.take(tail.len() as int) =~= tail@);
}

impl Orchestrator {
    #[verifier::type_invariant]
    spec fn kept(self) -> bool {
        self@.wf()
    }

    /// Synthesis begins.
    fn start_synthesis(conversation: Vec<Message>, knowledge: String, count: usize, max: usize) -> (r:
        (Orchestrator, Action))
        requires
            count <= max,
        ensures
            r.0@ == synthesize(
                State {
                    phase: Phase::Researching,
                    conversation: views(conversation@),
                    knowledge: knowledge@,
                    count: count as nat,
                    max: max as nat,
                    pending: None,
                },
            ).0,
            r.1@ == synthesize(
                State {
                    phase: Phase::Researching,
                    conversation: views(conversation@),
                    knowledge: knowledge@,
                    count: count as nat,
                    max: max as nat,
                    pending: None,
                },
            ).1,
    {
        let request = write_synthesis_request(&knowledge);
        (
            Orchestrator {
                phase: Phase::Synthesizing,
                conversation,
                knowledge,
                count,
                max,
                pending: None,
            },
            Action::Complete { conversation: request, tools: false },
        )
    }

    /// Research goes on while a search is left; then synthesis begins.
    fn go_on(conversation: Vec<Message>, knowledge: String, count: usize, max: usize) -> (r: (
        Orchestrator,
        Action,
    ))
        requires
            count <= max,
        ensures
            r.0@ == proceed(
                State {
                    phase: Phase::Researching,
                    conversation: views(conversation@),
                    knowledge: knowledge@,
                    count: count as nat,
                    max: max as nat,
                    pending: None,
                },
            ).0,
            r.1@ == proceed(
                State {
                    phase: Phase::Researching,
                    conversation: views(conversation@),
                    knowledge: knowledge@,
                    count: count as nat,
                    max: max as nat,
                    pending: None,
                },
            ).1,
    {
        if count < max {
            let request = clone_conversation(&conversation);
            (
                Orchestrator {
                    phase: Phase::Researching,
                    conversation,
                    knowledge,
                    count,
                    max,
                    pending: None,
                },
                Action::Complete { conversation: request, tools: true },
            )
        } else {
            Orchestrator::start_synthesis(conversation, knowledge, count, max)
        }
    }

    /// Ends the run with `output`.
    fn end(self, output: String) -> (r: (Orchestrator, Action))
        ensures
            r.0@ == self@.ended(),
            r.1@ == (ActionView::Finish { output: output@ }),
    {
        proof {
            use_type_invariant(&self);
        }
        (
            Orchestrator {
                phase: Phase::Done,
                conversation: self.conversation,
                knowledge: self.knowledge,
                count: self.count,
                max: self.max,
                pending: None,
            },
            Action::Finish { output },
        )
    }

    /// Begins a run on the conversation `inbound`, with a budget of `max`
    /// searches, and says what is to be done first.
    pub fn begin(inbound: Vec<Message>, max: usize) -> (r: (Orchestrator, Action))
        ensures
            r.0@ == begin(max as nat, views(inbound@)).0,
            r.1@ == begin(max as nat, views(inbound@)).1,
            r.0@.wf(),
    {
        if inbound.len() == 0 {
            assert(views(Seq::<Message>::empty()) =~= Seq::<MessageView>::empty());
            (
                Orchestrator {
                    phase: Phase::Done,
                    conversation: Vec::new(),
                    knowledge: String::new(),
                    count: 0,
                    max,
                    pending: None,
                },
                Action::Finish { output: EMPTY_PROMPT.to_owned() },
            )
        } else if inbound.len() == 1 {
            let kept = write_question_request(&inbound[0]);
            let request = clone_conversation(&kept);
            assert(views(inbound@)[0] == inbound@[0]@);
            (
                Orchestrator {
                    phase: Phase::Questioning,
                    conversation: kept,
                    knowledge: String::new(),
                    count: 0,
                    max,
                    pending: None,
                },
                Action::Complete { conversation: request, tools: false },
            )
        } else {
            let mut conversation: Vec<Message> = Vec::new();
            conversation.push(Message::text(Role::System, RESEARCH_PROMPT.to_owned()));
            let ghost head = conversation@;
            extend(&mut conversation, inbound);
            proof {
                lemma_views_add(head, inbound@);
                assert(views(head) =~= seq![plain(Role::System, RESEARCH_PROMPT@)]);
            }
            Orchestrator::go_on(conversation, String::new(), 0, max)
        }
    }

    /// Takes the reply of the model, or the failure to get one, and says
    /// what is to be done next.
    pub fn on_reply(self, reply: Result<Message, GatewayError>) -> (r: (Orchestrator, Action))
        requires
            self@.awaits_reply(),
        ensures
            r.0@ == after_reply(self@, reply).0,
            r.1@ == after_reply(self@, reply).1,
            r.0@.wf(),
    {
        proof {
            use_type_invariant(&self);
            lemma_reply_keeps_budget(self@, reply);
        }
        match reply {
            Err(error) => {
                let output = write_failure_output(self.phase, &error);
                self.end(output)
            },
            Ok(message) => match self.phase {
                Phase::Researching => self.on_research_reply(message),
                _ => {
                    let output = match message.content {
                        Some(content) => content,
                        None => String::new(),
                    };
                    self.end(output)
                },
            },
        }
    }

    /// Takes a reply of the model during research.
    fn on_research_reply(self, message: Message) -> (r: (Orchestrator, Action))
        requires
            self@.awaits_reply(),
            self@.phase == Phase::Researching,
        ensures
            r.0@ == research_reply(self@, message@).0,
            r.1@ == research_reply(self@, message@).1,
    {
        proof {
            use_type_invariant(&self);
        }
        let Orchestrator { phase, conversation, knowledge, count, max, pending } = self;
        let mut conversation = conversation;
        let mut knowledge = knowledge;
        let ghost before_messages = conversation@;
        let ghost gathered = knowledge@;
        match dispatch(&message) {
            Dispatch::Search(query) => {
                let call = message.tool_call.unwrap();
                let asked = query.clone();
                (
                    Orchestrator {
                        phase: Phase::Researching,
                        conversation,
                        knowledge,
                        count,
                        max,
                        pending: Some((call, query)),
                    },
                    Action::Search { query: asked },
                )
            },
            Dispatch::Rejected(error) => {
                let call = message.tool_call.unwrap();
                let reason = error.describe();
                let added = rejection_messages(&call, &error);
                extend(&mut conversation, added);
                let line = write_rejection_line(count + 1, reason.as_str());
                knowledge.append(line.as_str());
                proof {
                    lemma_views_add(before_messages, added@);
                }
                Orchestrator::go_on(conversation, knowledge, count + 1, max)
            },
            Dispatch::Pass => {
                let found = match &message.content {
                    Some(content) => {
                        knowledge.append(content.as_str());
                        contains_text(content.as_str(), SENTINEL)
                    },
                    None => {
                        assert(gathered + Seq::<char>::empty() =~= gathered);
                        false
                    },
                };
                if found {
                    Orchestrator::start_synthesis(conversation, knowledge, count, max)
                } else {
                    proof {
                        lemma_views_push(conversation@, message);
                    }
                    conversation.push(message);
                    Orchestrator::go_on(conversation, knowledge, count, max)
                }
            },
        }
    }

    /// Takes the outcome of the search under way, and says what is to be
    /// done next.
    pub fn on_search(self, outcome: Result<String, String>) -> (r: (Orchestrator, Action))
        requires
            self@.awaits_search(),
        ensures
            r.0@ == after_search(self@, outcome).0,
            r.1@ == after_search(self@, outcome).1,
            r.0@.wf(),
    {
        proof {
            use_type_invariant(&self);
            lemma_search_keeps_budget(self@, outcome);
        }
        let Orchestrator { phase, conversation, knowledge, count, max, pending } = self;
        let mut conversation = conversation;
        let mut knowledge = knowledge;
        let ghost before = conversation@;
        let (call, query) = pending.unwrap();
        let text = write_outcome(outcome);
        let added = dispatch_messages(&call, query.as_str(), text);
        extend(&mut conversation, added);
        let line = write_search_line(count + 1, query.as_str());
        knowledge.append(line.as_str());
        proof {
            lemma_views_add(before, added@);
        }
        Orchestrator::go_on(conversation, knowledge, count + 1, max)
    }

    /// Where the run stands.
    pub fn phase(&self) -> (r: Phase)
        ensures
            r == self@.phase,
    {
        self.phase
    }

    /// The searches that were counted.
    pub fn search_count(&self) -> (r: usize)
        ensures
            r == self@.count,
            r <= self@.max,
    {
        proof {
            use_type_invariant(self);
        }
        self.count
    }

    /// The searches that may be counted.
    pub fn max_searches(&self) -> (r: usize)
        ensures
            r == self@.max,
    {
        self.max
    }

    /// What the research has gathered.
    pub fn knowledge_base(&self) -> (r: &str)
        ensures
            r@ == self@.knowledge,
    {
        self.knowledge.as_str()
    }

    /// The dialogue that the research continues.
    pub fn conversation(&self) -> (r: &Vec<Message>)
        ensures
            views(r@) == self@.conversation,
    {
        &self.conversation
    }

    /// Whether the reply that the run waits for is to be streamed: the
    /// questions are, since they go to the user as they are.
    pub fn wants_stream(&self) -> (r: bool)
        ensures
            r == (self@.phase == Phase::Questioning),
    {
        self.phase == Phase::Questioning
    }

    /// Whether the run waits for a reply of the model.
    pub fn awaits_reply(&self) -> (r: bool)
        ensures
            r == self@.awaits_reply(),
    {
        self.pending.is_none() && (self.phase == Phase::Questioning || self.phase
            == Phase::Researching || self.phase == Phase::Synthesizing)
    }

    /// Whether the run waits for the outcome of a search.
    pub fn awaits_search(&self) -> (r: bool)
        ensures
            r == self@.awaits_search(),
    {
        self.pending.is_some() && self.phase == Phase::Researching
    }
}

} // verus!
