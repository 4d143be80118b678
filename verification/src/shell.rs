//! The decisions of the interactive shell: what a typed line means, and
//! what it does to the conversation that the shell keeps.

use vstd::prelude::*;
use crate::message::{
    clone_conversation, lemma_views_push, plain, views, Message, MessageView, Role,
};
use crate::text::{chars_of, trim, trimmed};

verus! {

/// The code of a character, with the capital letters of ASCII taken as the
/// small ones.
pub open spec fn folded(c: char) -> u32 {
    let n = c as u32;
    if 65 <= n <= 90 {
        (n + 32) as u32
    } else {
        n
    }
}

/// `a` and `b` are the same but for the case of ASCII letters.
pub open spec fn same_folded(a: Seq<char>, b: Seq<char>) -> bool {
    a.len() == b.len() && forall|i: int| 0 <= i < a.len() ==> folded(a[i]) == folded(b[i])
}

/// A word that ends the session.
pub open spec fn is_quit(word: Seq<char>) -> bool {
    same_folded(word, "exit"@) || same_folded(word, "quit"@) || same_folded(word, "/q"@)
        || same_folded(word, "/quit"@)
}

fn fold(c: char) -> (r: u32)
    ensures
        r == folded(c),
{
    let n: u32 = c as u32;
    if 65 <= n && n <= 90 {
        n + 32
    } else {
        n
    }
}

/// Whether `a` and `b` are the same but for the case of ASCII letters.
pub fn same_ignoring_case(a: &str, b: &str) -> (r: bool)
    ensures
        r == same_folded(a@, b@),
{
    let x = chars_of(a);
    let y = chars_of(b);
    if x.len() != y.len() {
        return false;
    }
    let mut i: usize = 0;
    while i < x.len()
        invariant
            i <= x.len(),
            x.len() == y.len(),
            x@ == a@,
            y@ == b@,
            forall|k: int| 0 <= k < i ==> folded(x@[k]) == folded(y@[k]),
        decreases x.len() - i,
    {
        if fold(x[i]) != fold(y[i]) {
            return false;
        }
        i += 1;
    }
    true
}

/// What a typed line asks for.
#[derive(Debug, PartialEq, Eq)]
pub enum Command {
    /// To end the session.
    Quit,
    /// Nothing: the line is blank.
    Nothing,
    /// To say this to the model.
    Say(String),
}

/// Reads a typed line: without the white space around it, it is a word that
/// ends the session, or blank, or what the user says.
pub fn read_command(line: &str) -> (r: Command)
    ensures
        is_quit(trimmed(line@)) ==> r is Quit,
        !is_quit(trimmed(line@)) && trimmed(line@).len() == 0 ==> r is Nothing,
        !is_quit(trimmed(line@)) && trimmed(line@).len() > 0 ==> (r matches Command::Say(text)
            && text@ == trimmed(line@)),
{
    let word = trim(line);
    if same_ignoring_case(word.as_str(), "exit") || same_ignoring_case(word.as_str(), "quit")
        || same_ignoring_case(word.as_str(), "/q") || same_ignoring_case(word.as_str(), "/quit") {
        Command::Quit
    } else if word.as_str().unicode_len() == 0 {
        Command::Nothing
    } else {
        Command::Say(word)
    }
}

/// What is to be done with what the user said.
#[derive(Clone, Copy, Debug, PartialEq, Eq, Structural)]
pub enum Choice {
    Chat,
    Plan,
    Back,
    Reset,
    Unknown,
}

/// The choice that a word stands for.
pub open spec fn choice_of(word: Seq<char>) -> Choice {
    if same_folded(word, "c"@) {
        Choice::Chat
    } else if same_folded(word, "p"@) {
        Choice::Plan
    } else if same_folded(word, "b"@) {
        Choice::Back
    } else if same_folded(word, "r"@) {
        Choice::Reset
    } else {
        Choice::Unknown
    }
}

/// Reads the choice that a typed line makes.
pub fn read_choice(line: &str) -> (r: Choice)
    ensures
        r == choice_of(trimmed(line@)),
{
    let word = trim(line);
    if same_ignoring_case(word.as_str(), "c") {
        Choice::Chat
    } else if same_ignoring_case(word.as_str(), "p") {
        Choice::Plan
    } else if same_ignoring_case(word.as_str(), "b") {
        Choice::Back
    } else if same_ignoring_case(word.as_str(), "r") {
        Choice::Reset
    } else {
        Choice::Unknown
    }
}

/// The conversation that the shell keeps between requests.
pub struct Session {
    messages: Vec<Message>,
}

impl View for Session {
    type V = Seq<MessageView>;

    closed spec fn view(&self) -> Seq<MessageView> {
        views(self.messages@)
    }
}

impl Session {
    /// A session without any message.
    pub fn new() -> (r: Session)
        ensures
            r@ == Seq::<MessageView>::empty(),
    {
        let r = Session { messages: Vec::new() };
        assert(r@ =~= Seq::<MessageView>::empty());
        r
    }

    /// Adds what the user said.
    pub fn say(&mut self, text: String)
        ensures
            final(self)@ == old(self)@.push(plain(Role::User, text@)),
    {
        let message = Message::text(Role::User, text);
        proof {
            lemma_views_push(self.messages@, message);
        }
        self.messages.push(message);
    }

    /// Adds what the model answered.
    pub fn answer(&mut self, text: String)
        ensures
            final(self)@ == old(self)@.push(plain(Role::Assistant, text@)),
    {
        let message = Message::text(Role::Assistant, text);
        proof {
            lemma_views_push(self.messages@, message);
        }
        self.messages.push(message);
    }

    /// Takes the last message back, if there is one.
    pub fn back(&mut self)
        ensures
            old(self)@.len() > 0 ==> final(self)@ == old(self)@.drop_last(),
            old(self)@.len() == 0 ==> final(self)@ == old(self)@,
    {
        let _ = self.messages.pop();
        assert(old(self)@.len() > 0 ==> self@ =~= old(self)@.drop_last());
        assert(old(self)@.len() == 0 ==> self@ =~= old(self)@);
    }

    /// Forgets the conversation.
    pub fn reset(&mut self)
        ensures
            final(self)@ == Seq::<MessageView>::empty(),
    {
        self.messages = Vec::new();
        assert(self@ =~= Seq::<MessageView>::empty());
    }

    /// The conversation as it is sent with a request.
    pub fn conversation(&self) -> (r: Vec<Message>)
        ensures
            views(r@) == self@,
    {
        clone_conversation(&self.messages)
    }
}

} // verus!
