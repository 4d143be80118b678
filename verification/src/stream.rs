//! Decoding of a streamed completion: server-sent events whose payloads
//! carry fragments of the reply.
//!
//! The decoder is a machine that reads one byte at a time, so the text it
//! yields depends on the bytes received and not on how they were cut into
//! chunks.

use vstd::prelude::*;
use vstd::slice::slice_subrange;
use crate::json::{document, parse, Json};

verus! {

/// The text that one choice of an event contributes: its `delta.content`,
/// where that is a string.
pub open spec fn choice_content(choice: Json) -> Seq<char> {
    match choice.member("delta"@) {
        Some(delta) => match delta.member("content"@) {
            Some(content) => match content.text() {
                Some(text) => text,
                None => Seq::empty(),
            },
            None => Seq::empty(),
        },
        None => Seq::empty(),
    }
}

/// The contributions of `choices`, in order.
pub open spec fn choices_content(choices: Seq<Json>) -> Seq<char>
    decreases choices.len(),
{
    if choices.len() == 0 {
        Seq::empty()
    } else {
        choices_content(choices.drop_last()) + choice_content(choices.last())
    }
}

/// The text that a decoded event payload contributes: that of the elements
/// of its `choices` array.
pub open spec fn delta_content(payload: Json) -> Seq<char> {
    match payload.member("choices"@) {
        Some(choices) => match choices.items() {
            Some(items) => choices_content(items),
            None => Seq::empty(),
        },
        None => Seq::empty(),
    }
}

/// The bytes `data: {` with which an event that carries a payload begins.
pub open spec fn data_prefix() -> Seq<u8> {
    seq![100u8, 97u8, 116u8, 97u8, 58u8, 32u8, 123u8]
}

/// The text that one event contributes. An event that does not begin with
/// `data: {`, or whose payload (what follows `data: `) is no JSON document,
/// contributes nothing.
pub open spec fn event_content(event: Seq<u8>) -> Seq<char> {
    if data_prefix().is_prefix_of(event) {
        match document(event.skip(6)) {
            Some(payload) => delta_content(payload),
            None => Seq::empty(),
        }
    } else {
        Seq::empty()
    }
}

/// What a decoder holds: the text decoded so far, and the bytes received
/// since the last blank line.
pub struct DecoderState {
    pub text: Seq<char>,
    pub pending: Seq<u8>,
}

/// The state before any byte.
pub open spec fn start() -> DecoderState {
    DecoderState { text: Seq::empty(), pending: Seq::empty() }
}

/// `buffer` ends with a blank line, that is with two line feeds.
pub open spec fn ends_event(buffer: Seq<u8>) -> bool {
    buffer.len() >= 2 && buffer[buffer.len() - 1] == 10 && buffer[buffer.len() - 2] == 10
}

/// The state after one more byte: the byte that completes a blank line
/// closes the pending event.
pub open spec fn step(state: DecoderState, byte: u8) -> DecoderState {
    let buffer = state.pending.push(byte);
    if ends_event(buffer) {
        DecoderState {
            text: state.text + event_content(buffer.take(buffer.len() - 2)),
            pending: Seq::empty(),
        }
    } else {
        DecoderState { text: state.text, pending: buffer }
    }
}

/// The state after the bytes `bytes`.
pub open spec fn run(state: DecoderState, bytes: Seq<u8>) -> DecoderState
    decreases bytes.len(),
{
    if bytes.len() == 0 {
        state
    } else {
        step(run(state, bytes.drop_last()), bytes.last())
    }
}

/// The state after the chunks `chunks`, fed one after the other.
pub open spec fn run_chunks(state: DecoderState, chunks: Seq<Seq<u8>>) -> DecoderState
    decreases chunks.len(),
{
    if chunks.len() == 0 {
        state
    } else {
        run(run_chunks(state, chunks.drop_last()), chunks.last())
    }
}

/// The chunks `chunks` laid end to end.
pub open spec fn joined(chunks: Seq<Seq<u8>>) -> Seq<u8>
    decreases chunks.len(),
{
    if chunks.len() == 0 {
        Seq::empty()
    } else {
        joined(chunks.drop_last()) + chunks.last()
    }
}

/// The text when the stream closes: what is pending counts as a last event.
pub open spec fn closing(state: DecoderState) -> Seq<char> {
    state.text + event_content(state.pending)
}

/// The reply text that the whole response body `bytes` carries.
pub open spec fn stream_text(bytes: Seq<u8>) -> Seq<char> {
    closing(run(start(), bytes))
}

/// `bytes` holds no blank line.
pub open spec fn unbroken(bytes: Seq<u8>) -> bool {
    forall|i: int| 0 <= i && i + 1 < bytes.len() ==> !(bytes[i] == 10 && #[trigger] bytes[i + 1] == 10)
}

/// Feeding `a` and then `b` is feeding `a + b`.
pub proof fn lemma_run_add(state: DecoderState, a: Seq<u8>, b: Seq<u8>)
    ensures
        run(run(state, a), b) == run(state, a + b),
    decreases b.len(),
{
    if b.len() == 0 {
        assert(a + b =~= a);
    } else {
        lemma_run_add(state, a, b.drop_last());
        assert((a + b).drop_last() =~= a + b.drop_last());
        assert((a + b).last() == b.last());
    }
}

/// However a response body is cut into chunks, the decoder ends in the state
/// in which the uncut body leaves it.
pub proof fn lemma_chunking(state: DecoderState, chunks: Seq<Seq<u8>>)
    ensures
        run_chunks(state, chunks) == run(state, joined(chunks)),
    decreases chunks.len(),
{
    if chunks.len() > 0 {
        lemma_chunking(state, chunks.drop_last());
        lemma_run_add(state, joined(chunks.drop_last()), chunks.last());
    }
}

/// A streamed reply reassembles to the text of the uncut body, whatever the
/// chunk boundaries.
pub proof fn lemma_reassembly(chunks: Seq<Seq<u8>>)
    ensures
        closing(run_chunks(start(), chunks)) == stream_text(joined(chunks)),
{
    lemma_chunking(start(), chunks);
}

/// Bytes without a blank line only accumulate.
pub proof fn lemma_run_unbroken(state: DecoderState, bytes: Seq<u8>)
    requires
        state.pending.len() == 0,
        unbroken(bytes),
    ensures
        run(state, bytes) == (DecoderState { text: state.text, pending: bytes }),
    decreases bytes.len(),
{
    if bytes.len() == 0 {
        assert(state.pending =~= bytes);
    } else {
        let front = bytes.drop_last();
        assert(unbroken(front)) by {
            assert forall|i: int| 0 <= i && i + 1 < front.len() implies !(front[i] == 10
                && #[trigger] front[i + 1] == 10) by {
                assert(front[i] == bytes[i] && front[i + 1] == bytes[i + 1]);
            }
        }
        lemma_run_unbroken(state, front);
        assert(front.push(bytes.last()) =~= bytes);
        if bytes.len() >= 2 {
            assert(!(bytes[bytes.len() - 2] == 10 && bytes[bytes.len() - 2 + 1] == 10));
        }
    }
}

/// A frame, that is an event without a blank line that does not end in a
/// line feed, followed by a blank line, contributes the text of that event.
pub proof fn lemma_frame(state: DecoderState, event: Seq<u8>)
    requires
        state.pending.len() == 0,
        unbroken(event.push(10)),
    ensures
        run(state, event.push(10).push(10)) == (DecoderState {
            text: state.text + event_content(event),
            pending: Seq::empty(),
        }),
{
    let line = event.push(10);
    let frame = line.push(10);
    lemma_run_unbroken(state, line);
    assert(frame.drop_last() =~= line);
    assert(frame.take(frame.len() - 2) =~= event);
}

/// Whether `event` begins with `data: {`.
fn has_data_prefix(event: &[u8]) -> (r: bool)
    ensures
        r == data_prefix().is_prefix_of(event@),
{
    if event.len() < 7 {
        return false;
    }
    let r = event[0] == 100 && event[1] == 97 && event[2] == 116 && event[3] == 97 && event[4]
        == 58 && event[5] == 32 && event[6] == 123;
    proof {
        if r {
            assert(event@.subrange(0, 7) =~= data_prefix());
        } else {
            if data_prefix().is_prefix_of(event@) {
                let p = event@.subrange(0, 7);
                assert(p == data_prefix());
                assert(p[0] == 100 && p[1] == 97 && p[2] == 116 && p[3] == 97 && p[4] == 58
                    && p[5] == 32 && p[6] == 123);
            }
        }
    }
    r
}

/// The text that one choice contributes.
fn read_choice(choice: &Json) -> (r: String)
    ensures
        r@ == choice_content(*choice),
{
    match choice.get("delta") {
        Some(delta) => match delta.get("content") {
            Some(content) => match content.as_text() {
                Some(text) => text.to_owned(),
                None => String::new(),
            },
            None => String::new(),
        },
        None => String::new(),
    }
}

/// The text that a decoded event payload contributes.
pub fn read_delta(payload: &Json) -> (r: String)
    ensures
        r@ == delta_content(*payload),
{
    let mut out = String::new();
    match payload.get("choices") {
        Some(choices) => match choices.as_array() {
            Some(items) => {
                let mut i: usize = 0;
                assert(items@.take(0) =~= Seq::<Json>::empty());
                while i < items.len()
                    invariant
                        i <= items.len(),
                        out@ == choices_content(items@.take(i as int)),
                    decreases items.len() - i,
                {
                    let piece = read_choice(&items[i]);
                    out.append(piece.as_str());
                    assert(items@.take(i + 1).drop_last() =~= items@.take(i as int));
                    i += 1;
                }
                assert(items@.take(items.len() as int) =~= items@);
            },
            None => {},
        },
        None => {},
    }
    out
}

/// The text that one event contributes.
pub fn read_event(event: &[u8]) -> (r: String)
    ensures
        r@ == event_content(event@),
{
    if has_data_prefix(event) {
        match parse(slice_subrange(event, 6, event.len())) {
            Ok(payload) => read_delta(&payload),
            Err(_) => String::new(),
        }
    } else {
        String::new()
    }
}

/// An incremental decoder of a streamed completion.
pub struct StreamDecoder {
    text: String,
    pending: Vec<u8>,
}

impl View for StreamDecoder {
    type V = DecoderState;

    closed spec fn view(&self) -> DecoderState {
        DecoderState { text: self.text@, pending: self.pending@ }
    }
}

impl StreamDecoder {
    /// A decoder that has received nothing.
    pub fn new() -> (r: StreamDecoder)
        ensures
            r@ == start(),
    {
        StreamDecoder { text: String::new(), pending: Vec::new() }
    }

    /// Receives the next chunk of the response body, and returns the text
    /// that became complete with it.
    pub fn feed(&mut self, chunk: &[u8]) -> (fresh: String)
        ensures
            final(self)@ == run(old(self)@, chunk@),
            final(self)@.text == old(self)@.text + fresh@,
    {
        let mut fresh = String::new();
        let mut i: usize = 0;
        assert(old(self)@.text + fresh@ =~= old(self)@.text);
        while i < chunk.len()
            invariant
                i <= chunk.len(),
                self@ == run(old(self)@, chunk@.take(i as int)),
                self@.text == old(self)@.text + fresh@,
            decreases chunk.len() - i,
        {
            let ghost before = self@;
            let ghost fresh_before = fresh@;
            self.pending.push(chunk[i]);
            let n = self.pending.len();
            if n >= 2 && self.pending[n - 1] == 10 && self.pending[n - 2] == 10 {
                let piece = read_event(slice_subrange(self.pending.as_slice(), 0, n - 2));
                self.text.append(piece.as_str());
                fresh.append(piece.as_str());
                self.pending = Vec::new();
                assert(self@.text == old(self)@.text + fresh@) by {
                    assert((old(self)@.text + fresh_before) + piece@ =~= old(self)@.text + (
                    fresh_before + piece@));
                }
            }
            assert(chunk@.take(i + 1).drop_last() =~= chunk@.take(i as int));
            assert(chunk@.take(i + 1).last() == chunk@[i as int]);
            assert(self@ == step(before, chunk@[i as int]));
            i += 1;
        }
        assert(chunk@.take(chunk.len() as int) =~= chunk@);
        fresh
    }

    /// Closes the stream and returns the whole reply text.
    pub fn finish(self) -> (r: String)
        ensures
            r@ == closing(self@),
    {
        let mut text = self.text;
        let last = read_event(self.pending.as_slice());
        text.append(last.as_str());
        text
    }
}

/// The reply text of a response body that arrived as `chunks`.
pub fn decode_stream(chunks: &Vec<Vec<u8>>) -> (r: String)
    ensures
        r@ == stream_text(joined(Seq::new(chunks@.len(), |i: int| chunks@[i]@))),
{
    let ghost all = Seq::new(chunks@.len(), |i: int| chunks@[i]@);
    let mut decoder = StreamDecoder::new();
    let mut i: usize = 0;
    while i < chunks.len()
        invariant
            i <= chunks.len(),
            all == Seq::new(chunks@.len(), |i: int| chunks@[i]@),
            decoder@ == run_chunks(start(), all.take(i as int)),
        decreases chunks.len() - i,
    {
        let _ = decoder.feed(chunks[i].as_slice());
        assert(all.take(i + 1).drop_last() =~= all.take(i as int));
        assert(all.take(i + 1).last() == chunks@[i as int]@);
        i += 1;
    }
    proof {
        assert(all.take(chunks.len() as int) =~= all);
        lemma_reassembly(all);
    }
    decoder.finish()
}

} // verus!
