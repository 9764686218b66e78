//! The streaming bridge: an ordered source of backend items becomes the
//! fragments of a JSON array, handed to the response writer one step at a
//! time.
//!
//! The bridge decides; it neither reads the source nor writes the response.
//! Its caller tells it what happened (`SourceEvent`) and hands the fragments
//! that `step` returns to the consumer, in order, before it asks the source
//! for more. A step returns at most two fragments, so with a bounded buffer
//! between producer and consumer the memory in use does not grow with the
//! length of the stream.
//!
//! An item that could not be serialized takes its place in the stream as an
//! error value and the stream goes on; the bytes written around it are no
//! valid JSON, which a reader detects. A failure of the source itself ends
//! the stream after the error value, and no closing bracket follows.

use crate::error::StreamError;
use bytes::Bytes;
use vstd::prelude::*;
use vstd::string::StringExecFns;
use vstd::utf8::encode_utf8;

verus! {

#[verifier::external_type_specification]
#[verifier::external_body]
pub struct ExBytes(Bytes);

/// The bytes that a `Bytes` value holds, in order.
pub uninterp spec fn bytes_of(b: Bytes) -> Seq<u8>;

/// `Bytes::from` on a `String`: the value holds the string's bytes, which
/// are the UTF-8 encoding of its text.
#[verifier::external_body]
fn bytes_from_text(text: String) -> (b: Bytes)
    ensures
        bytes_of(b) == encode_utf8(text@),
{
    Bytes::from(text)
}

/// How many fragments the buffer between the bridge and the response writer
/// holds before the producer has to wait.
pub const STREAM_BUFFER_CAPACITY: usize = 100;

/// What the consumer of a stream receives: a piece of the body, or an error
/// value.
pub type ActixStreamItem = Result<Bytes, StreamError>;

/// A stream item as a plain value.
pub enum Fragment {
    /// A piece of the body.
    Piece(Seq<u8>),
    /// An error value with its message.
    Error(Seq<char>),
}

/// The plain value of a stream item.
pub open spec fn fragment_of(item: ActixStreamItem) -> Fragment {
    match item {
        Ok(b) => Fragment::Piece(bytes_of(b)),
        Err(e) => Fragment::Error(e@),
    }
}

/// The plain values of a list of stream items.
pub open spec fn fragments_of(items: Seq<ActixStreamItem>) -> Seq<Fragment> {
    Seq::new(items.len(), |i: int| fragment_of(items[i]))
}

/// The byte `[`.
pub const OPEN_BRACKET: u8 = 0x5b;

/// The byte `,`.
pub const COMMA: u8 = 0x2c;

/// The byte `]`.
pub const CLOSE_BRACKET: u8 = 0x5d;

/// Where a stream stands.
#[derive(Debug, Clone, Copy, PartialEq, Eq, Structural)]
pub enum BridgeState {
    /// Nothing was emitted yet.
    Idle,
    /// The array is open and holds no item.
    Empty,
    /// The array is open and holds at least one item.
    Filled,
    /// The source ended and the array was closed.
    Closed,
    /// The source failed; the array stays unclosed.
    Truncated,
    /// The consumer went away; nothing more is emitted.
    Abandoned,
}

/// What the caller of the bridge saw happen.
#[derive(Debug, PartialEq, Eq)]
pub enum SourceEvent {
    /// The stream begins; no item was asked for yet.
    Start,
    /// The source gave an item: its serialized text, or why it could not be
    /// serialized.
    Item(Result<String, StreamError>),
    /// The source itself failed.
    Failed(StreamError),
    /// The source has no more items.
    Exhausted,
    /// The consumer no longer takes fragments.
    ConsumerClosed,
}

impl BridgeState {
    /// Whether the stream is over, so that no event makes the bridge emit
    /// anything again.
    pub open spec fn spec_is_finished(self) -> bool {
        self == BridgeState::Closed || self == BridgeState::Truncated || self
            == BridgeState::Abandoned
    }

    #[verifier::when_used_as_spec(spec_is_finished)]
    pub fn is_finished(self) -> (b: bool)
        ensures
            b == self.spec_is_finished(),
    {
        match self {
            BridgeState::Closed | BridgeState::Truncated | BridgeState::Abandoned => true,
            _ => false,
        }
    }

    /// The state of a stream before it begins.
    pub fn new() -> (s: BridgeState)
        ensures
            s == BridgeState::Idle,
    {
        BridgeState::Idle
    }
}

/// What is emitted before the next place of the array is filled: the opening
/// bracket where the array is not open yet, a comma where it holds an item.
pub open spec fn lead_in(state: BridgeState) -> Seq<Fragment> {
    match state {
        BridgeState::Idle => seq![Fragment::Piece(seq![OPEN_BRACKET])],
        BridgeState::Filled => seq![Fragment::Piece(seq![COMMA])],
        _ => Seq::empty(),
    }
}

/// The fragments that the bridge emits when `event` happens in `state`.
pub open spec fn emitted(state: BridgeState, event: SourceEvent) -> Seq<Fragment> {
    if state.spec_is_finished() {
        Seq::empty()
    } else {
        match event {
            SourceEvent::Start => if state == BridgeState::Idle {
                lead_in(state)
            } else {
                Seq::empty()
            },
            SourceEvent::Item(Ok(text)) => lead_in(state).push(
                Fragment::Piece(encode_utf8(text@)),
            ),
            SourceEvent::Item(Err(e)) => lead_in(state).push(Fragment::Error(e@)),
            SourceEvent::Failed(e) => lead_in(state).push(Fragment::Error(e@)),
            SourceEvent::Exhausted => if state == BridgeState::Idle {
                seq![Fragment::Piece(seq![OPEN_BRACKET]), Fragment::Piece(seq![CLOSE_BRACKET])]
            } else {
                seq![Fragment::Piece(seq![CLOSE_BRACKET])]
            },
            SourceEvent::ConsumerClosed => Seq::empty(),
        }
    }
}

/// The state that follows when `event` happens in `state`.
pub open spec fn next_state(state: BridgeState, event: SourceEvent) -> BridgeState {
    if state.spec_is_finished() {
        state
    } else {
        match event {
            SourceEvent::Start => if state == BridgeState::Idle {
                BridgeState::Empty
            } else {
                state
            },
            SourceEvent::Item(_) => BridgeState::Filled,
            SourceEvent::Failed(_) => BridgeState::Truncated,
            SourceEvent::Exhausted => BridgeState::Closed,
            SourceEvent::ConsumerClosed => BridgeState::Abandoned,
        }
    }
}

/// The piece of the body that holds `text`.
fn piece(text: &str) -> (item: ActixStreamItem)
    ensures
        fragment_of(item) == Fragment::Piece(encode_utf8(text@)),
{
    Ok(bytes_from_text(String::from_str(text)))
}

/// The encoding of the three punctuation marks of an array.
proof fn lemma_punctuation()
    ensures
        encode_utf8("["@) == seq![OPEN_BRACKET],
        encode_utf8(","@) == seq![COMMA],
        encode_utf8("]"@) == seq![CLOSE_BRACKET],
{
    reveal_strlit("[");
    reveal_strlit(",");
    reveal_strlit("]");
    vstd::utf8::is_ascii_chars_encode_utf8("["@);
    vstd::utf8::is_ascii_chars_encode_utf8(","@);
    vstd::utf8::is_ascii_chars_encode_utf8("]"@);
    assert(encode_utf8("["@) =~= seq![OPEN_BRACKET]);
    assert(encode_utf8(","@) =~= seq![COMMA]);
    assert(encode_utf8("]"@) =~= seq![CLOSE_BRACKET]);
}

/// Emits what precedes the next place of the array.
fn push_lead_in(state: BridgeState, out: &mut Vec<ActixStreamItem>)
    requires
        old(out)@.len() == 0,
    ensures
        fragments_of(final(out)@) == lead_in(state),
{
    proof {
        lemma_punctuation();
    }
    match state {
        BridgeState::Idle => {
            out.push(piece("["));
        },
        BridgeState::Filled => {
            out.push(piece(","));
        },
        _ => {},
    }
    assert(fragments_of(out@) =~= lead_in(state));
}

/// One step of the bridge: the fragments to hand to the consumer now, in
/// order, and the state in which to wait for the next event.
pub fn step(state: BridgeState, event: SourceEvent) -> (r: (BridgeState, Vec<ActixStreamItem>))
    ensures
        r.0 == next_state(state, event),
        fragments_of(r.1@) == emitted(state, event),
        r.1@.len() == emitted(state, event).len(),
        r.1@.len() <= 2,
{
    let mut out: Vec<ActixStreamItem> = Vec::new();
    if state.is_finished() {
        assert(fragments_of(out@) =~= emitted(state, event));
        return (state, out);
    }
    proof {
        lemma_punctuation();
    }
    match event {
        SourceEvent::Start => {
            if state == BridgeState::Idle {
                push_lead_in(state, &mut out);
                (BridgeState::Empty, out)
            } else {
                assert(fragments_of(out@) =~= emitted(state, event));
                (state, out)
            }
        },
        SourceEvent::Item(Ok(text)) => {
            push_lead_in(state, &mut out);
            let ghost before = out@;
            out.push(Ok(bytes_from_text(text)));
            assert(fragments_of(out@) =~= fragments_of(before).push(
                Fragment::Piece(encode_utf8(text@)),
            ));
            (BridgeState::Filled, out)
        },
        SourceEvent::Item(Err(e)) => {
            push_lead_in(state, &mut out);
            let ghost before = out@;
            out.push(Err(e));
            assert(fragments_of(out@) =~= fragments_of(before).push(Fragment::Error(e@)));
            (BridgeState::Filled, out)
        },
        SourceEvent::Failed(e) => {
            push_lead_in(state, &mut out);
            let ghost before = out@;
            out.push(Err(e));
            assert(fragments_of(out@) =~= fragments_of(before).push(Fragment::Error(e@)));
            (BridgeState::Truncated, out)
        },
        SourceEvent::Exhausted => {
            if state == BridgeState::Idle {
                out.push(piece("["));
            }
            out.push(piece("]"));
            assert(fragments_of(out@) =~= emitted(state, event));
            (BridgeState::Closed, out)
        },
        SourceEvent::ConsumerClosed => {
            assert(fragments_of(out@) =~= emitted(state, event));
            (BridgeState::Abandoned, out)
        },
    }
}

} // verus!
