//! What holds of every stream that the bridge produces.

use crate::trading::bridge::{
    emitted, lead_in, next_state, BridgeState, Fragment, SourceEvent, CLOSE_BRACKET, COMMA,
    OPEN_BRACKET,
};
use vstd::prelude::*;
use vstd::utf8::encode_utf8;

verus! {

/// The state of a stream that began in `state`, after `events` happened one
/// after another.
pub open spec fn state_after(state: BridgeState, events: Seq<SourceEvent>) -> BridgeState
    decreases events.len(),
{
    if events.len() == 0 {
        state
    } else {
        next_state(state_after(state, events.drop_last()), events.last())
    }
}

/// All the fragments that the bridge emits, in order, while `events` happen
/// one after another to a stream that began in `state`.
pub open spec fn emitted_over(state: BridgeState, events: Seq<SourceEvent>) -> Seq<Fragment>
    decreases events.len(),
{
    if events.len() == 0 {
        Seq::empty()
    } else {
        emitted_over(state, events.drop_last()) + emitted(
            state_after(state, events.drop_last()),
            events.last(),
        )
    }
}

/// The bytes of a fragment: an error value holds none.
pub open spec fn piece_bytes(fragment: Fragment) -> Seq<u8> {
    match fragment {
        Fragment::Piece(bytes) => bytes,
        Fragment::Error(_) => Seq::empty(),
    }
}

/// The bytes of the body that a list of fragments writes.
pub open spec fn body(fragments: Seq<Fragment>) -> Seq<u8>
    decreases fragments.len(),
{
    if fragments.len() == 0 {
        Seq::empty()
    } else {
        body(fragments.drop_last()) + piece_bytes(fragments.last())
    }
}

/// The elements in order, with a comma between each two.
pub open spec fn joined(elements: Seq<Seq<u8>>) -> Seq<u8>
    decreases elements.len(),
{
    if elements.len() == 0 {
        Seq::empty()
    } else if elements.len() == 1 {
        elements[0]
    } else {
        joined(elements.drop_last()) + seq![COMMA] + elements.last()
    }
}

/// The JSON array whose elements are written as `elements`, in that order.
pub open spec fn json_array(elements: Seq<Seq<u8>>) -> Seq<u8> {
    seq![OPEN_BRACKET] + joined(elements) + seq![CLOSE_BRACKET]
}

/// The bytes of each text.
pub open spec fn encoded(texts: Seq<String>) -> Seq<Seq<u8>> {
    Seq::new(texts.len(), |i: int| encode_utf8(texts[i]@))
}

/// The events of a stream whose source has so far given the items that
/// serialize to `texts`.
pub open spec fn items_given(texts: Seq<String>) -> Seq<SourceEvent> {
    seq![SourceEvent::Start] + Seq::new(texts.len(), |i: int| SourceEvent::Item(Ok(texts[i])))
}

/// The events of a stream whose source gives the items that serialize to
/// `texts` and then ends.
pub open spec fn whole_stream(texts: Seq<String>) -> Seq<SourceEvent> {
    items_given(texts).push(SourceEvent::Exhausted)
}

/// Whether no fragment of the list is an error value.
pub open spec fn all_pieces(fragments: Seq<Fragment>) -> bool {
    forall|i: int| 0 <= i < fragments.len() ==> #[trigger] fragments[i] is Piece
}

/// The body of a single fragment is its bytes.
pub proof fn lemma_body_single(fragment: Fragment)
    ensures
        body(seq![fragment]) == piece_bytes(fragment),
{
    let one = seq![fragment];
    assert(one.drop_last() =~= Seq::<Fragment>::empty());
    assert(body(one.drop_last()) =~= Seq::<u8>::empty());
    assert(body(one) =~= piece_bytes(fragment));
}

/// The body of a list of fragments that ends with `last`.
pub proof fn lemma_body_push(fragments: Seq<Fragment>, last: Fragment)
    ensures
        body(fragments.push(last)) == body(fragments) + piece_bytes(last),
{
    assert(fragments.push(last).drop_last() =~= fragments);
}

/// A single event has the effect of one step.
pub proof fn lemma_single_event(state: BridgeState, event: SourceEvent)
    ensures
        state_after(state, seq![event]) == next_state(state, event),
        emitted_over(state, seq![event]) == emitted(state, event),
{
    let one = seq![event];
    assert(one.drop_last() =~= Seq::<SourceEvent>::empty());
    assert(state_after(state, one.drop_last()) == state);
    assert(emitted_over(state, one.drop_last()) =~= Seq::<Fragment>::empty());
    assert(emitted_over(state, one) =~= emitted(state, event));
}

/// The body of two lists of fragments, one after the other, is the one body
/// followed by the other.
pub proof fn lemma_body_concat(a: Seq<Fragment>, b: Seq<Fragment>)
    ensures
        body(a + b) == body(a) + body(b),
    decreases b.len(),
{
    if b.len() == 0 {
        assert(a + b =~= a);
        assert(body(a) + body(b) =~= body(a));
    } else {
        lemma_body_concat(a, b.drop_last());
        assert((a + b).drop_last() =~= a + b.drop_last());
        assert((a + b).last() == b.last());
        assert(body(a + b) =~= body(a) + body(b));
    }
}

/// Events that happen one after another have the effect of their first part
/// followed by the effect of the rest in the state that the first part left.
pub proof fn lemma_events_concat(state: BridgeState, first: Seq<SourceEvent>, rest: Seq<SourceEvent>)
    ensures
        state_after(state, first + rest) == state_after(state_after(state, first), rest),
        emitted_over(state, first + rest) == emitted_over(state, first) + emitted_over(
            state_after(state, first),
            rest,
        ),
    decreases rest.len(),
{
    if rest.len() == 0 {
        assert(first + rest =~= first);
        assert(emitted_over(state, first) + Seq::<Fragment>::empty() =~= emitted_over(
            state,
            first,
        ));
    } else {
        lemma_events_concat(state, first, rest.drop_last());
        assert((first + rest).drop_last() =~= first + rest.drop_last());
        assert((first + rest).last() == rest.last());
        assert(emitted_over(state, first + rest) =~= emitted_over(state, first) + emitted_over(
            state_after(state, first),
            rest,
        ));
    }
}

/// Once a stream is over, it stays as it is and nothing more is emitted,
/// whatever happens.
pub proof fn law_finished_stream_is_silent(state: BridgeState, events: Seq<SourceEvent>)
    requires
        state.is_finished(),
    ensures
        state_after(state, events) == state,
        emitted_over(state, events) == Seq::<Fragment>::empty(),
    decreases events.len(),
{
    if events.len() > 0 {
        law_finished_stream_is_silent(state, events.drop_last());
        assert(emitted_over(state, events) =~= Seq::<Fragment>::empty());
    }
}

/// What was emitted stays: when more events follow, the fragments emitted so
/// far are the beginning of all that is emitted.
pub proof fn law_output_only_grows(
    state: BridgeState,
    events: Seq<SourceEvent>,
    more: Seq<SourceEvent>,
)
    ensures
        emitted_over(state, events).is_prefix_of(emitted_over(state, events + more)),
        body(emitted_over(state, events)).is_prefix_of(body(emitted_over(state, events + more))),
{
    lemma_events_concat(state, events, more);
    lemma_body_concat(emitted_over(state, events), emitted_over(state_after(state, events), more));
    let a = emitted_over(state, events);
    let b = emitted_over(state_after(state, events), more);
    assert((a + b).subrange(0, a.len() as int) =~= a);
    assert((body(a) + body(b)).subrange(0, body(a).len() as int) =~= body(a));
}

/// While the source gives items that serialize, the array is open, every
/// fragment is a piece of the body, and the body is the opening bracket
/// followed by the items' texts in the order given, with a comma between
/// each two.
pub proof fn law_open_stream(texts: Seq<String>)
    ensures
        state_after(BridgeState::Idle, items_given(texts)) == if texts.len() == 0 {
            BridgeState::Empty
        } else {
            BridgeState::Filled
        },
        all_pieces(emitted_over(BridgeState::Idle, items_given(texts))),
        body(emitted_over(BridgeState::Idle, items_given(texts))) == seq![OPEN_BRACKET] + joined(
            encoded(texts),
        ),
    decreases texts.len(),
{
    let events = items_given(texts);
    let out = emitted_over(BridgeState::Idle, events);
    let open = Fragment::Piece(seq![OPEN_BRACKET]);
    if texts.len() == 0 {
        assert(events =~= seq![SourceEvent::Start]);
        lemma_single_event(BridgeState::Idle, SourceEvent::Start);
        assert(out =~= seq![open]);
        lemma_body_single(open);
        assert(joined(encoded(texts)) =~= Seq::<u8>::empty());
        assert(body(out) =~= seq![OPEN_BRACKET] + joined(encoded(texts)));
    } else {
        let before = texts.drop_last();
        law_open_stream(before);
        assert(events.drop_last() =~= items_given(before));
        assert(events.last() == SourceEvent::Item(Ok(texts.last())));
        let state = state_after(BridgeState::Idle, items_given(before));
        let out_before = emitted_over(BridgeState::Idle, items_given(before));
        let last = Fragment::Piece(encode_utf8(texts.last()@));
        let step_out = emitted(state, events.last());
        assert(step_out == lead_in(state).push(last));
        assert(out == out_before + step_out);
        lemma_body_concat(out_before, step_out);
        lemma_body_push(lead_in(state), last);
        assert(encoded(texts).drop_last() =~= encoded(before));
        assert(encoded(texts).last() == encode_utf8(texts.last()@));
        if before.len() == 0 {
            assert(lead_in(state) =~= Seq::<Fragment>::empty());
            assert(body(lead_in(state)) =~= Seq::<u8>::empty());
            assert(joined(encoded(before)) =~= Seq::<u8>::empty());
            assert(encoded(texts)[0] == encode_utf8(texts.last()@));
            assert(body(out) =~= seq![OPEN_BRACKET] + joined(encoded(texts)));
        } else {
            let comma = Fragment::Piece(seq![COMMA]);
            assert(lead_in(state) =~= seq![comma]);
            lemma_body_single(comma);
            assert(body(out) =~= seq![OPEN_BRACKET] + joined(encoded(texts)));
        }
        assert forall|i: int| 0 <= i < out.len() implies #[trigger] out[i] is Piece by {
            if i < out_before.len() {
                assert(out[i] == out_before[i]);
            } else {
                assert(out[i] == step_out[i - out_before.len()]);
            }
        }
    }
}

/// A stream whose source gives N items that serialize and then ends is
/// closed, holds no error value, and its body is the JSON array of the
/// items' texts, all N of them in the order in which the source gave them.
pub proof fn law_whole_stream_is_json_array(texts: Seq<String>)
    ensures
        state_after(BridgeState::Idle, whole_stream(texts)) == BridgeState::Closed,
        all_pieces(emitted_over(BridgeState::Idle, whole_stream(texts))),
        body(emitted_over(BridgeState::Idle, whole_stream(texts))) == json_array(encoded(texts)),
{
    law_open_stream(texts);
    let events = whole_stream(texts);
    assert(events.drop_last() =~= items_given(texts));
    assert(events.last() == SourceEvent::Exhausted);
    let state = state_after(BridgeState::Idle, items_given(texts));
    let out_before = emitted_over(BridgeState::Idle, items_given(texts));
    let close = Fragment::Piece(seq![CLOSE_BRACKET]);
    assert(emitted(state, SourceEvent::Exhausted) =~= seq![close]);
    let out = emitted_over(BridgeState::Idle, events);
    assert(out =~= out_before.push(close));
    lemma_body_push(out_before, close);
    assert forall|i: int| 0 <= i < out.len() implies #[trigger] out[i] is Piece by {
        if i < out_before.len() {
            assert(out[i] == out_before[i]);
        }
    }
}

/// A stream whose source gives no item has the body `[]`.
pub proof fn law_empty_stream()
    ensures
        body(emitted_over(BridgeState::Idle, whole_stream(Seq::<String>::empty()))) == seq![
            OPEN_BRACKET,
            CLOSE_BRACKET,
        ],
{
    let texts = Seq::<String>::empty();
    law_whole_stream_is_json_array(texts);
    assert(joined(encoded(texts)) =~= Seq::<u8>::empty());
    assert(json_array(encoded(texts)) =~= seq![OPEN_BRACKET, CLOSE_BRACKET]);
}

/// When the source fails after it gave items that serialize, the stream is
/// truncated: the error value is the last fragment, the body is the opening
/// bracket and the items' texts with a comma after each, and whatever happens
/// later, no closing bracket or anything else is emitted.
pub proof fn law_failed_source_truncates(
    texts: Seq<String>,
    failure: crate::error::StreamError,
    later: Seq<SourceEvent>,
)
    ensures
        ({
            let events = items_given(texts).push(SourceEvent::Failed(failure)) + later;
            let out = emitted_over(BridgeState::Idle, events);
            &&& state_after(BridgeState::Idle, events) == BridgeState::Truncated
            &&& out.len() > 0
            &&& out.last() == Fragment::Error(failure@)
            &&& body(out) == seq![OPEN_BRACKET] + joined(encoded(texts)) + if texts.len() == 0 {
                Seq::<u8>::empty()
            } else {
                seq![COMMA]
            }
        }),
{
    law_open_stream(texts);
    let given = items_given(texts);
    let failed = given.push(SourceEvent::Failed(failure));
    let state = state_after(BridgeState::Idle, given);
    let out_given = emitted_over(BridgeState::Idle, given);
    assert(failed.drop_last() =~= given);
    let error = Fragment::Error(failure@);
    let step_out = emitted(state, SourceEvent::Failed(failure));
    assert(step_out == lead_in(state).push(error));
    lemma_events_concat(BridgeState::Idle, failed, later);
    law_finished_stream_is_silent(BridgeState::Truncated, later);
    let out = emitted_over(BridgeState::Idle, failed + later);
    assert(out =~= out_given + step_out);
    lemma_body_concat(out_given, step_out);
    lemma_body_push(lead_in(state), error);
    if texts.len() == 0 {
        assert(lead_in(state) =~= Seq::<Fragment>::empty());
        assert(body(lead_in(state)) =~= Seq::<u8>::empty());
        assert(body(out) =~= seq![OPEN_BRACKET] + joined(encoded(texts)) + Seq::<u8>::empty());
    } else {
        let comma = Fragment::Piece(seq![COMMA]);
        assert(lead_in(state) =~= seq![comma]);
        lemma_body_single(comma);
        assert(body(out) =~= seq![OPEN_BRACKET] + joined(encoded(texts)) + seq![COMMA]);
    }
}

/// After the consumer went away nothing is emitted, whatever the source
/// still gives.
pub proof fn law_closed_consumer_stops_stream(
    state: BridgeState,
    later: Seq<SourceEvent>,
)
    ensures
        emitted_over(state, seq![SourceEvent::ConsumerClosed] + later) == Seq::<Fragment>::empty(),
        state_after(state, seq![SourceEvent::ConsumerClosed] + later).is_finished(),
{
    let first = seq![SourceEvent::ConsumerClosed];
    lemma_single_event(state, SourceEvent::ConsumerClosed);
    assert(emitted_over(state, first) =~= Seq::<Fragment>::empty());
    let s1 = state_after(state, first);
    assert(s1.is_finished());
    lemma_events_concat(state, first, later);
    law_finished_stream_is_silent(s1, later);
    assert(emitted_over(state, first + later) =~= Seq::<Fragment>::empty());
}

} // verus!
