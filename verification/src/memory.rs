//! The payload that a server keeps from one request to the next, and the
//! messages that it publishes for each request.

use vstd::prelude::*;
use crate::text::owned;

verus! {

/// The text held by an optional string.
pub open spec fn text_of(s: Option<String>) -> Option<Seq<char>> {
    match s {
        Some(t) => Some(t@),
        None => None,
    }
}

/// Stores `payload` as the last payload seen.
pub fn update_last_payload(last_payload: &mut Option<String>, payload: &str)
    ensures
        text_of(*final(last_payload)) == Some(payload@),
{
    *last_payload = Some(owned(payload));
}

/// The texts published for a request with payload `current` when
/// `previous` is the last payload stored: the previous one first, if any.
pub open spec fn outgoing_texts(previous: Option<Seq<char>>, current: Seq<char>) -> Seq<Seq<char>> {
    match previous {
        Some(p) => seq![p, current],
        None => seq![current],
    }
}

/// What is published, request by request, when every publish succeeds: for
/// each payload, the payload stored before it (if any) and then the payload
/// itself, which is then stored.
pub open spec fn publish_history(start: Option<Seq<char>>, payloads: Seq<Seq<char>>) -> Seq<Seq<Seq<char>>>
    decreases payloads.len(),
{
    if payloads.len() == 0 {
        seq![]
    } else {
        let earlier = payloads.drop_last();
        let before = if earlier.len() == 0 { start } else { Some(earlier.last()) };
        publish_history(start, earlier).push(outgoing_texts(before, payloads.last()))
    }
}

/// When every publish succeeds, each request after the first publishes the
/// previous request's payload and then its own.
pub proof fn law_each_payload_published_again_with_the_next(
    start: Option<Seq<char>>,
    payloads: Seq<Seq<char>>,
    i: int,
)
    requires
        0 < i < payloads.len(),
    ensures
        publish_history(start, payloads).len() == payloads.len(),
        publish_history(start, payloads)[i] == seq![payloads[i - 1], payloads[i]],
        publish_history(start, payloads)[0] == outgoing_texts(start, payloads[0]),
    decreases payloads.len(),
{
    lemma_publish_history_len(start, payloads);
    let earlier = payloads.drop_last();
    if i < payloads.len() - 1 {
        law_each_payload_published_again_with_the_next(start, earlier, i);
        assert(publish_history(start, payloads)[i] == publish_history(start, earlier)[i]);
    } else {
        lemma_publish_history_first(start, payloads);
    }
}

proof fn lemma_publish_history_len(start: Option<Seq<char>>, payloads: Seq<Seq<char>>)
    ensures
        publish_history(start, payloads).len() == payloads.len(),
    decreases payloads.len(),
{
    if payloads.len() > 0 {
        lemma_publish_history_len(start, payloads.drop_last());
    }
}

proof fn lemma_publish_history_first(start: Option<Seq<char>>, payloads: Seq<Seq<char>>)
    requires
        payloads.len() > 0,
    ensures
        publish_history(start, payloads)[0] == outgoing_texts(start, payloads[0]),
    decreases payloads.len(),
{
    lemma_publish_history_len(start, payloads);
    if payloads.len() > 1 {
        lemma_publish_history_first(start, payloads.drop_last());
        lemma_publish_history_len(start, payloads.drop_last());
    } else {
        lemma_publish_history_len(start, payloads.drop_last());
    }
}

/// For each request, the stored payload (if any) goes out first and the
/// request's own payload last, and nothing else goes out.
pub proof fn law_stored_payload_first_own_payload_last(previous: Option<Seq<char>>, current: Seq<char>)
    ensures
        previous is None ==> outgoing_texts(previous, current) == seq![current],
        previous matches Some(p) ==> outgoing_texts(previous, current).len() == 2
            && outgoing_texts(previous, current)[0] == p && outgoing_texts(previous, current)[1]
            == current,
{
}

} // verus!
