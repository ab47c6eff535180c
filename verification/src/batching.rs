//! The shared buffer of request bodies that a background task drains and
//! forwards to Kafka in batches.

use vstd::prelude::*;
use crate::routing::Route;
use vstd::multiset::Multiset;

verus! {

/// The most messages that one batch takes off the buffer.
pub const MAX_BATCH_SIZE: usize = 1000;

/// How many messages a batch takes off a buffer of `len` messages.
pub open spec fn batch_len(len: nat) -> nat {
    if len < MAX_BATCH_SIZE {
        len
    } else {
        MAX_BATCH_SIZE as nat
    }
}

/// Takes the next batch off the shared buffer: nothing while the buffer is
/// empty; otherwise messages are popped off its end, newest first, until
/// the buffer is empty or the batch holds `MAX_BATCH_SIZE` messages.
pub fn next_batch(buffer: &mut Vec<Vec<u8>>) -> (batch: Option<Vec<Vec<u8>>>)
    ensures
        batch is None <==> old(buffer)@.len() == 0,
        batch is None ==> final(buffer)@ == old(buffer)@,
        batch matches Some(b) ==> {
            let n = old(buffer)@.len();
            let k = batch_len(n);
            &&& 0 < b@.len() <= MAX_BATCH_SIZE
            &&& b@.len() == k
            &&& final(buffer)@ == old(buffer)@.take(n - k)
            &&& b@ == old(buffer)@.skip(n - k).reverse()
            &&& final(buffer)@ + b@.reverse() == old(buffer)@
        },
{
    if buffer.len() == 0 {
        return None;
    }
    let ghost before = buffer@;
    let ghost n = before.len();
    let mut messages: Vec<Vec<u8>> = Vec::new();
    loop
        invariant_except_break
            0 < n,
            n == before.len(),
            messages@.len() < MAX_BATCH_SIZE,
            buffer@.len() + messages@.len() == n,
            buffer@ == before.take(buffer@.len() as int),
            messages@ == before.skip(buffer@.len() as int).reverse(),
        ensures
            0 < messages@.len() <= MAX_BATCH_SIZE,
            messages@.len() == batch_len(n),
            buffer@.len() + messages@.len() == n,
            buffer@ == before.take(buffer@.len() as int),
            messages@ == before.skip(buffer@.len() as int).reverse(),
        decreases buffer@.len(),
    {
        match buffer.pop() {
            Some(payload) => {
                let ghost len_after = buffer@.len();
                messages.push(payload);
                assert(before.skip(len_after as int) =~= seq![payload]
                    + before.skip((len_after + 1) as int));
                assert(messages@ =~= before.skip(len_after as int).reverse());
                if messages.len() >= MAX_BATCH_SIZE {
                    break;
                }
            },
            None => {
                break;
            },
        }
    }
    proof {
        let k = messages@.len();
        assert(before.take((n - k) as int) + before.skip((n - k) as int) =~= before);
        assert(before.skip((n - k) as int).reverse().reverse() =~= before.skip((n - k) as int));
    }
    Some(messages)
}

/// Handles a request for a queueing server: on the `Queue` route the body
/// is pushed onto the end of the shared buffer; on any other the buffer is
/// left alone. Answers with the route's reply text.
pub fn queue_request(buffer: &mut Vec<Vec<u8>>, route: Route, body: Vec<u8>) -> (reply: &'static str)
    ensures
        reply == route.spec_reply(),
        route == Route::Queue ==> final(buffer)@ == old(buffer)@.push(body),
        route != Route::Queue ==> final(buffer)@ == old(buffer)@,
{
    if route == Route::Queue {
        buffer.push(body);
    }
    route.reply_text()
}

/// How many of `n` queued messages remain after `ticks` batches, when
/// nothing new is queued meanwhile.
pub open spec fn left_after(n: nat, ticks: nat) -> nat {
    if n <= ticks * MAX_BATCH_SIZE {
        0
    } else {
        (n - ticks * MAX_BATCH_SIZE) as nat
    }
}

/// The buffer after `ticks` batches have been taken off `queued`, as
/// `next_batch` takes them, with nothing new queued meanwhile.
pub open spec fn remaining_after(queued: Seq<Vec<u8>>, ticks: nat) -> Seq<Vec<u8>>
    decreases ticks,
{
    if ticks == 0 {
        queued
    } else {
        let r = remaining_after(queued, (ticks - 1) as nat);
        r.take(r.len() - batch_len(r.len()))
    }
}

/// The messages sent in those `ticks` batches, batch after batch.
pub open spec fn sent_after(queued: Seq<Vec<u8>>, ticks: nat) -> Seq<Vec<u8>>
    decreases ticks,
{
    if ticks == 0 {
        Seq::empty()
    } else {
        let r = remaining_after(queued, (ticks - 1) as nat);
        sent_after(queued, (ticks - 1) as nat) + r.skip(r.len() - batch_len(r.len())).reverse()
    }
}

/// Over any number of ticks with nothing new queued, each tick sends up to
/// `MAX_BATCH_SIZE` more messages, newest first: what remains is the
/// oldest part of the queue, what was sent is the rest in reverse, so no
/// message is lost or sent twice, and after `ceil(n / MAX_BATCH_SIZE)`
/// ticks the buffer is empty.
pub proof fn law_batches_drain_the_buffer(queued: Seq<Vec<u8>>, ticks: nat)
    ensures
        remaining_after(queued, ticks) == queued.take(left_after(queued.len(), ticks) as int),
        sent_after(queued, ticks) == queued.skip(left_after(queued.len(), ticks) as int).reverse(),
        remaining_after(queued, ticks) + sent_after(queued, ticks).reverse() == queued,
        queued.len() <= ticks * MAX_BATCH_SIZE ==> remaining_after(queued, ticks).len() == 0,
    decreases ticks,
{
    let n = queued.len();
    if ticks == 0 {
        assert(queued.take(n as int) =~= queued);
        assert(queued.skip(n as int).reverse() =~= Seq::<Vec<u8>>::empty());
        assert(queued + Seq::<Vec<u8>>::empty().reverse() =~= queued);
    } else {
        let k = (ticks - 1) as nat;
        law_batches_drain_the_buffer(queued, k);
        let m = left_after(n, k);
        let b = batch_len(m);
        let r = remaining_after(queued, k);
        assert(r.len() == m);
        assert(m - b == left_after(n, ticks));
        assert(r.take(m - b) =~= queued.take(m - b));
        assert(r.skip(m - b) =~= queued.subrange(m - b, m as int));
        assert(queued.skip((m - b) as int).reverse() =~= queued.skip(m as int).reverse()
            + queued.subrange(m - b, m as int).reverse());
        let rest = queued.take(left_after(n, ticks) as int);
        let sent = queued.skip(left_after(n, ticks) as int).reverse();
        assert(sent.reverse() =~= queued.skip(left_after(n, ticks) as int));
        assert(rest + sent.reverse() =~= queued);
    }
}

/// A batch takes at most a thousand messages: all of them when fewer are
/// waiting.
pub proof fn law_batch_size(len: nat)
    ensures
        MAX_BATCH_SIZE == 1000,
        len <= 1000 ==> batch_len(len) == len,
        len > 1000 ==> batch_len(len) == 1000,
{
}

/// One thing that happens to the shared buffer: a handler queues a body,
/// or the batch sender's timer ticks and `next_batch` takes a batch off.
#[derive(Debug)]
pub enum BufferOp {
    Push(Vec<u8>),
    Tick,
}

/// The shared buffer after `ops`, starting empty.
pub open spec fn buffer_after(ops: Seq<BufferOp>) -> Seq<Vec<u8>>
    decreases ops.len(),
{
    if ops.len() == 0 {
        Seq::empty()
    } else {
        let b = buffer_after(ops.drop_last());
        match ops.last() {
            BufferOp::Push(body) => b.push(body),
            BufferOp::Tick => b.take(b.len() - batch_len(b.len())),
        }
    }
}

/// Everything handed to the producer after `ops`, batch after batch.
pub open spec fn flushed_after(ops: Seq<BufferOp>) -> Seq<Vec<u8>>
    decreases ops.len(),
{
    if ops.len() == 0 {
        Seq::empty()
    } else {
        let b = buffer_after(ops.drop_last());
        let f = flushed_after(ops.drop_last());
        match ops.last() {
            BufferOp::Push(_) => f,
            BufferOp::Tick => f + b.skip(b.len() - batch_len(b.len())).reverse(),
        }
    }
}

/// Every body queued during `ops`, in order.
pub open spec fn pushed(ops: Seq<BufferOp>) -> Seq<Vec<u8>>
    decreases ops.len(),
{
    if ops.len() == 0 {
        Seq::empty()
    } else {
        let p = pushed(ops.drop_last());
        match ops.last() {
            BufferOp::Push(body) => p.push(body),
            BufferOp::Tick => p,
        }
    }
}

/// Over any interleaving of queued bodies and batch ticks, the bodies
/// handed to the producer so far together with those still in the buffer
/// are exactly the bodies ever queued: none is lost, duplicated or
/// invented.
pub proof fn law_queued_bodies_are_conserved(ops: Seq<BufferOp>)
    ensures
        buffer_after(ops).to_multiset().add(flushed_after(ops).to_multiset())
            == pushed(ops).to_multiset(),
    decreases ops.len(),
{
    broadcast use vstd::seq_lib::group_to_multiset_ensures, vstd::multiset::group_multiset_axioms;

    if ops.len() == 0 {
        assert(buffer_after(ops).to_multiset() =~= Multiset::empty());
        assert(flushed_after(ops).to_multiset() =~= Multiset::empty());
        assert(pushed(ops).to_multiset() =~= Multiset::empty());
        assert(Multiset::<Vec<u8>>::empty().add(Multiset::empty()) =~= Multiset::empty());
    } else {
        let prev = ops.drop_last();
        law_queued_bodies_are_conserved(prev);
        let b = buffer_after(prev);
        let f = flushed_after(prev);
        match ops.last() {
            BufferOp::Push(body) => {
                assert(b.push(body).to_multiset() =~= b.to_multiset().insert(body));
                assert(pushed(prev).push(body).to_multiset() =~= pushed(prev).to_multiset().insert(body));
                assert(b.to_multiset().insert(body).add(f.to_multiset())
                    =~= b.to_multiset().add(f.to_multiset()).insert(body));
            },
            BufferOp::Tick => {
                let k = b.len() - batch_len(b.len());
                let kept = b.take(k);
                let taken = b.skip(k);
                assert(kept + taken =~= b);
                vstd::seq_lib::lemma_multiset_commutative(kept, taken);
                vstd::seq_lib::lemma_multiset_commutative(f, taken.reverse());
                taken.lemma_reverse_to_multiset();
                assert(kept.to_multiset().add(f.to_multiset().add(taken.to_multiset()))
                    =~= b.to_multiset().add(f.to_multiset()));
            },
        }
    }
}

} // verus!
