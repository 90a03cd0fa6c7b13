//! The message store: a process-wide FIFO queue of text messages.
//!
//! The store itself is single-threaded; the surrounding program shares one
//! store among all connections behind a mutual-exclusion lock and calls
//! `publish` and `retrieve` only while holding it, so concurrent operations
//! are totally ordered by lock acquisition order.

use vstd::prelude::*;
use std::collections::VecDeque;

verus! {

broadcast use vstd::std_specs::vecdeque::group_vec_dequeue_axioms;

/// The queue after appending `text` at the tail.
pub open spec fn queue_after_publish(q: Seq<Seq<char>>, text: Seq<char>) -> Seq<Seq<char>> {
    q.push(text)
}

/// What a retrieve returns: the head message, or the empty-queue signal.
pub open spec fn retrieve_result(q: Seq<Seq<char>>) -> Option<Seq<char>> {
    if q.len() > 0 {
        Some(q[0])
    } else {
        None
    }
}

/// The queue after one retrieve: the head is gone, or nothing changed.
pub open spec fn queue_after_retrieve(q: Seq<Seq<char>>) -> Seq<Seq<char>> {
    if q.len() > 0 {
        q.drop_first()
    } else {
        q
    }
}

/// The FIFO store. Its abstract value is the sequence of pending message
/// texts, oldest first: publish appends at the tail, retrieve removes the
/// head. No capacity bound, no blocking, no failure mode.
pub struct MessageStore {
    queue: VecDeque<String>,
}

impl View for MessageStore {
    type V = Seq<Seq<char>>;

    closed spec fn view(&self) -> Seq<Seq<char>> {
        self.queue@.map(|i: int, m: String| m@)
    }
}

impl MessageStore {
    /// A freshly created store holds no messages.
    pub fn new() -> (s: MessageStore)
        ensures
            s@ == Seq::<Seq<char>>::empty(),
    {
        let s = MessageStore { queue: VecDeque::new() };
        proof {
            assert(s@ =~= Seq::<Seq<char>>::empty());
        }
        s
    }

    /// Append `text` at the tail. Always succeeds; every message published
    /// before it stays in front of it.
    pub fn publish(&mut self, text: String)
        ensures
            final(self)@ == queue_after_publish(old(self)@, text@),
    {
        self.queue.push_back(text);
        proof {
            assert(self@ =~= old(self)@.push(text@));
        }
    }

    /// Remove and return the head message, or report the queue empty.
    /// Never blocks and never errors: the answer is immediate either way.
    pub fn retrieve(&mut self) -> (r: Option<String>)
        ensures
            r.deep_view() == retrieve_result(old(self)@),
            final(self)@ == queue_after_retrieve(old(self)@),
    {
        let r = self.queue.pop_front();
        proof {
            if old(self)@.len() > 0 {
                assert(self@ =~= old(self)@.drop_first());
            } else {
                assert(self@ =~= old(self)@);
            }
        }
        r
    }

    /// The number of pending messages.
    pub fn len(&self) -> (n: usize)
        ensures
            n == self@.len(),
    {
        self.queue.len()
    }
}

/// The queue after publishing each text of `ms`, in order, one at a time.
pub open spec fn queue_after_publishing_all(
    q: Seq<Seq<char>>,
    ms: Seq<Seq<char>>,
) -> Seq<Seq<char>>
    decreases ms.len(),
{
    if ms.len() == 0 {
        q
    } else {
        queue_after_publishing_all(queue_after_publish(q, ms[0]), ms.drop_first())
    }
}

/// The queue after `k` retrieves, one at a time.
pub open spec fn queue_after_retrieves(q: Seq<Seq<char>>, k: nat) -> Seq<Seq<char>>
    decreases k,
{
    if k == 0 {
        q
    } else {
        queue_after_retrieve(queue_after_retrieves(q, (k - 1) as nat))
    }
}

/// What the `k`-th retrieve returns, counting from zero.
pub open spec fn nth_retrieve_result(q: Seq<Seq<char>>, k: nat) -> Option<Seq<char>> {
    retrieve_result(queue_after_retrieves(q, k))
}

/// Publishing a batch of texts appends them, in order, at the tail.
pub proof fn lemma_publish_all_appends(q: Seq<Seq<char>>, ms: Seq<Seq<char>>)
    ensures
        queue_after_publishing_all(q, ms) == q + ms,
    decreases ms.len(),
{
    if ms.len() == 0 {
        assert(queue_after_publishing_all(q, ms) =~= q + ms);
    } else {
        lemma_publish_all_appends(q.push(ms[0]), ms.drop_first());
        assert(q.push(ms[0]) + ms.drop_first() =~= q + ms);
    }
}

/// `k` retrieves remove exactly the first `k` messages and nothing else.
pub proof fn lemma_retrieves_drop_prefix(q: Seq<Seq<char>>, k: nat)
    requires
        k <= q.len(),
    ensures
        queue_after_retrieves(q, k) == q.skip(k as int),
    decreases k,
{
    if k == 0 {
        assert(q.skip(0) =~= q);
    } else {
        lemma_retrieves_drop_prefix(q, (k - 1) as nat);
        assert(q.skip(k - 1).drop_first() =~= q.skip(k as int));
    }
}

/// FIFO order: after the texts `ms[0], ms[1], ...` are published, in that
/// order, onto a store holding nothing, the `i`-th subsequent retrieve
/// returns `ms[i]`.
pub proof fn lemma_fifo_order(ms: Seq<Seq<char>>, i: int)
    requires
        0 <= i < ms.len(),
    ensures
        nth_retrieve_result(
            queue_after_publishing_all(Seq::<Seq<char>>::empty(), ms),
            i as nat,
        ) == Some(ms[i]),
{
    lemma_publish_all_appends(Seq::<Seq<char>>::empty(), ms);
    assert(Seq::<Seq<char>>::empty() + ms =~= ms);
    lemma_retrieves_drop_prefix(ms, i as nat);
}

/// Delivery is at most once, and no message is lost: from a queue of `n`
/// pending messages, the `i`-th of the first `n` retrieves returns exactly
/// the message at position `i` — so each message instance goes to exactly
/// one caller — and after those `n` retrieves the queue is empty, so the
/// next retrieve reports the empty-queue signal rather than redelivering.
pub proof fn lemma_exactly_once_delivery(q: Seq<Seq<char>>, i: int)
    requires
        0 <= i < q.len(),
    ensures
        nth_retrieve_result(q, i as nat) == Some(q[i]),
        queue_after_retrieves(q, q.len()) == Seq::<Seq<char>>::empty(),
        nth_retrieve_result(q, q.len()) is None,
{
    lemma_retrieves_drop_prefix(q, i as nat);
    lemma_retrieves_drop_prefix(q, q.len());
    assert(q.skip(q.len() as int) =~= Seq::<Seq<char>>::empty());
}

} // verus!
