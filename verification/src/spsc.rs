use vstd::prelude::*;

verus! {

/// A first-in/first-out hand-off queue with one sending and one receiving
/// side.
///
/// `push` appends at the tail and `pop` removes the head, so items come out
/// in the order they went in.  Ownership of a pushed value moves entirely
/// into the queue, and ownership of a popped value moves entirely to the
/// caller: the queue never touches a value again after handing it out.
///
/// One value of this type backs one simplex channel.  The single-producer/
/// single-consumer discipline of the channel built on top of it — at most
/// one thread pushing and at most one thread popping at any instant — is a
/// usage contract of the callers; the queue itself is specified purely by
/// the sequence of values it holds, viewed oldest first.
pub struct SpscQueue<T> {
    items: Vec<T>,
}

impl<T> View for SpscQueue<T> {
    type V = Seq<T>;

    closed spec fn view(&self) -> Seq<T> {
        self.items@
    }
}

impl<T> SpscQueue<T> {
    /// Create an empty queue.
    pub fn new() -> (q: Self)
        ensures
            q@ == Seq::<T>::empty(),
    {
        SpscQueue { items: Vec::new() }
    }

    /// How many values are currently queued.
    pub fn len(&self) -> (n: usize)
        ensures
            n == self@.len(),
    {
        self.items.len()
    }

    /// Whether the queue currently holds no value.
    pub fn is_empty(&self) -> (b: bool)
        ensures
            b <==> self@.len() == 0,
    {
        self.items.is_empty()
    }

    /// Append `value` at the tail of the queue.
    pub fn push(&mut self, value: T)
        ensures
            final(self)@ == old(self)@.push(value),
    {
        self.items.push(value);
    }

    /// Remove and return the head of the queue, or `None` when it is empty.
    pub fn pop(&mut self) -> (r: Option<T>)
        ensures
            old(self)@.len() == 0 ==> r is None && final(self)@ == old(self)@,
            old(self)@.len() > 0 ==> r == Some(old(self)@.first()) && final(self)@ == old(
                self,
            )@.drop_first(),
    {
        if self.items.is_empty() {
            None
        } else {
            let ghost pre = self.items@;
            let value = self.items.remove(0);
            proof {
                assert(pre.remove(0) =~= pre.drop_first());
            }
            Some(value)
        }
    }
}

/// Order preservation: pushes with no interleaved pops come back out in push
/// order.
///
/// `push` appends, so after pushing `s[0], ..., s[last]` into a queue that
/// was empty, the queue's view is `s`.  `pop` returns the head and leaves the
/// tail, so after `k` pops the view is `s.subrange(k, s.len())`.  This lemma
/// states that from that state the next pop returns exactly `s[k]` and leaves
/// the state after `k + 1` pops — so the `k`-th pop yields the `k`-th pushed
/// item, for every `k`.
pub proof fn lemma_order_preservation<T>(s: Seq<T>, k: int)
    requires
        0 <= k < s.len(),
    ensures
        s.subrange(k, s.len() as int).first() == s[k],
        s.subrange(k, s.len() as int).drop_first() == s.subrange(k + 1, s.len() as int),
{
    assert(s.subrange(k, s.len() as int).drop_first() =~= s.subrange(k + 1, s.len() as int));
}

/// Conservation, push half: a push adds exactly one occurrence of the pushed
/// value to the queue's contents and touches nothing else — no value is
/// duplicated or lost by enqueuing.
pub proof fn lemma_push_conservation<T>(s: Seq<T>, x: T)
    ensures
        s.push(x).to_multiset() == s.to_multiset().insert(x),
{
    s.to_multiset_ensures();
    assert(s.push(x).to_multiset() =~= s.to_multiset().insert(x));
}

/// Conservation, pop half: a pop removes exactly one occurrence of the value
/// it returns — which was present — and touches nothing else.  Together with
/// the push half this says that under the single-producer/single-consumer
/// discipline every pushed value is popped exactly once, whatever the
/// interleaving: each value's count rises by one at its push, falls by one at
/// its pop, and is never changed otherwise.
pub proof fn lemma_pop_conservation<T>(s: Seq<T>)
    requires
        s.len() > 0,
    ensures
        s.to_multiset().count(s.first()) > 0,
        s.drop_first().to_multiset() == s.to_multiset().remove(s.first()),
{
    s.to_multiset_ensures();
    assert(s.contains(s.first()));
    assert(s.remove(0) =~= s.drop_first());
    assert(s.remove(0).to_multiset() =~= s.to_multiset().remove(s[0]));
}

} // verus!
