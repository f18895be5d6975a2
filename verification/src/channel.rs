use vstd::prelude::*;

use crate::node::Node;
use crate::spsc::SpscQueue;

verus! {

/// Non-realtime recycler.
///
/// Receives payloads returned by the [`Consumer`] and resets them before
/// their nodes re-enter the producer's free-list.  Recycling might involve
/// releasing resources outside of the realtime context, e.g. dropping a
/// buffer.
///
/// Items might be dropped at any time without recycling them — a returned
/// node that does not fit under the configured free-list capacity is
/// destroyed unrecycled.  Don't rely on the method in this trait being
/// called for every consumed item.
pub trait Recycler<T> {
    /// Recycle an item: mutate it in place into a reusable state.
    fn recycle(&mut self, item: &mut T);
}

/// Create a new producer/consumer circular queue.
///
/// Returns the two handles of a fresh channel: both queues empty, the
/// free-list empty with `recycling_capacity` as its bound, and no node
/// allocated yet.
#[must_use]
pub fn new_producer_consumer<T, R>(recycler: R, recycling_capacity: usize) -> (r: (
    Producer<T, R>,
    Consumer<T>,
))
    ensures
        r.0.pool() == Seq::<Node<T>>::empty(),
        r.0.returned() == Seq::<Node<T>>::empty(),
        r.0.capacity() == recycling_capacity,
        r.0.allocations() == 0,
        r.0.wf(),
        r.1.queued() == Seq::<Node<T>>::empty(),
{
    let producer = Producer {
        back: SpscQueue::new(),
        recycled_nodes: Vec::new(),
        recycler,
        recycling_capacity,
        allocations: 0,
    };
    let consumer = Consumer { forward: SpscQueue::new() };
    (producer, consumer)
}

/// Non-realtime producer.
///
/// Owns the backward queue (the consumer's returns travel through it) and a
/// bounded free-list of recycled nodes.  Pushing appends to the forward
/// queue owned by the [`Consumer`]; in this model the hand-off is an
/// explicit `&mut` borrow of the receiving handle, which renders the
/// exclusive ownership transfer of the running system.
pub struct Producer<T, R> {
    back: SpscQueue<Node<T>>,
    recycled_nodes: Vec<Node<T>>,
    recycler: R,
    recycling_capacity: usize,
    allocations: u64,
}

impl<T, R> Producer<T, R> {
    /// The nodes waiting in the backward queue, oldest first.
    pub closed spec fn returned(&self) -> Seq<Node<T>> {
        self.back@
    }

    /// The free-list of recycled nodes, in storage order; `push` reuses the
    /// last one first.
    pub closed spec fn pool(&self) -> Seq<Node<T>> {
        self.recycled_nodes@
    }

    /// The configured free-list capacity.
    pub closed spec fn capacity(&self) -> usize {
        self.recycling_capacity
    }

    /// How many nodes this producer has freshly allocated so far.  Also the
    /// id the next fresh allocation will carry.
    pub closed spec fn allocations(&self) -> u64 {
        self.allocations
    }

    /// The free-list never holds more nodes than the configured capacity.
    pub open spec fn wf(&self) -> bool {
        self.pool().len() <= self.capacity()
    }

    /// Whether the next `push` must allocate: it does exactly when neither
    /// the free-list nor the backward queue offers a node to reuse.
    pub open spec fn push_allocates(&self) -> bool {
        self.pool().len() == 0 && self.returned().len() == 0
    }

    /// The identity of the node the next `push` will send: the newest
    /// free-list node if any, else the oldest returned node, else a fresh
    /// allocation.
    pub open spec fn next_push_id(&self) -> u64 {
        if self.pool().len() > 0 {
            self.pool().last().id
        } else if self.returned().len() > 0 {
            self.returned().first().id
        } else {
            self.allocations()
        }
    }

    /// How many nodes this producer has freshly allocated so far.
    pub fn allocation_count(&self) -> (n: u64)
        ensures
            n == self.allocations(),
    {
        self.allocations
    }

    /// How many recycled nodes the free-list currently holds.
    pub fn recycled_count(&self) -> (n: usize)
        ensures
            n == self.pool().len(),
    {
        self.recycled_nodes.len()
    }
}

impl<T, R: Recycler<T>> Producer<T, R> {
    /// Push a new item into the queue.
    ///
    /// The item is moved into a node — the newest free-list node if any,
    /// else the oldest node of the backward queue, else a fresh allocation —
    /// and the node is appended to the forward queue.  The reused node's
    /// previous payload is dropped by the overwrite.
    pub fn push(&mut self, consumer: &mut Consumer<T>, item: T)
        requires
            old(self).push_allocates() ==> old(self).allocations() < u64::MAX,
        ensures
            final(consumer).queued() == old(consumer).queued().push(
                (Node { id: old(self).next_push_id(), item }),
            ),
            final(self).capacity() == old(self).capacity(),
            old(self).pool().len() > 0 ==> final(self).pool() == old(self).pool().drop_last()
                && final(self).returned() == old(self).returned() && final(self).allocations()
                == old(self).allocations(),
            old(self).pool().len() == 0 && old(self).returned().len() > 0 ==> final(self).pool()
                == old(self).pool() && final(self).returned() == old(self).returned().drop_first()
                && final(self).allocations() == old(self).allocations(),
            old(self).push_allocates() ==> final(self).pool() == old(self).pool()
                && final(self).returned() == old(self).returned()
                && final(self).allocations() == old(self).allocations() + 1,
            old(self).wf() ==> final(self).wf(),
    {
        let node = self.new_node(item);
        consumer.forward.push(node);
    }

    /// Obtain a node carrying `item`, reusing a cached or returned node when
    /// one is available.
    fn new_node(&mut self, item: T) -> (node: Node<T>)
        requires
            old(self).push_allocates() ==> old(self).allocations() < u64::MAX,
        ensures
            node == (Node { id: old(self).next_push_id(), item }),
            final(self).capacity() == old(self).capacity(),
            old(self).pool().len() > 0 ==> final(self).pool() == old(self).pool().drop_last()
                && final(self).returned() == old(self).returned() && final(self).allocations()
                == old(self).allocations(),
            old(self).pool().len() == 0 && old(self).returned().len() > 0 ==> final(self).pool()
                == old(self).pool() && final(self).returned() == old(self).returned().drop_first()
                && final(self).allocations() == old(self).allocations(),
            old(self).push_allocates() ==> final(self).pool() == old(self).pool()
                && final(self).returned() == old(self).returned()
                && final(self).allocations() == old(self).allocations() + 1,
    {
        // Reuse the recycled nodes first, because in the running system that
        // path involves no cross-thread synchronization.
        if let Some(mut node) = self.recycled_nodes.pop() {
            node.item = item;
            return node;
        }
        if let Some(mut node) = self.back.pop() {
            node.item = item;
            return node;
        }
        // Allocate a new node.
        let id = self.allocations;
        self.allocations = id + 1;
        Node { id, item }
    }

    /// Tune the recycling capacity.
    ///
    /// Nodes cached beyond the new capacity are dropped at once; items still
    /// in transit through either queue are untouched.
    pub fn tune_recycling_capacity(&mut self, recycling_capacity: usize)
        ensures
            final(self).capacity() == recycling_capacity,
            final(self).returned() == old(self).returned(),
            final(self).allocations() == old(self).allocations(),
            recycling_capacity < old(self).pool().len() ==> final(self).pool() == old(
                self,
            ).pool().subrange(0, recycling_capacity as int),
            recycling_capacity >= old(self).pool().len() ==> final(self).pool() == old(self).pool(),
            final(self).wf(),
    {
        if recycling_capacity < self.recycled_nodes.len() {
            self.recycled_nodes.truncate(recycling_capacity);
        } else {
            self.recycled_nodes.reserve(recycling_capacity - self.recycled_nodes.len());
        }
        self.recycling_capacity = recycling_capacity;
    }

    /// Drain all consumed items and recycle as much as possible.
    ///
    /// Empties the backward queue.  Each drained node is recycled into the
    /// free-list while there is room under the configured capacity — the
    /// recycler runs exactly on those retained nodes, which keep their
    /// identity — and is dropped otherwise.  Should be invoked periodically
    /// when not pushing new items.
    pub fn drain_and_recycle(&mut self)
        requires
            old(self).wf(),
        ensures
            final(self).wf(),
            final(self).capacity() == old(self).capacity(),
            final(self).allocations() == old(self).allocations(),
            final(self).returned().len() == 0,
            old(self).pool().len() + old(self).returned().len() <= old(self).capacity()
                ==> final(self).pool().len() == old(self).pool().len() + old(
                self,
            ).returned().len(),
            old(self).pool().len() + old(self).returned().len() >= old(self).capacity()
                ==> final(self).pool().len() == old(self).capacity(),
            forall|i: int|
                0 <= i < old(self).pool().len() ==> final(self).pool()[i] == old(self).pool()[i],
            forall|i: int|
                old(self).pool().len() <= i < final(self).pool().len() ==> final(self).pool()[i].id
                    == old(self).returned()[i - old(self).pool().len()].id,
            old(self).returned().len() == 0 ==> final(self).pool() == old(self).pool(),
    {
        let ghost opool = self.recycled_nodes@;
        let ghost oret = self.back@;
        let ghost mut j: int = 0;
        while !self.back.is_empty()
            invariant
                self.capacity() == old(self).capacity(),
                self.allocations() == old(self).allocations(),
                opool.len() <= self.capacity(),
                0 <= j <= oret.len(),
                self.returned() == oret.subrange(j, oret.len() as int),
                self.pool().len() == opool.len() + (if j <= self.capacity() - opool.len() {
                    j
                } else {
                    self.capacity() - opool.len()
                }),
                forall|i: int| 0 <= i < opool.len() ==> self.pool()[i] == opool[i],
                forall|i: int|
                    opool.len() <= i < self.pool().len() ==> self.pool()[i].id == oret[i
                        - opool.len()].id,
            decreases self.returned().len(),
        {
            let node_opt = self.back.pop();
            let mut node = node_opt.unwrap();
            proof {
                assert(oret.subrange(j, oret.len() as int).drop_first() =~= oret.subrange(
                    j + 1,
                    oret.len() as int,
                ));
                assert(node == oret[j]);
                j = j + 1;
            }
            if self.recycled_nodes.len() < self.recycling_capacity {
                self.recycler.recycle(&mut node.item);
                self.recycled_nodes.push(node);
            }
        }
        proof {
            if oret.len() == 0 {
                assert(self.pool() =~= opool);
            }
        }
    }
}

/// Consumable item.
///
/// A short-lived lease on one node, popped by the [`Consumer`].  While it
/// exists, no queue or free-list references the node; the holder has
/// exclusive access to the payload.  Hand it back via
/// [`Consumer::push_back`] for recycling, i.e. to keep the node circling
/// and avoid (de-)allocations; an item that is merely dropped destroys its
/// node, bypassing the recycler and forcing the producer to allocate anew.
pub struct ConsumableItem<T> {
    node: Node<T>,
}

impl<T> View for ConsumableItem<T> {
    type V = Node<T>;

    closed spec fn view(&self) -> Node<T> {
        self.node
    }
}

impl<T> ConsumableItem<T> {
    /// Read access to the payload.
    pub fn as_ref(&self) -> (r: &T)
        ensures
            *r == self@.item,
    {
        &self.node.item
    }

    /// Write access to the payload; the node's identity is unchanged.
    pub fn as_mut(&mut self) -> (r: &mut T)
        ensures
            *r == old(self)@.item,
            final(self)@ == (Node { id: old(self)@.id, item: *final(r) }),
    {
        &mut self.node.item
    }

    /// The identity of the allocation backing this item, for tracking node
    /// reuse.
    pub fn node_id(&self) -> (n: u64)
        ensures
            n == self@.id,
    {
        self.node.id
    }
}

/// Realtime consumer.
///
/// Owns the receiving end of the forward queue.  Its operations neither
/// allocate nor free: a pop leases an existing node, and a push-back moves
/// the node into the backward queue owned by the [`Producer`] — borrowed
/// explicitly here to render the hand-off of the running system.
pub struct Consumer<T> {
    forward: SpscQueue<Node<T>>,
}

impl<T> Consumer<T> {
    /// The nodes currently in flight in the forward queue, oldest first.
    pub closed spec fn queued(&self) -> Seq<Node<T>> {
        self.forward@
    }

    /// Pop the next item from the queue.
    ///
    /// Leases the oldest queued node, or returns `None` when the forward
    /// queue is empty.
    pub fn pop(&mut self) -> (r: Option<ConsumableItem<T>>)
        ensures
            old(self).queued().len() == 0 ==> r is None && final(self).queued() == old(self).queued(),
            old(self).queued().len() > 0 ==> final(self).queued() == old(
                self,
            ).queued().drop_first() && (r matches Some(ci) && ci@ == old(self).queued().first()),
    {
        match self.forward.pop() {
            None => None,
            Some(node) => Some(ConsumableItem { node }),
        }
    }

    /// Push an item back to the producer for recycling.
    ///
    /// The node leaves the lease and is appended, payload and identity
    /// unchanged, to the backward queue; the producer's free-list and
    /// allocation count are untouched.
    pub fn push_back<R>(&mut self, producer: &mut Producer<T, R>, consumed_item: ConsumableItem<T>)
        ensures
            final(self).queued() == old(self).queued(),
            final(producer).returned() == old(producer).returned().push(consumed_item@),
            final(producer).pool() == old(producer).pool(),
            final(producer).capacity() == old(producer).capacity(),
            final(producer).allocations() == old(producer).allocations(),
    {
        let ConsumableItem { node } = consumed_item;
        producer.back.push(node);
    }

    /// Consume all pending items by pushing them back to the producer.
    ///
    /// Pops every currently queued node and appends each, unexamined and in
    /// order, to the backward queue — a bulk flush for shutdown or skip
    /// scenarios.
    pub fn drain<R>(&mut self, producer: &mut Producer<T, R>)
        ensures
            final(self).queued().len() == 0,
            final(producer).returned() == old(producer).returned() + old(self).queued(),
            final(producer).pool() == old(producer).pool(),
            final(producer).capacity() == old(producer).capacity(),
            final(producer).allocations() == old(producer).allocations(),
    {
        let ghost oq = self.forward@;
        let ghost oret = producer.back@;
        let ghost mut j: int = 0;
        while !self.forward.is_empty()
            invariant
                0 <= j <= oq.len(),
                self.queued() == oq.subrange(j, oq.len() as int),
                producer.returned() == oret + oq.subrange(0, j),
                producer.pool() == old(producer).pool(),
                producer.capacity() == old(producer).capacity(),
                producer.allocations() == old(producer).allocations(),
            decreases self.queued().len(),
        {
            let node_opt = self.forward.pop();
            let node = node_opt.unwrap();
            proof {
                assert(oq.subrange(j, oq.len() as int).drop_first() =~= oq.subrange(
                    j + 1,
                    oq.len() as int,
                ));
                assert(node == oq[j]);
                assert((oret + oq.subrange(0, j)).push(oq[j]) =~= oret + oq.subrange(0, j + 1));
                j = j + 1;
            }
            producer.back.push(node);
        }
        proof {
            assert(oq.subrange(0, oq.len() as int) =~= oq);
        }
    }
}

} // verus!
