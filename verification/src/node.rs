use vstd::prelude::*;

verus! {

/// One transferable unit of the channel: a payload together with the
/// identity of the allocation that carries it.
///
/// In the running system a node is a single heap allocation whose address
/// never changes while it circles between the queues, the free-list and the
/// consumer.  The `id` field models that address: a freshly allocated node
/// carries an id that no earlier node of the same producer has carried, and
/// the id follows the node through every hand-off, so two nodes with equal
/// ids name the same allocation.
pub struct Node<T> {
    /// Identity of the allocation backing this node.
    pub id: u64,
    /// The payload the node currently carries.
    pub item: T,
}

} // verus!
