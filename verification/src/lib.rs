//! A recycling single-producer/single-consumer channel.
//!
//! Items travel from a non-realtime [`Producer`] to a realtime [`Consumer`]
//! through a forward queue; the consumer hands each node back through a
//! backward queue, so the producer can reuse the node's allocation for a
//! later push instead of allocating a fresh one.  The producer keeps a
//! bounded free-list of such recycled nodes and lets a caller-supplied
//! [`Recycler`] reset each payload before it is pooled.
//!
//! The hand-off queue itself is [`SpscQueue`], a first-in/first-out queue
//! with exactly one sending and one receiving side.  A node is owned by
//! exactly one place at any instant: a queue, the free-list, or an
//! outstanding [`ConsumableItem`]; every operation below states in its
//! contract how that ownership moves.

mod channel;
mod node;
mod spsc;

pub use channel::new_producer_consumer;
pub use channel::ConsumableItem;
pub use channel::Consumer;
pub use channel::Producer;
pub use channel::Recycler;
pub use node::Node;
pub use spsc::lemma_order_preservation;
pub use spsc::lemma_pop_conservation;
pub use spsc::lemma_push_conservation;
pub use spsc::SpscQueue;
