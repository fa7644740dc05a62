//! A blocking multi-producer, single-consumer channel built from a lock and
//! a wake-up signal, with an unbounded first-in-first-out queue.
//!
//! [`channel`] creates a connected [`Sender`]/[`Receiver`] pair. Any number
//! of cloned senders may enqueue items without ever blocking; the single
//! receiver takes items in the order they were enqueued, sleeps while the
//! queue is empty and a producer is still alive, and reports a permanent
//! close once every producer is gone and the queue is drained.


mod chan;
mod park;
mod state;

pub use chan::channel;
pub use chan::Receiver;
pub use chan::Sender;
pub use state::lemma_drain_then_close;
pub use state::lemma_round_trip_in_order;
pub use state::lemma_sends_keep_order;
pub use state::lemma_wait_iff_open_and_empty;
pub use state::outcomes;
pub use state::queue_after_sends;
pub use state::step_spec;
pub use state::RecvStep;
