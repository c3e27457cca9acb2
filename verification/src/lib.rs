//! A continuous-integration dispatcher for a source-code hosting service.
//!
//! Webhook events carrying pull-request comments are authenticated,
//! parsed into bot commands and enqueued as jobs; a serial worker checks
//! the targeted revision out into a working tree and evaluates a
//! repository-supplied automation script against it through a narrow,
//! path-checked extension API.

use vstd::prelude::*;

pub mod cargo;
pub mod gitio;
pub mod host;
pub mod ingress;
pub mod job;
pub mod json;
pub mod local_queue;
pub mod repo;
pub mod shellwords;
pub mod text;
pub mod toml;
pub mod webhook;
pub mod worker;

pub use job::Job;
pub use local_queue::LocalQueue;

verus! {

/// An ordered keyed queue of pending work.
///
/// Insertion order is the dequeue order; keys are a dedupe hint.
pub trait Queue {
    type Err;

    type Id;

    type Item;

    /// Append an item under a key and report its position.
    fn add(&mut self, id: Self::Id, item: Self::Item) -> usize;

    /// Remove and return the front item, if any.
    fn remove(&mut self) -> Option<Self::Item>;

    /// The number of items held.
    fn len(&self) -> usize;

    /// The position of the entry with the given key, if present.
    fn pos(&self, id: Self::Id) -> Option<usize>;

    fn is_empty(&self) -> bool {
        self.len() == 0
    }
}

} // verus!
