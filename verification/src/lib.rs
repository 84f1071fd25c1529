//! In-process publish-subscribe messaging core.
//!
//! Independent producers and consumers exchange message envelopes through a
//! topic-addressed registry without direct knowledge of each other.  A
//! [`context::Context`] owns the shared topic registry; a
//! [`publisher::Publisher`] fans each envelope out to every endpoint
//! registered for its topic, and a [`subscriber::Subscriber`] owns the read
//! side of one such endpoint and offers a bounded-wait receive.

pub mod channel;
pub mod context;
pub mod error;
pub mod laws;
pub mod message;
pub mod publisher;
pub mod registry;
pub mod subscriber;
pub mod topic;

pub use context::Context;
pub use error::AuraError;
pub use message::AuraMessage;
pub use publisher::Publisher;
pub use subscriber::Subscriber;
