//! A reaction-driven lifecycle for a temporary, access-gated chat channel.
//!
//! The library is the decision core of the workflow: it computes permission
//! overrides, plans the channel creation, counts opt-in reactions against a
//! bounded grant limit, and decides when a single "close" reaction deletes
//! the channel. All network traffic (creating channels, posting messages,
//! subscribing to reaction events) is performed by the surrounding
//! application, which feeds events into these state machines and carries
//! their actions out.

pub mod ids;
pub mod perm;
pub mod provision;
pub mod messages;
pub mod gate;
pub mod closure;
pub mod workflow;
