//! Actors over bounded mailboxes.
//!
//! An actor owns a mailbox, a cancellation token and a worker that runs its
//! handlers one message at a time. This crate holds what such an actor decides:
//! how it is configured, how its addresses are made and related, what becomes of
//! a message that is sent or asked, and which step the worker takes next. The
//! waiting itself (on the mailbox, on a handler, on a reply) is done by whoever
//! drives the worker.
//!
//! Two flavours share the same worker: [`static_actor`], where an actor has one
//! message type, and [`dynamic_actor`], where an actor takes every message type
//! that it has a handler for.

pub mod config;
pub mod dynamic_actor;
pub mod lifecycle;
pub mod lifecycle_laws;
pub mod mailbox;
pub mod reply;
pub mod request;
pub mod static_actor;
pub mod token;
