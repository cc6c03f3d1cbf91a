//! The DATA-phase acceptance pipeline of an inbound SMTP server: the
//! decisions that turn a received message into a queued one or a reply.
pub mod text;
pub mod reply;
pub mod auth;
pub mod message;
pub mod headers;
pub mod rewrite;
pub mod schedule;
pub mod pipeline;
pub mod expr;
pub mod session;
pub mod queue_id;
pub mod keys;
