//! Named backend operations that report their progress as an ordered stream of
//! typed events over a per-invocation channel.

pub mod argument;
pub mod channel;
pub mod command;
pub mod dispatcher;
pub mod download;
pub mod event;
pub mod greeting;
pub mod lifecycle;
pub mod schema;
pub mod session;
pub mod startup;
pub mod wire;
