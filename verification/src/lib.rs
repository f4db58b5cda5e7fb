//! A reactive dispatcher core: a single-threaded state machine driven by
//! events that arrive from independent asynchronous producers, multiplexed
//! over two channels. A pluggable [`model::Model`] holds the private state;
//! its transitions may emit abstract [`model::Command`] values that a
//! translator loop resolves into feedback messages.

pub mod channel;
pub mod decimal;
pub mod dispatch;
pub mod model;
pub mod num_model;
pub mod text_model;
