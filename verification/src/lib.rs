//! Edge-device bridge: batches telemetry into bounded packages and routes
//! remote actions to local applications, one at a time, with deadlines
//! and redirection.

pub mod text;
pub mod channel;
pub mod table;
pub mod config;
pub mod action;
pub mod payload;
pub mod metrics;
pub mod stream;
pub mod delaymap;
pub mod bridge;
pub mod streams;
pub mod simulator;
