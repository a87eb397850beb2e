//! A relay from a robotics message bus to many streaming clients, with
//! live counters of what was relayed.
pub mod auth;
pub mod clock;
pub mod frame;
pub mod ingest;
pub mod json;
pub mod metrics;
pub mod session;
pub mod stats;
pub mod text;
