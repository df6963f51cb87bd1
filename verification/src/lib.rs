//! Ingestion pipeline of an environmental-sensor logger: configuration,
//! record decoding, and the decisions that the receivers, the relay, the
//! persistence stage and the shutdown coordinator take.

pub mod clock;
pub mod cmd_args;
pub mod database;
pub mod json;
pub mod orchestrator;
pub mod pipeline;
pub mod receiver;
pub mod record;
pub mod relay;
pub mod text;
