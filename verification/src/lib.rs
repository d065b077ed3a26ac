//! Verified core of the goal-driven agent workbench: configuration,
//! records, protocol frames, the stream reducer, agent decisions and
//! the supervisor's task table.
use vstd::prelude::*;

pub mod text;
pub mod json;
pub mod error;
pub mod models;
pub mod config;
pub mod workhub;
pub mod generator;
pub mod mock;
pub mod frame;
pub mod gateway;
pub mod events;
pub mod llm;
pub mod reducer;
pub mod agents;
pub mod executor;
pub mod builder;
pub mod optimizer;
pub mod summarizer;
pub mod handlers;
pub mod commands;
pub mod runtime;

verus! {

} // verus!
