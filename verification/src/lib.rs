//! A library for driving network speed tests: it ranks candidate servers by
//! distance, selects one (or a user-requested one), walks a fallback chain of
//! candidates, and converts raw bit-per-second counters into reported speeds.
//!
//! The actual network transfers are left to the caller: the orchestrator hands
//! out measurement requests and consumes their outcomes, so every decision in
//! between is verified.

pub mod cli;
pub mod error;
pub mod orchestrator;
pub mod server;
mod text;

pub use cli::{AppConfig, AppConfigBuilder, CliArgs};
pub use error::TestError;
pub use orchestrator::{AttemptFailure, Orchestration};
pub use server::{Server, ServerList};
pub use speed_test::{Direction, Phase, SpeedMeasurement, SpeedTest, SpeedTestResult};
