//! Verified core of the krill swarm orchestrator: SSE framing, agent and
//! dashboard state, the swarm worker's decisions and the analysis payloads.

pub mod analyze;
pub mod dashboard;
pub mod error;
pub mod sse;
pub mod swarm;
pub mod terminal;
pub mod text;
pub mod tui;
pub mod types;
