//! Correlates live telemetry samples from an instrumented process with actuator
//! commands: parsing and change-only filtering of telemetry lines, the mapping of a
//! sample to a normalized level, the dispatch session's state machine, and the
//! decisions of the reconnecting client, the process locator and the supervisor.

pub mod actuator;
pub mod bounds;
pub mod dispatch;
pub mod intensity;
pub mod launch;
pub mod locate;
pub mod supervise;
pub mod telemetry;
