//! Decision logic of an endpoint-monitoring daemon: configuration rules,
//! probe scheduling, report lines, metric plans, request routing, dashboard
//! layout and the supervisor's state machine, each with a proved contract.

pub mod text;
pub mod names;
pub mod duration;
pub mod config;
pub mod loader;
pub mod samples;
pub mod messages;
pub mod report;
pub mod probe;
pub mod dashboard;
pub mod metrics;
pub mod server;
pub mod supervisor;
pub mod plan;
pub mod logger;
pub mod init;
