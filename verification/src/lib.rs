//! Verified core of a truck-fleet telemetry platform: the rules that turn
//! telemetry, ML and health readings into alerts, the routing of ingested
//! messages, truck bookkeeping, and the decisions of the fleet simulator.
//!
//! Real-valued readings are carried as integers in fixed point: every such
//! field holds thousandths of its unit (a speed of `72.5` km/h is `72500`),
//! except geographic coordinates, which hold millionths of a degree.

pub mod config;
pub mod ingestion;
pub mod models;
pub mod processing;
pub mod realtime;
pub mod services;
pub mod simulator;
pub mod storage;
pub mod util;
