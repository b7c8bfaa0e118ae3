//! Analysis of ROS 2 traces: message classification, the dependency graph of
//! publishers, subscribers, timers, services and callbacks, its exports, and
//! the axis and layout decisions for plots of the exported data.
pub mod message;
pub mod assoc;
pub mod binning;
pub mod charting;
pub mod analyses;
pub mod analysis;
pub mod argsv2;
pub mod decimal;
pub mod dependency_graph;
pub mod dot_graph;
pub mod dot_text;
pub mod exports;
pub mod graph;
pub mod model;
pub mod plotting;
pub mod sql_store;
pub mod statistics;
