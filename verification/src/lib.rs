//! A keyboard-navigable dashboard model for a fleet of runners: the records
//! that describe a runner, the rules that turn them into a table, the
//! selection cursor, and the decisions of the fetch and event loops.

pub mod config;
pub mod event;
pub mod fetch;
pub mod model;
pub mod selection;
pub mod style;
pub mod table;
pub mod text;
