//! Orders scheduled tasks by the data they read and write.
//!
//! A task declares a read-set and a write-set of [`DataLabel`]s, singly or as
//! tuples of up to fifteen sets. Each set projects itself onto the task's
//! [`TaskConfig`]: a read becomes "run after the set of that data kind", a write
//! becomes "belong to the set of that data kind". A scheduler that honours
//! these constraints runs every writer of a kind before every reader of it.
pub mod config;
pub mod flow;
pub mod label;
pub mod labels;
pub mod tuples;

pub use config::{Constraint, TaskConfig};
pub use flow::data_flow_config;
pub use label::DataLabel;
pub use labels::DataLabels;
