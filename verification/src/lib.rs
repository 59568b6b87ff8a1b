//! Verified core of a financial-statement harvesting pipeline.
//!
//! The library extracts numeric fields from statement markup with ordered
//! pattern rules, derives an average-pay metric, renders CSV rows, and
//! drives the harvest as a state machine whose decisions are verified;
//! network and filesystem work is performed by the surrounding application
//! in response to the machine's actions.

pub mod extract;
pub mod fields;
pub mod laws;
pub mod metric;
pub mod pipeline;
pub mod sink;
pub mod text;
