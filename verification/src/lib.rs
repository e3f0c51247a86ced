//! The scan of a remote analytical data service, for a SQL front-end: the
//! nodes that stand for a scan in a plan, the start of an execution under the
//! configured limits, the router between a live stream and a single fetch,
//! and the materialization of the rows of a response into typed columns.
//!
//! The library decides and computes on plain values. The transport, the
//! query engine and floating-point numbers themselves stay with the caller.

pub mod batch;
pub mod error;
pub mod execute;
pub mod json;
pub mod load;
pub mod node;
pub mod number;
pub mod planner;
pub mod request;
pub mod router;
pub mod schema;
pub mod source;
pub mod text;
pub mod time;
pub mod transform;
pub mod value;
pub mod views;
