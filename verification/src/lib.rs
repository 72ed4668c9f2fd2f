//! A verified core for turning hook-shaped functions into UI components.
//!
//! The crate has two halves. The build-time half models a function
//! definition (`model`), analyzes its signature (`sig`), resolves the
//! dependency paths the generated code must mention (`paths`), and rewrites
//! the definition into a component description (`transform`). The run-time
//! half (`adapter`) is the decision core of the hook lifecycle adapter: it
//! says when a new poll task must be scheduled, when a suspended task must
//! stop because its owner is gone, and how a properties change resets the
//! polling obligation.

pub mod adapter;
pub mod model;
pub mod paths;
pub mod sig;
pub mod transform;
