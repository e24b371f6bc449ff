//! What holds of the rules as a whole.

pub mod arguments;
pub mod bodies;
pub mod calls;
pub mod capabilities;
pub mod cases;
pub mod classes;
pub mod conformance;
pub mod declarations;
pub mod defaults;
pub mod demand;
pub mod dispatch;
pub mod fitting;
pub mod flow;
pub mod inference;
pub mod interfaces;
pub mod invoking;
pub mod lists;
pub mod lookups;
pub mod machines;
pub mod manifest;
pub mod modules;
pub mod names;
pub mod operators;
pub mod overrides;
pub mod patterns;
pub mod premises;
pub mod program;
pub mod promises;
pub mod reading;
pub mod refining;
pub mod reflection;
pub mod refusals;
pub mod requests;
pub mod routes;
pub mod rows;
pub mod scopes;
pub mod spelling;
pub mod statements;
pub mod tables;
pub mod types;
pub mod walks;
pub mod written;
