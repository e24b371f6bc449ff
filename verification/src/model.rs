//! What the rules compute, as functions on values.

pub mod answers;
pub mod assembly;
pub mod blocks;
pub mod bodies;
pub mod branches;
pub mod calls;
pub mod classes;
pub mod conform;
pub mod control;
pub mod desugar;
pub mod endings;
pub mod exprs;
pub mod fits;
pub mod fulfil;
pub mod heights;
pub mod infer;
pub mod interfaces;
pub mod keeps;
pub mod layout;
pub mod lists;
pub mod lookup;
pub mod members;
pub mod modules;
pub mod names;
pub mod patterns;
pub mod premises;
pub mod resolve;
pub mod rows;
pub mod scope;
pub mod sound;
pub mod subst;
pub mod system;
pub mod uses;
