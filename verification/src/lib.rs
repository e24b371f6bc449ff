//! Name resolution and type checking rules of the Loom front end.

pub mod abi;
pub mod answers;
pub mod assembly;
pub mod ast;
pub mod blocks;
pub mod bodies;
pub mod branches;
pub mod calls;
pub mod chain;
pub mod classes;
pub mod conform;
pub mod context;
pub mod control;
pub mod demand;
pub mod desugar;
pub mod endings;
pub mod exprs;
pub mod fulfil;
pub mod hir;
pub mod infer;
pub mod interfaces;
pub mod laws;
pub mod lists;
pub mod lookup;
pub mod members;
pub mod model;
pub mod modules;
pub mod names;
pub mod patterns;
pub mod premises;
pub mod problem;
pub mod program;
pub mod resolve;
pub mod rows;
pub mod scope;
pub mod state;
pub mod subst;
pub mod system;
pub mod text;
pub mod types;
pub mod uses;
