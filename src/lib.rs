//! Lifecycle driver for projects of the Stella language: the decisions of the
//! `new`, `tp`, `build` and `run` stages, stated over a model of the disk.

pub mod error;
pub mod text;
pub mod error_parser;
pub mod args;
pub mod disk;
pub mod materialize;
pub mod scaffold;
pub mod transpile;
pub mod compile;
pub mod run;
pub mod dispatch;
pub mod lifecycle;
