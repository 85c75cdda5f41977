//! Bridge logic between a graphical front-end and an external numerical
//! solver executable.
//!
//! The library plans a solver run from user-supplied task parameters:
//! it renders the solver's configuration text, lists the candidate
//! locations of the solver binary in search order, classifies the
//! solver's exit status, and decodes the solver's whitespace-delimited
//! numeric output files into fixed-arity row tables.  All file,
//! process and environment access is left to the embedding
//! application; every function here is pure, and all are verified
//! but for one trusted wrapper around Unicode lowercasing.

pub mod config;
pub mod decode;
pub mod errors;
pub mod locate;
pub mod orchestrate;
pub mod process;
pub mod task;
pub mod text;
