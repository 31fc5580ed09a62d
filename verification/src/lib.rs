//! Decisions of a `touch`-like tool: reading its command line and planning
//! the file-system steps that update a file's access and modification times.

pub mod args;
pub mod error;
pub mod run;
pub mod session;
pub mod text;
pub mod theorems;
pub mod times;
