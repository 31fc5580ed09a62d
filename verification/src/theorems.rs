//! What holds of every command line and of every run, stated and proved.

pub mod parsing;
pub mod running;
