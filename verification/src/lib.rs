//! Shell tab-completion resolver for a build tool's subcommands and flags.
//!
//! Given the tokenized command line, the index of the word being completed,
//! and read-only listings of the working directory, the library computes the
//! ordered list of completion suggestions for the current word.

pub mod laws;
pub mod prefix;
pub mod resolve;
pub mod vocab;

pub use resolve::complete;
pub use resolve::complete_run;
pub use resolve::CompletionRequest;
