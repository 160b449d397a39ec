//! The greeter of a small desktop application: one command, `greet`, that the
//! front-end invokes with a name and that answers with a line of text.
//!
//! `greeting` holds the command and the mathematical model of its answer,
//! `laws` what follows from that model for every name.

pub mod greeting;
pub mod laws;

pub use greeting::greet;
