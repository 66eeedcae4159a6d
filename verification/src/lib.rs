use vstd::prelude::*;

pub mod cli;
pub mod client;
pub mod config;
pub mod error;
pub mod output;
pub mod redact;
pub mod store;
pub mod text;
pub mod trusted;

verus! {
}
