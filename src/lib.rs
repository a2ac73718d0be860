//! Random, human-readable names such as `rusty-nail`: an adjective and a noun
//! drawn from word lists, an optional four-digit number, and a casing style.

pub mod casing;
pub mod cli;
pub mod generator;
mod random;
pub mod shape;
pub mod words;

pub use casing::{named_style, Name, TokenCase};
pub use cli::Args;
pub use generator::{ConfigError, Generator};
pub use words::{adjectives, nouns};
