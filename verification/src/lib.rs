//! Spacebot's configuration and language-model layer.
//!
//! `config` holds the configuration types, how a configuration is put together
//! from a file, an environment and stored secrets, and how inbound messages are
//! bound to agents. `llm` holds the model layer: which provider answers for a
//! model, what is sent to it, and what its replies mean.

pub mod config;
pub mod json;
pub mod llm;
pub mod string_map;
pub mod text;
pub mod text_laws;
pub mod views;
