//! Configuration: its types, where its values come from, and the rules they obey.

pub mod adapter_laws;
pub mod adapters;
pub mod agent;
pub mod binding;
pub mod credential_laws;
pub mod environment_laws;
pub mod error;
pub mod file_laws;
pub mod llm_load;
pub mod load;
pub mod mcp;
pub mod messaging;
pub mod messaging_laws;
pub mod messaging_load;
pub mod path;
pub mod provider;
pub mod providers;
pub mod readiness;
pub mod redact;
pub mod redact_laws;
pub mod resolve;
pub mod secrets;
pub mod settings;
pub mod startup;
pub mod toml_schema;
