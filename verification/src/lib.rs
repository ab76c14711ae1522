//! Startup configuration loader for a network proxy process.
//!
//! The crate turns a snapshot of named environment variables into a single,
//! fully validated configuration value, or the first error found.  It holds
//! two URL-shaped parsers — a strict endpoint parser that demands a literal
//! IP and explicit port, and a control-plane URL validator with a stricter
//! path/fragment grammar but a looser host rule — and the assembler that
//! applies them, with documented defaults, to each recognized variable.

pub mod addr;
pub mod config;
pub mod control;
pub mod env_source;
pub mod errors;
pub mod num;
pub mod urls;

pub use addr::Addr;
pub use addr::Ip;
pub use addr::Listener;
pub use config::Config;
pub use control::HostAndPort;
pub use env_source::Env;
pub use env_source::EnvValue;
pub use env_source::env_var;
pub use env_source::env_var_parse;
pub use errors::Error;
pub use errors::UrlError;
