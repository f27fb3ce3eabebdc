//! Command-line configuration for a Wishbone bridge tool: numeric literals
//! with base prefixes, and the validated configuration built from flags.

pub mod config;
pub mod error;
pub mod literal;
pub mod server;

pub use config::{Config, FlagValues};
pub use error::ConfigError;
pub use literal::{get_base, parse_u16, parse_u32};
pub use server::{BridgeKind, ServerKind};
