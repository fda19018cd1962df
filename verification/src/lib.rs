//! Typed configuration for a transit-data routing and API service.
//!
//! The library decodes a TOML document into a strongly typed schema,
//! applying per-field defaults and reporting precise errors, and offers
//! narrow factory methods that turn configuration fields into ready-to-use
//! client values. Reading the file and holding the process-wide singleton
//! are left to the surrounding application; the decoding, the defaults
//! and the factories are verified here.

pub mod client;
pub mod error;
pub mod mongo;
pub mod parse;
pub mod schema;
pub mod sets;
pub mod value;

pub use client::TTClient;
pub use error::{DecodeError, ParseError};
pub use schema::{
    get_default_api_default_limit, get_default_api_max_rt_age, get_true, ApiConfig, AreaType,
    BrussConfig, DBConfig, RoutingConfig, RoutingType, TTConfig,
};
