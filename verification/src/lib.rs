//! Backend commands of the Bearwatch Wi-Fi monitor: a greeting, the name of
//! the configuration file, and the lookup of the API base URL in the
//! configuration's JSON text.

pub mod config;
pub mod error;
pub mod greeting;
pub mod json;

pub use config::{api_base_url, config_file_name, get_api_base_url, parse_api_base_url};
pub use error::ConfigError;
pub use greeting::greet;
