//! Connection settings for a brokerage trading API: where the service lives
//! and the credentials that authenticate against it.

pub mod api_info;
pub mod error;
pub mod url_parse;

pub use api_info::{ApiInfo, ApiInfoView, EnvEntry};
pub use error::{Error, ErrorView};
