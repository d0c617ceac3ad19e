//! Verified core of the turntf messaging SDK.

pub mod client;
pub mod dispatch;
pub mod errors;
pub mod http;
pub mod http_mapping;
pub mod json;
pub mod mapping;
pub mod password;
pub mod relay;
pub mod requests;
pub mod store;
pub mod text;
pub mod types;
pub mod validation;
pub mod wire;
