//! Verified core of a multi-tenant file-storage proxy: request signing for
//! S3-compatible stores, token issuance and checking, tenant quotas and the
//! decisions the HTTP handlers make.

pub mod backends;
pub mod config;
pub mod dates;
pub mod encoding;
pub mod handlers;
pub mod ids;
pub mod jwt;
pub mod oauth;
pub mod session;
pub mod sigv4;
pub mod tenants;
pub mod text;
pub mod types;
