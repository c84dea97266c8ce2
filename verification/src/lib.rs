//! A thin relay for a legislative-data API: upstream JSON responses are
//! decoded into typed records with optional fields as a pre-flight shape
//! check, and on success the original text is passed on unchanged.

pub mod errors;
pub mod json;
pub mod session;
pub mod summary;
pub mod masterlist;
pub mod bill;
pub mod person;
pub mod relay;
pub mod gateway;
