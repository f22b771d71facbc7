pub mod error;
pub mod machine;
pub mod headers;
pub mod profiles;
pub mod anisette;
pub mod session;
pub mod config;
pub mod provider;
pub mod scripted;
