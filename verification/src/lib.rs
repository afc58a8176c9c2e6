//! Verified PostgREST client-side library: the client configuration, the
//! targets of table and stored-procedure queries, and the errors of checked
//! execution.

pub mod builder;
pub mod client;
pub mod error;
pub mod header;
pub mod transport;
pub mod laws;

pub use builder::Builder;
pub use client::Postgrest;
pub use error::{ExecuteError, ResponseMetadata};
pub use reqwest;
pub use rp_postgrest_error;
pub use rp_postgrest_error::{DecodeError, PostgrestError};
