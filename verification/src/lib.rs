//! An embedded Sedna XML database: the decisions that drive the database
//! server's lifecycle, its configuration, and the client protocol.

pub mod binaries;
pub mod config;
pub mod error;
pub mod protocol;
pub mod server;
pub mod text;

pub use error::{Result, SednaError};
