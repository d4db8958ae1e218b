//! What every part of the library shares: constants of the site, the error
//! type, and the reading of a response's status.

pub mod client;
pub mod constants;
pub mod error;

pub use error::Error;
