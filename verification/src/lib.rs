//! Structured records from the pages of a film-cataloguing site: text and URL
//! helpers, record extraction, keyed and ordered collections, and the
//! pagination rules that decide when a listing has been read to its end.
//!
//! The library fetches nothing. It names the address to request, reads the
//! page that came back, and says whether to go on.

pub mod collection;
pub mod common;
pub mod engine;
pub mod extract;
pub mod html;
pub mod models;
pub mod numeric;
pub mod pages;
pub mod record;
pub mod run;
pub mod text;
pub mod utils;

pub use common::Error;
pub use models::{Films, List, Movie, Search, User};
