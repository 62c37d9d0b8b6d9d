//! A typed client core for an energy supplier's REST API.
//!
//! The library builds each request (URL and query pairs), forms the
//! authorization header, classifies responses and decodes JSON bodies into
//! typed records. Sending requests is left to the embedding application.

pub mod auth;
pub mod decode;
pub mod error;
pub mod json;
pub mod models;
pub mod query;
pub mod request;
pub mod response;
pub mod text;

pub use error::OctopustError;
