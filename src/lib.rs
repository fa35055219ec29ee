//! Builds signed URLs for an image transformation service: a set of
//! options is written as a canonical path, signed, and put after the origin.

pub mod endpoint;
pub mod error;
pub mod filter;
pub mod geometry;
pub mod metadata;
pub mod server;
pub mod signing;
pub mod text;
pub mod uri;

pub use endpoint::{Endpoint, EndpointBuilder};
pub use error::Error;
pub use filter::Filter;
pub use geometry::{Point, Rect};
pub use server::{Security, Server};
