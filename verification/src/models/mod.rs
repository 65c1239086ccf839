//! The data model of the Interactions API.

pub mod content;
pub mod shared;
pub mod request;
pub mod metadata;
pub mod media;
pub mod response;
pub mod streaming;
pub mod generate;
