//! Request routing for an image proxy: a query string names an object in a
//! storage bucket, the object is fetched, handed to an image engine with the
//! whole query as its command, and the engine's output becomes the reply.
//!
//! The fetch and the image engine are run by the caller; this crate decides
//! what to ask of them and what to answer.

pub mod text;
pub mod locator;
pub mod query;
pub mod handler;
