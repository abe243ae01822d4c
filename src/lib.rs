//! Image resolution and caching for a page-layout engine.
//!
//! The crate has two halves. [`cache::ImageCacheStore`] is the shared store of
//! decoded images: it hands out one request per resource, tracks loads in
//! flight, and says which listeners are to be told when a load ends.
//! [`context::LayoutContext`] is the state of one layout pass: it asks the
//! store, remembers what it learned, resolves CSS image values to sized
//! images, and queues the loads and rasterizations that the pass still needs.

pub mod cache;
pub mod context;
pub mod image;
pub mod laws;
pub mod rooted;
pub mod values;
