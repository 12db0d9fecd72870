//! A catalog of image assets with bounded, expiring caches for their bytes and for resized
//! renderings, a coalescing reload pipeline and a sliding window of request times.

pub mod text;
pub mod error;
pub mod config;
pub mod models;
pub mod ident;
pub mod mime;
pub mod catalog;
pub mod window;
pub mod cache;
pub mod clock;
pub mod render;
pub mod metrics;
pub mod service;
pub mod reload;
pub mod handlers;
