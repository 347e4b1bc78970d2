//! Link-preview metadata resolution: a tolerant HTML metadata extractor, a
//! fetch policy that falls back from a direct fetch to a rendered one, and a
//! cache-aside layer, all as verified functions over plain values.

pub mod model;
pub mod extract;
pub mod error;
pub mod settings;
pub mod resolve;
pub mod laws;
