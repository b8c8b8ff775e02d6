//! A verified text content-block type for a block-based content system.
//!
//! A text block is a parent record linked by named property edges to two
//! child data blocks, one holding its name and one holding its content.
//! This library resolves those edges, decides per viewer whether each child
//! may be edited, composes the page, embed and creation-form display shapes,
//! and creates new text blocks from a JSON payload.

pub mod block;
pub mod display;
pub mod gate;
pub mod laws;
pub mod model;
pub mod payload;
pub mod resolver;
pub mod store;
