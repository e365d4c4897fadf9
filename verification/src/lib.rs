//! Expansion of an annotated account-handler module. The tagged methods of the
//! handler's implementation blocks are classified into publish targets; the
//! handler registration, the client surface and one message struct per
//! published method are appended to the module's declarations.
//!
//! - `model`: the syntax model and its mathematical views
//! - `tags`: tag extraction and the classification of methods
//! - `message`: names and fields of message structs
//! - `expand`: the expansion itself
//! - `render`: the source text of what was synthesized
//! - `markers`: the stand-alone markers and the diagnostics
//! - `laws`: what holds of every expansion

pub mod model;
pub mod tags;
pub mod message;
pub mod expand;
pub mod render;
pub mod markers;
pub mod laws;
