//! A compiler for lenient JSON templates: relaxed JSON text with `$name`
//! placeholders is normalised to strict JSON, split into literal and
//! placeholder parts, and rendered against a set of named values.
//!
//! The stages and what each one computes:
//! - [`normalize`]: `sanitise`, relaxed text to strict JSON text (`normalized`);
//! - [`segment`]: `parse_to_replacement`, strict text to parts (`parts_of`);
//! - [`render`]: `render`, parts and bindings to JSON text (`rendering`), and
//!   `expand_json`, the three stages in a row;
//! - [`laws`]: what holds across the stages.
//!
//! Beside the templates stand the requests of a search engine's REST
//! interface: [`params`] holds the path parameters, [`endpoints`] the urls
//! each endpoint is reached at and its request type, and [`http`] the request
//! that every endpoint's request converts into.

pub mod bindings;
pub mod endpoints;
pub mod error;
pub mod http;
pub mod laws;
pub mod normalize;
pub mod params;
pub mod render;
pub mod segment;
pub mod text;

pub use bindings::Bindings;
pub use error::JsonError;
pub use normalize::sanitise;
pub use render::{expand_json, render};
pub use segment::{parse_to_replacement, JsonPart, ReplacementPart};
