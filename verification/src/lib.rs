//! Identifiers, layout arithmetic and element decisions of a browser engine.

pub mod app_unit;
pub mod embed;
pub mod flow;
pub mod id;
pub mod servo;
pub mod text;
