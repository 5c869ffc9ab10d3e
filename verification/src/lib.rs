//! Conversion of Notion block trees into A2UI v0.9 components.
pub mod common;
pub mod outside;
pub mod id;
pub mod catalog;
pub mod notion;
pub mod color;
pub mod rich_text;
pub mod blocks;
pub mod convert;
pub mod surface;
pub mod message;
pub mod stream;
pub mod laws;
pub mod minimal;
pub mod rendering_laws;
