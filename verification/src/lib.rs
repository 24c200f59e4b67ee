//! Bilingual portfolio content: the document model, per-language resolution,
//! loading, and the values each page section displays.

pub mod components;
pub mod content;
pub mod language;
pub mod pages;
pub mod route;
pub mod store;
pub mod text;
