//! Rendering pipeline for PDF reports: a template engine with custom
//! helpers (array length, set-intersection membership, localized-string
//! lookup), a localization registry flattened from an INI-style source,
//! and an orchestrator that names the output document, hands the rendered
//! HTML to an external converter, and interprets the converter's outcome.
pub mod engine;
pub mod helpers;
pub mod i18n;
pub mod service;
pub mod text;
pub mod value;
