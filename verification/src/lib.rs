//! Validation of field-definition records and the bookkeeping around submitting them.

pub mod api;
pub mod auth;
pub mod config;
pub mod csv_source;
pub mod error;
pub mod field;
pub mod import_result;
pub mod logging;
pub mod number;
pub mod pipeline;
pub mod readers;
pub mod rules;
pub mod screens;
pub mod text;
pub mod transformers;
