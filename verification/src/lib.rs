//! Verified core of a personal book-tracking tool: record models, their
//! database encodings, validation rules, change planning and rendering.

pub mod ids;
pub mod junction;
pub mod validate;
pub mod timestamp;
pub mod sort;
pub mod text;
pub mod records;
pub mod progress;
pub mod names;
pub mod backup;
pub mod export;
pub mod config;
pub mod commands;
pub mod openlib_schema;
pub mod openlibrary;
pub mod prompt;
pub mod option_to_create;
pub mod catalog;
pub mod listing;
pub mod isbn;
pub mod render;
pub mod display;
pub mod forms;
pub mod price;
pub mod queries;
