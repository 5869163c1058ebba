//! The verified core of the abylab terminal client.

pub mod app;
pub mod appearance;
pub mod attachments;
pub mod backend;
pub mod bus;
pub mod clipboard;
pub mod commands;
pub mod content_laws;
pub mod controller;
pub mod credential_laws;
pub mod credentials;
pub mod data;
pub mod driver_laws;
pub mod events;
pub mod file_laws;
pub mod file_ref;
pub mod input;
pub mod locale;
pub mod measure;
pub mod path;
pub mod picker;
pub mod runtime;
pub mod selection;
pub mod selection_laws;
pub mod staging;
pub mod text;
pub mod transcript;
pub mod word_laws;
