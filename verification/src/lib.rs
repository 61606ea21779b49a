//! Core logic of the covey command palette: keyed lists, hotkey parsing,
//! list selection arithmetic, plugin list bookkeeping, the host's
//! query/response ordering, the launcher window's decisions, and the names
//! and types of the code generated from plugin manifests.

pub mod result_list;
pub mod text;
pub mod commands;
pub mod id;
pub mod keyed_list;
pub mod proto;
pub mod plugin;
pub mod store;
pub mod host;
pub mod gui;
pub mod tauri_types;
pub mod config;
pub mod settings;
pub mod manifest;
pub mod naming;
pub mod macro_args;
pub mod visits;
pub mod type_path;
pub mod field_model;
pub mod style;
