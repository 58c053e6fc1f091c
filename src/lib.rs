//! Core of an interactive explorer for a paginated key-value store: the
//! filter engine, the selection model, the lazy-load controller, the record
//! tree builder and the action dispatcher, all verified.

pub mod fuzzy;
pub mod action;
pub mod collections_box;
pub mod data_box;
pub mod detail_box;
pub mod dispatch;
pub mod fetch;
pub mod filter;
pub mod filter_input;
pub mod json;
pub mod loading;
pub mod message;
pub mod selection;
pub mod status;
pub mod strings;
pub mod text_input;
pub mod tree;
