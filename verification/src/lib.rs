//! Verified core of a visual form designer: a hierarchical widget store
//! with a typed property table, and the rules that edit, move, delete and
//! restore widgets.

pub mod hash;
pub mod text;
pub mod align;
pub mod property;
pub mod storage;
pub mod blueprint;
pub mod index_map;
pub mod factory;
pub mod options;
pub mod message;
pub mod app;
pub mod update_ui;
pub mod update_property;
pub mod json;
pub mod serialization;
pub mod utils;
