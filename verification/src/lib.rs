//! Planning and checking logic behind the `view!` / `component!` message DSL:
//! the element registry, the child rules, the button and select-menu laws,
//! "did you mean" suggestions, the runtime child-rule checks and the small
//! wire-format validators used by the builder wrappers.

pub mod text;
pub mod suggest;
pub mod view_support;
pub mod data_uri;
pub mod json_tag;
pub mod tree;
pub mod view_error;
pub mod registry;
pub mod attrs;
pub mod plan;
pub mod leaf;
pub mod select;
pub mod action_row;
pub mod embed;
pub mod v2;
pub mod root;
pub mod laws;
pub mod setters;
