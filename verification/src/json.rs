//! JSON values as trees of plain data.
//!
//! [`JsonView`] is the mathematical tree that contracts speak of, [`Json`]
//! the value that programs hold. Texts are parsed and written by
//! `serde_json`, whose interface is declared in [`backend`].

pub mod backend;
pub mod laws;
pub mod model;
pub mod tree;

pub use backend::{parsed, rendered};
pub use model::JsonView;
pub use tree::Json;
