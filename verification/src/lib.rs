//! Validation rules, SQL script splitting and schema-migration planning for a
//! local issue tracker, with their contracts proved by Verus.

pub mod text;
pub mod sql_split;
pub mod model;
pub mod error;
pub mod id;
pub mod paths;
pub mod validation;
pub mod schema;
