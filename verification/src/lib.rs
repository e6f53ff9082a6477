//! A fluent assembler of SQL statements, and the extraction of column/value
//! pairs from records that drives it.
//!
//! A statement is put together clause by clause through [`QueryBuilder`],
//! which [`SqlQueryBuilder`] implements. The clauses that take their
//! columns from a record read it through [`iterate_struct::iterate_struct`]:
//! each field of a recognized type contributes its name and the text of its
//! value, and every other field is passed over.

pub mod builder;
pub mod decimal;
pub mod field_map;
pub mod iterate_struct;
pub mod record;
pub mod sanitize;
pub mod text;

pub use crate::builder::{QueryBuilder, QueryError, SqlQueryBuilder};
pub use crate::field_map::FieldMap;
pub use crate::record::{Field, FieldValue, Scalar};
