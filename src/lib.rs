//! Persistence mapping for character-sheet records: each record type states
//! how it becomes a row of column values and how it is rebuilt from one, and
//! a generic repository saves, fetches and deletes records and keeps the
//! many-to-many junction rows in step with what each record declares.
pub mod character;
pub mod error;
pub mod item;
pub mod junction;
pub mod language;
pub mod model;
pub mod proficiency;
pub mod repository;
pub mod sql;
pub mod store;
pub mod value;
