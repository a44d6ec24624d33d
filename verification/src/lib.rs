//! Verified core of the Furtherance time tracker's task store: the sort
//! settings of task listings, the SQL text and parameters that the store
//! sends, the cleaning of the fields of a group edit, and the check that an
//! opened database has the task table layout that the application needs.

pub mod sort;
pub mod text;
pub mod queries;
pub mod schema;
pub mod group;
