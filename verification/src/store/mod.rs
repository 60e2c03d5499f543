//! What a relational store needs of the library: the reading of rows into
//! records, the classification of its failures, and the statements of
//! partial updates.

pub mod failures;
pub mod rows;
pub mod statements;
