//! Generation of the query constants and accessor routines that append to and
//! remove from the list and set columns of a record type.
pub mod text;
pub mod query;
pub mod generate;
pub mod tokens;
