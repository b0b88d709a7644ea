//! An interactive command processor over one in-memory key-value table.

pub mod exec;
pub mod query;
pub mod session;
pub mod table;
pub mod text;
