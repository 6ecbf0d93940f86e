//! The relational rows, one type per table.  Each table has a generated
//! integer key; a row that is not stored yet carries the key 0.

pub mod cpu;
pub mod network;
pub mod registry;
pub mod system;
