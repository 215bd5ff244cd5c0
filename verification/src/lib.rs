//! Scaffolding support: a small engine that extends an existing source
//! file with a module declaration and a route registration, plus the
//! value types that the generated tables are built from.

pub mod enum_body;
pub mod token;
pub mod signature;
pub mod item;
pub mod locate;
pub mod inject;
pub mod merge;
pub mod serialize;
pub mod syntax;
pub mod driver;
pub mod text;
pub mod code_table;
pub mod enum_table;
pub mod listing;
