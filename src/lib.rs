//! Generation of `find_by_<field>` / `find_all_by_<field>` lookup functions
//! for record types that map onto a database table.
mod text;
pub mod attrs;
pub mod definition;
pub mod emit;
pub mod error;
pub mod laws;
pub mod table;
pub mod transform;
pub use transform::findable_by;
