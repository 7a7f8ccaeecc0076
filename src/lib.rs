//! In-memory value model of a key-value store: a closed tagged union of
//! scalars, strings, arrays and string-keyed objects, with total construction
//! from native types, fallible extraction back out, and a borrowing accessor.
pub mod access;
pub mod extract;
pub mod laws;
pub mod map;
pub mod value;

pub use access::{KvsValueGet, ValueKind};
pub use map::KvsMap;
pub use value::{Float64, KvsValue, ValueModel};
