//! Conversion of fixed-size arrays into tuples of the same arity, and a
//! generator for the text of such conversions and of their tests.

mod sealed;

pub mod assemble;
pub mod emit;
pub mod text;
pub mod tier;
pub mod tuple;

pub use tuple::IntoTuple;
