//! Unit-aware arithmetic on exact decimal quantities.
//!
//! A [`quantity::Number`] pairs an arbitrary-precision decimal value with a
//! [`catalog::Unit`] tag. The catalog assigns every unit a category and a
//! conversion weight; the conversion engine and the arithmetic operators
//! enforce dimensional consistency, normalising both operands onto the
//! finer-grained of their two units before combining them.

pub mod arith;
pub mod catalog;
pub mod convert;
pub mod decimal_ops;
pub mod quantity;

pub use arith::add;
pub use arith::subtract;
pub use arith::multiply;
pub use arith::divide;
pub use arith::modulo;
pub use arith::pow;
pub use catalog::Unit;
pub use catalog::UnitType;
pub use convert::convert;
pub use convert::convert_to_lowest;
pub use quantity::ArithOp;
pub use quantity::Number;
pub use quantity::UnitError;
