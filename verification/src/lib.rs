//! Conversions between representations of a 3-D rigid-body rotation.
//!
//! The verified part of the crate covers the discrete logic of the
//! conversion engine: the twelve Euler axis orders, their case-insensitive
//! parsing with the ZYX fallback, their classification into Tait-Bryan and
//! proper Euler families, the order catalog, and the gimbal-lock labels.

pub mod catalog;
pub mod orders;

pub use catalog::get_euler_orders;
pub use catalog::version;
pub use catalog::OrderInfo;
pub use orders::EulerOrder;
pub use orders::LockType;
