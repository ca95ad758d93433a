//! The traits of every operator.

pub use super::all::AllOperator;
pub use super::any::AnyOperator;
pub use super::eq::{EqOperator, EqOperatorForContentLen};
pub use super::ge::{GeOperator, GeOperatorForContentLen};
pub use super::gt::{GtOperator, GtOperatorForContentLen};
pub use super::hd::HdOperator;
pub use super::in_::InOperator;
pub use super::le::{LeOperator, LeOperatorForContentLen};
pub use super::td::TdOperator;
