//! Planning of single-table `UPDATE` statements: validation of the statement
//! shape, resolution of the target table and columns, binding of expressions,
//! and assembly of a logical plan together with the record layout that the
//! row-rewriting program follows.
use vstd::prelude::*;

pub mod ast;
pub mod binder;
pub mod error;
pub mod ident;
pub mod plan;
pub mod planner;
pub mod schema;
pub mod theorems;
pub mod update;

pub use error::UpdateError;
pub use update::{prepare_update_plan, translate_update};
