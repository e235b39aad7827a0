//! Validation and planning for a derive that turns a marked source field into a `From`
//! conversion recording where the conversion was invoked.
//!
//! - `location`: the recorded source position and its display form.
//! - `shape`: the structural description of a type definition and the field predicates.
//! - `validate`: the structural rules, their diagnostics, and the conversion plans.
//! - `convert`: what a planned conversion builds.
//! - `theorems`: statements that relate validation, plans and conversions.
use vstd::prelude::*;

pub mod convert;
pub mod location;
pub mod shape;
pub mod theorems;
pub mod validate;

verus! {

} // verus!
