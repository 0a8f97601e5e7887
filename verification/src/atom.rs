//! Identifiers of the atoms of a formula.

use vstd::prelude::*;

verus! {

/// The identifier of an atom.
pub struct AtomId();

} // verus!
