//! How a name is reached.

use vstd::prelude::*;

verus! {

/// How a part of a name is accessed.
#[derive(Clone, Copy, Debug, PartialEq, Eq, Structural)]
pub enum NameAccessType {
    /// The first part of a name.
    Base,
    /// Accessed with `::`.
    Static,
    /// Accessed with `.`.
    Normal,
}

} // verus!
