//! Why a value of the host could not be taken for a structure.

use vstd::prelude::*;

verus! {

/// The reason for which a conversion from the host's side failed.
#[derive(Clone, Copy, Debug, PartialEq, Eq, Hash, Structural)]
pub enum ConversionError {
    /// The raw value is no reference to an object of the host.
    NotAHandle,
    /// The object's type tag is the tag of no kind of structure known here.
    /// The host may have gained a kind since; asking again gives the same
    /// answer.
    UnrecognizedTag,
}

} // verus!
