//! What holds of the registry and of structures as a whole, stated over the
//! spec functions that the contracts use, and proved.

use crate::error::ConversionError;
use crate::handle::Handle;
use crate::kind::StructureKind;
use crate::registry::{spec_construct, spec_resolve_tag};
use crate::structure::Structure;
use crate::tag::lemma_tag_names_its_kind;
use vstd::prelude::*;

verus! {

/// A handle resolves to a kind exactly when it carries that kind's tag: the
/// tag of every kind leads back to the kind, and to no other.
pub proof fn law_tag_round_trip(handle: Handle, kind: StructureKind)
    ensures
        spec_resolve_tag(handle) == Ok::<StructureKind, ConversionError>(kind)
            <==> handle@.structure_type == kind.spec_tag(),
{
    lemma_tag_names_its_kind(kind);
}

/// A handle whose tag is the tag of no kind is refused, as one with an
/// unrecognized tag, and no other handle is refused.
pub proof fn law_unrecognized_tag(handle: Handle)
    ensures
        (forall|kind: StructureKind| kind.spec_tag() != handle@.structure_type)
            <==> Structure::spec_try_from_handle(handle) is Err,
        Structure::spec_try_from_handle(handle) matches Err(e) ==> e
            == ConversionError::UnrecognizedTag,
{
}

/// What is constructed for a kind is of that kind, and unwrapping it gives
/// back the very handle that went in.
pub proof fn law_unwrap_identity(kind: StructureKind, handle: Handle)
    ensures
        spec_construct(kind, handle).spec_kind() == kind,
        spec_construct(kind, handle).spec_handle() == handle,
{
}

/// A structure holds its kind and its handle and nothing besides: it is the
/// one that is constructed from the two.
pub proof fn law_structure_is_kind_and_handle(structure: Structure)
    ensures
        structure == spec_construct(structure.spec_kind(), structure.spec_handle()),
{
}

/// A structure that was taken from a handle has the kind that the handle's
/// tag names, and wraps that handle.
pub proof fn law_taken_structure_agrees(handle: Handle)
    ensures
        Structure::spec_try_from_handle(handle) matches Ok(s) ==> {
            &&& s.tag_agrees()
            &&& s.spec_handle() == handle
            &&& s.spec_kind().spec_tag() == handle@.structure_type
        },
{
}

} // verus!
