//! Handles: references to objects that live on the host's side.

use crate::error::ConversionError;
use vstd::prelude::*;

verus! {

/// A reference to a live object of the host, with what the host reported of
/// the object when the reference was taken. The object itself stays the
/// host's: dropping a handle releases nothing there.
#[derive(Clone, Debug, PartialEq, Eq)]
pub struct Handle {
    /// The host's identifier of the object. Handles with the same identifier
    /// refer to the same object.
    pub id: i32,
    /// The type tag that the object carries.
    pub structure_type: String,
    /// Whether the host counts the object among the structures.
    pub is_structure: bool,
    /// The hit points that the host reports of the object.
    pub hits: u32,
    /// The most hit points that the object can have, as the host reports it.
    pub hits_max: u32,
}

/// What a [`Handle`] holds, with the tag as a sequence of characters.
pub struct HandleView {
    pub id: i32,
    pub structure_type: Seq<char>,
    pub is_structure: bool,
    pub hits: u32,
    pub hits_max: u32,
}

impl View for Handle {
    type V = HandleView;

    open spec fn view(&self) -> HandleView {
        HandleView {
            id: self.id,
            structure_type: self.structure_type@,
            is_structure: self.is_structure,
            hits: self.hits,
            hits_max: self.hits_max,
        }
    }
}

impl Handle {
    /// Makes a handle from what the host reported.
    pub fn new(
        id: i32,
        structure_type: &str,
        is_structure: bool,
        hits: u32,
        hits_max: u32,
    ) -> (h: Handle)
        ensures
            h@ == (HandleView {
                id,
                structure_type: structure_type@,
                is_structure,
                hits,
                hits_max,
            }),
    {
        Handle { id, structure_type: structure_type.to_owned(), is_structure, hits, hits_max }
    }

    /// Says whether the two handles refer to one object of the host. What
    /// was reported of the object, perhaps at different times, plays no part.
    pub fn same_object(&self, other: &Handle) -> (r: bool)
        ensures
            r == (self.id == other.id),
        no_unwind
    {
        self.id == other.id
    }
}

/// A value that came from the host without a type. Only a reference can be
/// taken for a structure, so the other sorts of value are told apart and hold
/// nothing.
#[derive(Clone, Debug, PartialEq, Eq)]
pub enum RawValue {
    /// The host's `undefined`.
    Undefined,
    /// The host's `null`.
    Null,
    /// A truth value.
    Bool,
    /// A number.
    Number,
    /// A symbol.
    Symbol,
    /// A string.
    Text,
    /// A reference to an object, as a handle.
    Reference(Handle),
}

impl RawValue {
    /// The handle in this value, or the error where it holds none.
    pub open spec fn spec_into_handle(self) -> Result<Handle, ConversionError> {
        match self {
            RawValue::Reference(handle) => Ok(handle),
            _ => Err(ConversionError::NotAHandle),
        }
    }

    /// Takes the value for a handle. Only a reference is one.
    pub fn into_handle(self) -> (r: Result<Handle, ConversionError>)
        ensures
            r == self.spec_into_handle(),
        no_unwind
    {
        match self {
            RawValue::Reference(handle) => Ok(handle),
            RawValue::Undefined => Err(ConversionError::NotAHandle),
            RawValue::Null => Err(ConversionError::NotAHandle),
            RawValue::Bool => Err(ConversionError::NotAHandle),
            RawValue::Number => Err(ConversionError::NotAHandle),
            RawValue::Symbol => Err(ConversionError::NotAHandle),
            RawValue::Text => Err(ConversionError::NotAHandle),
        }
    }
}

} // verus!
