//! The conversions between raw values, handles and structures, offered
//! through the standard traits.

use crate::error::ConversionError;
use crate::handle::{Handle, RawValue};
use crate::structure::Structure;
use vstd::prelude::*;
use vstd::std_specs::convert::{FromSpecImpl, TryFromSpecImpl};

verus! {

/// A raw value is taken for a handle where it is a reference.
impl TryFrom<RawValue> for Handle {
    type Error = ConversionError;

    fn try_from(value: RawValue) -> (r: Result<Handle, ConversionError>) {
        value.into_handle()
    }
}

impl TryFromSpecImpl<RawValue> for Handle {
    open spec fn obeys_try_from_spec() -> bool {
        true
    }

    open spec fn try_from_spec(value: RawValue) -> Result<Handle, ConversionError> {
        value.spec_into_handle()
    }
}

/// A handle is taken for a structure as [`Structure::try_from_handle`] does
/// it.
impl TryFrom<Handle> for Structure {
    type Error = ConversionError;

    fn try_from(handle: Handle) -> (r: Result<Structure, ConversionError>) {
        Structure::try_from_handle(handle)
    }
}

impl TryFromSpecImpl<Handle> for Structure {
    open spec fn obeys_try_from_spec() -> bool {
        true
    }

    open spec fn try_from_spec(handle: Handle) -> Result<Structure, ConversionError> {
        Structure::spec_try_from_handle(handle)
    }
}

/// A raw value is taken for a structure as [`Structure::try_from_value`]
/// does it.
impl TryFrom<RawValue> for Structure {
    type Error = ConversionError;

    fn try_from(value: RawValue) -> (r: Result<Structure, ConversionError>) {
        Structure::try_from_value(value)
    }
}

impl TryFromSpecImpl<RawValue> for Structure {
    open spec fn obeys_try_from_spec() -> bool {
        true
    }

    open spec fn try_from_spec(value: RawValue) -> Result<Structure, ConversionError> {
        Structure::spec_try_from_value(value)
    }
}

/// A structure is unwrapped to its handle.
impl From<Structure> for Handle {
    fn from(structure: Structure) -> (h: Handle) {
        structure.into_handle()
    }
}

impl FromSpecImpl<Structure> for Handle {
    open spec fn obeys_from_spec() -> bool {
        true
    }

    open spec fn from_spec(structure: Structure) -> Handle {
        structure.spec_handle()
    }
}

} // verus!
