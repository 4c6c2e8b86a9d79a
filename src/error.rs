//! The one recoverable failure of the marshalling layer.
use vstd::prelude::*;

use crate::c_string::NulError;

verus! {

/// A value that cannot be put into its boundary form.
#[derive(PartialEq, Eq, Structural, Debug, Clone, Copy)]
pub enum Error {
    /// Text holds a nul byte, here its first one, and so cannot be nul-terminated.
    InteriorNul { position: usize },
}

impl From<NulError> for Error {
    fn from(e: NulError) -> (r: Error) {
        Error::InteriorNul { position: e.nul_position() }
    }
}

impl vstd::std_specs::convert::FromSpecImpl<NulError> for Error {
    open spec fn obeys_from_spec() -> bool {
        true
    }

    open spec fn from_spec(e: NulError) -> Error {
        Error::InteriorNul { position: e.spec_nul_position() }
    }
}

} // verus!
