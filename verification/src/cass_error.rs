use vstd::prelude::*;

verus! {

/// Status code returned by every fallible operation of this crate.
///
/// A call that returns anything other than `CASS_OK` leaves the state it was
/// given unchanged.
#[allow(non_camel_case_types)]
#[derive(Clone, Copy, Debug, PartialEq, Eq, Structural)]
pub enum CassError {
    CASS_OK,
    CASS_ERROR_LIB_BAD_PARAMS,
    CASS_ERROR_LIB_INDEX_OUT_OF_BOUNDS,
}

} // verus!
