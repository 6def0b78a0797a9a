//! The controller's entry points.

use vstd::prelude::*;

verus! {

pub enum LacError {
    SdkError,
    Uninitialized,
}

pub type LacResult<T> = Result<T, LacError>;

/// Brings the controller up. There is nothing yet that could fail.
pub fn lac_init() -> (result: LacResult<()>)
    ensures
        result is Ok,
{
    Ok(())
}

/// Asks the chips what they are. There is nothing yet that could fail.
pub fn lac_query_chip_info() -> (result: LacResult<()>)
    ensures
        result is Ok,
{
    Ok(())
}

} // verus!
