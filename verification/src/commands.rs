//! Small commands that exercise every shape the command macro accepts:
//! arguments or none, a plain return value, a `Result`, or nothing.

use vstd::prelude::*;
use std::num::TryFromIntError;
use crate::bin_ipc_error::BinIpcError;

verus! {

/// Returns its argument.
pub fn simple(x: usize) -> (r: usize)
    ensures
        r == x,
{
    x
}

/// Adds `y` to `x`; a negative `y` is an error.
pub fn returns_result(x: usize, y: i32) -> (r: Result<usize, TryFromIntError>)
    requires
        y < 0 || x + y <= usize::MAX,
    ensures
        r is Err <==> y < 0,
        r matches Ok(v) ==> v == x + y,
{
    let y: usize = match y.try_into() {
        Ok(v) => v,
        Err(e) => return Err(e),
    };
    Ok(x + y)
}

/// Takes nothing and returns 0.
pub fn no_args() -> (r: usize)
    ensures
        r == 0,
{
    0
}

/// Takes nothing and returns nothing.
pub fn no_args_no_return() {
}

/// Takes the application handle and does nothing with it.
pub fn take_app_handle<H>(_app: H) {
}

/// Adds `y` to `x`; a negative `y` is an error that is reported to the
/// caller.
pub fn return_ipc_error(x: usize, y: i32) -> (r: Result<usize, BinIpcError<TryFromIntError>>)
    requires
        y < 0 || x + y <= usize::MAX,
    ensures
        r is Err <==> y < 0,
        r matches Err(e) ==> e.spec_is_reportable(),
        r matches Ok(v) ==> v == x + y,
{
    let y: usize = match y.try_into() {
        Ok(v) => v,
        Err(e) => return Err(BinIpcError::new_reportable(e)),
    };
    Ok(x + y)
}

} // verus!
