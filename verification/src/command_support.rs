//! Values that generated command code hands around: the errors of argument
//! decoding, the adapters that bring every command's return value to a
//! `Result`, and the folding of a finished task's nested result.

use vstd::prelude::*;
use std::marker::PhantomData;
use crate::bin_ipc_error::BinIpcError;
use crate::text::str_eq;
use vstd::string::StringSliceAdditionalSpecFns;

verus! {

/// A command was called without one of its arguments.
#[derive(Debug, Clone, Copy, PartialEq, Eq)]
pub struct MissingArgumentError {
    pub command_name: &'static str,
    pub arg_name: &'static str,
}

impl MissingArgumentError {
    /// "missing argument `{arg_name}` of command `{command_name}`".
    pub fn message(&self) -> (r: String)
        ensures
            r@ == "missing argument `"@ + self.arg_name@ + "` of command `"@ + self.command_name@
                + "`"@,
    {
        let mut s = String::from_str("missing argument `");
        s.append(self.arg_name);
        s.append("` of command `");
        s.append(self.command_name);
        s.append("`");
        s
    }
}

/// The decoded argument `arg_name` of command `command_name`: its value
/// when the payload held it, else the error that it is missing.
pub fn take_argument<T>(slot: Option<T>, command_name: &'static str, arg_name: &'static str) -> (r:
    Result<T, MissingArgumentError>)
    ensures
        match slot {
            Some(v) => r == Ok::<T, MissingArgumentError>(v),
            None => r == Err::<T, MissingArgumentError>(MissingArgumentError { command_name, arg_name }),
        },
{
    match slot {
        Some(v) => Ok(v),
        None => Err(MissingArgumentError { command_name, arg_name }),
    }
}

/// The position of the payload key `key` among the argument names `names`:
/// the first name with the same bytes, or `None` for a key that names no
/// argument, which the decoder reports as an unknown field.
pub fn argument_index(names: &[&str], key: &str) -> (r: Option<usize>)
    ensures
        match r {
            Some(i) => {
                &&& i < names@.len()
                &&& names@[i as int].spec_bytes() == key.spec_bytes()
                &&& forall|j: int| 0 <= j < i ==> #[trigger] names@[j].spec_bytes() != key.spec_bytes()
            },
            None => forall|j: int| 0 <= j < names@.len() ==> #[trigger] names@[j].spec_bytes() != key.spec_bytes(),
        },
{
    let n = names.len();
    let mut i: usize = 0;
    while i < n
        invariant
            n == names@.len(),
            i <= n,
            forall|j: int| 0 <= j < i ==> #[trigger] names@[j].spec_bytes() != key.spec_bytes(),
        decreases n - i,
    {
        if str_eq(names[i], key) {
            return Some(i);
        }
        i = i + 1;
    }
    None
}

/// No command of the given name is registered.
#[derive(Debug, PartialEq, Eq)]
pub struct NoSuchCommandError(pub String);

impl NoSuchCommandError {
    /// "Command `{name}` does not exists."
    pub fn message(&self) -> (r: String)
        ensures
            r@ == "Command `"@ + self.0@ + "` does not exists."@,
    {
        let mut s = String::from_str("Command `");
        s.append(self.0.as_str());
        s.append("` does not exists.");
        s
    }
}

/// The marker error of an argument type that is never decoded from the
/// payload.
pub struct ShouldNotBeDeserlialized<T>(PhantomData<T>);

impl<T> ShouldNotBeDeserlialized<T> {
    /// The marker.
    pub fn new() -> Self {
        Self(PhantomData)
    }

    /// "The type `{type_name}` should not be deserlialized.", where the
    /// caller passes the name of `T`.
    pub fn message(&self, type_name_of_t: &str) -> (r: String)
        ensures
            r@ == "The type `"@ + type_name_of_t@ + "` should not be deserlialized."@,
    {
        let mut s = String::from_str("The type `");
        s.append(type_name_of_t);
        s.append("` should not be deserlialized.");
        s
    }
}

/// An error that cannot happen: it has no values.
pub type NeverFail = std::convert::Infallible;

/// Brings the return value of a command that returns `Result` to a `Result`.
pub struct WrapResult<T>(pub PhantomData<T>);

/// Brings the return value of a command that cannot fail to a `Result`.
pub struct WrapResultNeverFail<T>(PhantomData<T>);

impl<T, E> WrapResult<Result<T, E>> {
    /// A `Result` stays as it is.
    pub fn wrap(&self, value: Result<T, E>) -> (r: Result<T, E>)
        ensures
            r == value,
    {
        value
    }
}

impl<T> WrapResult<T> {
    /// The adapter for a command whose return value is not a `Result`.
    pub fn never_fail(&self) -> WrapResultNeverFail<T> {
        WrapResultNeverFail(PhantomData)
    }
}

impl<T> std::ops::Deref for WrapResult<T> {
    type Target = WrapResultNeverFail<T>;

    /// A value whose type is not a `Result` falls through to the adapter
    /// that wraps it in `Ok`.
    fn deref(&self) -> &WrapResultNeverFail<T> {
        &WrapResultNeverFail(PhantomData)
    }
}

impl<T> WrapResultNeverFail<T> {
    /// Any other value succeeds.
    pub fn wrap(&self, value: T) -> (r: Result<T, NeverFail>)
        ensures
            r == Ok::<T, NeverFail>(value),
    {
        Ok(value)
    }
}

/// The adapter for the return type `T` of a command.
pub fn wrap_result<T>() -> WrapResult<T> {
    WrapResult(PhantomData)
}

/// Folds the outcome of a command's task: its own result, or the failure
/// of the task itself, which becomes an error not to be reported.
pub fn flatten_join_result<T, E>(r: Result<Result<T, BinIpcError<E>>, E>) -> (out: Result<
    T,
    BinIpcError<E>,
>)
    ensures
        match r {
            Ok(Ok(v)) => out == Ok::<T, BinIpcError<E>>(v),
            Ok(Err(e)) => out == Err::<T, BinIpcError<E>>(e),
            Err(e) => out == Err::<T, BinIpcError<E>>(BinIpcError::<E>::from_error_spec(e)),
        },
{
    match r {
        Ok(Ok(v)) => Ok(v),
        Ok(Err(e)) => Err(e),
        Err(e) => Err(BinIpcError::from(e)),
    }
}

/// One of two futures; whichever is held is the one that runs.
pub enum OrFuture<F0, F1> {
    F0(F0),
    F1(F1),
}

/// How a stream listener ended, when it did not end cleanly.
#[derive(Debug)]
pub enum ListenerError<J, E> {
    /// The listener's task failed.
    Tauri(J),
    /// The listener returned its own error.
    Custom(E),
}

/// Folds the outcome of a listener's task: its own result, or the failure
/// of the task itself.
pub fn listener_outcome<J, E>(r: Result<Result<(), E>, J>) -> (out: Result<(), ListenerError<J, E>>)
    ensures
        match r {
            Ok(Ok(())) => out == Ok::<(), ListenerError<J, E>>(()),
            Ok(Err(e)) => out == Err::<(), ListenerError<J, E>>(ListenerError::Custom(e)),
            Err(j) => out == Err::<(), ListenerError<J, E>>(ListenerError::Tauri(j)),
        },
{
    match r {
        Ok(Ok(())) => Ok(()),
        Ok(Err(e)) => Err(ListenerError::Custom(e)),
        Err(j) => Err(ListenerError::Tauri(j)),
    }
}

/// Builds an argument of type `Self` from the application handle `H`.
pub trait FromAppHandle<H>: Sized {
    fn from_app_handle(app: &H) -> Self;
}

/// Picks, for an argument type `T`, whether it is taken from the
/// application handle (`from_app_handle` gives `Some`) or decoded from the
/// payload (the fallback gives `None`).
pub struct FromAppHandleProxy<R, T>(PhantomData<(R, T)>);

/// The fallback of [`FromAppHandleProxy`] for types that are decoded from
/// the payload.
pub struct FromAppHandleProxyFallback<R, T>(PhantomData<(R, T)>);

/// The proxy for the argument type `T`.
pub fn from_app_handle_proxy<R, T>() -> FromAppHandleProxy<R, T> {
    FromAppHandleProxy(PhantomData)
}

impl<R, T: FromAppHandle<R>> FromAppHandleProxy<R, T> {
    /// A type that can be built from the handle is built from it: the
    /// result holds what `T::from_app_handle` returns for `app`.
    pub fn from_app_handle(&self, app: &R) -> (r: Option<T>)
        ensures
            r matches Some(v) && call_ensures(T::from_app_handle, (app,), v),
    {
        Some(T::from_app_handle(app))
    }
}

impl<R, T> FromAppHandleProxy<R, T> {
    /// The fallback, for types that cannot be built from the handle.
    pub fn fallback(&self) -> FromAppHandleProxyFallback<R, T> {
        FromAppHandleProxyFallback(PhantomData)
    }
}

impl<R, T> std::ops::Deref for FromAppHandleProxy<R, T> {
    type Target = FromAppHandleProxyFallback<R, T>;

    /// A type that cannot be built from the handle falls through to the
    /// fallback.
    fn deref(&self) -> &FromAppHandleProxyFallback<R, T> {
        &FromAppHandleProxyFallback(PhantomData)
    }
}

impl<R, T> FromAppHandleProxyFallback<R, T> {
    /// Any other type is not built from the handle.
    pub fn from_app_handle(&self, app: &R) -> (r: Option<T>)
        ensures
            r is None,
    {
        None
    }
}

} // verus!
