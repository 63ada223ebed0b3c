//! The error that a command handler reports, with a flag that says whether
//! its text may be shown to the caller of the command.

use vstd::prelude::*;

verus! {

/// An error of a command, carrying the underlying error value.
///
/// A reportable error is one that the command raised on purpose for its
/// caller to see; one made by conversion from any other error is not.
#[derive(Debug)]
pub struct BinIpcError<E> {
    is_reportable: bool,
    boxed: E,
}

impl<E> BinIpcError<E> {
    /// Whether the error may be reported to the caller.
    pub closed spec fn spec_is_reportable(self) -> bool {
        self.is_reportable
    }

    /// The underlying error.
    pub closed spec fn spec_inner(self) -> E {
        self.boxed
    }

    /// Gives back the underlying error.
    pub fn into_inner(self) -> (r: E)
        ensures
            r == self.spec_inner(),
    {
        return self.boxed;
    }

    /// Whether the error may be reported to the caller.
    pub fn is_reportable(&self) -> (r: bool)
        ensures
            r == self.spec_is_reportable(),
    {
        self.is_reportable
    }

    /// Wraps `err` as an error that may be reported to the caller.
    pub fn new_reportable(err: E) -> (r: Self)
        ensures
            r.spec_is_reportable(),
            r.spec_inner() == err,
    {
        Self { is_reportable: true, boxed: err }
    }

    /// Wraps `err` as an error that is not to be reported, as the
    /// conversion from any other error does.
    pub fn from_error(err: E) -> (r: Self)
        ensures
            !r.spec_is_reportable(),
            r.spec_inner() == err,
    {
        Self { is_reportable: false, boxed: err }
    }
}

impl<E> From<E> for BinIpcError<E> {
    fn from(value: E) -> (r: Self) {
        Self::from_error(value)
    }
}

impl<E> vstd::std_specs::convert::FromSpecImpl<E> for BinIpcError<E> {
    open spec fn obeys_from_spec() -> bool {
        true
    }

    open spec fn from_spec(v: E) -> Self {
        BinIpcError::<E>::from_error_spec(v)
    }
}

impl<E> BinIpcError<E> {
    /// The error that the conversion from `err` makes.
    pub closed spec fn from_error_spec(err: E) -> Self {
        Self { is_reportable: false, boxed: err }
    }

    /// The conversion makes an error that is not reportable and holds `err`.
    pub proof fn lemma_from_error_spec(err: E)
        ensures
            !Self::from_error_spec(err).spec_is_reportable(),
            Self::from_error_spec(err).spec_inner() == err,
    {
    }
}

} // verus!
