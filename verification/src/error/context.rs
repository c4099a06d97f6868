//! Shortcuts that turn the failure inside a `Result` or an empty `Option`
//! into a structured error, or put more context on one.

use super::{Cause, DakiaError, ErrorType, ErrorView};
use vstd::prelude::*;

verus! {

/// Puts more context on the error of a result.
pub trait Context<T>: Sized {
    /// On `Err`, wraps the error in a new link that carries what `context`
    /// returns. `context` is not called on `Ok`.
    fn err_context<F: FnOnce() -> String>(self, context: F) -> Result<T, Box<DakiaError>>
        requires
            call_requires(context, ()),
    ;
}

impl<T> Context<T> for Result<T, Box<DakiaError>> {
    fn err_context<F: FnOnce() -> String>(self, context: F) -> (r: Result<T, Box<DakiaError>>)
        ensures
            match self {
                Ok(v) => r == Ok::<T, Box<DakiaError>>(v),
                Err(e) => r matches Err(wrapped) && exists|c: String|
                    call_ensures(context, (), c) && wrapped@ == e@.wrapped(c@),
            },
    {
        match self {
            Ok(v) => Ok(v),
            Err(e) => {
                let c = context();
                Err(e.more_context(c.as_str()))
            },
        }
    }
}

/// Turns the failure of a result into a structured error that has the
/// failure as its cause.
pub trait OrErr<T, E>: Sized {
    /// On `Err`, an error of kind `et` with the given context, caused by
    /// the failure.
    fn or_err(self, et: ErrorType, context: &'static str) -> Result<T, Box<DakiaError>>;

    /// As [`OrErr::or_err`], with the context that `context` returns.
    /// `context` is not called on `Ok`.
    fn or_err_with<F: FnOnce() -> String>(self, et: ErrorType, context: F) -> Result<
        T,
        Box<DakiaError>,
    >
        requires
            call_requires(context, ()),
    ;

    /// On `Err`, an error of kind `et` without a cause, whose context is
    /// what `context` makes of the failure.
    fn explain_err<F: FnOnce(E) -> String>(self, et: ErrorType, context: F) -> Result<
        T,
        Box<DakiaError>,
    >
        requires
            forall|e: E| call_requires(context, (e,)),
    ;

    /// On `Err`, an internal error with an empty context, caused by the
    /// failure.
    fn or_fail(self) -> Result<T, Box<DakiaError>>;
}

impl<T> OrErr<T, Cause> for Result<T, Cause> {
    fn or_err(self, et: ErrorType, context: &'static str) -> (r: Result<T, Box<DakiaError>>)
        ensures
            match self {
                Ok(v) => r == Ok::<T, Box<DakiaError>>(v),
                Err(cause) => r matches Err(e) && e@ == ErrorView::caused(et, context@, cause@),
            },
    {
        match self {
            Ok(v) => Ok(v),
            Err(cause) => Err(DakiaError::because(et, context, cause)),
        }
    }

    fn or_err_with<F: FnOnce() -> String>(self, et: ErrorType, context: F) -> (r: Result<
        T,
        Box<DakiaError>,
    >)
        ensures
            match self {
                Ok(v) => r == Ok::<T, Box<DakiaError>>(v),
                Err(cause) => r matches Err(e) && exists|c: String|
                    call_ensures(context, (), c) && e@ == ErrorView::caused(et, c@, cause@),
            },
    {
        match self {
            Ok(v) => Ok(v),
            Err(cause) => {
                let c = context();
                Err(DakiaError::because(et, c.as_str(), cause))
            },
        }
    }

    fn explain_err<F: FnOnce(Cause) -> String>(self, et: ErrorType, context: F) -> (r: Result<
        T,
        Box<DakiaError>,
    >)
        ensures
            match self {
                Ok(v) => r == Ok::<T, Box<DakiaError>>(v),
                Err(cause) => r matches Err(e) && exists|c: String|
                    call_ensures(context, (cause,), c) && e@ == ErrorView::explained(et, c@),
            },
    {
        match self {
            Ok(v) => Ok(v),
            Err(cause) => {
                let c = context(cause);
                Err(DakiaError::explain(et, c.as_str()))
            },
        }
    }

    fn or_fail(self) -> (r: Result<T, Box<DakiaError>>)
        ensures
            match self {
                Ok(v) => r == Ok::<T, Box<DakiaError>>(v),
                Err(cause) => r matches Err(e) && e@ == ErrorView::caused(
                    ErrorType::InternalError,
                    Seq::empty(),
                    cause@,
                ),
            },
    {
        match self {
            Ok(v) => Ok(v),
            Err(cause) => {
                proof {
                    reveal_strlit("");
                    assert(""@ =~= Seq::<char>::empty());
                }
                Err(DakiaError::because(ErrorType::InternalError, "", cause))
            },
        }
    }
}

/// Turns an empty option into a structured error.
pub trait OkOrErr<T>: Sized {
    /// On `None`, an error of kind `et` with the given context.
    fn or_err(self, et: ErrorType, context: &'static str) -> Result<T, Box<DakiaError>>;

    /// As [`OkOrErr::or_err`], with the context that `context` returns.
    /// `context` is not called on `Some`.
    fn or_err_with<F: FnOnce() -> String>(self, et: ErrorType, context: F) -> Result<
        T,
        Box<DakiaError>,
    >
        requires
            call_requires(context, ()),
    ;
}

impl<T> OkOrErr<T> for Option<T> {
    fn or_err(self, et: ErrorType, context: &'static str) -> (r: Result<T, Box<DakiaError>>)
        ensures
            match self {
                Some(v) => r == Ok::<T, Box<DakiaError>>(v),
                None => r matches Err(e) && e@ == ErrorView::explained(et, context@),
            },
    {
        match self {
            Some(v) => Ok(v),
            None => Err(DakiaError::explain(et, context)),
        }
    }

    fn or_err_with<F: FnOnce() -> String>(self, et: ErrorType, context: F) -> (r: Result<
        T,
        Box<DakiaError>,
    >)
        ensures
            match self {
                Some(v) => r == Ok::<T, Box<DakiaError>>(v),
                None => r matches Err(e) && exists|c: String|
                    call_ensures(context, (), c) && e@ == ErrorView::explained(et, c@),
            },
    {
        match self {
            Some(v) => Ok(v),
            None => {
                let c = context();
                Err(DakiaError::explain(et, c.as_str()))
            },
        }
    }
}

} // verus!
