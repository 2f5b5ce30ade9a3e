use crate::division::{divides_exactly, exact_quotient};
use vstd::prelude::*;

verus! {

/// Why a division could not produce a result.
#[derive(Debug, PartialEq, Eq, Structural)]
pub enum DivideError {
    /// The divisor does not divide the dividend without remainder.
    DivisionNotExact,
}

/// The outcome of an operation that may fail: exactly one of `Success` with a
/// value or `Failure` with a typed error.
#[derive(Debug, PartialEq, Eq, Structural)]
pub enum Fallible<T, E> {
    Success(T),
    Failure(E),
}

impl<T, E> Fallible<T, E> {
    /// The success value; meaningful only for `Success`.
    pub open spec fn value(self) -> T
        recommends
            self is Success,
    {
        self->Success_0
    }

    /// The success value, or `default` on failure.
    pub open spec fn value_or(self, default: T) -> T {
        match self {
            Fallible::Success(v) => v,
            Fallible::Failure(_) => default,
        }
    }

    /// Whether the operation succeeded.
    pub fn is_success(&self) -> (r: bool)
        ensures
            r == (*self is Success),
    {
        match self {
            Fallible::Success(_) => true,
            Fallible::Failure(_) => false,
        }
    }

    /// The success value. Calling this on `Failure` is a contract violation,
    /// ruled out statically by the precondition.
    pub fn get(self) -> (r: T)
        requires
            self is Success,
        ensures
            r == self.value(),
    {
        match self {
            Fallible::Success(v) => v,
            Fallible::Failure(_) => unreached(),
        }
    }

    /// The success value, or `default` on failure.
    pub fn get_or_else(self, default: T) -> (r: T)
        ensures
            r == self.value_or(default),
    {
        match self {
            Fallible::Success(v) => v,
            Fallible::Failure(_) => default,
        }
    }

    /// Applies `f` to the success value; a `Failure` is passed on with the
    /// same error and `f` is not called.
    pub fn map<U, F: FnOnce(T) -> U>(self, f: F) -> (r: Fallible<U, E>)
        requires
            self matches Fallible::Success(v) ==> f.requires((v,)),
        ensures
            match self {
                Fallible::Success(v) => r matches Fallible::Success(u) && f.ensures((v,), u),
                Fallible::Failure(e) => r == Fallible::<U, E>::Failure(e),
            },
    {
        match self {
            Fallible::Success(v) => Fallible::Success(f(v)),
            Fallible::Failure(e) => Fallible::Failure(e),
        }
    }

    /// Exhaustive dispatch: calls `on_success` with the value or `on_failure`
    /// with the error, and returns what the called handler returned.
    pub fn match_with<U, S: FnOnce(T) -> U, G: FnOnce(E) -> U>(self, on_success: S, on_failure: G) -> (r: U)
        requires
            match self {
                Fallible::Success(v) => on_success.requires((v,)),
                Fallible::Failure(e) => on_failure.requires((e,)),
            },
        ensures
            match self {
                Fallible::Success(v) => on_success.ensures((v,), r),
                Fallible::Failure(e) => on_failure.ensures((e,), r),
            },
    {
        match self {
            Fallible::Success(v) => on_success(v),
            Fallible::Failure(e) => on_failure(e),
        }
    }
}

/// A value put in `Success` comes back unchanged from `get` and from
/// `get_or_else`, whose default is then not used.
pub proof fn lemma_success_extracts<T, E>(v: T, default: T)
    ensures
        Fallible::<T, E>::Success(v).value() == v,
        Fallible::<T, E>::Success(v).value_or(default) == v,
{
}

/// A `Failure` does not meet the precondition of `get`, and `get_or_else` on
/// it returns exactly the default.
pub proof fn lemma_failure_falls_back<T, E>(e: E, default: T)
    ensures
        !(Fallible::<T, E>::Failure(e) is Success),
        Fallible::<T, E>::Failure(e).value_or(default) == default,
{
}

/// Wrapping a value in `Success` and taking it out again with `get` gives the
/// same value.
pub proof fn lemma_round_trip<T, E>(v: T)
    ensures
        Fallible::<T, E>::Success(v).value() == v,
{
}

/// The exact quotient of `dividend` by `divisor`, or
/// `Failure(DivisionNotExact)` when the division leaves a remainder.
pub fn divide(dividend: i32, divisor: i32) -> (r: Fallible<i32, DivideError>)
    requires
        divisor != 0,
        !(dividend == i32::MIN && divisor == -1),
    ensures
        r is Failure <==> !divides_exactly(dividend as int, divisor as int),
        r is Failure ==> r == Fallible::<i32, DivideError>::Failure(DivideError::DivisionNotExact),
        r matches Fallible::Success(q) ==> q * divisor == dividend,
{
    match exact_quotient(dividend, divisor) {
        Some(q) => Fallible::Success(q),
        None => Fallible::Failure(DivideError::DivisionNotExact),
    }
}

} // verus!
