use crate::division::{divides_exactly, exact_quotient};
use vstd::prelude::*;

verus! {

/// A value that may be missing: exactly one of `Present` or `Absent`.
#[derive(Debug, PartialEq, Eq, Structural)]
pub enum Optional<T> {
    Present(T),
    Absent,
}

impl<T> Optional<T> {
    /// The wrapped value; meaningful only for `Present`.
    pub open spec fn value(self) -> T
        recommends
            self is Present,
    {
        self->Present_0
    }

    /// The wrapped value, or `default` when there is none.
    pub open spec fn value_or(self, default: T) -> T {
        match self {
            Optional::Present(v) => v,
            Optional::Absent => default,
        }
    }

    /// Whether a value is present.
    pub fn is_present(&self) -> (r: bool)
        ensures
            r == (*self is Present),
    {
        match self {
            Optional::Present(_) => true,
            Optional::Absent => false,
        }
    }

    /// The wrapped value. Calling this on `Absent` is a contract violation,
    /// ruled out statically by the precondition.
    pub fn get(self) -> (r: T)
        requires
            self is Present,
        ensures
            r == self.value(),
    {
        match self {
            Optional::Present(v) => v,
            Optional::Absent => unreached(),
        }
    }

    /// The wrapped value, or `default` when there is none.
    pub fn get_or_else(self, default: T) -> (r: T)
        ensures
            r == self.value_or(default),
    {
        match self {
            Optional::Present(v) => v,
            Optional::Absent => default,
        }
    }

    /// Applies `f` to the wrapped value; `Absent` stays `Absent` and `f` is
    /// not called.
    pub fn map<U, F: FnOnce(T) -> U>(self, f: F) -> (r: Optional<U>)
        requires
            self matches Optional::Present(v) ==> f.requires((v,)),
        ensures
            match self {
                Optional::Present(v) => r matches Optional::Present(u) && f.ensures((v,), u),
                Optional::Absent => r is Absent,
            },
    {
        match self {
            Optional::Present(v) => Optional::Present(f(v)),
            Optional::Absent => Optional::Absent,
        }
    }

    /// Exhaustive dispatch: calls `on_present` with the value when there is
    /// one, `on_absent` otherwise, and returns what the called handler
    /// returned.
    pub fn match_with<U, P: FnOnce(T) -> U, A: FnOnce() -> U>(self, on_present: P, on_absent: A) -> (r: U)
        requires
            match self {
                Optional::Present(v) => on_present.requires((v,)),
                Optional::Absent => on_absent.requires(()),
            },
        ensures
            match self {
                Optional::Present(v) => on_present.ensures((v,), r),
                Optional::Absent => on_absent.ensures((), r),
            },
    {
        match self {
            Optional::Present(v) => on_present(v),
            Optional::Absent => on_absent(),
        }
    }
}

/// A value put in `Present` comes back unchanged from `get` and from
/// `get_or_else`, whose default is then not used.
pub proof fn lemma_present_extracts<T>(v: T, default: T)
    ensures
        Optional::Present(v).value() == v,
        Optional::Present(v).value_or(default) == v,
{
}

/// `Absent` does not meet the precondition of `get`, and `get_or_else` on it
/// returns exactly the default.
pub proof fn lemma_absent_falls_back<T>(default: T)
    ensures
        !(Optional::<T>::Absent is Present),
        Optional::<T>::Absent.value_or(default) == default,
{
}

/// Wrapping a value in `Present` and taking it out again with `get` gives the
/// same value.
pub proof fn lemma_round_trip<T>(v: T)
    ensures
        Optional::Present(v).value() == v,
{
}

/// The exact quotient of `dividend` by `divisor`, or `Absent` when the
/// division leaves a remainder.
pub fn divide(dividend: i32, divisor: i32) -> (r: Optional<i32>)
    requires
        divisor != 0,
        !(dividend == i32::MIN && divisor == -1),
    ensures
        r is Absent <==> !divides_exactly(dividend as int, divisor as int),
        r matches Optional::Present(q) ==> q * divisor == dividend,
{
    match exact_quotient(dividend, divisor) {
        Some(q) => Optional::Present(q),
        None => Optional::Absent,
    }
}

} // verus!
