//! The linear cell and its combinator algebra.

use vstd::prelude::*;

verus! {

/// A linear type that must be destructured to access the inner value.
///
/// Linear types are a way to enforce that a value is used exactly once.
/// A cell is *live* for exactly as long as it exists: every combinator
/// consumes the cell it is called on and wraps its result in a new live
/// cell, and the two terminal operations ([`Linear::into_inner`] and
/// [`Linear::destroy`]) are the only sanctioned ways to end a cell's life.
/// The payload is reachable only through the cell, so no value can be
/// consumed twice.
#[derive(Debug, PartialEq, Eq, PartialOrd, Ord, Hash)]
#[must_use]
pub struct Linear<T> {
    payload: T,
}

impl<T> View for Linear<T> {
    type V = T;

    closed spec fn view(&self) -> T {
        self.payload
    }
}

/// The cell that wrapping a value produces: the model of [`Linear::new`].
pub closed spec fn wrapped<T>(v: T) -> Linear<T> {
    Linear { payload: v }
}

impl<T> Linear<T> {
    /// Creates a new linear cell wrapping `inner`. The cell is live and must
    /// eventually be destructured.
    pub fn new(inner: T) -> (r: Self)
        ensures
            r == wrapped(inner),
            r@ == inner,
    {
        Linear { payload: inner }
    }

    /// Returns a reference to the inner value without consuming the cell.
    pub fn get_ref(&self) -> (r: &T)
        ensures
            *r == self@,
    {
        &self.payload
    }

    /// Destructures the cell and returns the inner value. This terminal
    /// operation must eventually be reached on every chain of cells.
    pub fn into_inner(self) -> (r: T)
        ensures
            r == self@,
    {
        self.payload
    }

    /// Extracts the inner value and drops it. The other sanctioned terminal
    /// operation: it ends the chain without handing the payload out.
    pub fn destroy(self) {
        let _inner = self.payload;
    }

    /// Transforms one linear cell into another: the inner value is passed to
    /// `f` and the return value is wrapped in a new live cell.
    pub fn map<F: FnOnce(T) -> R, R>(self, f: F) -> (r: Linear<R>)
        requires
            call_requires(f, (self@,)),
        ensures
            call_ensures(f, (self@,), r@),
    {
        Linear::new(f(self.into_inner()))
    }

    /// Observes the inner value through `f` without consuming it, and hands
    /// the same cell back for further chaining.
    pub fn inspect<F: FnOnce(&T)>(self, f: F) -> (r: Self)
        requires
            call_requires(f, (&self@,)),
        ensures
            r == self,
            call_ensures(f, (&self@,), ()),
    {
        f(&self.payload);
        self
    }

    /// Splits one cell into two: `f` divides the inner value into two parts,
    /// and each part is wrapped in its own live cell, individually subject to
    /// the exactly-once discipline.
    pub fn splice<F: FnOnce(T) -> (R, S), R, S>(self, f: F) -> (r: (Linear<R>, Linear<S>))
        requires
            call_requires(f, (self@,)),
        ensures
            call_ensures(f, (self@,), (r.0@, r.1@)),
    {
        let (left, right) = f(self.into_inner());
        (Linear::new(left), Linear::new(right))
    }

    /// Consumes two live cells together: `f` combines the two inner values,
    /// and the combined value is wrapped in a new live cell.
    pub fn merge<T2, R, F: FnOnce(T, T2) -> R>(self, other: Linear<T2>, f: F) -> (r: Linear<R>)
        requires
            call_requires(f, (self@, other@)),
        ensures
            call_ensures(f, (self@, other@), r@),
    {
        Linear::new(f(self.into_inner(), other.into_inner()))
    }
}

impl<T, E> Linear<Result<T, E>> {
    /// Transforms a `Linear<Result<T, E>>` into a `Linear<Result<R, E>>` by
    /// applying `f` to an `Ok` value. Retains an `Err` value unchanged, in
    /// which case `f` is never invoked.
    pub fn map_ok<F: FnOnce(T) -> Result<R, E>, R>(self, f: F) -> (r: Linear<Result<R, E>>)
        requires
            self@ matches Ok(t) ==> call_requires(f, (t,)),
        ensures
            self@ matches Ok(t) ==> call_ensures(f, (t,), r@),
            self@ matches Err(e) ==> r@ == Result::<R, E>::Err(e),
    {
        match self.into_inner() {
            Ok(t) => Linear::new(f(t)),
            Err(e) => Linear::new(Err(e)),
        }
    }

    /// Transforms a `Linear<Result<T, E>>` into a `Linear<Result<T, R>>` by
    /// applying `f` to an `Err` value. Retains an `Ok` value unchanged, in
    /// which case `f` is never invoked.
    pub fn map_err<F: FnOnce(E) -> Result<T, R>, R>(self, f: F) -> (r: Linear<Result<T, R>>)
        requires
            self@ matches Err(e) ==> call_requires(f, (e,)),
        ensures
            self@ matches Err(e) ==> call_ensures(f, (e,), r@),
            self@ matches Ok(t) ==> r@ == Result::<T, R>::Ok(t),
    {
        match self.into_inner() {
            Ok(t) => Linear::new(Ok(t)),
            Err(e) => Linear::new(f(e)),
        }
    }
}

impl<T, E: std::fmt::Debug> Linear<Result<T, E>> {
    /// Unwraps a `Linear<Result<T, E>>` into a `Linear<T>`. The payload must
    /// be known to hold the `Ok` branch: asserting the wrong branch is a
    /// logical precondition failure, not a discipline violation.
    pub fn unwrap_ok(self) -> (r: Linear<T>)
        requires
            self@ is Ok,
        ensures
            self@ matches Ok(t) ==> r@ == t,
    {
        match self.into_inner() {
            Ok(t) => Linear::new(t),
            Err(_) => vstd::pervasive::unreached(),
        }
    }
}

impl<T: std::fmt::Debug, E> Linear<Result<T, E>> {
    /// Unwraps a `Linear<Result<T, E>>` into a `Linear<E>`. The payload must
    /// be known to hold the `Err` branch.
    pub fn unwrap_err(self) -> (r: Linear<E>)
        requires
            self@ is Err,
        ensures
            self@ matches Err(e) ==> r@ == e,
    {
        match self.into_inner() {
            Ok(_) => vstd::pervasive::unreached(),
            Err(e) => Linear::new(e),
        }
    }
}

impl<T> Linear<Option<T>> {
    /// Transforms a `Linear<Option<T>>` into a `Linear<Option<R>>` by
    /// applying `f` to a `Some` value. Retains a `None` value, in which case
    /// `f` is never invoked.
    pub fn map_some<F: FnOnce(T) -> Option<R>, R>(self, f: F) -> (r: Linear<Option<R>>)
        requires
            self@ matches Some(t) ==> call_requires(f, (t,)),
        ensures
            self@ matches Some(t) ==> call_ensures(f, (t,), r@),
            self@ is None ==> r@ == Option::<R>::None,
    {
        match self.into_inner() {
            Some(t) => Linear::new(f(t)),
            None => Linear::new(None),
        }
    }

    /// Supplies a fallback for the absent case: applies `f` when the payload
    /// is `None` and retains a `Some` value unchanged, in which case `f` is
    /// never invoked.
    pub fn or_else<F: FnOnce() -> Option<T>>(self, f: F) -> (r: Self)
        requires
            self@ is None ==> call_requires(f, ()),
        ensures
            self@ matches Some(t) ==> r@ == Option::Some(t),
            self@ is None ==> call_ensures(f, (), r@),
    {
        match self.into_inner() {
            Some(t) => Linear::new(Some(t)),
            None => Linear::new(f()),
        }
    }

    /// Unwraps a `Linear<Option<T>>` into a `Linear<T>`. The payload must be
    /// known to hold a present value.
    pub fn unwrap_some(self) -> (r: Linear<T>)
        requires
            self@ is Some,
        ensures
            self@ matches Some(t) ==> r@ == t,
    {
        match self.into_inner() {
            Some(t) => Linear::new(t),
            None => vstd::pervasive::unreached(),
        }
    }
}

/// Law: destructuring succeeds silently and undoes wrapping. The view of a
/// freshly wrapped value — which is exactly what [`Linear::into_inner`]
/// returns for the cell — is that value itself.
pub proof fn lemma_wrap_then_destructure<T>(v: T)
    ensures
        wrapped(v)@ == v,
{
}

/// Law: `map` applies its function and re-wraps the result. If every value
/// `f` can return is `g` of its argument, then the cell that mapping `f` over
/// a cell wrapping `v` produces wraps exactly `g(v)`.
pub proof fn lemma_map_applies<T, R, F: FnOnce(T) -> R>(
    f: F,
    g: spec_fn(T) -> R,
    v: T,
    mapped: Linear<R>,
)
    requires
        forall|x: T, y: R| call_ensures(f, (x,), y) ==> y == g(x),
        call_ensures(f, (wrapped(v)@,), mapped@),
    ensures
        mapped@ == g(v),
{
}

/// Law: `map_ok` routes by branch. With `f` implementing `g`, mapping the
/// success channel of a cell wrapping `Ok(x)` produces a cell wrapping
/// `g(x)`, while for a cell wrapping `Err(e)` the error passes through
/// unchanged.
pub proof fn lemma_map_ok_routes<T, E, R, F: FnOnce(T) -> Result<R, E>>(
    f: F,
    g: spec_fn(T) -> Result<R, E>,
    v: Result<T, E>,
    mapped: Linear<Result<R, E>>,
)
    requires
        forall|x: T, y: Result<R, E>| call_ensures(f, (x,), y) ==> y == g(x),
        wrapped(v)@ matches Ok(t) ==> call_ensures(f, (t,), mapped@),
        wrapped(v)@ matches Err(e) ==> mapped@ == Result::<R, E>::Err(e),
    ensures
        v matches Ok(t) ==> mapped@ == g(t),
        v matches Err(e) ==> mapped@ == Result::<R, E>::Err(e),
{
}

/// Law: `unwrap_ok` owes success exactly on the success branch. A cell
/// wrapping `Ok(x)` meets the precondition of [`Linear::unwrap_ok`] and the
/// cell it returns wraps `x` itself; a cell wrapping `Err(e)` fails that
/// precondition, so no verified caller can assert the success branch of it —
/// at runtime the wrong branch is the asserting, non-guard failure.
pub proof fn lemma_unwrap_ok_branches<T, E>(x: T, e: E, unwrapped: Linear<T>)
    requires
        wrapped(Ok::<T, E>(x))@ matches Ok(t) ==> unwrapped@ == t,
    ensures
        wrapped(Ok::<T, E>(x))@ is Ok,
        unwrapped@ == x,
        !(wrapped(Err::<T, E>(e))@ is Ok),
{
}

/// Law: splice followed by merge round-trips. If `f` implements the split
/// `s`, `g` implements the join `j`, and `j` undoes `s` at `v`, then splicing
/// a cell wrapping `v` into two cells and merging those back with `g`
/// reconstructs a cell wrapping `v` itself.
pub proof fn lemma_splice_merge_round_trip<T, R, S, F: FnOnce(T) -> (R, S), G: FnOnce(R, S) -> T>(
    f: F,
    g: G,
    s: spec_fn(T) -> (R, S),
    j: spec_fn(R, S) -> T,
    v: T,
    left: Linear<R>,
    right: Linear<S>,
    merged: Linear<T>,
)
    requires
        forall|x: T, y: (R, S)| call_ensures(f, (x,), y) ==> y == s(x),
        forall|x1: R, x2: S, y: T| call_ensures(g, (x1, x2), y) ==> y == j(x1, x2),
        j(s(v).0, s(v).1) == v,
        call_ensures(f, (wrapped(v)@,), (left@, right@)),
        call_ensures(g, (left@, right@), merged@),
    ensures
        merged@ == v,
{
    assert((left@, right@) == s(v));
}

} // verus!
