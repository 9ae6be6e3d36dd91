//! Turning one value into another before a handler takes it.
use vstd::prelude::*;

use crate::context::AsyncSafe;

verus! {

/// Any value that a handler may return.
pub trait AnyRes: Send + Sync + 'static {}

impl<T: Send + Sync + 'static> AnyRes for T {}

/// A value that can be turned into a `T`.
pub trait Transform<T: AsyncSafe>: AsyncSafe {
    /// How the result relates to the value.
    spec fn transform_rel(&self, r: T) -> bool;

    fn transform(&self) -> (r: T)
        ensures
            self.transform_rel(r),
    ;
}

/// Every value turns into itself, by a clone.
impl<T: AsyncSafe> Transform<T> for T {
    open spec fn transform_rel(&self, r: T) -> bool {
        cloned(*self, r)
    }

    fn transform(&self) -> (r: T) {
        self.clone()
    }
}

/// A value that can be made from an `R`.
pub trait FromTransform<R>: AsyncSafe {
    /// How the result relates to the value it is made from.
    spec fn from_transform_rel(r: R, out: Self) -> bool;

    fn from_transform(r: R) -> (out: Self)
        ensures
            Self::from_transform_rel(r, out),
    ;
}

/// A value is made from anything that transforms into it.
impl<T: AsyncSafe, R: Transform<T>> FromTransform<R> for T {
    open spec fn from_transform_rel(r: R, out: T) -> bool {
        r.transform_rel(out)
    }

    fn from_transform(r: R) -> (out: T) {
        r.transform()
    }
}

} // verus!
