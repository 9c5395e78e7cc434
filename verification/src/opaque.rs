//! Handles: values that cross the boundary without being looked into.

use vstd::prelude::*;
use std::sync::Arc;
use crate::boundary::{DartSafe, IntoDart};
use crate::convert::IntoIntoDart;

verus! {

/// A shared handle to a Rust value that Dart holds without seeing inside.
///
/// The payload lives in a shared allocation; the handle is a reference to it.
pub struct RustOpaque<T: DartSafe> {
    ptr: Arc<T>,
}

impl<T: DartSafe> View for RustOpaque<T> {
    type V = T;

    /// The payload that the handle refers to.
    closed spec fn view(&self) -> T {
        *self.ptr
    }
}

impl<T: DartSafe> RustOpaque<T> {
    /// Moves `value` into a shared allocation and returns the handle to it.
    pub fn new(value: T) -> (handle: Self)
        ensures
            handle@ == value,
    {
        RustOpaque { ptr: Arc::new(value) }
    }

    /// The payload, borrowed for as long as the handle is.
    pub fn payload(&self) -> (payload: &T)
        ensures
            *payload == self@,
    {
        &*self.ptr
    }
}

impl<T: DartSafe> IntoDart for RustOpaque<T> {
}

/// A shared handle crosses as it is, with the payload it had.
impl<T> IntoIntoDart<RustOpaque<T>> for RustOpaque<T> where T: DartSafe {
    open spec fn converts_to(self, d: RustOpaque<T>) -> bool {
        d == self
    }

    fn into_into_dart(self) -> (d: RustOpaque<T>)
        ensures
            d == self,
            d@ == self@,
    {
        self
    }
}

/// A handle to an object that lives on the Dart side.
///
/// Rust cannot look at the object. The handle holds the number under which
/// the Dart runtime gave it out.
pub struct DartOpaque {
    handle: usize,
}

impl View for DartOpaque {
    type V = usize;

    /// The number that names the Dart object.
    closed spec fn view(&self) -> usize {
        self.handle
    }
}

impl DartOpaque {
    /// The handle for the Dart object that the runtime gave out as `handle`.
    pub fn new(handle: usize) -> (opaque: Self)
        ensures
            opaque@ == handle,
    {
        DartOpaque { handle }
    }

    /// The number that names the Dart object.
    pub fn handle(&self) -> (handle: usize)
        ensures
            handle == self@,
    {
        self.handle
    }
}

impl IntoDart for DartOpaque {
}

/// A handle to a Dart object crosses as it is.
impl IntoIntoDart<DartOpaque> for DartOpaque {
    open spec fn converts_to(self, d: DartOpaque) -> bool {
        d == self
    }

    fn into_into_dart(self) -> (d: DartOpaque)
        ensures
            d == self,
            d@ == self@,
    {
        self
    }
}

} // verus!
