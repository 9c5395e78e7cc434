//! The rules for the leaves that std provides: each crosses as it is.

use vstd::prelude::*;
use crate::convert::IntoIntoDart;

verus! {

/// An unsigned byte converts to itself.
impl IntoIntoDart<u8> for u8 {
    open spec fn converts_to(self, d: u8) -> bool {
        d == self
    }

    fn into_into_dart(self) -> (d: u8)
        ensures
            d == self,
    {
        self
    }
}

/// A signed byte converts to itself.
impl IntoIntoDart<i8> for i8 {
    open spec fn converts_to(self, d: i8) -> bool {
        d == self
    }

    fn into_into_dart(self) -> (d: i8)
        ensures
            d == self,
    {
        self
    }
}

/// An unsigned 16-bit integer converts to itself.
impl IntoIntoDart<u16> for u16 {
    open spec fn converts_to(self, d: u16) -> bool {
        d == self
    }

    fn into_into_dart(self) -> (d: u16)
        ensures
            d == self,
    {
        self
    }
}

/// A signed 16-bit integer converts to itself.
impl IntoIntoDart<i16> for i16 {
    open spec fn converts_to(self, d: i16) -> bool {
        d == self
    }

    fn into_into_dart(self) -> (d: i16)
        ensures
            d == self,
    {
        self
    }
}

/// An unsigned 32-bit integer converts to itself.
impl IntoIntoDart<u32> for u32 {
    open spec fn converts_to(self, d: u32) -> bool {
        d == self
    }

    fn into_into_dart(self) -> (d: u32)
        ensures
            d == self,
    {
        self
    }
}

/// A signed 32-bit integer converts to itself.
impl IntoIntoDart<i32> for i32 {
    open spec fn converts_to(self, d: i32) -> bool {
        d == self
    }

    fn into_into_dart(self) -> (d: i32)
        ensures
            d == self,
    {
        self
    }
}

/// An unsigned 64-bit integer converts to itself.
impl IntoIntoDart<u64> for u64 {
    open spec fn converts_to(self, d: u64) -> bool {
        d == self
    }

    fn into_into_dart(self) -> (d: u64)
        ensures
            d == self,
    {
        self
    }
}

/// A signed 64-bit integer converts to itself.
impl IntoIntoDart<i64> for i64 {
    open spec fn converts_to(self, d: i64) -> bool {
        d == self
    }

    fn into_into_dart(self) -> (d: i64)
        ensures
            d == self,
    {
        self
    }
}

/// A pointer-sized unsigned integer converts to itself.
impl IntoIntoDart<usize> for usize {
    open spec fn converts_to(self, d: usize) -> bool {
        d == self
    }

    fn into_into_dart(self) -> (d: usize)
        ensures
            d == self,
    {
        self
    }
}

/// A boolean converts to itself.
impl IntoIntoDart<bool> for bool {
    open spec fn converts_to(self, d: bool) -> bool {
        d == self
    }

    fn into_into_dart(self) -> (d: bool)
        ensures
            d == self,
    {
        self
    }
}

/// The unit value converts to itself.
impl IntoIntoDart<()> for () {
    open spec fn converts_to(self, d: ()) -> bool {
        d == self
    }

    fn into_into_dart(self) -> (d: ())
        ensures
            d == self,
    {
        self
    }
}

/// A string converts to itself.
impl IntoIntoDart<String> for String {
    open spec fn converts_to(self, d: String) -> bool {
        d == self
    }

    fn into_into_dart(self) -> (d: String)
        ensures
            d == self,
    {
        self
    }
}

} // verus!
