//! The two capabilities that the rules ask of the types they work on.
//!
//! Both are markers without methods: carrying a value across the boundary is
//! the bridge's business, not this library's.

use vstd::prelude::*;

verus! {

/// A shape that the bridge can carry across to Dart.
///
/// Every rule of [`crate::IntoIntoDart`] produces such a shape, and the trait
/// accepts no other type as the result of a conversion.
pub trait IntoDart {
}

/// A payload that may sit behind a [`crate::RustOpaque`] handle.
///
/// Dart may hold on to a handle for as long as it likes, and may look at the
/// payload after Rust code that used it has panicked. To implement the trait
/// for a type is to promise that this is harmless.
pub trait DartSafe {
}

impl IntoDart for u8 {
}

impl IntoDart for i8 {
}

impl IntoDart for u16 {
}

impl IntoDart for i16 {
}

impl IntoDart for u32 {
}

impl IntoDart for i32 {
}

impl IntoDart for u64 {
}

impl IntoDart for i64 {
}

impl IntoDart for usize {
}

impl IntoDart for bool {
}

impl IntoDart for () {
}

impl IntoDart for String {
}

impl<T: IntoDart> IntoDart for Vec<T> {
}

impl<T: IntoDart> IntoDart for Option<T> {
}

impl<T: IntoDart, const C: usize> IntoDart for [T; C] {
}

impl<A: IntoDart, B: IntoDart> IntoDart for (A, B) {
}

impl<A: IntoDart, B: IntoDart, C: IntoDart> IntoDart for (A, B, C) {
}

impl<A: IntoDart, B: IntoDart, C: IntoDart, D: IntoDart> IntoDart for (A, B, C, D) {
}

impl<A: IntoDart, B: IntoDart, C: IntoDart, D: IntoDart, E: IntoDart> IntoDart for (A, B, C, D, E) {
}

impl DartSafe for u8 {
}

impl DartSafe for i8 {
}

impl DartSafe for u16 {
}

impl DartSafe for i16 {
}

impl DartSafe for u32 {
}

impl DartSafe for i32 {
}

impl DartSafe for u64 {
}

impl DartSafe for i64 {
}

impl DartSafe for usize {
}

impl DartSafe for bool {
}

impl DartSafe for String {
}

} // verus!
