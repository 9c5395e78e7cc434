//! The types of other crates that take part in the conversion.
//!
//! Each is declared here so that verified code can hold its values. Only
//! [`allo_isolate::ZeroCopyBuffer`] is declared with its field, which is
//! public; of the others nothing is known but that a value equals itself,
//! which is all that a rule that hands a value on needs.

use vstd::prelude::*;
use crate::boundary::IntoDart;
use crate::convert::IntoIntoDart;

verus! {

/// `allo_isolate::ZeroCopyBuffer`, a tuple struct around one public field:
/// the buffer that is to cross without being copied. The field is read from
/// the crate's own definition, so nothing is assumed of the type.
#[verifier::external_type_specification]
#[verifier::reject_recursive_types(T)]
pub struct ExZeroCopyBuffer<T>(allo_isolate::ZeroCopyBuffer<T>);

/// `allo_isolate::ffi::DartCObject`, a Dart object laid out as the Dart VM
/// reads it. Declared without its fields.
#[verifier::external_type_specification]
#[verifier::external_body]
pub struct ExDartCObject(allo_isolate::ffi::DartCObject);

/// `wasm_bindgen::JsValue`, a reference to a value that lives in JavaScript.
/// Declared without its fields.
#[verifier::external_type_specification]
#[verifier::external_body]
pub struct ExJsValue(wasm_bindgen::JsValue);

/// `uuid::Uuid`, a universally unique identifier. Declared without its field.
#[verifier::external_type_specification]
#[verifier::external_body]
pub struct ExUuid(uuid::Uuid);

/// `backtrace::Backtrace`, a captured call stack. Declared without its field.
#[verifier::external_type_specification]
#[verifier::external_body]
pub struct ExBacktrace(backtrace::Backtrace);

/// `chrono::TimeDelta`, a span of time, which chrono also calls `Duration`.
/// Declared without its fields.
#[verifier::external_type_specification]
#[verifier::external_body]
pub struct ExTimeDelta(chrono::TimeDelta);

/// `chrono::NaiveDateTime`, a date and time of day without a time zone.
/// Declared without its fields.
#[verifier::external_type_specification]
#[verifier::external_body]
pub struct ExNaiveDateTime(chrono::NaiveDateTime);

// A zero-copy buffer can cross where it holds integers in a vector or in an
// array: those are the buffers that Dart can take over as typed data.
impl IntoDart for allo_isolate::ZeroCopyBuffer<Vec<i8>> {
}

impl<const C: usize> IntoDart for allo_isolate::ZeroCopyBuffer<[i8; C]> {
}

impl IntoDart for allo_isolate::ZeroCopyBuffer<Vec<u8>> {
}

impl<const C: usize> IntoDart for allo_isolate::ZeroCopyBuffer<[u8; C]> {
}

impl IntoDart for allo_isolate::ZeroCopyBuffer<Vec<i16>> {
}

impl<const C: usize> IntoDart for allo_isolate::ZeroCopyBuffer<[i16; C]> {
}

impl IntoDart for allo_isolate::ZeroCopyBuffer<Vec<u16>> {
}

impl<const C: usize> IntoDart for allo_isolate::ZeroCopyBuffer<[u16; C]> {
}

impl IntoDart for allo_isolate::ZeroCopyBuffer<Vec<i32>> {
}

impl<const C: usize> IntoDart for allo_isolate::ZeroCopyBuffer<[i32; C]> {
}

impl IntoDart for allo_isolate::ZeroCopyBuffer<Vec<u32>> {
}

impl<const C: usize> IntoDart for allo_isolate::ZeroCopyBuffer<[u32; C]> {
}

impl IntoDart for allo_isolate::ZeroCopyBuffer<Vec<i64>> {
}

impl<const C: usize> IntoDart for allo_isolate::ZeroCopyBuffer<[i64; C]> {
}

impl IntoDart for allo_isolate::ZeroCopyBuffer<Vec<u64>> {
}

impl<const C: usize> IntoDart for allo_isolate::ZeroCopyBuffer<[u64; C]> {
}

impl IntoDart for allo_isolate::ZeroCopyBuffer<Vec<usize>> {
}

impl<const C: usize> IntoDart for allo_isolate::ZeroCopyBuffer<[usize; C]> {
}

/// A zero-copy buffer is opened, its content converted, and closed again.
impl<T, D> IntoIntoDart<allo_isolate::ZeroCopyBuffer<D>> for allo_isolate::ZeroCopyBuffer<T> where
    T: IntoIntoDart<D>,
    D: IntoDart,
    allo_isolate::ZeroCopyBuffer<D>: IntoDart,
 {
    open spec fn converts_to(self, d: allo_isolate::ZeroCopyBuffer<D>) -> bool {
        self.0.converts_to(d.0)
    }

    fn into_into_dart(self) -> (d: allo_isolate::ZeroCopyBuffer<D>)
        ensures
            self.0.converts_to(d.0),
    {
        allo_isolate::ZeroCopyBuffer(self.0.into_into_dart())
    }
}

impl IntoDart for allo_isolate::ffi::DartCObject {
}

/// A Dart object in the VM's own layout converts to itself.
impl IntoIntoDart<allo_isolate::ffi::DartCObject> for allo_isolate::ffi::DartCObject {
    open spec fn converts_to(self, d: allo_isolate::ffi::DartCObject) -> bool {
        d == self
    }

    fn into_into_dart(self) -> (d: allo_isolate::ffi::DartCObject)
        ensures
            d == self,
    {
        self
    }
}

impl IntoDart for wasm_bindgen::JsValue {
}

/// A reference to a JavaScript value converts to itself.
impl IntoIntoDart<wasm_bindgen::JsValue> for wasm_bindgen::JsValue {
    open spec fn converts_to(self, d: wasm_bindgen::JsValue) -> bool {
        d == self
    }

    fn into_into_dart(self) -> (d: wasm_bindgen::JsValue)
        ensures
            d == self,
    {
        self
    }
}

impl IntoDart for uuid::Uuid {
}

/// An identifier converts to itself.
impl IntoIntoDart<uuid::Uuid> for uuid::Uuid {
    open spec fn converts_to(self, d: uuid::Uuid) -> bool {
        d == self
    }

    fn into_into_dart(self) -> (d: uuid::Uuid)
        ensures
            d == self,
    {
        self
    }
}

impl IntoDart for backtrace::Backtrace {
}

/// A captured call stack converts to itself.
impl IntoIntoDart<backtrace::Backtrace> for backtrace::Backtrace {
    open spec fn converts_to(self, d: backtrace::Backtrace) -> bool {
        d == self
    }

    fn into_into_dart(self) -> (d: backtrace::Backtrace)
        ensures
            d == self,
    {
        self
    }
}

impl IntoDart for chrono::Duration {
}

/// A span of time converts to itself.
impl IntoIntoDart<chrono::Duration> for chrono::Duration {
    open spec fn converts_to(self, d: chrono::Duration) -> bool {
        d == self
    }

    fn into_into_dart(self) -> (d: chrono::Duration)
        ensures
            d == self,
    {
        self
    }
}

impl IntoDart for chrono::NaiveDateTime {
}

/// A date and time without a zone converts to itself.
impl IntoIntoDart<chrono::NaiveDateTime> for chrono::NaiveDateTime {
    open spec fn converts_to(self, d: chrono::NaiveDateTime) -> bool {
        d == self
    }

    fn into_into_dart(self) -> (d: chrono::NaiveDateTime)
        ensures
            d == self,
    {
        self
    }
}

} // verus!
