//! Lowering of nested values into the shapes that can cross to Dart.
//!
//! A value headed for the Dart side may be wrapped in any number of
//! containers: sequences, optional values, tuples, arrays, boxes, shared
//! handles, zero-copy buffers. [`IntoIntoDart`] has one rule per container and
//! one per leaf type, and the compiler picks the rule for every layer from the
//! value's type alone. A shape without a rule does not compile, so a
//! conversion that compiles cannot fail.
//!
//! Every rule states in its contract what it returns, through the relation
//! [`IntoIntoDart::converts_to`]; the module [`laws`] proves what follows for
//! nested shapes.

pub mod boundary;
pub mod convert;
pub mod foreign;
pub mod laws;
pub mod leaves;
pub mod opaque;

pub use boundary::{DartSafe, IntoDart};
pub use convert::IntoIntoDart;
pub use opaque::{DartOpaque, RustOpaque};
