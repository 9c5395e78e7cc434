//! The conversion trait and its rules for containers.

use vstd::prelude::*;
use crate::boundary::IntoDart;

verus! {

/// Conversion of a value into the shape `D` in which it crosses to Dart.
///
/// The rules in this crate cover the containers and the leaf types; a type of
/// the caller's own joins them by implementing the trait, and is from then on
/// converted wherever it is nested.
pub trait IntoIntoDart<D: IntoDart>: Sized {
    /// Whether `d` is what `self` converts to.
    ///
    /// This is the meaning of the rule for `Self`. A leaf relates a value to
    /// itself; a container relates two containers of one shape whose items
    /// are related, position by position. Every rule of this crate says what
    /// it relates. A rule that leaves the relation as it is here says nothing
    /// of its result, and nothing can then be proved of it.
    open spec fn converts_to(self, d: D) -> bool {
        true
    }

    /// Converts `self`, which is consumed.
    fn into_into_dart(self) -> (d: D)
        ensures
            self.converts_to(d),
    ;
}

/// A sequence converts item by item; the items keep their number and their
/// order.
impl<T, D> IntoIntoDart<Vec<D>> for Vec<T> where T: IntoIntoDart<D>, Vec<D>: IntoDart, D: IntoDart {
    open spec fn converts_to(self, d: Vec<D>) -> bool {
        &&& d@.len() == self@.len()
        &&& forall|i: int|
            #![trigger self@[i]]
            #![trigger d@[i]]
            0 <= i < self@.len() ==> self@[i].converts_to(d@[i])
    }

    fn into_into_dart(self) -> (d: Vec<D>)
        ensures
            d@.len() == self@.len(),
            forall|i: int|
                #![trigger self@[i]]
                #![trigger d@[i]]
                0 <= i < self@.len() ==> self@[i].converts_to(d@[i]),
    {
        let mut converted: Vec<D> = Vec::new();
        for item in items: self.into_iter()
            invariant
                items.seq() == self@,
                converted@.len() == items.index(),
                forall|i: int|
                    #![trigger self@[i]]
                    #![trigger converted@[i]]
                    0 <= i < converted@.len() ==> self@[i].converts_to(converted@[i]),
        {
            converted.push(item.into_into_dart());
        }
        converted
    }
}

/// An optional value stays absent, or stays present with its content
/// converted.
impl<T, D> IntoIntoDart<Option<D>> for Option<T> where T: IntoIntoDart<D>, D: IntoDart {
    open spec fn converts_to(self, d: Option<D>) -> bool {
        match self {
            Some(value) => d is Some && value.converts_to(d->0),
            None => d is None,
        }
    }

    fn into_into_dart(self) -> (d: Option<D>)
        ensures
            self is None ==> d is None,
            self is Some ==> d is Some && self->0.converts_to(d->0),
    {
        match self {
            Some(value) => Some(value.into_into_dart()),
            None => None,
        }
    }
}

/// An array of items that can cross as they are is left as it is.
impl<T, const C: usize> IntoIntoDart<[T; C]> for [T; C] where T: IntoDart, [T; C]: IntoDart {
    open spec fn converts_to(self, d: [T; C]) -> bool {
        d == self
    }

    fn into_into_dart(self) -> (d: [T; C])
        ensures
            d == self,
    {
        self
    }
}

/// A box gives up its content: what comes out is the bare value, and the box
/// is gone.
impl<T> IntoIntoDart<T> for Box<T> where T: IntoDart {
    open spec fn converts_to(self, d: T) -> bool {
        d == *self
    }

    fn into_into_dart(self) -> (d: T)
        ensures
            d == *self,
    {
        *self
    }
}

/// A pair converts slot by slot.
impl<A, AD, B, BD> IntoIntoDart<(AD, BD)> for (A, B) where
    A: IntoIntoDart<AD>,
    AD: IntoDart,
    B: IntoIntoDart<BD>,
    BD: IntoDart,
 {
    open spec fn converts_to(self, d: (AD, BD)) -> bool {
        &&& self.0.converts_to(d.0)
        &&& self.1.converts_to(d.1)
    }

    fn into_into_dart(self) -> (d: (AD, BD))
        ensures
            self.0.converts_to(d.0),
            self.1.converts_to(d.1),
    {
        (self.0.into_into_dart(), self.1.into_into_dart())
    }
}

/// A triple converts slot by slot.
impl<A, AD, B, BD, C, CD> IntoIntoDart<(AD, BD, CD)> for (A, B, C) where
    A: IntoIntoDart<AD>,
    AD: IntoDart,
    B: IntoIntoDart<BD>,
    BD: IntoDart,
    C: IntoIntoDart<CD>,
    CD: IntoDart,
 {
    open spec fn converts_to(self, d: (AD, BD, CD)) -> bool {
        &&& self.0.converts_to(d.0)
        &&& self.1.converts_to(d.1)
        &&& self.2.converts_to(d.2)
    }

    fn into_into_dart(self) -> (d: (AD, BD, CD))
        ensures
            self.0.converts_to(d.0),
            self.1.converts_to(d.1),
            self.2.converts_to(d.2),
    {
        (self.0.into_into_dart(), self.1.into_into_dart(), self.2.into_into_dart())
    }
}

/// A tuple of four converts slot by slot.
impl<A, AD, B, BD, C, CD, D, DD> IntoIntoDart<(AD, BD, CD, DD)> for (A, B, C, D) where
    A: IntoIntoDart<AD>,
    AD: IntoDart,
    B: IntoIntoDart<BD>,
    BD: IntoDart,
    C: IntoIntoDart<CD>,
    CD: IntoDart,
    D: IntoIntoDart<DD>,
    DD: IntoDart,
 {
    open spec fn converts_to(self, d: (AD, BD, CD, DD)) -> bool {
        &&& self.0.converts_to(d.0)
        &&& self.1.converts_to(d.1)
        &&& self.2.converts_to(d.2)
        &&& self.3.converts_to(d.3)
    }

    fn into_into_dart(self) -> (d: (AD, BD, CD, DD))
        ensures
            self.0.converts_to(d.0),
            self.1.converts_to(d.1),
            self.2.converts_to(d.2),
            self.3.converts_to(d.3),
    {
        (
            self.0.into_into_dart(),
            self.1.into_into_dart(),
            self.2.into_into_dart(),
            self.3.into_into_dart(),
        )
    }
}

/// A tuple of five converts slot by slot.
impl<A, AD, B, BD, C, CD, D, DD, E, ED> IntoIntoDart<(AD, BD, CD, DD, ED)> for (A, B, C, D, E) where
    A: IntoIntoDart<AD>,
    AD: IntoDart,
    B: IntoIntoDart<BD>,
    BD: IntoDart,
    C: IntoIntoDart<CD>,
    CD: IntoDart,
    D: IntoIntoDart<DD>,
    DD: IntoDart,
    E: IntoIntoDart<ED>,
    ED: IntoDart,
 {
    open spec fn converts_to(self, d: (AD, BD, CD, DD, ED)) -> bool {
        &&& self.0.converts_to(d.0)
        &&& self.1.converts_to(d.1)
        &&& self.2.converts_to(d.2)
        &&& self.3.converts_to(d.3)
        &&& self.4.converts_to(d.4)
    }

    fn into_into_dart(self) -> (d: (AD, BD, CD, DD, ED))
        ensures
            self.0.converts_to(d.0),
            self.1.converts_to(d.1),
            self.2.converts_to(d.2),
            self.3.converts_to(d.3),
            self.4.converts_to(d.4),
    {
        (
            self.0.into_into_dart(),
            self.1.into_into_dart(),
            self.2.into_into_dart(),
            self.3.into_into_dart(),
            self.4.into_into_dart(),
        )
    }
}

} // verus!
