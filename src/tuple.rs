use vstd::prelude::*;

use crate::sealed::Sealed;

verus! {

/// Conversion of a fixed-size array, or of a borrow of one, into a tuple of the
/// same arity.
///
/// The trait is sealed: it is implemented for arrays of 0 to 12 elements and for
/// shared references to arrays of 1 to 12 elements, and for nothing else.
///
/// `elements` is the sequence that the array holds, and `slots` reads a tuple of
/// the result type back as a sequence of its positions, in order. The conversion
/// keeps every element in its place: slot `i` of the tuple is element `i` of the
/// array, and the tuple has exactly `N` slots.
pub trait IntoTuple<const N: usize, E, T>: Sealed + Sized {
    /// The elements of the array, in order.
    spec fn elements(&self) -> Seq<E>;

    /// The slots of a tuple of the result type, in order.
    spec fn slots(t: T) -> Seq<E>;

    /// Returns a tuple of the same dimension as the array.
    fn into_tuple(self) -> (t: T)
        ensures
            self.elements().len() == N,
            Self::slots(t) == self.elements(),
    ;
}

/// Moves the elements of an array into a vector.
///
/// Relies on `<Vec<E> as From<[E; N]>>::from`: the vector holds the array's
/// elements, in the array's order.
#[verifier::external_body]
fn array_into_vec<E, const N: usize>(a: [E; N]) -> (v: Vec<E>)
    ensures
        v@ == a@,
{
    Vec::from(a)
}

impl<E> Sealed for [E; 0] {}

impl<'l, E> Sealed for &'l [E; 0] {}

impl<E> IntoTuple<0, E, ()> for [E; 0] {
    open spec fn elements(&self) -> Seq<E> {
        self@
    }

    open spec fn slots(t: ()) -> Seq<E> {
        Seq::empty()
    }

    fn into_tuple(self) -> (t: ()) {
        assert(self@ =~= Seq::<E>::empty());
    }
}

impl<E> Sealed for [E; 1] {}

impl<'l, E> Sealed for &'l [E; 1] {}

impl<E> IntoTuple<1, E, (E,)> for [E; 1] {
    open spec fn elements(&self) -> Seq<E> {
        self@
    }

    open spec fn slots(t: (E,)) -> Seq<E> {
        seq![t.0]
    }

    fn into_tuple(self) -> (t: (E,)) {
        let mut v = array_into_vec(self);
        let e0 = v.remove(0);
        assert(seq![e0] =~= self@);
        (e0,)
    }
}

impl<'l, E> IntoTuple<1, E, (&'l E,)> for &'l [E; 1] {
    open spec fn elements(&self) -> Seq<E> {
        (**self)@
    }

    open spec fn slots(t: (&'l E,)) -> Seq<E> {
        seq![*t.0]
    }

    fn into_tuple(self) -> (t: (&'l E,)) {
        let t = (&self[0],);
        assert(Self::slots(t) =~= self@);
        t
    }
}

impl<E> Sealed for [E; 2] {}

impl<'l, E> Sealed for &'l [E; 2] {}

impl<E> IntoTuple<2, E, (E, E)> for [E; 2] {
    open spec fn elements(&self) -> Seq<E> {
        self@
    }

    open spec fn slots(t: (E, E)) -> Seq<E> {
        seq![t.0, t.1]
    }

    fn into_tuple(self) -> (t: (E, E)) {
        let mut v = array_into_vec(self);
        let e0 = v.remove(0);
        let e1 = v.remove(0);
        assert(seq![e0, e1] =~= self@);
        (e0, e1)
    }
}

impl<'l, E> IntoTuple<2, E, (&'l E, &'l E)> for &'l [E; 2] {
    open spec fn elements(&self) -> Seq<E> {
        (**self)@
    }

    open spec fn slots(t: (&'l E, &'l E)) -> Seq<E> {
        seq![*t.0, *t.1]
    }

    fn into_tuple(self) -> (t: (&'l E, &'l E)) {
        let t = (&self[0], &self[1]);
        assert(Self::slots(t) =~= self@);
        t
    }
}

impl<E> Sealed for [E; 3] {}

impl<'l, E> Sealed for &'l [E; 3] {}

impl<E> IntoTuple<3, E, (E, E, E)> for [E; 3] {
    open spec fn elements(&self) -> Seq<E> {
        self@
    }

    open spec fn slots(t: (E, E, E)) -> Seq<E> {
        seq![t.0, t.1, t.2]
    }

    fn into_tuple(self) -> (t: (E, E, E)) {
        let mut v = array_into_vec(self);
        let e0 = v.remove(0);
        let e1 = v.remove(0);
        let e2 = v.remove(0);
        assert(seq![e0, e1, e2] =~= self@);
        (e0, e1, e2)
    }
}

impl<'l, E> IntoTuple<3, E, (&'l E, &'l E, &'l E)> for &'l [E; 3] {
    open spec fn elements(&self) -> Seq<E> {
        (**self)@
    }

    open spec fn slots(t: (&'l E, &'l E, &'l E)) -> Seq<E> {
        seq![*t.0, *t.1, *t.2]
    }

    fn into_tuple(self) -> (t: (&'l E, &'l E, &'l E)) {
        let t = (&self[0], &self[1], &self[2]);
        assert(Self::slots(t) =~= self@);
        t
    }
}

impl<E> Sealed for [E; 4] {}

impl<'l, E> Sealed for &'l [E; 4] {}

impl<E> IntoTuple<4, E, (E, E, E, E)> for [E; 4] {
    open spec fn elements(&self) -> Seq<E> {
        self@
    }

    open spec fn slots(t: (E, E, E, E)) -> Seq<E> {
        seq![t.0, t.1, t.2, t.3]
    }

    fn into_tuple(self) -> (t: (E, E, E, E)) {
        let mut v = array_into_vec(self);
        let e0 = v.remove(0);
        let e1 = v.remove(0);
        let e2 = v.remove(0);
        let e3 = v.remove(0);
        assert(seq![e0, e1, e2, e3] =~= self@);
        (e0, e1, e2, e3)
    }
}

impl<'l, E> IntoTuple<4, E, (&'l E, &'l E, &'l E, &'l E)> for &'l [E; 4] {
    open spec fn elements(&self) -> Seq<E> {
        (**self)@
    }

    open spec fn slots(t: (&'l E, &'l E, &'l E, &'l E)) -> Seq<E> {
        seq![*t.0, *t.1, *t.2, *t.3]
    }

    fn into_tuple(self) -> (t: (&'l E, &'l E, &'l E, &'l E)) {
        let t = (&self[0], &self[1], &self[2], &self[3]);
        assert(Self::slots(t) =~= self@);
        t
    }
}

impl<E> Sealed for [E; 5] {}

impl<'l, E> Sealed for &'l [E; 5] {}

impl<E> IntoTuple<5, E, (E, E, E, E, E)> for [E; 5] {
    open spec fn elements(&self) -> Seq<E> {
        self@
    }

    open spec fn slots(t: (E, E, E, E, E)) -> Seq<E> {
        seq![t.0, t.1, t.2, t.3, t.4]
    }

    fn into_tuple(self) -> (t: (E, E, E, E, E)) {
        let mut v = array_into_vec(self);
        let e0 = v.remove(0);
        let e1 = v.remove(0);
        let e2 = v.remove(0);
        let e3 = v.remove(0);
        let e4 = v.remove(0);
        assert(seq![e0, e1, e2, e3, e4] =~= self@);
        (e0, e1, e2, e3, e4)
    }
}

impl<'l, E> IntoTuple<5, E, (&'l E, &'l E, &'l E, &'l E, &'l E)> for &'l [E; 5] {
    open spec fn elements(&self) -> Seq<E> {
        (**self)@
    }

    open spec fn slots(t: (&'l E, &'l E, &'l E, &'l E, &'l E)) -> Seq<E> {
        seq![*t.0, *t.1, *t.2, *t.3, *t.4]
    }

    fn into_tuple(self) -> (t: (&'l E, &'l E, &'l E, &'l E, &'l E)) {
        let t = (&self[0], &self[1], &self[2], &self[3], &self[4]);
        assert(Self::slots(t) =~= self@);
        t
    }
}

impl<E> Sealed for [E; 6] {}

impl<'l, E> Sealed for &'l [E; 6] {}

impl<E> IntoTuple<6, E, (E, E, E, E, E, E)> for [E; 6] {
    open spec fn elements(&self) -> Seq<E> {
        self@
    }

    open spec fn slots(t: (E, E, E, E, E, E)) -> Seq<E> {
        seq![t.0, t.1, t.2, t.3, t.4, t.5]
    }

    fn into_tuple(self) -> (t: (E, E, E, E, E, E)) {
        let mut v = array_into_vec(self);
        let e0 = v.remove(0);
        let e1 = v.remove(0);
        let e2 = v.remove(0);
        let e3 = v.remove(0);
        let e4 = v.remove(0);
        let e5 = v.remove(0);
        assert(seq![e0, e1, e2, e3, e4, e5] =~= self@);
        (e0, e1, e2, e3, e4, e5)
    }
}

impl<'l, E> IntoTuple<6, E, (&'l E, &'l E, &'l E, &'l E, &'l E, &'l E)> for &'l [E; 6] {
    open spec fn elements(&self) -> Seq<E> {
        (**self)@
    }

    open spec fn slots(t: (&'l E, &'l E, &'l E, &'l E, &'l E, &'l E)) -> Seq<E> {
        seq![*t.0, *t.1, *t.2, *t.3, *t.4, *t.5]
    }

    fn into_tuple(self) -> (t: (&'l E, &'l E, &'l E, &'l E, &'l E, &'l E)) {
        let t = (&self[0], &self[1], &self[2], &self[3], &self[4], &self[5]);
        assert(Self::slots(t) =~= self@);
        t
    }
}

impl<E> Sealed for [E; 7] {}

impl<'l, E> Sealed for &'l [E; 7] {}

impl<E> IntoTuple<7, E, (E, E, E, E, E, E, E)> for [E; 7] {
    open spec fn elements(&self) -> Seq<E> {
        self@
    }

    open spec fn slots(t: (E, E, E, E, E, E, E)) -> Seq<E> {
        seq![t.0, t.1, t.2, t.3, t.4, t.5, t.6]
    }

    fn into_tuple(self) -> (t: (E, E, E, E, E, E, E)) {
        let mut v = array_into_vec(self);
        let e0 = v.remove(0);
        let e1 = v.remove(0);
        let e2 = v.remove(0);
        let e3 = v.remove(0);
        let e4 = v.remove(0);
        let e5 = v.remove(0);
        let e6 = v.remove(0);
        assert(seq![e0, e1, e2, e3, e4, e5, e6] =~= self@);
        (e0, e1, e2, e3, e4, e5, e6)
    }
}

impl<'l, E> IntoTuple<7, E, (&'l E, &'l E, &'l E, &'l E, &'l E, &'l E, &'l E)> for &'l [E; 7] {
    open spec fn elements(&self) -> Seq<E> {
        (**self)@
    }

    open spec fn slots(t: (&'l E, &'l E, &'l E, &'l E, &'l E, &'l E, &'l E)) -> Seq<E> {
        seq![*t.0, *t.1, *t.2, *t.3, *t.4, *t.5, *t.6]
    }

    fn into_tuple(self) -> (t: (&'l E, &'l E, &'l E, &'l E, &'l E, &'l E, &'l E)) {
        let t = (&self[0], &self[1], &self[2], &self[3], &self[4], &self[5], &self[6]);
        assert(Self::slots(t) =~= self@);
        t
    }
}

impl<E> Sealed for [E; 8] {}

impl<'l, E> Sealed for &'l [E; 8] {}

impl<E> IntoTuple<8, E, (E, E, E, E, E, E, E, E)> for [E; 8] {
    open spec fn elements(&self) -> Seq<E> {
        self@
    }

    open spec fn slots(t: (E, E, E, E, E, E, E, E)) -> Seq<E> {
        seq![t.0, t.1, t.2, t.3, t.4, t.5, t.6, t.7]
    }

    fn into_tuple(self) -> (t: (E, E, E, E, E, E, E, E)) {
        let mut v = array_into_vec(self);
        let e0 = v.remove(0);
        let e1 = v.remove(0);
        let e2 = v.remove(0);
        let e3 = v.remove(0);
        let e4 = v.remove(0);
        let e5 = v.remove(0);
        let e6 = v.remove(0);
        let e7 = v.remove(0);
        assert(seq![e0, e1, e2, e3, e4, e5, e6, e7] =~= self@);
        (e0, e1, e2, e3, e4, e5, e6, e7)
    }
}

impl<'l, E> IntoTuple<8, E, (&'l E, &'l E, &'l E, &'l E, &'l E, &'l E, &'l E, &'l E)> for &'l [E; 8] {
    open spec fn elements(&self) -> Seq<E> {
        (**self)@
    }

    open spec fn slots(t: (&'l E, &'l E, &'l E, &'l E, &'l E, &'l E, &'l E, &'l E)) -> Seq<E> {
        seq![*t.0, *t.1, *t.2, *t.3, *t.4, *t.5, *t.6, *t.7]
    }

    fn into_tuple(self) -> (t: (&'l E, &'l E, &'l E, &'l E, &'l E, &'l E, &'l E, &'l E)) {
        let t = (&self[0], &self[1], &self[2], &self[3], &self[4], &self[5], &self[6], &self[7]);
        assert(Self::slots(t) =~= self@);
        t
    }
}

impl<E> Sealed for [E; 9] {}

impl<'l, E> Sealed for &'l [E; 9] {}

impl<E> IntoTuple<9, E, (E, E, E, E, E, E, E, E, E)> for [E; 9] {
    open spec fn elements(&self) -> Seq<E> {
        self@
    }

    open spec fn slots(t: (E, E, E, E, E, E, E, E, E)) -> Seq<E> {
        seq![t.0, t.1, t.2, t.3, t.4, t.5, t.6, t.7, t.8]
    }

    fn into_tuple(self) -> (t: (E, E, E, E, E, E, E, E, E)) {
        let mut v = array_into_vec(self);
        let e0 = v.remove(0);
        let e1 = v.remove(0);
        let e2 = v.remove(0);
        let e3 = v.remove(0);
        let e4 = v.remove(0);
        let e5 = v.remove(0);
        let e6 = v.remove(0);
        let e7 = v.remove(0);
        let e8 = v.remove(0);
        assert(seq![e0, e1, e2, e3, e4, e5, e6, e7, e8] =~= self@);
        (e0, e1, e2, e3, e4, e5, e6, e7, e8)
    }
}

impl<'l, E> IntoTuple<9, E, (&'l E, &'l E, &'l E, &'l E, &'l E, &'l E, &'l E, &'l E, &'l E)> for &'l [E; 9] {
    open spec fn elements(&self) -> Seq<E> {
        (**self)@
    }

    open spec fn slots(t: (&'l E, &'l E, &'l E, &'l E, &'l E, &'l E, &'l E, &'l E, &'l E)) -> Seq<E> {
        seq![*t.0, *t.1, *t.2, *t.3, *t.4, *t.5, *t.6, *t.7, *t.8]
    }

    fn into_tuple(self) -> (t: (&'l E, &'l E, &'l E, &'l E, &'l E, &'l E, &'l E, &'l E, &'l E)) {
        let t = (&self[0], &self[1], &self[2], &self[3], &self[4], &self[5], &self[6], &self[7], &self[8]);
        assert(Self::slots(t) =~= self@);
        t
    }
}

impl<E> Sealed for [E; 10] {}

impl<'l, E> Sealed for &'l [E; 10] {}

impl<E> IntoTuple<10, E, (E, E, E, E, E, E, E, E, E, E)> for [E; 10] {
    open spec fn elements(&self) -> Seq<E> {
        self@
    }

    open spec fn slots(t: (E, E, E, E, E, E, E, E, E, E)) -> Seq<E> {
        seq![t.0, t.1, t.2, t.3, t.4, t.5, t.6, t.7, t.8, t.9]
    }

    fn into_tuple(self) -> (t: (E, E, E, E, E, E, E, E, E, E)) {
        let mut v = array_into_vec(self);
        let e0 = v.remove(0);
        let e1 = v.remove(0);
        let e2 = v.remove(0);
        let e3 = v.remove(0);
        let e4 = v.remove(0);
        let e5 = v.remove(0);
        let e6 = v.remove(0);
        let e7 = v.remove(0);
        let e8 = v.remove(0);
        let e9 = v.remove(0);
        assert(seq![e0, e1, e2, e3, e4, e5, e6, e7, e8, e9] =~= self@);
        (e0, e1, e2, e3, e4, e5, e6, e7, e8, e9)
    }
}

impl<'l, E> IntoTuple<10, E, (&'l E, &'l E, &'l E, &'l E, &'l E, &'l E, &'l E, &'l E, &'l E, &'l E)> for &'l [E; 10] {
    open spec fn elements(&self) -> Seq<E> {
        (**self)@
    }

    open spec fn slots(t: (&'l E, &'l E, &'l E, &'l E, &'l E, &'l E, &'l E, &'l E, &'l E, &'l E)) -> Seq<E> {
        seq![*t.0, *t.1, *t.2, *t.3, *t.4, *t.5, *t.6, *t.7, *t.8, *t.9]
    }

    fn into_tuple(self) -> (t: (&'l E, &'l E, &'l E, &'l E, &'l E, &'l E, &'l E, &'l E, &'l E, &'l E)) {
        let t = (&self[0], &self[1], &self[2], &self[3], &self[4], &self[5], &self[6], &self[7], &self[8], &self[9]);
        assert(Self::slots(t) =~= self@);
        t
    }
}

impl<E> Sealed for [E; 11] {}

impl<'l, E> Sealed for &'l [E; 11] {}

impl<E> IntoTuple<11, E, (E, E, E, E, E, E, E, E, E, E, E)> for [E; 11] {
    open spec fn elements(&self) -> Seq<E> {
        self@
    }

    open spec fn slots(t: (E, E, E, E, E, E, E, E, E, E, E)) -> Seq<E> {
        seq![t.0, t.1, t.2, t.3, t.4, t.5, t.6, t.7, t.8, t.9, t.10]
    }

    fn into_tuple(self) -> (t: (E, E, E, E, E, E, E, E, E, E, E)) {
        let mut v = array_into_vec(self);
        let e0 = v.remove(0);
        let e1 = v.remove(0);
        let e2 = v.remove(0);
        let e3 = v.remove(0);
        let e4 = v.remove(0);
        let e5 = v.remove(0);
        let e6 = v.remove(0);
        let e7 = v.remove(0);
        let e8 = v.remove(0);
        let e9 = v.remove(0);
        let e10 = v.remove(0);
        assert(seq![e0, e1, e2, e3, e4, e5, e6, e7, e8, e9, e10] =~= self@);
        (e0, e1, e2, e3, e4, e5, e6, e7, e8, e9, e10)
    }
}

impl<'l, E> IntoTuple<11, E, (&'l E, &'l E, &'l E, &'l E, &'l E, &'l E, &'l E, &'l E, &'l E, &'l E, &'l E)> for &'l [E; 11] {
    open spec fn elements(&self) -> Seq<E> {
        (**self)@
    }

    open spec fn slots(t: (&'l E, &'l E, &'l E, &'l E, &'l E, &'l E, &'l E, &'l E, &'l E, &'l E, &'l E)) -> Seq<E> {
        seq![*t.0, *t.1, *t.2, *t.3, *t.4, *t.5, *t.6, *t.7, *t.8, *t.9, *t.10]
    }

    fn into_tuple(self) -> (t: (&'l E, &'l E, &'l E, &'l E, &'l E, &'l E, &'l E, &'l E, &'l E, &'l E, &'l E)) {
        let t = (&self[0], &self[1], &self[2], &self[3], &self[4], &self[5], &self[6], &self[7], &self[8], &self[9], &self[10]);
        assert(Self::slots(t) =~= self@);
        t
    }
}

impl<E> Sealed for [E; 12] {}

impl<'l, E> Sealed for &'l [E; 12] {}

impl<E> IntoTuple<12, E, (E, E, E, E, E, E, E, E, E, E, E, E)> for [E; 12] {
    open spec fn elements(&self) -> Seq<E> {
        self@
    }

    open spec fn slots(t: (E, E, E, E, E, E, E, E, E, E, E, E)) -> Seq<E> {
        seq![t.0, t.1, t.2, t.3, t.4, t.5, t.6, t.7, t.8, t.9, t.10, t.11]
    }

    fn into_tuple(self) -> (t: (E, E, E, E, E, E, E, E, E, E, E, E)) {
        let mut v = array_into_vec(self);
        let e0 = v.remove(0);
        let e1 = v.remove(0);
        let e2 = v.remove(0);
        let e3 = v.remove(0);
        let e4 = v.remove(0);
        let e5 = v.remove(0);
        let e6 = v.remove(0);
        let e7 = v.remove(0);
        let e8 = v.remove(0);
        let e9 = v.remove(0);
        let e10 = v.remove(0);
        let e11 = v.remove(0);
        assert(seq![e0, e1, e2, e3, e4, e5, e6, e7, e8, e9, e10, e11] =~= self@);
        (e0, e1, e2, e3, e4, e5, e6, e7, e8, e9, e10, e11)
    }
}

impl<'l, E> IntoTuple<12, E, (&'l E, &'l E, &'l E, &'l E, &'l E, &'l E, &'l E, &'l E, &'l E, &'l E, &'l E, &'l E)> for &'l [E; 12] {
    open spec fn elements(&self) -> Seq<E> {
        (**self)@
    }

    open spec fn slots(t: (&'l E, &'l E, &'l E, &'l E, &'l E, &'l E, &'l E, &'l E, &'l E, &'l E, &'l E, &'l E)) -> Seq<E> {
        seq![*t.0, *t.1, *t.2, *t.3, *t.4, *t.5, *t.6, *t.7, *t.8, *t.9, *t.10, *t.11]
    }

    fn into_tuple(self) -> (t: (&'l E, &'l E, &'l E, &'l E, &'l E, &'l E, &'l E, &'l E, &'l E, &'l E, &'l E, &'l E)) {
        let t = (&self[0], &self[1], &self[2], &self[3], &self[4], &self[5], &self[6], &self[7], &self[8], &self[9], &self[10], &self[11]);
        assert(Self::slots(t) =~= self@);
        t
    }
}

} // verus!
