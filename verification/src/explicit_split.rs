//! A mutable iterator over a slice that advances by swapping its view out,
//! splitting the first element off, and storing the tail back.

use vstd::prelude::*;
use crate::front::{head_of, rest_of};

verus! {

/// Yields exclusive references to the elements of a borrowed slice, front to
/// back, one at a time.
pub struct MyIterMut<'a, E> {
    slice: &'a mut [E],
}

impl<'a, E> View for MyIterMut<'a, E> {
    type V = Seq<E>;

    /// The elements not yet yielded, in order.
    open spec fn view(&self) -> Seq<E> {
        self.view_ref()@
    }
}

impl<'a, E> MyIterMut<'a, E> {
    /// The exclusive view that the iterator holds: a reference to the part of
    /// the source not yet yielded. Its final value is what that part holds
    /// when the borrow ends.
    pub closed spec fn view_ref(&self) -> &'a mut [E] {
        self.slice
    }

    /// Giving the iterator up changes nothing: once it is no longer used, the
    /// part of the source not yet yielded ends as it is.
    pub proof fn lemma_given_up(self)
        requires
            has_resolved(self),
        ensures
            final(self.view_ref())@ == self@,
    {
    }

    /// An iterator over the whole of `arr`. What the iterator's view holds
    /// in the end is what `arr` holds in the end.
    pub fn from(arr: &'a mut [E]) -> (it: Self)
        ensures
            it@ == old(arr)@,
            final(arr)@ == final(it.view_ref())@,
    {
        Self { slice: arr }
    }

    /// Yields the first remaining element and keeps the others, or signals
    /// the end when none remains. What the old view holds in the end is what
    /// the caller leaves behind the yielded reference, followed by what the
    /// new view holds in the end.
    pub fn next(&mut self) -> (r: Option<&'a mut E>)
        ensures
            match r {
                Some(first) => head_of(old(self)@) == Some(*first),
                None => head_of(old(self)@) is None,
            },
            final(self)@ == rest_of(old(self)@),
            final(old(self).view_ref())@ == match r {
                Some(first) => seq![*final(first)] + final(final(self).view_ref())@,
                None => Seq::<E>::empty(),
            },
    {
        let slice = std::mem::replace(&mut self.slice, <&mut [E]>::default());
        let (first, mut tail) = slice.split_first_mut()?;
        std::mem::swap(&mut self.slice, &mut tail);
        Some(first)
    }
}

} // verus!
