//! Contracts for the few standard-library functions the iterators call and
//! that vstd leaves unspecified. Verus takes each of them on trust.

use vstd::prelude::*;

verus! {

/// `core::mem::replace`: stores `src` in `dest` and hands back the value that
/// `dest` held before the call.
pub assume_specification<T>[ core::mem::replace::<T> ](dest: &mut T, src: T) -> (res: T)
    ensures
        res == *old(dest),
        *final(dest) == src,
;

/// `core::mem::take`: hands back the value that `dest` held before the call
/// and leaves in `dest` a value produced by `T::default`.
pub assume_specification<T: core::default::Default>[ core::mem::take::<T> ](dest: &mut T) -> (res: T)
    ensures
        res == *old(dest),
        T::default.ensures((), *final(dest)),
;

/// `Default` for `&mut [T]`: a mutable slice of length zero.
pub assume_specification<'a, T>[ <&'a mut [T] as core::default::Default>::default ]() -> (r: &'a mut [T])
    ensures
        r@ == Seq::<T>::empty(),
;

/// `<[T]>::split_first_mut`: `None` on an empty slice; otherwise mutable
/// references to element 0 and to the elements after it, in order. Whatever
/// the caller leaves behind those two references is what the slice holds once
/// they are given up.
pub assume_specification<T>[ <[T]>::split_first_mut ](slice: &mut [T]) -> (res: Option<
    (&mut T, &mut [T]),
>)
    ensures
        old(slice)@.len() == 0 ==> res is None && final(slice)@ == old(slice)@,
        old(slice)@.len() != 0 ==> res is Some && *res.unwrap().0 == old(slice)@[0]
            && res.unwrap().1@ == old(slice)@.skip(1)
            && final(slice)@ == seq![*final(res.unwrap().0)] + final(res.unwrap().1)@,
;

/// `String::push`: appends `ch` to the end of the string.
pub assume_specification[ String::push ](s: &mut String, ch: char)
    ensures
        final(s)@ == old(s)@.push(ch),
;

} // verus!
