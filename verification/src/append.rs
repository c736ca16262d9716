//! In-place edits of every string of a slice, made through the iterators:
//! each element is reached exactly once, in order, and what is written
//! through the yielded reference lands in the slice itself.

use vstd::prelude::*;
use crate::explicit_split::MyIterMut;
use crate::pattern_split::QuineDotIterMut;

verus! {

/// `after` is `before` with `ch` appended to every string: as many strings,
/// each in its place.
pub open spec fn each_pushed(before: Seq<String>, after: Seq<String>, ch: char) -> bool {
    &&& after.len() == before.len()
    &&& forall|i: int| 0 <= i < before.len() ==> (#[trigger] after[i])@ == before[i]@.push(ch)
}

/// Appends `ch` to every string of `strings`, walking them with a
/// [`MyIterMut`].
#[verifier::loop_isolation(false)]
pub fn push_to_each(strings: &mut [String], ch: char)
    ensures
        each_pushed(old(strings)@, final(strings)@, ch),
{
    let ghost before = strings@;
    let ghost after = final(strings)@;
    let ghost mut done: Seq<String> = Seq::empty();
    let mut it = MyIterMut::from(strings);
    loop
        invariant
            done.len() <= before.len(),
            it@ == before.skip(done.len() as int),
            after == done + final(it.view_ref())@,
            forall|i: int| 0 <= i < done.len() ==> (#[trigger] done[i])@ == before[i]@.push(ch),
        decreases it@.len(),
    {
        match it.next() {
            None => {
                assert(after =~= done);
                return;
            },
            Some(s) => {
                s.push(ch);
                proof {
                    assert(before.skip(done.len() as int).skip(1) =~= before.skip(done.len() as int + 1));
                    let rest = final(it.view_ref())@;
                    assert(done + (seq![*s] + rest) =~= done.push(*s) + rest);
                    done = done.push(*s);
                }
            },
        }
    }
}

/// Appends `ch` to every string of `strings`, walking them with a
/// [`QuineDotIterMut`].
#[verifier::loop_isolation(false)]
pub fn push_to_each_matching(strings: &mut [String], ch: char)
    ensures
        each_pushed(old(strings)@, final(strings)@, ch),
{
    let ghost before = strings@;
    let ghost after = final(strings)@;
    let ghost mut done: Seq<String> = Seq::empty();
    let mut it = QuineDotIterMut::from(strings);
    loop
        invariant
            done.len() <= before.len(),
            it@ == before.skip(done.len() as int),
            after == done + final(it.view_ref())@,
            forall|i: int| 0 <= i < done.len() ==> (#[trigger] done[i])@ == before[i]@.push(ch),
        decreases it@.len(),
    {
        match it.next() {
            None => {
                assert(after =~= done);
                return;
            },
            Some(s) => {
                s.push(ch);
                proof {
                    assert(before.skip(done.len() as int).skip(1) =~= before.skip(done.len() as int + 1));
                    let rest = final(it.view_ref())@;
                    assert(done + (seq![*s] + rest) =~= done.push(*s) + rest);
                    done = done.push(*s);
                }
            },
        }
    }
}

} // verus!
