//! The mathematical model of forward iteration over a sequence: what one
//! advancement yields, what it leaves behind, and what follows for any
//! number of advancements in a row.

use vstd::prelude::*;

verus! {

/// The element that an advancement yields from a view holding `s`:
/// the first one, or `None` when nothing is left.
pub open spec fn head_of<E>(s: Seq<E>) -> Option<E> {
    if s.len() == 0 {
        None
    } else {
        Some(s[0])
    }
}

/// What a view holding `s` holds after one advancement: everything but the
/// first element. An empty view stays empty.
pub open spec fn rest_of<E>(s: Seq<E>) -> Seq<E> {
    if s.len() == 0 {
        s
    } else {
        s.skip(1)
    }
}

/// What is left of `source` after `n` advancements.
pub open spec fn rest_after<E>(source: Seq<E>, n: nat) -> Seq<E>
    decreases n,
{
    if n == 0 {
        source
    } else {
        rest_of(rest_after(source, (n - 1) as nat))
    }
}

/// What the advancement that follows `n` earlier ones yields.
pub open spec fn yield_at<E>(source: Seq<E>, n: nat) -> Option<E> {
    head_of(rest_after(source, n))
}

/// After `n` advancements the first `n` elements are gone and the others
/// are left in their order; once all are gone the view is empty.
pub proof fn lemma_rest_after<E>(source: Seq<E>, n: nat)
    ensures
        n <= source.len() ==> rest_after(source, n) == source.skip(n as int),
        n >= source.len() ==> rest_after(source, n) == Seq::<E>::empty(),
    decreases n,
{
    if n > 0 {
        let m = (n - 1) as nat;
        lemma_rest_after(source, m);
        if n <= source.len() {
            assert(source.skip(m as int).skip(1) =~= source.skip(n as int));
        }
    }
    if n == source.len() {
        assert(source.skip(n as int) =~= Seq::<E>::empty());
    }
}

/// A source of length N yields exactly N elements: every advancement up to
/// the N-th succeeds, and the one after it is the first to signal the end.
pub proof fn lemma_yields_exactly_len<E>(source: Seq<E>, n: nat)
    ensures
        yield_at(source, n) is Some <==> n < source.len(),
{
    lemma_rest_after(source, n);
}

/// Elements come out in the order of the source: the advancement that follows
/// `i` earlier ones yields the element at index `i` of the source.
pub proof fn lemma_yields_in_order<E>(source: Seq<E>, i: nat)
    requires
        i < source.len(),
    ensures
        yield_at(source, i) == Some(source[i as int]),
{
    lemma_rest_after(source, i);
}

/// Exhaustion is terminal: once every element has been yielded, each further
/// advancement signals the end and leaves the view empty.
pub proof fn lemma_exhaustion_is_terminal<E>(source: Seq<E>, n: nat)
    requires
        n >= source.len(),
    ensures
        yield_at(source, n) is None,
        rest_after(source, n) == Seq::<E>::empty(),
        rest_after(source, n + 1) == rest_after(source, n),
{
    lemma_rest_after(source, n);
    lemma_rest_after(source, n + 1);
}

/// Over an empty source the very first advancement signals the end.
pub proof fn lemma_empty_source_ends_at_once<E>(source: Seq<E>)
    requires
        source.len() == 0,
    ensures
        yield_at(source, 0) is None,
{
}

/// Writes land in place. Let `ends[k]` be what the view left after `k`
/// advancements holds in the end, and `written[k]` what the caller leaves
/// behind the reference that advancement `k` yielded. If every advancement
/// splits its view's end into the written element and the next view's end,
/// then from any point on the view ends with the values written since, in
/// order, followed by the end of the last view.
pub proof fn lemma_writes_land_from<E>(ends: Seq<Seq<E>>, written: Seq<E>, start: nat)
    requires
        ends.len() == written.len() + 1,
        forall|k: int|
            0 <= k < written.len() ==> ends[k] == seq![#[trigger] written[k]] + ends[k + 1],
        start <= written.len(),
    ensures
        ends[start as int] == written.skip(start as int) + ends.last(),
    decreases written.len() - start,
{
    if start == written.len() {
        assert(written.skip(start as int) + ends.last() =~= ends[start as int]);
    } else {
        lemma_writes_land_from(ends, written, start + 1);
        assert(ends[start as int] == seq![written[start as int]] + ends[start as int + 1]);
        assert(seq![written[start as int]] + (written.skip(start as int + 1) + ends.last())
            =~= written.skip(start as int) + ends.last());
    }
}

/// What is written through the yielded references is what the source holds
/// afterwards: under the conditions of [`lemma_writes_land_from`], the source
/// ends with the written values at the indices they were yielded from,
/// followed by the end of the last view.
pub proof fn lemma_writes_land_in_source<E>(ends: Seq<Seq<E>>, written: Seq<E>)
    requires
        ends.len() == written.len() + 1,
        forall|k: int|
            0 <= k < written.len() ==> ends[k] == seq![#[trigger] written[k]] + ends[k + 1],
    ensures
        ends[0] == written + ends.last(),
        forall|i: int| 0 <= i < written.len() ==> ends[0][i] == written[i],
{
    lemma_writes_land_from(ends, written, 0);
    assert(written.skip(0) =~= written);
}

} // verus!
