use vstd::prelude::*;
use vstd::seq_lib::group_to_multiset_ensures;
use crate::color::ColorEntry;

verus! {

/// The sequence with the element at `from` moved so that it lands at
/// position `to`: the element is taken out, and reinserted at index `to`
/// of the shortened sequence. Every other element keeps its relative order.
pub open spec fn spec_reorder<T>(s: Seq<T>, from: int, to: int) -> Seq<T>
    recommends
        0 <= from < s.len(),
        0 <= to < s.len(),
{
    s.remove(from).insert(to, s[from])
}

/// A completed drag gesture: the element at `from` is to be moved so that
/// it lands at index `to`. Both must be valid indices into the list being
/// reordered at the moment the result is applied; it is the caller's job
/// to guarantee that.
#[derive(Clone, Copy, PartialEq, Eq, Structural, Debug)]
pub struct DragResult {
    pub from: usize,
    pub to: usize,
}

impl DragResult {
    /// Both indices point into a list of length `len`.
    pub open spec fn valid(self, len: nat) -> bool {
        self.from < len && self.to < len
    }

    /// Apply the completed drag to the list it was produced for.
    pub fn apply<T>(self, list: &mut Vec<T>)
        requires
            self.valid(old(list).len() as nat),
        ensures
            final(list)@ == spec_reorder(old(list)@, self.from as int, self.to as int),
    {
        reorder(list, self.from, self.to);
    }
}

/// Move the element at `from` so that it ends up at index `to`, in place.
/// This is the splice a completed drag gesture asks for.
pub fn reorder<T>(list: &mut Vec<T>, from: usize, to: usize)
    requires
        from < old(list).len(),
        to < old(list).len(),
    ensures
        final(list)@ == spec_reorder(old(list)@, from as int, to as int),
{
    let element = list.remove(from);
    list.insert(to, element);
}

/// A fresh copy of `list` with the element at `from` moved to `to`; the
/// original list is untouched. This is the transient view shown while a
/// drag is still in progress.
pub fn reordered_preview(list: &Vec<ColorEntry>, from: usize, to: usize) -> (r: Vec<ColorEntry>)
    requires
        from < list.len(),
        to < list.len(),
    ensures
        r@ == spec_reorder(list@, from as int, to as int),
{
    let mut copy: Vec<ColorEntry> = Vec::new();
    for i in 0..list.len()
        invariant
            copy@.len() == i,
            forall|j: int| 0 <= j < i ==> copy@[j] == list@[j],
    {
        copy.push(list[i].clone());
    }
    proof {
        assert(copy@ =~= list@);
    }
    reorder(&mut copy, from, to);
    copy
}

/// Law: a reorder is a permutation — the result holds exactly the same
/// multiset of elements as the input.
pub proof fn lemma_reorder_is_permutation<T>(s: Seq<T>, from: int, to: int)
    requires
        0 <= from < s.len(),
        0 <= to < s.len(),
    ensures
        spec_reorder(s, from, to).to_multiset() == s.to_multiset(),
{
    broadcast use group_to_multiset_ensures;

    let removed = s.remove(from);
    assert(removed.to_multiset() == s.to_multiset().remove(s[from]));
    assert(removed.insert(to, s[from]).to_multiset() == removed.to_multiset().insert(s[from]));
    assert(s.contains(s[from]));
    assert(s.to_multiset().count(s[from]) > 0);
    assert(s.to_multiset().remove(s[from]).insert(s[from]) =~= s.to_multiset());
}

/// Law: moving an element onto its own position changes nothing.
pub proof fn lemma_reorder_same_index<T>(s: Seq<T>, i: int)
    requires
        0 <= i < s.len(),
    ensures
        spec_reorder(s, i, i) == s,
{
    s.remove_ensures(i);
    s.remove(i).insert_ensures(i, s[i]);
    assert(spec_reorder(s, i, i) =~= s);
}

/// Inserting an element and removing it again at the same position gives
/// the sequence back.
proof fn lemma_insert_then_remove<T>(s: Seq<T>, pos: int, elt: T)
    requires
        0 <= pos <= s.len(),
    ensures
        s.insert(pos, elt).remove(pos) == s,
{
    s.insert_ensures(pos, elt);
    s.insert(pos, elt).remove_ensures(pos);
    assert(s.insert(pos, elt).remove(pos) =~= s);
}

/// Law: a reorder is undone by the opposite reorder — moving an element
/// from `a` to `b` and then from `b` back to `a` restores the sequence.
pub proof fn lemma_reorder_round_trip<T>(s: Seq<T>, a: int, b: int)
    requires
        0 <= a < s.len(),
        0 <= b < s.len(),
        a != b,
    ensures
        spec_reorder(spec_reorder(s, a, b), b, a) == s,
{
    let moved = spec_reorder(s, a, b);
    s.remove(a).insert_ensures(b, s[a]);
    assert(moved[b] == s[a]);
    lemma_insert_then_remove(s.remove(a), b, s[a]);
    assert(moved.remove(b) == s.remove(a));
    lemma_reorder_same_index(s, a);
    assert(spec_reorder(moved, b, a) == s.remove(a).insert(a, s[a]));
}

} // verus!
