//! Bounded record histories with first-in-first-out eviction, as every
//! engine of the substrate keeps them.

use vstd::prelude::*;

verus! {

/// The history after adding `x` to `s` with capacity `max`: when the
/// history already holds `max` or more records (and at least one), the
/// oldest is dropped first; the new record always goes last.
pub open spec fn spec_push_bounded<T>(s: Seq<T>, max: nat, x: T) -> Seq<T> {
    if s.len() >= max && s.len() > 0 {
        s.drop_first().push(x)
    } else {
        s.push(x)
    }
}

/// The history after appending `x` and then dropping the oldest records
/// until at most `max` remain.
pub open spec fn spec_push_then_trim<T>(s: Seq<T>, max: nat, x: T) -> Seq<T> {
    let t = s.push(x);
    if t.len() > max {
        t.subrange(t.len() - max, t.len() as int)
    } else {
        t
    }
}

/// Capacity that a history kept with `spec_push_bounded` never exceeds:
/// `max`, or one when `max` is zero (a new record is always kept).
pub open spec fn effective_capacity(max: nat) -> nat {
    if max == 0 { 1 } else { max }
}

/// Adds `x` to `v`, evicting the oldest record when `v` holds `max` or more.
pub fn push_bounded<T>(v: &mut Vec<T>, max: usize, x: T)
    ensures
        final(v)@ == spec_push_bounded(old(v)@, max as nat, x),
{
    if v.len() >= max && v.len() > 0 {
        v.remove(0);
    }
    v.push(x);
    proof {
        if old(v)@.len() >= max && old(v)@.len() > 0 {
            assert(old(v)@.remove(0) =~= old(v)@.drop_first());
        }
    }
}

/// Appends `x` to `v`, then evicts the oldest records until at most `max` remain.
pub fn push_then_trim<T>(v: &mut Vec<T>, max: usize, x: T)
    ensures
        final(v)@ == spec_push_then_trim(old(v)@, max as nat, x),
{
    v.push(x);
    let ghost t = v@;
    while v.len() > max
        invariant
            t == old(v)@.push(x),
            v@.len() >= max || v@.len() == t.len(),
            v@ == t.subrange(t.len() - v@.len(), t.len() as int),
            v@.len() <= t.len(),
        decreases v@.len(),
    {
        v.remove(0);
        assert(v@ =~= t.subrange(t.len() - v@.len(), t.len() as int));
    }
    assert(t.subrange(0, t.len() as int) =~= t);
}

/// Bounded storage: a history kept with `push_bounded` never holds more
/// than its capacity (one when the capacity is zero), the new record is
/// always the newest, and every record kept from before keeps its order.
pub proof fn law_push_bounded_keeps_bound<T>(s: Seq<T>, max: nat, x: T)
    requires
        s.len() <= effective_capacity(max),
    ensures
        spec_push_bounded(s, max, x).len() <= effective_capacity(max),
        spec_push_bounded(s, max, x).last() == x,
        s.len() < max ==> spec_push_bounded(s, max, x) == s.push(x),
        s.len() >= max && s.len() > 0 ==> spec_push_bounded(s, max, x).drop_last() == s.drop_first(),
{
    if s.len() >= max && s.len() > 0 {
        assert(s.drop_first().push(x).drop_last() =~= s.drop_first());
    }
}

/// A trimmed history never holds more than `max` records, and what it
/// holds are the newest records in their order.
pub proof fn law_push_then_trim_bound<T>(s: Seq<T>, max: nat, x: T)
    ensures
        spec_push_then_trim(s, max, x).len() <= max || spec_push_then_trim(s, max, x) == s.push(x),
        spec_push_then_trim(s, max, x).len() == if s.len() + 1 > max { max } else { s.len() + 1 },
        max > 0 ==> spec_push_then_trim(s, max, x).last() == x,
{
}

} // verus!
