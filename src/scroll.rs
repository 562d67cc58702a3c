use vstd::prelude::*;

verus! {

/// The depth offset of the cross-section viewport, accumulated from wheel
/// events.
///
/// A wheel event with vertical delta `d` moves the offset by `d / 100` depth
/// units, so the offset is held exactly, in hundredths of a depth unit, as the
/// sum of the deltas received. It is not clamped; only the bounds of `i64`
/// stop it.
#[derive(Clone, Copy, Debug, PartialEq, Eq, Structural)]
pub struct CrossSectionOffset {
    pub hundredths: i64,
}

/// `t + d`, held within the bounds of `i64`.
pub open spec fn saturating_sum(t: int, d: int) -> int {
    if t + d > i64::MAX {
        i64::MAX as int
    } else if t + d < i64::MIN {
        i64::MIN as int
    } else {
        t + d
    }
}

/// The offset reached from `start` after the wheel deltas `deltas`, in order.
pub open spec fn offset_after(start: int, deltas: Seq<i64>) -> int
    decreases deltas.len(),
{
    if deltas.len() == 0 {
        start
    } else {
        saturating_sum(offset_after(start, deltas.drop_last()), deltas.last() as int)
    }
}

/// The plain sum of a sequence of wheel deltas.
pub open spec fn sum_of(deltas: Seq<i64>) -> int
    decreases deltas.len(),
{
    if deltas.len() == 0 {
        0
    } else {
        sum_of(deltas.drop_last()) + deltas.last() as int
    }
}

impl CrossSectionOffset {
    /// An offset of zero.
    pub fn new() -> (r: Self)
        ensures
            r.hundredths == 0,
    {
        CrossSectionOffset { hundredths: 0 }
    }

    /// Accounts for one wheel event whose vertical delta is `delta_y`.
    pub fn apply_wheel(&mut self, delta_y: i64)
        ensures
            final(self).hundredths == saturating_sum(old(self).hundredths as int, delta_y as int),
    {
        let t = self.hundredths;
        if delta_y > 0 && t > i64::MAX - delta_y {
            self.hundredths = i64::MAX;
        } else if delta_y < 0 && t < i64::MIN - delta_y {
            self.hundredths = i64::MIN;
        } else {
            self.hundredths = t + delta_y;
        }
    }

    /// Accounts for a run of wheel events, in order.
    pub fn apply_wheels(&mut self, deltas: &Vec<i64>)
        ensures
            final(self).hundredths == offset_after(old(self).hundredths as int, deltas@),
    {
        let mut i: usize = 0;
        while i < deltas.len()
            invariant
                i <= deltas@.len(),
                self.hundredths == offset_after(old(self).hundredths as int, deltas@.take(i as int)),
            decreases deltas@.len() - i,
        {
            proof {
                assert(deltas@.take(i + 1).drop_last() =~= deltas@.take(i as int));
            }
            self.apply_wheel(deltas[i]);
            i = i + 1;
        }
        proof {
            assert(deltas@.take(i as int) =~= deltas@);
        }
    }
}

/// While the running sum of the wheel deltas stays within the bounds of
/// `i64`, the offset is exactly the start plus the sum of the deltas: wheel
/// events accumulate with no clamping and in any order of signs.
pub proof fn offset_is_sum_of_deltas(start: i64, deltas: Seq<i64>)
    requires
        forall|k: int|
            0 <= k <= deltas.len() ==> i64::MIN <= start + #[trigger] sum_of(deltas.take(k))
                <= i64::MAX,
    ensures
        offset_after(start as int, deltas) == start + sum_of(deltas),
    decreases deltas.len(),
{
    if deltas.len() > 0 {
        let prefix = deltas.drop_last();
        assert forall|k: int| 0 <= k <= prefix.len() implies i64::MIN <= start + #[trigger] sum_of(
            prefix.take(k),
        ) <= i64::MAX by {
            assert(prefix.take(k) =~= deltas.take(k));
        }
        offset_is_sum_of_deltas(start, prefix);
        assert(deltas.take(deltas.len() as int) =~= deltas);
    }
}

} // verus!
