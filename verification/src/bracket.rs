use vstd::prelude::*;

verus! {

/// `reached[k]` says whether the target lies at or beyond level `k` in the
/// direction the profile runs (for a profile whose values fall upward, such
/// as pressure, that the target is at least the value at `k`; for one whose
/// values rise upward, such as height, that it is at most the value at `k`).
/// No level below `i` is reached.
pub open spec fn none_reached_below(reached: Seq<bool>, i: int) -> bool {
    forall|j: int| 0 <= j < i ==> !#[trigger] reached[j]
}

/// Some level is reached.
pub open spec fn some_reached(reached: Seq<bool>) -> bool {
    exists|k: int| 0 <= k < reached.len() && #[trigger] reached[k]
}

/// The index of the lower level of the layer that brackets the target.
///
/// When the lowest level is reached the bracket starts at the bottom. Else it
/// starts one level below the first reached level; when no level is reached
/// the topmost layer is used.
pub fn find_bracketing_index(reached: &[bool]) -> (i: usize)
    requires
        reached.len() >= 1,
        reached[0] || reached.len() >= 2,
    ensures
        reached[0] ==> i == 0,
        !reached[0] && some_reached(reached@) ==> {
            &&& i + 1 < reached.len()
            &&& reached[i + 1]
            &&& none_reached_below(reached@, i + 1)
        },
        !some_reached(reached@) ==> i == reached.len() - 2,
        reached.len() >= 2 ==> i + 1 < reached.len(),
{
    if reached[0] {
        return 0;
    }
    let n = reached.len();
    let mut k: usize = 1;
    while k < n
        invariant
            n == reached.len(),
            n >= 2,
            1 <= k <= n,
            none_reached_below(reached@, k as int),
        decreases n - k,
    {
        if reached[k] {
            return k - 1;
        }
        k = k + 1;
    }
    n - 2
}

/// Where a target height falls in a profile.
#[derive(Debug, Clone, Copy, PartialEq, Eq, Structural)]
pub enum ProfilePosition {
    /// At or below the lowest level: the lowest value is used.
    Bottom,
    /// At or above the highest level: the highest value is used.
    Top,
    /// Inside the layer from the given level to the next: the value is
    /// interpolated across it.
    Between(usize),
}

/// Locates a target in a profile whose values rise upward, for reading a
/// profile value there: below the bottom the lowest level is used, above
/// the top the highest, and in between the bracketing layer, found as
/// `find_bracketing_index` finds it.
pub fn locate_in_profile(at_or_below_bottom: bool, at_or_above_top: bool, reached: &[bool]) -> (pos:
    ProfilePosition)
    requires
        reached.len() >= 1,
        reached.len() >= 2 || at_or_below_bottom || at_or_above_top,
        reached[0] == at_or_below_bottom,
    ensures
        at_or_below_bottom ==> pos == ProfilePosition::Bottom,
        !at_or_below_bottom && at_or_above_top ==> pos == ProfilePosition::Top,
        !at_or_below_bottom && !at_or_above_top ==> {
            &&& pos matches ProfilePosition::Between(i)
            &&& i + 1 < reached.len()
            &&& some_reached(reached@) ==> reached[i + 1] && none_reached_below(reached@, i + 1)
            &&& !some_reached(reached@) ==> i == reached.len() - 2
        },
{
    if at_or_below_bottom {
        return ProfilePosition::Bottom;
    }
    if at_or_above_top {
        return ProfilePosition::Top;
    }
    ProfilePosition::Between(find_bracketing_index(reached))
}

} // verus!
