use vstd::prelude::*;

use crate::types::EcapeError;

verus! {

/// What the floating-point check of one sounding level found.
///
/// `finite` says that all six values at the level are finite. For a level
/// above the first, `height_rises` says that its height is strictly above
/// the height of the level below, and `pressure_falls` that its pressure is
/// strictly below the pressure of the level below. Both are ignored at the
/// first level.
#[derive(Debug, Clone, Copy, PartialEq, Eq, Structural)]
pub struct LevelCheck {
    pub finite: bool,
    pub height_rises: bool,
    pub pressure_falls: bool,
}

/// The fault found at level `i`, in the order the checks are made.
pub open spec fn level_fault(levels: Seq<LevelCheck>, i: int) -> Option<EcapeError> {
    if !levels[i].finite {
        Some(EcapeError::NonFiniteInput)
    } else if i > 0 && !levels[i].height_rises {
        Some(EcapeError::NonMonotonicHeight)
    } else if i > 0 && !levels[i].pressure_falls {
        Some(EcapeError::NonMonotonicPressure)
    } else {
        None
    }
}

/// No level of `levels` below `n` has a fault.
pub open spec fn levels_sound_below(levels: Seq<LevelCheck>, n: int) -> bool {
    forall|j: int| 0 <= j < n ==> #[trigger] level_fault(levels, j) is None
}

/// The other five arrays do not all have the height array's length.
pub open spec fn lengths_differ(
    height_len: usize,
    pressure_len: usize,
    temperature_len: usize,
    qv_len: usize,
    u_len: usize,
    v_len: usize,
) -> bool {
    pressure_len != height_len || temperature_len != height_len || qv_len != height_len
        || u_len != height_len || v_len != height_len
}

/// Stated over the level checks themselves: the levels have no fault
/// exactly when every level is finite and every level above the first has a
/// rising height and a falling pressure; and a faulty level's fault is a
/// non-finite value if it has one, else a height that does not rise if it
/// has one (whatever its pressure does), else a pressure that does not fall.
pub proof fn lemma_level_faults(levels: Seq<LevelCheck>, i: int)
    requires
        0 <= i < levels.len(),
    ensures
        levels_sound_below(levels, levels.len() as int) <==> forall|k: int|
            0 <= k < levels.len() ==> #[trigger] levels[k].finite && (k > 0 ==> levels[k].height_rises
                && levels[k].pressure_falls),
        !levels[i].finite ==> level_fault(levels, i) == Some(EcapeError::NonFiniteInput),
        levels[i].finite && i > 0 && !levels[i].height_rises ==> level_fault(levels, i) == Some(
            EcapeError::NonMonotonicHeight),
        levels[i].finite && i > 0 && levels[i].height_rises && !levels[i].pressure_falls ==> level_fault(
            levels,
            i,
        ) == Some(EcapeError::NonMonotonicPressure),
        level_fault(levels, i) is None <==> levels[i].finite && (i > 0 ==> levels[i].height_rises
            && levels[i].pressure_falls),
{
    assert(levels_sound_below(levels, levels.len() as int) ==> forall|k: int|
        0 <= k < levels.len() ==> #[trigger] levels[k].finite && (k > 0 ==> levels[k].height_rises
            && levels[k].pressure_falls)) by {
        if levels_sound_below(levels, levels.len() as int) {
            assert forall|k: int| 0 <= k < levels.len() implies #[trigger] levels[k].finite && (k > 0
                ==> levels[k].height_rises && levels[k].pressure_falls) by {
                assert(level_fault(levels, k) is None);
            }
        }
    }
}

/// Decides whether a sounding is usable.
///
/// The sounding is rejected as empty when it has no level, then for arrays
/// of different lengths, then at the lowest level that has a fault, with that
/// level's first fault: a non-finite value, a height that does not rise, a
/// pressure that does not fall.
pub fn validate_profile(
    height_len: usize,
    pressure_len: usize,
    temperature_len: usize,
    qv_len: usize,
    u_len: usize,
    v_len: usize,
    levels: &[LevelCheck],
) -> (res: Result<(), EcapeError>)
    requires
        height_len > 0 && !lengths_differ(height_len, pressure_len, temperature_len, qv_len, u_len, v_len)
            ==> levels.len() == height_len,
    ensures
        height_len == 0 ==> res == Err::<(), EcapeError>(EcapeError::EmptyProfile),
        height_len > 0 && lengths_differ(height_len, pressure_len, temperature_len, qv_len, u_len, v_len)
            ==> res == Err::<(), EcapeError>(EcapeError::DimensionMismatch),
        height_len > 0 && !lengths_differ(height_len, pressure_len, temperature_len, qv_len, u_len, v_len)
            ==> {
            &&& res is Ok <==> levels_sound_below(levels@, levels@.len() as int)
            &&& res matches Err(e) ==> exists|i: int|
                0 <= i < levels@.len() && levels_sound_below(levels@, i)
                    && #[trigger] level_fault(levels@, i) == Some(e)
            &&& res is Ok <==> forall|i: int|
                0 <= i < levels@.len() ==> #[trigger] levels@[i].finite && (i > 0 ==> levels@[i].height_rises
                    && levels@[i].pressure_falls)
            &&& res matches Err(e) ==> exists|i: int|
                0 <= i < levels@.len() && (forall|j: int|
                    0 <= j < i ==> #[trigger] levels@[j].finite && (j > 0 ==> levels@[j].height_rises
                        && levels@[j].pressure_falls)) && (if !levels@[i].finite {
                    e == EcapeError::NonFiniteInput
                } else if i > 0 && !levels@[i].height_rises {
                    e == EcapeError::NonMonotonicHeight
                } else {
                    i > 0 && !levels@[i].pressure_falls && e == EcapeError::NonMonotonicPressure
                })
        },
{
    if height_len == 0 {
        return Err(EcapeError::EmptyProfile);
    }
    if pressure_len != height_len || temperature_len != height_len || qv_len != height_len
        || u_len != height_len || v_len != height_len {
        return Err(EcapeError::DimensionMismatch);
    }
    let n = levels.len();
    let mut i: usize = 0;
    while i < n
        invariant
            n == levels@.len(),
            n == height_len,
            !lengths_differ(height_len, pressure_len, temperature_len, qv_len, u_len, v_len),
            i <= n,
            levels_sound_below(levels@, i as int),
            forall|j: int|
                0 <= j < i ==> #[trigger] levels@[j].finite && (j > 0 ==> levels@[j].height_rises
                    && levels@[j].pressure_falls),
        decreases n - i,
    {
        let level = levels[i];
        assert(levels@[i as int] == level);
        if !level.finite {
            assert(level_fault(levels@, i as int) == Some(EcapeError::NonFiniteInput));
            return Err(EcapeError::NonFiniteInput);
        }
        if i > 0 {
            if !level.height_rises {
                assert(level_fault(levels@, i as int) == Some(EcapeError::NonMonotonicHeight));
                return Err(EcapeError::NonMonotonicHeight);
            }
            if !level.pressure_falls {
                assert(level_fault(levels@, i as int) == Some(EcapeError::NonMonotonicPressure));
                return Err(EcapeError::NonMonotonicPressure);
            }
        }
        assert(level_fault(levels@, i as int) is None);
        i = i + 1;
    }
    Ok(())
}

} // verus!
