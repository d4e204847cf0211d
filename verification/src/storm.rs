use vstd::prelude::*;

use crate::types::StormMotionType;

verus! {

/// Which storm motion is used.
#[derive(Debug, Clone, Copy, PartialEq, Eq, Structural)]
pub enum StormMotionSource {
    /// The storm motion components given in the options.
    UserSupplied,
    /// The right-moving supercell motion.
    RightMoving,
    /// The left-moving supercell motion.
    LeftMoving,
    /// The mean wind.
    MeanWind,
}

/// The storm motion chosen for the given options.
pub open spec fn storm_motion_source_of(
    has_u: bool,
    has_v: bool,
    kind: StormMotionType,
) -> StormMotionSource {
    if has_u && has_v {
        StormMotionSource::UserSupplied
    } else {
        match kind {
            StormMotionType::RightMoving => StormMotionSource::RightMoving,
            StormMotionType::LeftMoving => StormMotionSource::LeftMoving,
            StormMotionType::MeanWind => StormMotionSource::MeanWind,
            StormMotionType::UserDefined => StormMotionSource::MeanWind,
        }
    }
}

/// Both storm motion components given are used whatever the type; without
/// both, the type names the motion used (a right-moving type the right
/// mover, a left-moving type the left mover, a mean-wind type the mean
/// wind), and a user-defined type falls back to the mean wind; a single
/// component given changes nothing.
pub proof fn lemma_storm_motion_choice(has_u: bool, has_v: bool, kind: StormMotionType)
    ensures
        has_u && has_v ==> storm_motion_source_of(has_u, has_v, kind) == StormMotionSource::UserSupplied,
        !(has_u && has_v) && kind == StormMotionType::RightMoving ==> storm_motion_source_of(has_u, has_v, kind)
            == StormMotionSource::RightMoving,
        !(has_u && has_v) && kind == StormMotionType::LeftMoving ==> storm_motion_source_of(has_u, has_v, kind)
            == StormMotionSource::LeftMoving,
        !(has_u && has_v) && kind == StormMotionType::MeanWind ==> storm_motion_source_of(has_u, has_v, kind)
            == StormMotionSource::MeanWind,
        !(has_u && has_v) && kind == StormMotionType::UserDefined ==> storm_motion_source_of(has_u, has_v, kind)
            == StormMotionSource::MeanWind,
        !(has_u && has_v) ==> storm_motion_source_of(has_u, has_v, kind) == storm_motion_source_of(false, false, kind),
{
}

/// Chooses the storm motion: both components given in the options are used
/// whatever the storm motion type; otherwise the type picks a Bunkers motion,
/// and a user-defined type without both components falls back to the mean wind.
pub fn resolve_storm_motion_source(has_u: bool, has_v: bool, kind: StormMotionType) -> (res:
    StormMotionSource)
    ensures
        res == storm_motion_source_of(has_u, has_v, kind),
        res == StormMotionSource::UserSupplied <==> has_u && has_v,
        has_u && has_v ==> res == StormMotionSource::UserSupplied,
        !(has_u && has_v) && kind == StormMotionType::RightMoving ==> res == StormMotionSource::RightMoving,
        !(has_u && has_v) && kind == StormMotionType::LeftMoving ==> res == StormMotionSource::LeftMoving,
        !(has_u && has_v) && kind == StormMotionType::MeanWind ==> res == StormMotionSource::MeanWind,
        !(has_u && has_v) && kind == StormMotionType::UserDefined ==> res == StormMotionSource::MeanWind,
{
    if has_u && has_v {
        return StormMotionSource::UserSupplied;
    }
    match kind {
        StormMotionType::RightMoving => StormMotionSource::RightMoving,
        StormMotionType::LeftMoving => StormMotionSource::LeftMoving,
        StormMotionType::MeanWind => StormMotionSource::MeanWind,
        StormMotionType::UserDefined => {
            if has_u && has_v {
                StormMotionSource::UserSupplied
            } else {
                StormMotionSource::MeanWind
            }
        },
    }
}

} // verus!
