use vstd::prelude::*;

verus! {

/// The most levels a parcel ascent records before it is cut off.
pub const MAX_ASCENT_LEVELS: usize = 20000;

/// What a parcel ascent does next.
#[derive(Debug, Clone, Copy, PartialEq, Eq, Structural)]
pub enum AscentAction {
    /// The ascent is over.
    Stop,
    /// Lift the parcel one step along the unsaturated lapse rate.
    DryStep,
    /// Lift the parcel one step along the saturated lapse rate.
    MoistStep,
}

/// The next step of an ascent, as `next_ascent_action` decides it.
pub open spec fn ascent_action(recorded_levels: usize, within_sounding: bool, saturated: bool) -> AscentAction {
    if !within_sounding || recorded_levels > MAX_ASCENT_LEVELS {
        AscentAction::Stop
    } else if saturated {
        AscentAction::MoistStep
    } else {
        AscentAction::DryStep
    }
}

/// An ascent that starts from at most `MAX_ASCENT_LEVELS + 1` recorded levels
/// and records one level per step never holds more than that: whenever a
/// step is taken, the level it records still fits.
pub proof fn lemma_ascent_is_bounded(recorded_levels: usize, within_sounding: bool, saturated: bool)
    requires
        recorded_levels <= MAX_ASCENT_LEVELS + 1,
    ensures
        ascent_action(recorded_levels, within_sounding, saturated) != AscentAction::Stop
            ==> recorded_levels + 1 <= MAX_ASCENT_LEVELS + 1,
{
}

/// Decides the next step of a parcel ascent that has recorded
/// `recorded_levels` levels: it stops once the parcel has left the top of
/// the sounding or more than `MAX_ASCENT_LEVELS` levels are recorded;
/// otherwise an unsaturated parcel takes a dry step and a saturated one
/// (one whose saturation mixing ratio is not above its vapour content) a
/// moist step.
pub fn next_ascent_action(recorded_levels: usize, within_sounding: bool, saturated: bool) -> (a:
    AscentAction)
    ensures
        a == ascent_action(recorded_levels, within_sounding, saturated),
        a == AscentAction::Stop <==> (!within_sounding || recorded_levels > MAX_ASCENT_LEVELS),
        a == AscentAction::DryStep <==> (within_sounding && recorded_levels <= MAX_ASCENT_LEVELS
            && !saturated),
        a == AscentAction::MoistStep <==> (within_sounding && recorded_levels <= MAX_ASCENT_LEVELS
            && saturated),
{
    if !within_sounding || recorded_levels > MAX_ASCENT_LEVELS {
        AscentAction::Stop
    } else if saturated {
        AscentAction::MoistStep
    } else {
        AscentAction::DryStep
    }
}

} // verus!
