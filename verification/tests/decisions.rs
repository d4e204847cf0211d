use ecape_rs::ascent::{next_ascent_action, AscentAction, MAX_ASCENT_LEVELS};
use ecape_rs::bracket::{find_bracketing_index, locate_in_profile, ProfilePosition};
use ecape_rs::ecape::{entrainment_source, plan_ecape, EcapeFacts, EcapePlan, EntrainmentSource};
use ecape_rs::levels::{leading_run_len, mixed_layer_levels, select_levels};
use ecape_rs::origin::{resolve_origin_source, OriginSource};
use ecape_rs::scan::{ncape_span, scan_column, AscentLevel, BuoyancySign};
use ecape_rs::storm::{resolve_storm_motion_source, StormMotionSource};
use ecape_rs::types::{CapeType, EcapeError, StormMotionType};
use ecape_rs::validate::{validate_profile, LevelCheck};

fn ok_level() -> LevelCheck {
    LevelCheck { finite: true, height_rises: true, pressure_falls: true }
}

#[test]
fn defaults_match_the_documented_choices() {
    assert_eq!(CapeType::default(), CapeType::SurfaceBased);
    assert_eq!(StormMotionType::default(), StormMotionType::RightMoving);
}

#[test]
fn error_messages() {
    assert_eq!(EcapeError::DimensionMismatch.message(), "profile arrays must have the same length");
    assert_eq!(EcapeError::EmptyProfile.message(), "profile is empty");
    assert_eq!(EcapeError::NonMonotonicPressure.message(), "pressure must decrease monotonically");
    assert_eq!(EcapeError::NonMonotonicHeight.message(), "height must increase monotonically");
    assert_eq!(EcapeError::NonFiniteInput.message(), "profile contains non-finite values");
    assert_eq!(EcapeError::OriginNotFound.message(), "could not determine parcel origin");
}

#[test]
fn empty_profile_is_rejected_first() {
    assert_eq!(validate_profile(0, 3, 3, 3, 3, 3, &[]), Err(EcapeError::EmptyProfile));
}

#[test]
fn mismatched_lengths_are_rejected() {
    assert_eq!(validate_profile(3, 3, 3, 2, 3, 3, &[]), Err(EcapeError::DimensionMismatch));
    assert_eq!(validate_profile(3, 3, 3, 3, 3, 4, &[]), Err(EcapeError::DimensionMismatch));
}

#[test]
fn sound_profile_is_accepted() {
    let levels = vec![ok_level(), ok_level(), ok_level()];
    assert_eq!(validate_profile(3, 3, 3, 3, 3, 3, &levels), Ok(()));
}

#[test]
fn monotonicity_is_not_checked_at_the_first_level() {
    let first = LevelCheck { finite: true, height_rises: false, pressure_falls: false };
    let levels = vec![first, ok_level()];
    assert_eq!(validate_profile(2, 2, 2, 2, 2, 2, &levels), Ok(()));
}

#[test]
fn lowest_fault_wins_and_finiteness_is_checked_first() {
    let non_finite = LevelCheck { finite: false, height_rises: false, pressure_falls: false };
    let bad_pressure = LevelCheck { finite: true, height_rises: true, pressure_falls: false };
    let bad_height = LevelCheck { finite: true, height_rises: false, pressure_falls: false };
    assert_eq!(
        validate_profile(3, 3, 3, 3, 3, 3, &[ok_level(), bad_pressure, non_finite]),
        Err(EcapeError::NonMonotonicPressure)
    );
    assert_eq!(
        validate_profile(3, 3, 3, 3, 3, 3, &[ok_level(), non_finite, bad_pressure]),
        Err(EcapeError::NonFiniteInput)
    );
    assert_eq!(
        validate_profile(2, 2, 2, 2, 2, 2, &[ok_level(), bad_height]),
        Err(EcapeError::NonMonotonicHeight)
    );
}

#[test]
fn bracket_at_the_bottom() {
    assert_eq!(find_bracketing_index(&[true, true, true]), 0);
    assert_eq!(find_bracketing_index(&[true]), 0);
}

#[test]
fn bracket_below_the_first_reached_level() {
    assert_eq!(find_bracketing_index(&[false, false, true, true]), 1);
    assert_eq!(find_bracketing_index(&[false, true, false, true]), 0);
}

#[test]
fn bracket_falls_back_to_the_top_layer() {
    assert_eq!(find_bracketing_index(&[false, false, false, false]), 2);
    assert_eq!(find_bracketing_index(&[false, false]), 0);
}

#[test]
fn selected_levels_are_the_flagged_ones_in_order() {
    assert_eq!(select_levels(&[true, false, true, true, false]), vec![0, 2, 3]);
    assert_eq!(select_levels(&[false, false]), Vec::<usize>::new());
    assert_eq!(select_levels(&[]), Vec::<usize>::new());
}

#[test]
fn mixed_layer_falls_back_to_the_lowest_level() {
    assert_eq!(mixed_layer_levels(&[true, true, false]), vec![0, 1]);
    assert_eq!(mixed_layer_levels(&[false, false, false]), vec![0]);
}

#[test]
fn leading_run_stops_at_first_unflagged_level() {
    assert_eq!(leading_run_len(&[true, true, false, true]), 2);
    assert_eq!(leading_run_len(&[true, true]), 2);
    assert_eq!(leading_run_len(&[false, true]), 0);
    assert_eq!(leading_run_len(&[]), 0);
}

#[test]
fn origin_precedence() {
    assert_eq!(resolve_origin_source(true, true, CapeType::UserDefined), Ok(OriginSource::BracketingPressure));
    assert_eq!(resolve_origin_source(false, true, CapeType::MixedLayer), Ok(OriginSource::BracketingHeight));
    assert_eq!(resolve_origin_source(false, false, CapeType::SurfaceBased), Ok(OriginSource::Surface));
    assert_eq!(resolve_origin_source(false, false, CapeType::MixedLayer), Ok(OriginSource::MixedLayer));
    assert_eq!(resolve_origin_source(false, false, CapeType::MostUnstable), Ok(OriginSource::MostUnstable));
}

#[test]
fn user_defined_origin_without_explicit_origin_fails() {
    assert_eq!(resolve_origin_source(false, false, CapeType::UserDefined), Err(EcapeError::OriginNotFound));
}

#[test]
fn storm_motion_choice() {
    assert_eq!(resolve_storm_motion_source(true, true, StormMotionType::LeftMoving), StormMotionSource::UserSupplied);
    assert_eq!(resolve_storm_motion_source(true, false, StormMotionType::RightMoving), StormMotionSource::RightMoving);
    assert_eq!(resolve_storm_motion_source(false, false, StormMotionType::LeftMoving), StormMotionSource::LeftMoving);
    assert_eq!(resolve_storm_motion_source(false, true, StormMotionType::MeanWind), StormMotionSource::MeanWind);
}

#[test]
fn user_defined_storm_motion_without_both_components_uses_mean_wind() {
    assert_eq!(resolve_storm_motion_source(true, false, StormMotionType::UserDefined), StormMotionSource::MeanWind);
    assert_eq!(resolve_storm_motion_source(true, true, StormMotionType::UserDefined), StormMotionSource::UserSupplied);
}

fn lvl(sign: BuoyancySign, below_min_mse: bool) -> AscentLevel {
    AscentLevel { sign, below_min_mse }
}

#[test]
fn scan_of_a_typical_ascent() {
    // ground, inhibition below the minimum of MSE, free ascent, then negative above the EL
    let levels = vec![
        lvl(BuoyancySign::Positive, true),
        lvl(BuoyancySign::Negative, true),
        lvl(BuoyancySign::Negative, true),
        lvl(BuoyancySign::Positive, true),
        lvl(BuoyancySign::Positive, false),
        lvl(BuoyancySign::Negative, false),
    ];
    let s = scan_column(&levels);
    assert_eq!(s.el_level, Some(4));
    assert_eq!(s.lfc_level, Some(2));
    assert_eq!(s.cape_levels, vec![false, false, false, true, true, false]);
    assert_eq!(s.cin_levels, vec![false, true, true, false, false, false]);
}

#[test]
fn cape_stops_at_the_lfc() {
    let levels = vec![lvl(BuoyancySign::Neutral, false), lvl(BuoyancySign::Positive, true), lvl(BuoyancySign::Negative, true), lvl(BuoyancySign::Positive, false)];
    let s = scan_column(&levels);
    assert_eq!(s.lfc_level, Some(2));
    assert_eq!(s.el_level, Some(3));
    assert_eq!(s.cape_levels, vec![false, false, false, true]);
    assert_eq!(s.cin_levels, vec![false, false, true, false]);
}

#[test]
fn negative_levels_above_the_mse_minimum_are_not_cin() {
    let levels = vec![lvl(BuoyancySign::Negative, true), lvl(BuoyancySign::Negative, false), lvl(BuoyancySign::Neutral, true)];
    let s = scan_column(&levels);
    assert_eq!(s.lfc_level, None);
    assert_eq!(s.el_level, None);
    assert_eq!(s.cape_levels, vec![false, false, false]);
    assert_eq!(s.cin_levels, vec![false, false, false]);
}

#[test]
fn ground_level_never_counts() {
    let s = scan_column(&[lvl(BuoyancySign::Positive, true)]);
    assert_eq!(s.el_level, None);
    assert_eq!(s.cape_levels, vec![false]);
    let s = scan_column(&[]);
    assert_eq!(s.el_level, None);
    assert_eq!(s.lfc_level, None);
    assert!(s.cape_levels.is_empty());
}

#[test]
fn ncape_span_needs_a_full_layer() {
    assert_eq!(ncape_span(3, 4), None);
    assert_eq!(ncape_span(3, 3), None);
    assert_eq!(ncape_span(5, 2), None);
    assert_eq!(ncape_span(3, 5), Some((3, 4)));
    assert_eq!(ncape_span(0, 10), Some((0, 9)));
}

#[test]
fn profile_position_at_the_ends() {
    assert_eq!(locate_in_profile(true, false, &[true, true, true]), ProfilePosition::Bottom);
    assert_eq!(locate_in_profile(false, true, &[false, false, false]), ProfilePosition::Top);
    assert_eq!(locate_in_profile(true, true, &[true]), ProfilePosition::Bottom);
    assert_eq!(locate_in_profile(false, true, &[false]), ProfilePosition::Top);
}

#[test]
fn profile_position_inside() {
    assert_eq!(locate_in_profile(false, false, &[false, false, true, true]), ProfilePosition::Between(1));
    // a target that compares with nothing (NaN) falls in the top layer
    assert_eq!(locate_in_profile(false, false, &[false, false, false]), ProfilePosition::Between(1));
}

#[test]
fn ascent_steps_and_stops() {
    assert_eq!(next_ascent_action(1, true, false), AscentAction::DryStep);
    assert_eq!(next_ascent_action(1, true, true), AscentAction::MoistStep);
    assert_eq!(next_ascent_action(1, false, true), AscentAction::Stop);
    assert_eq!(next_ascent_action(MAX_ASCENT_LEVELS, true, true), AscentAction::MoistStep);
    assert_eq!(next_ascent_action(MAX_ASCENT_LEVELS + 1, true, false), AscentAction::Stop);
    assert_eq!(MAX_ASCENT_LEVELS, 20000);
}

#[test]
fn ascent_driven_to_the_cap_records_one_more_level_than_the_cap() {
    let mut recorded = 1usize;
    while next_ascent_action(recorded, true, false) != AscentAction::Stop {
        recorded += 1;
    }
    assert_eq!(recorded, MAX_ASCENT_LEVELS + 1);
}

fn facts(has_lfc: bool, has_el: bool, el_above_lfc: bool, psi_positive: bool, sr_wind_positive: bool) -> EcapeFacts {
    EcapeFacts { has_lfc, has_el, el_above_lfc, psi_positive, sr_wind_positive }
}

#[test]
fn ecape_terms_need_their_levels() {
    let all = plan_ecape(facts(true, true, true, true, true));
    assert_eq!(all, EcapePlan { integrate_ncape: true, evaluate_ecape: true });
    let el_below_lfc = plan_ecape(facts(true, true, false, true, true));
    assert_eq!(el_below_lfc, EcapePlan { integrate_ncape: false, evaluate_ecape: true });
    let no_el = plan_ecape(facts(true, false, false, false, true));
    assert_eq!(no_el, EcapePlan { integrate_ncape: false, evaluate_ecape: false });
    let calm = plan_ecape(facts(true, true, true, true, false));
    assert_eq!(calm, EcapePlan { integrate_ncape: true, evaluate_ecape: false });
}

#[test]
fn entrainment_source_choice() {
    assert_eq!(entrainment_source(true, false, false, false), EntrainmentSource::Given);
    assert_eq!(entrainment_source(false, true, true, true), EntrainmentSource::Derived);
    assert_eq!(entrainment_source(false, true, false, true), EntrainmentSource::Zero);
    assert_eq!(entrainment_source(false, true, true, false), EntrainmentSource::Zero);
    assert_eq!(entrainment_source(false, false, true, true), EntrainmentSource::Zero);
}
