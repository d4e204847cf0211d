use vstd::prelude::*;

verus! {

/// What the floating-point comparisons found about a parcel's summary.
#[derive(Debug, Clone, Copy, PartialEq, Eq, Structural)]
pub struct EcapeFacts {
    /// An LFC was found.
    pub has_lfc: bool,
    /// An EL was found.
    pub has_el: bool,
    /// The EL lies strictly above the LFC (meaningful when both were found).
    pub el_above_lfc: bool,
    /// The entrainment parameter psi computed from the EL is positive.
    pub psi_positive: bool,
    /// The storm-relative inflow wind is positive.
    pub sr_wind_positive: bool,
}

/// Which terms of the ECAPE formula are evaluated; a term that is not
/// evaluated is zero.
#[derive(Debug, Clone, Copy, PartialEq, Eq, Structural)]
pub struct EcapePlan {
    /// NCAPE is integrated between the LFC and the EL.
    pub integrate_ncape: bool,
    /// The analytic ECAPE is evaluated.
    pub evaluate_ecape: bool,
}

/// Decides which ECAPE terms are evaluated: NCAPE needs both an LFC and an
/// EL above it, and ECAPE needs an EL, a positive psi and a
/// positive storm-relative wind.
pub fn plan_ecape(facts: EcapeFacts) -> (p: EcapePlan)
    ensures
        p.integrate_ncape == (facts.has_lfc && facts.has_el && facts.el_above_lfc),
        p.evaluate_ecape == (facts.has_el && facts.psi_positive && facts.sr_wind_positive),
{
    EcapePlan {
        integrate_ncape: facts.has_lfc && facts.has_el && facts.el_above_lfc,
        evaluate_ecape: facts.has_el && facts.psi_positive && facts.sr_wind_positive,
    }
}

/// Where the entrainment rate of the entraining ascent comes from.
#[derive(Debug, Clone, Copy, PartialEq, Eq, Structural)]
pub enum EntrainmentSource {
    /// The rate given in the options.
    Given,
    /// The rate derived from the non-entraining parcel's CAPE, ECAPE, NCAPE
    /// and the depth from the origin to the EL.
    Derived,
    /// No entrainment.
    Zero,
}

/// Decides the entrainment rate's source: a rate given in the options is
/// used; otherwise it is derived when the non-entraining parcel has an EL
/// above its origin and positive CAPE, and is zero when it has not.
pub fn entrainment_source(has_given_rate: bool, has_el: bool, el_above_origin: bool, cape_positive: bool) -> (s:
    EntrainmentSource)
    ensures
        has_given_rate ==> s == EntrainmentSource::Given,
        !has_given_rate && has_el && el_above_origin && cape_positive ==> s == EntrainmentSource::Derived,
        !has_given_rate && !(has_el && el_above_origin && cape_positive) ==> s == EntrainmentSource::Zero,
{
    if has_given_rate {
        EntrainmentSource::Given
    } else if has_el && el_above_origin && cape_positive {
        EntrainmentSource::Derived
    } else {
        EntrainmentSource::Zero
    }
}

} // verus!
