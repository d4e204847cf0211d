use vstd::prelude::*;

verus! {

/// How the parcel's starting state is chosen.
#[derive(Debug, Clone, Copy, PartialEq, Eq, Structural)]
pub enum CapeType {
    SurfaceBased,
    MostUnstable,
    MixedLayer,
    UserDefined,
}

/// Which storm motion the storm-relative inflow is measured against.
#[derive(Debug, Clone, Copy, PartialEq, Eq, Structural)]
pub enum StormMotionType {
    RightMoving,
    LeftMoving,
    MeanWind,
    UserDefined,
}

impl Default for CapeType {
    fn default() -> (r: Self)
        ensures
            r == CapeType::SurfaceBased,
    {
        CapeType::SurfaceBased
    }
}

impl Default for StormMotionType {
    fn default() -> (r: Self)
        ensures
            r == StormMotionType::RightMoving,
    {
        StormMotionType::RightMoving
    }
}

/// Reasons a sounding or a parcel request is rejected.
#[derive(Debug, Clone, Copy, PartialEq, Eq, Structural)]
pub enum EcapeError {
    DimensionMismatch,
    EmptyProfile,
    NonMonotonicPressure,
    NonMonotonicHeight,
    NonFiniteInput,
    OriginNotFound,
}

/// The human-readable description of each error.
pub open spec fn error_message(e: EcapeError) -> Seq<char> {
    match e {
        EcapeError::DimensionMismatch => "profile arrays must have the same length"@,
        EcapeError::EmptyProfile => "profile is empty"@,
        EcapeError::NonMonotonicPressure => "pressure must decrease monotonically"@,
        EcapeError::NonMonotonicHeight => "height must increase monotonically"@,
        EcapeError::NonFiniteInput => "profile contains non-finite values"@,
        EcapeError::OriginNotFound => "could not determine parcel origin"@,
    }
}

impl EcapeError {
    /// The message this error displays as.
    pub fn message(&self) -> (m: &'static str)
        ensures
            m@ == error_message(*self),
            *self == EcapeError::DimensionMismatch ==> m@ == "profile arrays must have the same length"@,
            *self == EcapeError::EmptyProfile ==> m@ == "profile is empty"@,
            *self == EcapeError::NonMonotonicPressure ==> m@ == "pressure must decrease monotonically"@,
            *self == EcapeError::NonMonotonicHeight ==> m@ == "height must increase monotonically"@,
            *self == EcapeError::NonFiniteInput ==> m@ == "profile contains non-finite values"@,
            *self == EcapeError::OriginNotFound ==> m@ == "could not determine parcel origin"@,
    {
        match self {
            EcapeError::DimensionMismatch => "profile arrays must have the same length",
            EcapeError::EmptyProfile => "profile is empty",
            EcapeError::NonMonotonicPressure => "pressure must decrease monotonically",
            EcapeError::NonMonotonicHeight => "height must increase monotonically",
            EcapeError::NonFiniteInput => "profile contains non-finite values",
            EcapeError::OriginNotFound => "could not determine parcel origin",
        }
    }
}

} // verus!
