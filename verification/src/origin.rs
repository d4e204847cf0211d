use vstd::prelude::*;

use crate::types::{CapeType, EcapeError};

verus! {

/// Where the parcel starts.
#[derive(Debug, Clone, Copy, PartialEq, Eq, Structural)]
pub enum OriginSource {
    /// At the level that brackets the requested origin pressure.
    BracketingPressure,
    /// At the level that brackets the requested origin height.
    BracketingHeight,
    /// At the lowest level.
    Surface,
    /// At the lowest level, with the layer-mean potential temperature and moisture.
    MixedLayer,
    /// At the level of highest equivalent potential temperature.
    MostUnstable,
}

/// The origin chosen for the given options.
pub open spec fn origin_source_of(
    has_origin_pressure: bool,
    has_origin_height: bool,
    cape_type: CapeType,
) -> Result<OriginSource, EcapeError> {
    if has_origin_pressure {
        Ok(OriginSource::BracketingPressure)
    } else if has_origin_height {
        Ok(OriginSource::BracketingHeight)
    } else {
        match cape_type {
            CapeType::SurfaceBased => Ok(OriginSource::Surface),
            CapeType::MixedLayer => Ok(OriginSource::MixedLayer),
            CapeType::MostUnstable => Ok(OriginSource::MostUnstable),
            CapeType::UserDefined => Err(EcapeError::OriginNotFound),
        }
    }
}

/// An explicit origin pressure decides the origin whatever else is given;
/// without one, an explicit origin height decides it whatever the CAPE type;
/// only without both does the CAPE type decide, and then a surface-based,
/// mixed-layer or most-unstable type starts the parcel accordingly while a
/// user-defined type has no origin.
pub proof fn lemma_origin_precedence(has_origin_pressure: bool, has_origin_height: bool, cape_type: CapeType)
    ensures
        has_origin_pressure ==> origin_source_of(has_origin_pressure, has_origin_height, cape_type)
            == Ok::<OriginSource, EcapeError>(OriginSource::BracketingPressure),
        !has_origin_pressure && has_origin_height ==> origin_source_of(has_origin_pressure, has_origin_height, cape_type)
            == Ok::<OriginSource, EcapeError>(OriginSource::BracketingHeight),
        !has_origin_pressure && !has_origin_height && cape_type == CapeType::SurfaceBased
            ==> origin_source_of(has_origin_pressure, has_origin_height, cape_type)
            == Ok::<OriginSource, EcapeError>(OriginSource::Surface),
        !has_origin_pressure && !has_origin_height && cape_type == CapeType::MixedLayer
            ==> origin_source_of(has_origin_pressure, has_origin_height, cape_type)
            == Ok::<OriginSource, EcapeError>(OriginSource::MixedLayer),
        !has_origin_pressure && !has_origin_height && cape_type == CapeType::MostUnstable
            ==> origin_source_of(has_origin_pressure, has_origin_height, cape_type)
            == Ok::<OriginSource, EcapeError>(OriginSource::MostUnstable),
        !has_origin_pressure && !has_origin_height && cape_type == CapeType::UserDefined
            ==> origin_source_of(has_origin_pressure, has_origin_height, cape_type)
            == Err::<OriginSource, EcapeError>(EcapeError::OriginNotFound),
{
}

/// Chooses how the parcel origin is found: an explicit origin pressure wins
/// over an explicit origin height, which wins over the CAPE type; a
/// user-defined CAPE type without an explicit origin has none.
pub fn resolve_origin_source(
    has_origin_pressure: bool,
    has_origin_height: bool,
    cape_type: CapeType,
) -> (res: Result<OriginSource, EcapeError>)
    ensures
        res == origin_source_of(has_origin_pressure, has_origin_height, cape_type),
        has_origin_pressure ==> res == Ok::<OriginSource, EcapeError>(OriginSource::BracketingPressure),
        !has_origin_pressure && has_origin_height ==> res == Ok::<OriginSource, EcapeError>(
            OriginSource::BracketingHeight),
        !has_origin_pressure && !has_origin_height && cape_type == CapeType::SurfaceBased ==> res
            == Ok::<OriginSource, EcapeError>(OriginSource::Surface),
        !has_origin_pressure && !has_origin_height && cape_type == CapeType::MixedLayer ==> res
            == Ok::<OriginSource, EcapeError>(OriginSource::MixedLayer),
        !has_origin_pressure && !has_origin_height && cape_type == CapeType::MostUnstable ==> res
            == Ok::<OriginSource, EcapeError>(OriginSource::MostUnstable),
        !has_origin_pressure && !has_origin_height && cape_type == CapeType::UserDefined ==> res
            == Err::<OriginSource, EcapeError>(EcapeError::OriginNotFound),
        res is Err <==> (!has_origin_pressure && !has_origin_height && cape_type == CapeType::UserDefined),
{
    if has_origin_pressure {
        return Ok(OriginSource::BracketingPressure);
    }
    if has_origin_height {
        return Ok(OriginSource::BracketingHeight);
    }
    match cape_type {
        CapeType::SurfaceBased => Ok(OriginSource::Surface),
        CapeType::MixedLayer => Ok(OriginSource::MixedLayer),
        CapeType::MostUnstable => Ok(OriginSource::MostUnstable),
        CapeType::UserDefined => Err(EcapeError::OriginNotFound),
    }
}

} // verus!
