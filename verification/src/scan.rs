use vstd::prelude::*;

verus! {

/// The sign of a parcel level's buoyancy; `Neutral` holds for zero and for
/// a value that is neither positive nor negative.
#[derive(Debug, Clone, Copy, PartialEq, Eq, Structural)]
pub enum BuoyancySign {
    Positive,
    Negative,
    Neutral,
}

/// One level of a parcel ascent, lowest first.
#[derive(Debug, Clone, Copy, PartialEq, Eq, Structural)]
pub struct AscentLevel {
    /// The sign of the parcel's buoyancy at the level.
    pub sign: BuoyancySign,
    /// Whether the level lies below the height of minimum environmental
    /// moist static energy.
    pub below_min_mse: bool,
}

/// Which levels of an ascent count toward CAPE and CIN, and where the
/// equilibrium level (EL) and level of free convection (LFC) are.
///
/// The lowest level never counts: each counted level stands for the layer
/// between it and the level below.
pub struct ColumnScan {
    /// The highest positively buoyant level.
    pub el_level: Option<usize>,
    /// The highest negatively buoyant level below the minimum of moist
    /// static energy; `None` means the LFC is taken at the ground.
    pub lfc_level: Option<usize>,
    /// For each level, whether its layer is added to CAPE.
    pub cape_levels: Vec<bool>,
    /// For each level, whether its layer is added to CIN.
    pub cin_levels: Vec<bool>,
}

/// Level `i` is above the ground level and positively buoyant.
pub open spec fn is_buoyant(levels: Seq<AscentLevel>, i: int) -> bool {
    1 <= i < levels.len() && levels[i].sign == BuoyancySign::Positive
}

/// Level `i` is above the ground level, negatively buoyant, and below the
/// minimum of moist static energy.
pub open spec fn is_inhibiting(levels: Seq<AscentLevel>, i: int) -> bool {
    1 <= i < levels.len() && levels[i].sign == BuoyancySign::Negative && levels[i].below_min_mse
}

/// `top` is the highest buoyant level at or above `from`, or `None` when
/// no level there is buoyant.
pub open spec fn is_highest_buoyant_from(levels: Seq<AscentLevel>, from: int, top: Option<usize>) -> bool {
    match top {
        Some(t) => from <= t < levels.len() && is_buoyant(levels, t as int) && forall|j: int|
            t < j < levels.len() ==> !#[trigger] is_buoyant(levels, j),
        None => forall|j: int| from <= j < levels.len() ==> !#[trigger] is_buoyant(levels, j),
    }
}

/// `top` is the highest inhibiting level at or above `from`, or `None` when
/// no level there is inhibiting.
pub open spec fn is_highest_inhibiting_from(levels: Seq<AscentLevel>, from: int, top: Option<usize>) -> bool {
    match top {
        Some(t) => from <= t < levels.len() && is_inhibiting(levels, t as int) && forall|j: int|
            t < j < levels.len() ==> !#[trigger] is_inhibiting(levels, j),
        None => forall|j: int| from <= j < levels.len() ==> !#[trigger] is_inhibiting(levels, j),
    }
}

/// Level `i` adds to CAPE: it is buoyant and no inhibiting level lies above it.
pub open spec fn counts_for_cape(levels: Seq<AscentLevel>, i: int) -> bool {
    is_buoyant(levels, i) && forall|j: int| i < j < levels.len() ==> !#[trigger] is_inhibiting(levels, j)
}

/// What `scan_column` computes for an ascent.
pub open spec fn is_scan_of(levels: Seq<AscentLevel>, s: ColumnScan) -> bool {
    &&& is_highest_buoyant_from(levels, 0, s.el_level)
    &&& is_highest_inhibiting_from(levels, 0, s.lfc_level)
    &&& s.cape_levels@.len() == levels.len()
    &&& s.cin_levels@.len() == levels.len()
    &&& forall|i: int| 0 <= i < levels.len() ==> #[trigger] s.cape_levels@[i] == counts_for_cape(levels, i)
    &&& forall|i: int| 0 <= i < levels.len() ==> #[trigger] s.cin_levels@[i] == is_inhibiting(levels, i)
}

/// Of a scanned ascent, stated over the levels' own fields: a layer adds to
/// CIN exactly when its level (above the ground level) is negatively buoyant
/// and below the minimum of moist static energy, whatever lies above it; the
/// LFC is the highest such level, absent only when there is none; the EL is
/// the highest positively buoyant level, absent only when there is none; and
/// a layer adds to CAPE exactly when its level is positively buoyant and no
/// CIN level lies above it.
pub proof fn lemma_scan_by_level_fields(levels: Seq<AscentLevel>, s: ColumnScan)
    requires
        is_scan_of(levels, s),
    ensures
        forall|i: int|
            0 <= i < levels.len() ==> #[trigger] s.cin_levels@[i] == (1 <= i && levels[i].sign
                == BuoyancySign::Negative && levels[i].below_min_mse),
        forall|i: int|
            0 <= i < levels.len() ==> #[trigger] s.cape_levels@[i] == (1 <= i && levels[i].sign
                == BuoyancySign::Positive && forall|j: int|
                i < j < levels.len() ==> !(#[trigger] levels[j].sign == BuoyancySign::Negative
                    && levels[j].below_min_mse)),
        s.lfc_level matches Some(t) ==> {
            &&& 1 <= t < levels.len()
            &&& levels[t as int].sign == BuoyancySign::Negative
            &&& levels[t as int].below_min_mse
            &&& forall|j: int|
                t < j < levels.len() ==> !(#[trigger] levels[j].sign == BuoyancySign::Negative
                    && levels[j].below_min_mse)
        },
        s.lfc_level is None ==> forall|j: int|
            1 <= j < levels.len() ==> !(#[trigger] levels[j].sign == BuoyancySign::Negative
                && levels[j].below_min_mse),
        s.el_level matches Some(t) ==> {
            &&& 1 <= t < levels.len()
            &&& levels[t as int].sign == BuoyancySign::Positive
            &&& forall|j: int| t < j < levels.len() ==> #[trigger] levels[j].sign != BuoyancySign::Positive
        },
        s.el_level is None ==> forall|j: int|
            1 <= j < levels.len() ==> #[trigger] levels[j].sign != BuoyancySign::Positive,
{
    assert forall|i: int| 0 <= i < levels.len() implies #[trigger] s.cape_levels@[i] == (1 <= i && levels[i].sign
                == BuoyancySign::Positive && forall|j: int|
                i < j < levels.len() ==> !(#[trigger] levels[j].sign == BuoyancySign::Negative
                    && levels[j].below_min_mse)) by {
        assert(s.cape_levels@[i] == counts_for_cape(levels, i));
        let direct = forall|j: int|
            i < j < levels.len() ==> !(#[trigger] levels[j].sign == BuoyancySign::Negative
                && levels[j].below_min_mse);
        let via = forall|j: int| i < j < levels.len() ==> !#[trigger] is_inhibiting(levels, j);
        if 1 <= i {
            if via {
                assert forall|j: int| i < j < levels.len() implies !(#[trigger] levels[j].sign
                    == BuoyancySign::Negative && levels[j].below_min_mse) by {
                    assert(!is_inhibiting(levels, j));
                }
            }
            if direct {
                assert forall|j: int| i < j < levels.len() implies !#[trigger] is_inhibiting(levels, j) by {
                    assert(!(levels[j].sign == BuoyancySign::Negative && levels[j].below_min_mse));
                }
            }
            assert(via == direct);
        }
    }
    if let Some(t) = s.lfc_level {
        assert forall|j: int| t < j < levels.len() implies !(#[trigger] levels[j].sign == BuoyancySign::Negative
                    && levels[j].below_min_mse) by {
            assert(!is_inhibiting(levels, j));
        }
    } else {
        assert forall|j: int| 1 <= j < levels.len() implies !(#[trigger] levels[j].sign == BuoyancySign::Negative
                && levels[j].below_min_mse) by {
            assert(!is_inhibiting(levels, j));
        }
    }
    if let Some(t) = s.el_level {
        assert forall|j: int| t < j < levels.len() implies #[trigger] levels[j].sign != BuoyancySign::Positive by {
            assert(!is_buoyant(levels, j));
        }
    } else {
        assert forall|j: int| 1 <= j < levels.len() implies #[trigger] levels[j].sign != BuoyancySign::Positive by {
            assert(!is_buoyant(levels, j));
        }
    }
}

/// Scans an ascent from the top down, as CAPE, CIN, LFC and EL are found:
/// the EL is the first buoyant level met, CAPE gathers buoyant layers until
/// the first inhibiting level (the LFC) is met, and CIN gathers every
/// inhibiting layer.
pub fn scan_column(levels: &[AscentLevel]) -> (s: ColumnScan)
    ensures
        is_scan_of(levels@, s),
        forall|i: int|
            0 <= i < levels@.len() ==> #[trigger] s.cin_levels@[i] == (1 <= i && levels@[i].sign
                == BuoyancySign::Negative && levels@[i].below_min_mse),
        forall|i: int|
            0 <= i < levels@.len() ==> #[trigger] s.cape_levels@[i] == (1 <= i && levels@[i].sign
                == BuoyancySign::Positive && forall|j: int|
                i < j < levels@.len() ==> !(#[trigger] levels@[j].sign == BuoyancySign::Negative
                    && levels@[j].below_min_mse)),
        s.lfc_level matches Some(t) ==> {
            &&& 1 <= t < levels@.len()
            &&& levels@[t as int].sign == BuoyancySign::Negative
            &&& levels@[t as int].below_min_mse
            &&& forall|j: int|
                t < j < levels@.len() ==> !(#[trigger] levels@[j].sign == BuoyancySign::Negative
                    && levels@[j].below_min_mse)
        },
        s.lfc_level is None ==> forall|j: int|
            1 <= j < levels@.len() ==> !(#[trigger] levels@[j].sign == BuoyancySign::Negative
                && levels@[j].below_min_mse),
        s.el_level matches Some(t) ==> {
            &&& 1 <= t < levels@.len()
            &&& levels@[t as int].sign == BuoyancySign::Positive
            &&& forall|j: int| t < j < levels@.len() ==> #[trigger] levels@[j].sign != BuoyancySign::Positive
        },
        s.el_level is None ==> forall|j: int|
            1 <= j < levels@.len() ==> #[trigger] levels@[j].sign != BuoyancySign::Positive,
{
    let n = levels.len();
    let mut cape_levels: Vec<bool> = Vec::new();
    let mut cin_levels: Vec<bool> = Vec::new();
    let mut j: usize = 0;
    while j < n
        invariant
            j <= n,
            cape_levels@.len() == j,
            cin_levels@.len() == j,
            forall|m: int| 0 <= m < j ==> !#[trigger] cape_levels@[m],
            forall|m: int| 0 <= m < j ==> !#[trigger] cin_levels@[m],
        decreases n - j,
    {
        cape_levels.push(false);
        cin_levels.push(false);
        j = j + 1;
    }
    let ghost lv = levels@;
    let mut el_level: Option<usize> = None;
    let mut lfc_level: Option<usize> = None;
    let mut k: usize = n;
    while k > 1
        invariant
            n == lv.len(),
            lv == levels@,
            k <= n,
            n >= 1 ==> k >= 1,
            cape_levels@.len() == n,
            cin_levels@.len() == n,
            forall|m: int| 0 <= m < k ==> !#[trigger] cape_levels@[m],
            forall|m: int| 0 <= m < k ==> !#[trigger] cin_levels@[m],
            forall|m: int| k <= m < n ==> #[trigger] cape_levels@[m] == counts_for_cape(lv, m),
            forall|m: int| k <= m < n ==> #[trigger] cin_levels@[m] == is_inhibiting(lv, m),
            is_highest_buoyant_from(lv, k as int, el_level),
            is_highest_inhibiting_from(lv, k as int, lfc_level),
        decreases k,
    {
        let i = k - 1;
        let level = levels[i];
        let positive = match level.sign {
            BuoyancySign::Positive => true,
            _ => false,
        };
        let negative = match level.sign {
            BuoyancySign::Negative => true,
            _ => false,
        };
        if positive && el_level.is_none() {
            el_level = Some(i);
        }
        if positive && lfc_level.is_none() {
            cape_levels.set(i, true);
        }
        if level.below_min_mse && negative {
            cin_levels.set(i, true);
            if lfc_level.is_none() {
                lfc_level = Some(i);
            }
        }
        proof {
            assert(is_buoyant(lv, i as int) == positive);
            assert(is_inhibiting(lv, i as int) == (level.below_min_mse && negative));
        }
        k = i;
    }
    proof {
        assert(!is_buoyant(lv, 0));
        assert(!is_inhibiting(lv, 0));
        assert(!counts_for_cape(lv, 0));
    }
    let s = ColumnScan { el_level, lfc_level, cape_levels, cin_levels };
    proof {
        lemma_scan_by_level_fields(lv, s);
    }
    s
}

/// Of a scanned ascent: a layer adds to CAPE exactly when its level is
/// buoyant and lies above the LFC (or no LFC was found); every CAPE level
/// lies at or below the EL; no layer adds to both CAPE and CIN; and every
/// CIN level lies at or below the LFC.
pub proof fn lemma_scan_layers(levels: Seq<AscentLevel>, s: ColumnScan)
    requires
        is_scan_of(levels, s),
    ensures
        forall|i: int|
            0 <= i < levels.len() ==> (#[trigger] s.cape_levels@[i] <==> is_buoyant(levels, i) && (
            s.lfc_level is None || s.lfc_level->0 < i)),
        forall|i: int|
            0 <= i < levels.len() && #[trigger] s.cape_levels@[i] ==> s.el_level is Some && i
                <= s.el_level->0,
        forall|i: int|
            0 <= i < levels.len() && #[trigger] s.cin_levels@[i] ==> s.lfc_level is Some && i
                <= s.lfc_level->0,
        forall|i: int| 0 <= i < levels.len() ==> !(#[trigger] s.cape_levels@[i] && s.cin_levels@[i]),
        s.cape_levels@.len() > 0 ==> !s.cape_levels@[0] && !s.cin_levels@[0],
{
    assert forall|i: int| 0 <= i < levels.len() implies (#[trigger] s.cape_levels@[i] <==> is_buoyant(levels, i) && (
            s.lfc_level is None || s.lfc_level->0 < i)) by {
        if s.cape_levels@[i] {
            if let Some(t) = s.lfc_level {
                if t >= i {
                    assert(t > i);
                    assert(!is_inhibiting(levels, t as int));
                }
            }
        }
    }
}

/// The range of environmental layers, `[first, end)`, over which NCAPE is
/// integrated between the level nearest the LFC and the level nearest the
/// EL; `None` when fewer than one full layer lies between them, in which
/// case NCAPE is zero.
pub fn ncape_span(lfc_index: usize, el_index: usize) -> (r: Option<(usize, usize)>)
    ensures
        r is None <==> el_index <= lfc_index + 1,
        r matches Some((first, end)) ==> first == lfc_index && end == el_index - 1 && first < end,
{
    if el_index <= lfc_index || el_index - lfc_index <= 1 {
        None
    } else {
        Some((lfc_index, el_index - 1))
    }
}

} // verus!
