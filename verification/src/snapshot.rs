//! Telemetry aggregation: the raw readings of one polling cycle combine into
//! one immutable site snapshot with fixed sign conventions.
//!
//! The meter-power sign convention: the register reports export as positive,
//! so the stored net import is the scaled meter reading negated — positive
//! when the site imports from the grid.

use vstd::prelude::*;
use crate::scale::{
    low_exp, negated, per_thousand, scale, sum_fits, sum_mantissa, Decimal,
    lemma_mul_abs_bound, lemma_pow10_mono, lemma_pow10_values, pow10, val_at,
};

verus! {

/// The raw register values of one complete polling cycle, before scaling.
#[derive(Clone, Copy, Debug, PartialEq, Eq, Structural)]
pub struct RawReadings {
    /// Inverter AC power, signed, with its own scale factor.
    pub ac_power: i16,
    pub ac_power_sf: i16,
    /// Cumulative exported energy, unsigned 32-bit.
    pub exported: u32,
    /// Cumulative imported energy, unsigned 32-bit.
    pub imported: u32,
    /// Scale factor shared by both energy counters.
    pub energy_sf: i16,
    /// Meter AC power, signed (positive means export), with its own scale
    /// factor.
    pub meter_power: i16,
    pub meter_power_sf: i16,
}

/// One complete, internally consistent set of derived site measurements, all
/// exact decimals in kilowatt / kilowatt-hour units.
#[derive(Clone, Copy, Debug, PartialEq, Eq, Structural)]
pub struct SiteMeters {
    pub consumption_kw: Decimal,
    pub net_import_kw: Decimal,
    pub production_kw: Decimal,
    pub exported_kwh: Decimal,
    pub imported_kwh: Decimal,
}

/// Instantaneous generation: AC power scaled, then divided by a thousand.
pub open spec fn production_of(r: RawReadings) -> Decimal {
    Decimal { mantissa: r.ac_power as i64, exponent: (r.ac_power_sf - 3) as i32 }
}

/// Instantaneous grid exchange: meter power scaled, negated (the register is
/// export-positive, the field import-positive), then divided by a thousand.
pub open spec fn net_import_of(r: RawReadings) -> Decimal {
    Decimal { mantissa: (-(r.meter_power as int)) as i64, exponent: (r.meter_power_sf - 3) as i32 }
}

/// Cumulative exported energy in kWh, under the shared energy scale factor.
pub open spec fn exported_of(r: RawReadings) -> Decimal {
    Decimal { mantissa: r.exported as i64, exponent: (r.energy_sf - 3) as i32 }
}

/// Cumulative imported energy in kWh, under the shared energy scale factor.
pub open spec fn imported_of(r: RawReadings) -> Decimal {
    Decimal { mantissa: r.imported as i64, exponent: (r.energy_sf - 3) as i32 }
}

/// Whether the exact consumption sum (production plus net import) is
/// representable.
pub open spec fn consumption_fits(r: RawReadings) -> bool {
    sum_fits(production_of(r), net_import_of(r))
}

/// The snapshot a cycle's raw readings determine: every field exact, or
/// `None` exactly when the consumption sum's mantissa is not representable.
pub open spec fn snapshot_of(r: RawReadings) -> Option<SiteMeters> {
    if consumption_fits(r) {
        Some(
            SiteMeters {
                consumption_kw: Decimal {
                    mantissa: sum_mantissa(production_of(r), net_import_of(r)) as i64,
                    exponent: low_exp(production_of(r), net_import_of(r)) as i32,
                },
                net_import_kw: net_import_of(r),
                production_kw: production_of(r),
                exported_kwh: exported_of(r),
                imported_kwh: imported_of(r),
            },
        )
    } else {
        None
    }
}

/// Combines one cycle's raw readings into a snapshot: production is the
/// scaled AC power over a thousand, net import the scaled meter power
/// negated over a thousand, consumption their exact sum, and both energy
/// counters share one scale factor. `None` comes exactly when the
/// consumption sum is not representable.
pub fn aggregate(r: &RawReadings) -> (out: Option<SiteMeters>)
    ensures
        out == snapshot_of(*r),
{
    let production = per_thousand(scale(r.ac_power as i64, r.ac_power_sf));
    let net_import = per_thousand(negated(scale(r.meter_power as i64, r.meter_power_sf)));
    let exported = per_thousand(scale(r.exported as i64, r.energy_sf));
    let imported = per_thousand(scale(r.imported as i64, r.energy_sf));
    match crate::scale::add(production, net_import) {
        Some(consumption) => Some(
            SiteMeters {
                consumption_kw: consumption,
                net_import_kw: net_import,
                production_kw: production,
                exported_kwh: exported,
                imported_kwh: imported,
            },
        ),
        None => None,
    }
}

/// For device-typical scale factors (small exponents), aggregation always
/// produces a snapshot: the consumption sum of two 16-bit raw powers cannot
/// overflow when the two scale factors lie within a moderate band.
pub proof fn lemma_typical_scales_fit(r: RawReadings)
    requires
        -7 <= r.ac_power_sf <= 7,
        -7 <= r.meter_power_sf <= 7,
    ensures
        consumption_fits(r),
        snapshot_of(r) is Some,
{
    let a = production_of(r);
    let b = net_import_of(r);
    let low = low_exp(a, b);
    lemma_pow10_values();
    lemma_pow10_mono((a.exponent - low) as nat, 14);
    lemma_pow10_mono((b.exponent - low) as nat, 14);
    lemma_pow10_mono(0, (a.exponent - low) as nat);
    lemma_pow10_mono(0, (b.exponent - low) as nat);
    lemma_mul_abs_bound(a.mantissa as int, pow10((a.exponent - low) as nat), 32768, pow10(14));
    lemma_mul_abs_bound(b.mantissa as int, pow10((b.exponent - low) as nat), 32768, pow10(14));
    assert(val_at(a, low) == a.mantissa * pow10((a.exponent - low) as nat));
    assert(val_at(b, low) == b.mantissa * pow10((b.exponent - low) as nat));
}

} // verus!
