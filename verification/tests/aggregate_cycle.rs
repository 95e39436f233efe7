use solar_telemetry::cycle::{cycle_plan, CycleState};
use solar_telemetry::decode::DecodeError;
use solar_telemetry::registers::{ReadError, RegisterKind};
use solar_telemetry::scale::{scale, Decimal};
use solar_telemetry::snapshot::{aggregate, RawReadings, SiteMeters};

/// The engineering-unit value of an exact decimal, as the publishing edge
/// computes it: mantissa times ten to the exponent, in double precision.
fn as_f64(d: Decimal) -> f64 {
    d.mantissa as f64 * 10f64.powi(d.exponent)
}

fn raw(
    ac_power: i16,
    ac_power_sf: i16,
    exported: u32,
    imported: u32,
    energy_sf: i16,
    meter_power: i16,
    meter_power_sf: i16,
) -> RawReadings {
    RawReadings { ac_power, ac_power_sf, exported, imported, energy_sf, meter_power, meter_power_sf }
}

#[test]
fn scale_applies_powers_of_ten() {
    assert_eq!(as_f64(scale(100, -2)), 1.0);
    assert_eq!(as_f64(scale(100, 0)), 100.0);
    assert_eq!(as_f64(scale(0, 5)), 0.0);
}

#[test]
fn meter_sign_convention_import_positive() {
    // Export-positive register: raw 500 means exporting, so net import is
    // negative; raw -500 means importing, so net import is positive.
    let m = aggregate(&raw(0, 0, 0, 0, 0, 500, 0)).unwrap();
    assert_eq!(as_f64(m.net_import_kw), -0.5);
    let m = aggregate(&raw(0, 0, 0, 0, 0, -500, 0)).unwrap();
    assert_eq!(as_f64(m.net_import_kw), 0.5);
}

#[test]
fn end_to_end_snapshot_values() {
    let m = aggregate(&raw(2000, -1, 5000, 3000, 0, -1000, 0)).unwrap();
    assert_eq!(as_f64(m.production_kw), 0.2);
    assert_eq!(as_f64(m.net_import_kw), 1.0);
    assert_eq!(as_f64(m.consumption_kw), 1.2);
    assert_eq!(as_f64(m.exported_kwh), 5.0);
    assert_eq!(as_f64(m.imported_kwh), 3.0);
}

#[test]
fn consumption_is_exact_sum_of_production_and_net_import() {
    let m = aggregate(&raw(1500, -2, 0, 0, 0, 250, -1)).unwrap();
    // production 15 W -> 0.015 kW; net import -25 W -> -0.025 kW.
    assert_eq!(m.production_kw, Decimal { mantissa: 1500, exponent: -5 });
    assert_eq!(m.net_import_kw, Decimal { mantissa: -250, exponent: -4 });
    assert_eq!(m.consumption_kw, Decimal { mantissa: -1000, exponent: -5 });
}

#[test]
fn energy_counters_share_one_scale_factor() {
    let m = aggregate(&raw(0, 0, 12345, 678, 1, 0, 0)).unwrap();
    assert_eq!(as_f64(m.exported_kwh), 12345.0 * 10f64.powi(1) / 1000.0);
    assert_eq!(as_f64(m.imported_kwh), 678.0 * 10f64.powi(1) / 1000.0);
}

#[test]
fn extreme_exponent_gap_yields_no_snapshot() {
    // The two power scale factors are so far apart that the exact
    // consumption mantissa cannot be represented.
    assert_eq!(aggregate(&raw(1, 32767, 0, 0, 0, 1, -32768)), None);
}

#[test]
fn plan_matches_register_map() {
    let plan = cycle_plan();
    let expected = [
        (40083u16, 1u16, RegisterKind::Int16),
        (40084, 1, RegisterKind::Int16),
        (40226, 2, RegisterKind::UInt32),
        (40234, 2, RegisterKind::UInt32),
        (40242, 1, RegisterKind::Int16),
        (40206, 1, RegisterKind::Int16),
        (40210, 1, RegisterKind::Int16),
    ];
    assert_eq!(plan.len(), expected.len());
    for (reg, (address, length, kind)) in plan.iter().zip(expected.iter()) {
        assert_eq!(reg.address, *address);
        assert_eq!(reg.length, *length);
        assert_eq!(reg.kind, *kind);
    }
}

/// The word responses of one fully successful cycle, in plan order.
fn good_responses() -> Vec<Vec<u16>> {
    vec![
        vec![2000],            // AC power
        vec![0xFFFF],          // AC power scale factor: -1
        vec![0x0000, 5000],    // exported energy
        vec![0x0000, 3000],    // imported energy
        vec![0],               // energy scale factor
        vec![0xFC18],          // meter power: -1000
        vec![0],               // meter power scale factor
    ]
}

#[test]
fn complete_cycle_produces_snapshot() {
    let mut state = CycleState::new();
    let responses = good_responses();
    let mut i = 0;
    while let Some(reg) = state.next_request() {
        let words = &responses[i];
        assert_eq!(words.len(), reg.length as usize);
        assert_eq!(state.supply(Some(words)), Ok(()));
        i += 1;
    }
    assert_eq!(i, 7);
    let m: SiteMeters = state.finish().unwrap();
    assert_eq!(as_f64(m.production_kw), 0.2);
    assert_eq!(as_f64(m.net_import_kw), 1.0);
    assert_eq!(as_f64(m.consumption_kw), 1.2);
    assert_eq!(as_f64(m.exported_kwh), 5.0);
    assert_eq!(as_f64(m.imported_kwh), 3.0);
}

#[test]
fn transport_failure_at_any_read_yields_no_snapshot() {
    let responses = good_responses();
    for failing in 0..responses.len() {
        let mut state = CycleState::new();
        for (i, words) in responses.iter().enumerate() {
            if i == failing {
                assert_eq!(state.supply(None), Err(ReadError::Transport));
                break;
            }
            assert_eq!(state.supply(Some(words)), Ok(()));
        }
        assert_eq!(state.finish(), None);
    }
}

#[test]
fn decode_failure_mid_cycle_yields_no_snapshot() {
    let mut state = CycleState::new();
    assert_eq!(state.supply(Some(&vec![2000])), Ok(()));
    assert_eq!(state.supply(Some(&vec![0xFFFF])), Ok(()));
    // One word where the unsigned-32 read needs two.
    assert_eq!(
        state.supply(Some(&vec![5000])),
        Err(ReadError::Decode(DecodeError::WrongWordCount))
    );
    assert_eq!(state.finish(), None);
}

#[test]
fn incomplete_cycle_yields_no_snapshot() {
    let state = CycleState::new();
    assert_eq!(state.finish(), None);
}
