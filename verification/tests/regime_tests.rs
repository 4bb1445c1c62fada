use sxtwl_rs::codec::pack_symbols;
use sxtwl_rs::fit::{
    get_period_constant, is_valid_fit_table, qi_fit_parameters, shuo_fit_parameters,
    CalculationType, FitParameter,
};
use sxtwl_rs::regime::{
    apply_correction, calculate_flat_phase, calculate_phase, correction_for_new_moon,
    correction_for_solar_term, correction_symbol, determine_calculation_method, find_segment,
    CalculationMethod, PhasePlan, J2000_MICRO_DAYS, MODERN_CUTOFF_MICRO_DAYS,
};

#[test]
fn fit_tables_are_usable() {
    let shuo = shuo_fit_parameters();
    let qi = qi_fit_parameters();
    assert_eq!(shuo.len(), 11);
    assert_eq!(qi.len(), 35);
    assert!(is_valid_fit_table(&shuo));
    assert!(is_valid_fit_table(&qi));
    assert_eq!(
        shuo[0],
        FitParameter { start_micro_days: 1_457_698_231_017, period_nano_days: 29_530_671_660 }
    );
    assert_eq!(
        qi[34],
        FitParameter { start_micro_days: 2_188_621_191_481, period_nano_days: 15_218_437_494 }
    );
    assert_eq!(get_period_constant(CalculationType::Qi), 7_000_000);
    assert_eq!(get_period_constant(CalculationType::Shuo), 14_000_000);
}

#[test]
fn unusable_fit_tables() {
    assert!(!is_valid_fit_table(&[]));
    let good = FitParameter { start_micro_days: 10, period_nano_days: 5 };
    assert!(is_valid_fit_table(&[good]));
    assert!(!is_valid_fit_table(&[good, good]));
    assert!(!is_valid_fit_table(&[FitParameter { start_micro_days: -1, period_nano_days: 5 }]));
    assert!(!is_valid_fit_table(&[FitParameter { start_micro_days: 1, period_nano_days: 0 }]));
    assert!(!is_valid_fit_table(&[FitParameter {
        start_micro_days: 4_000_000_000_001,
        period_nano_days: 5
    }]));
    assert!(!is_valid_fit_table(&[FitParameter {
        start_micro_days: 1,
        period_nano_days: 1_000_000_000_000
    }]));
    assert!(!is_valid_fit_table(&[
        FitParameter { start_micro_days: 20, period_nano_days: 5 },
        good
    ]));
}

#[test]
fn every_query_has_one_method() {
    let shuo = shuo_fit_parameters();
    let kind = CalculationType::Shuo;
    let f1 = 1_457_698_231_017 - 14_000_000;
    let f2 = 1_939_135_675_300 - 14_000_000;
    assert_eq!(determine_calculation_method(i64::MIN, &shuo, kind), CalculationMethod::HighPrecision);
    assert_eq!(determine_calculation_method(f1 - 1, &shuo, kind), CalculationMethod::HighPrecision);
    assert_eq!(determine_calculation_method(f1, &shuo, kind), CalculationMethod::FlatPhase);
    assert_eq!(determine_calculation_method(f2 - 1, &shuo, kind), CalculationMethod::FlatPhase);
    assert_eq!(determine_calculation_method(f2, &shuo, kind), CalculationMethod::FixedPhase);
    assert_eq!(
        determine_calculation_method(MODERN_CUTOFF_MICRO_DAYS - 1, &shuo, kind),
        CalculationMethod::FixedPhase
    );
    assert_eq!(
        determine_calculation_method(MODERN_CUTOFF_MICRO_DAYS, &shuo, kind),
        CalculationMethod::HighPrecision
    );
    assert_eq!(determine_calculation_method(i64::MAX, &shuo, kind), CalculationMethod::HighPrecision);
    let qi = qi_fit_parameters();
    let kind = CalculationType::Qi;
    let g1 = 1_640_650_479_938 - 7_000_000;
    let g2 = 2_188_621_191_481 - 7_000_000;
    assert_eq!(determine_calculation_method(g1 - 1, &qi, kind), CalculationMethod::HighPrecision);
    assert_eq!(determine_calculation_method(g1, &qi, kind), CalculationMethod::FlatPhase);
    assert_eq!(determine_calculation_method(g2, &qi, kind), CalculationMethod::FixedPhase);
}

#[test]
fn span_that_holds_an_instant() {
    let shuo = shuo_fit_parameters();
    assert_eq!(find_segment(&shuo, 0), 0);
    assert_eq!(find_segment(&shuo, 1_457_698_231_017), 0);
    assert_eq!(find_segment(&shuo, 1_546_082_512_233), 0);
    assert_eq!(find_segment(&shuo, 1_546_082_512_234), 1);
    assert_eq!(find_segment(&shuo, 1_939_135_675_299), 9);
    assert_eq!(find_segment(&shuo, 1_939_135_675_300), 10);
    assert_eq!(find_segment(&shuo, i64::MAX), 10);
    assert_eq!(find_segment(&shuo, i64::MIN), 0);
}

#[test]
fn flat_spans_give_the_event() {
    let shuo = shuo_fit_parameters();
    let kind = CalculationType::Shuo;
    // start + period * floor((t + 14 - start) / period), down to the midnight before.
    assert_eq!(calculate_flat_phase(1_500_000_000_000, &shuo, kind), -1_903_117);
    assert_eq!(calculate_flat_phase(1_457_684_231_017, &shuo, kind), -1_987_693);
    assert_eq!(calculate_flat_phase(1_939_121_675_299, &shuo, kind), -1_024_877);
    // The new moon of Julian day 1683460 is moved on by a day; its neighbours
    // are not.
    assert_eq!(calculate_flat_phase(1_683_460_000_000, &shuo, kind), -1_536_167);
    assert_eq!(calculate_flat_phase(1_683_430_000_000, &shuo, kind), -1_536_229);
    assert_eq!(calculate_flat_phase(1_683_489_000_000, &shuo, kind), -1_536_111);
    assert_eq!(calculate_flat_phase(1_700_000_123_456, &shuo, kind), -1_503_095);
}

#[test]
fn correction_symbols_by_elapsed_spacings() {
    let mut symbols: Vec<u8> = vec![0; 3000];
    symbols[0] = 1;
    symbols[1] = 2;
    symbols[2061] = 2;
    let bytes = pack_symbols(&symbols);
    let f2: i64 = 1_939_121_675_300;
    assert_eq!(correction_for_new_moon(&bytes, 3000, f2, f2), 1);
    assert_eq!(correction_for_new_moon(&bytes, 3000, f2 - 5, f2), 1);
    assert_eq!(correction_for_new_moon(&bytes, 3000, f2 + 29_530_599, f2), 1);
    assert_eq!(correction_for_new_moon(&bytes, 3000, f2 + 29_530_600, f2), 2);
    assert_eq!(correction_for_new_moon(&bytes, 3000, 2_000_000_000_000, f2), 2);
    assert_eq!(correction_for_new_moon(&bytes, 2061, 2_000_000_000_000, f2), 0);
    assert_eq!(correction_for_new_moon(&bytes, 3000, i64::MAX, i64::MIN), 0);
    assert_eq!(correction_for_new_moon(&bytes, 3000, i64::MIN, i64::MAX), 1);
    let g2: i64 = 2_188_614_191_481;
    let mut terms: Vec<u8> = vec![0; 14000];
    terms[13890] = 1;
    terms[1] = 2;
    let bytes = pack_symbols(&terms);
    assert_eq!(correction_for_solar_term(&bytes, 14000, 2_400_000_000_000, g2), 1);
    // One spacing of the terms is a 24th of 365.2422 days.
    assert_eq!(correction_for_solar_term(&bytes, 14000, g2 + 15_218_424, g2), 0);
    assert_eq!(correction_for_solar_term(&bytes, 14000, g2 + 15_218_425, g2), 2);
    assert_eq!(
        correction_symbol(&bytes, 14000, CalculationType::Qi, g2 + 15_218_425, g2),
        2
    );
}

#[test]
fn corrections_move_by_a_day() {
    assert_eq!(apply_correction(100, 0), 100);
    assert_eq!(apply_correction(100, 1), 102);
    assert_eq!(apply_correction(100, 2), 98);
    assert_eq!(apply_correction(100, 3), 100);
    assert_eq!(apply_correction(-7, 2), -9);
}

#[test]
fn what_the_tables_settle() {
    let shuo = shuo_fit_parameters();
    let mut symbols: Vec<u8> = vec![0; 3000];
    symbols[2061] = 2;
    let bytes = pack_symbols(&symbols);
    let kind = CalculationType::Shuo;
    assert_eq!(
        calculate_phase(0, kind, &shuo, &bytes, 3000),
        PhasePlan::Solve { method: CalculationMethod::HighPrecision, correction: 0 }
    );
    assert_eq!(
        calculate_phase(i64::MAX, kind, &shuo, &bytes, 3000),
        PhasePlan::Solve { method: CalculationMethod::HighPrecision, correction: 0 }
    );
    assert_eq!(
        calculate_phase(i64::MIN, kind, &shuo, &bytes, 3000),
        PhasePlan::Solve { method: CalculationMethod::HighPrecision, correction: 0 }
    );
    assert_eq!(
        calculate_phase(1_500_000_000_000 - J2000_MICRO_DAYS, kind, &shuo, &bytes, 3000),
        PhasePlan::Settled { event: -1_903_117 }
    );
    assert_eq!(
        calculate_phase(2_000_000_000_000 - J2000_MICRO_DAYS, kind, &shuo, &bytes, 3000),
        PhasePlan::Solve { method: CalculationMethod::FixedPhase, correction: 2 }
    );
    assert_eq!(
        calculate_phase(2_000_000_000_000 - J2000_MICRO_DAYS + 29_530_600, kind, &shuo, &bytes, 3000),
        PhasePlan::Solve { method: CalculationMethod::FixedPhase, correction: 0 }
    );
}
