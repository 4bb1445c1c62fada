use sxtwl_rs::fit::CalculationType;
use sxtwl_rs::year_plan::{is_event_in_range, is_query_in_range, Request, Stage, YearPlan};

fn nominal(kind: CalculationType, time: i64) -> i64 {
    // A stand-in for the solver: the event is the query taken down to a half-day.
    let _ = kind;
    time.div_euclid(500_000)
}

#[test]
fn a_year_takes_43_events() {
    let (mut plan, mut request) = YearPlan::start(9_000_000_000);
    assert_eq!(request, plan.current_request());
    let mut asked: Vec<(CalculationType, i64)> = Vec::new();
    loop {
        match request {
            Request::Phase { kind, time } => {
                asked.push((kind, time));
                let event = nominal(kind, time);
                assert!(is_event_in_range(event));
                request = plan.advance(event);
            }
            Request::Done => break,
        }
    }
    assert_eq!(asked.len(), 43);
    assert_eq!(plan.stage, Stage::Finished);
    // floor((9000 - 172) / 365.2422) = 24 years from the anchor, day 355.
    let base = 24 * 365_242_200 + 355_000_000;
    assert_eq!(asked[0], (CalculationType::Qi, base));
    // The term found there is after the query: the year before is taken.
    let base = base - 365_242_200;
    assert_eq!(plan.base, base);
    for i in 0..25 {
        assert_eq!(asked[1 + i], (CalculationType::Qi, base + 15_218_425 * i as i64));
    }
    assert_eq!(asked[26], (CalculationType::Qi, base - 15_218_425));
    assert_eq!(asked[27], (CalculationType::Qi, base - 30_436_850));
    let solstice = nominal(CalculationType::Qi, base);
    assert_eq!(asked[28], (CalculationType::Shuo, solstice * 500_000));
    let first = solstice * 500_000;
    assert_eq!(plan.first_moon, first);
    for i in 0..14 {
        assert_eq!(asked[29 + i], (CalculationType::Shuo, first + 29_530_600 * i as i64));
    }
    assert_eq!(plan.advance(5), Request::Done);
    assert_eq!(plan.shuo.len(), 14);
    let year = plan.finish();
    assert_eq!(year.jieqi[0], solstice);
    assert_eq!(year.pre_jieqi[1], nominal(CalculationType::Qi, base - 30_436_850));
    assert_eq!(year.shuo[13], nominal(CalculationType::Shuo, first + 29_530_600 * 13));
    assert_eq!(year.month_lengths[0], year.shuo[1] - year.shuo[0]);
    assert_eq!(year.month_lengths[13], 0);
    assert_eq!(year.leap_month.is_some(), year.shuo[13] <= year.jieqi[24]);
    // With events that lie where they are asked for, the terms follow each
    // other by 15.2184 days and the new moons by 29.5306 days, to the half-day.
    for i in 0..24 {
        let gap = year.jieqi[i + 1] - year.jieqi[i];
        assert!(gap == 30 || gap == 31);
    }
    for i in 0..13 {
        let gap = year.shuo[i + 1] - year.shuo[i];
        assert!(gap == 59 || gap == 60);
        assert_eq!(year.month_lengths[i], gap);
    }
}

#[test]
fn the_estimates_are_settled_by_what_is_found() {
    let (mut plan, request) = YearPlan::start(0);
    assert_eq!(request, Request::Phase { kind: CalculationType::Qi, time: -10_242_200 });
    // The term is not after the query: the estimate stands.
    let request = plan.advance(0);
    assert_eq!(plan.base, -10_242_200);
    assert_eq!(plan.stage, Stage::Terms);
    assert_eq!(request, Request::Phase { kind: CalculationType::Qi, time: -10_242_200 });
    let (mut plan, _) = YearPlan::start(0);
    let request = plan.advance(1);
    assert_eq!(plan.base, -10_242_200 - 365_242_200);
    assert_eq!(request, Request::Phase { kind: CalculationType::Qi, time: -375_484_400 });
    // A negative query is taken down, not towards zero.
    let (_, request) = YearPlan::start(-200_000_000);
    assert_eq!(request, Request::Phase { kind: CalculationType::Qi, time: -375_484_400 });
    let (mut plan, _) = YearPlan::start(1_000_000_000_000_000);
    assert_eq!(plan.base, 2_737_908 * 365_242_200 + 355_000_000);
    plan.advance(-1_000_000_000_000);
    // The nearest new moon is taken a month back where it is after the solstice.
    let (mut plan, _) = YearPlan::start(0);
    plan.advance(0);
    for _ in 0..25 {
        plan.advance(-40);
    }
    plan.advance(-70);
    let request = plan.advance(-100);
    assert_eq!(plan.stage, Stage::NearestMoon);
    assert_eq!(request, Request::Phase { kind: CalculationType::Shuo, time: -20_000_000 });
    let request = plan.advance(-39);
    assert_eq!(plan.first_moon, -39 * 500_000 - 29_530_600);
    assert_eq!(request, Request::Phase { kind: CalculationType::Shuo, time: -49_030_600 });
    let mut other = YearPlan::start(0).0;
    other.advance(0);
    for _ in 0..25 {
        other.advance(-40);
    }
    other.advance(-70);
    other.advance(-100);
    other.advance(-40);
    assert_eq!(other.first_moon, -20_000_000);
}

#[test]
fn ranges_of_a_plan() {
    assert!(is_query_in_range(0));
    assert!(is_query_in_range(1_000_000_000_000_000));
    assert!(!is_query_in_range(1_000_000_000_000_001));
    assert!(is_query_in_range(-1_000_000_000_000_000));
    assert!(!is_query_in_range(i64::MIN));
    assert!(is_event_in_range(-1_000_000_000_000));
    assert!(!is_event_in_range(1_000_000_000_001));
}
