use coinapi::{p, resolve_nanos, supported_periods, ExactError, Period, PeriodInner};
use std::time::Duration;

fn test_near(query: Duration, expected: Period) {
    assert_eq!(Period::get_nearest(query).unwrap_err(), expected);
}

#[test]
fn supported_periods_sorted() {
    // the durations must be sorted because they are binary searched
    let durations: Vec<Duration> = supported_periods().iter().map(|p| p.duration()).collect();
    for (i, current) in durations.iter().enumerate().skip(1) {
        let last = &durations[i - 1];
        assert!(current > last);
    }
}

#[test]
fn periods() {
    let supported = supported_periods();
    for (i, period) in supported.iter().map(|p| p.duration()).enumerate() {
        assert_eq!(Period::get_nearest(period).unwrap(), supported[i]);
    }

    test_near(Duration::from_secs_f32(0.0), p(PeriodInner::Second(1)));
    test_near(Duration::from_secs_f32(0.5), p(PeriodInner::Second(1)));
    test_near(Duration::from_secs_f32(0.9), p(PeriodInner::Second(1)));
    test_near(Duration::from_secs_f32(1.49), p(PeriodInner::Second(1)));

    test_near(Duration::from_secs_f32(1.51), p(PeriodInner::Second(2)));
    test_near(Duration::from_secs_f32(40.0), p(PeriodInner::Second(30)));

    test_near(
        Duration::from_secs_f32(12.0 * 60.0),
        p(PeriodInner::Minute(10)),
    );
    test_near(
        Duration::from_secs_f32(40.0 * 60.0),
        p(PeriodInner::Minute(30)),
    );

    test_near(
        Duration::from_secs_f32(7.1 * 60.0 * 60.0),
        p(PeriodInner::Hour(8)),
    );

    test_near(
        Duration::from_secs_f32(14.0 * 60.0 * 60.0 * 24.0),
        p(PeriodInner::Day(10)),
    );
}

#[test]
fn period_formattintg() {
    let s = [
        "1SEC", "2SEC", "3SEC", "4SEC", "5SEC", "6SEC", "10SEC", "15SEC", "20SEC", "30SEC",
        "1MIN", "2MIN", "3MIN", "4MIN", "5MIN", "6MIN", "10MIN", "15MIN", "20MIN", "30MIN",
        "1HRS", "2HRS", "3HRS", "4HRS", "6HRS", "8HRS", "12HRS", "1DAY", "2DAY", "3DAY",
        "5DAY", "7DAY", "10DAY",
    ];
    let supported = supported_periods();
    assert_eq!(s.len(), supported.len());
    let real: Vec<_> = supported.iter().map(|p| p.to_string()).collect();
    for expected in s {
        assert!(real.contains(&expected.to_owned()));
    }
}

#[test]
fn catalog_in_declared_order() {
    let real: Vec<String> = supported_periods().iter().map(|p| p.to_string()).collect();
    assert_eq!(real[0], "1SEC");
    assert_eq!(real[9], "30SEC");
    assert_eq!(real[10], "1MIN");
    assert_eq!(real[20], "1HRS");
    assert_eq!(real[27], "1DAY");
    assert_eq!(real[32], "10DAY");
    assert_eq!(real.len(), 33);
}

#[test]
fn catalog_durations_strictly_ascending() {
    let secs: Vec<u64> = supported_periods().iter().map(|p| p.seconds()).collect();
    for w in secs.windows(2) {
        assert!(w[0] < w[1]);
    }
    assert_eq!(secs[0], 1);
    assert_eq!(secs[32], 864_000);
}

#[test]
fn formatting_exact() {
    assert_eq!(p(PeriodInner::Second(1)).to_string(), "1SEC");
    assert_eq!(p(PeriodInner::Hour(12)).to_string(), "12HRS");
    assert_eq!(p(PeriodInner::Day(10)).to_string(), "10DAY");
    assert_eq!(p(PeriodInner::Minute(30)).to_string(), "30MIN");
    assert_eq!(p(PeriodInner::Second(0)).to_string(), "0SEC");
    assert_eq!(p(PeriodInner::Day(255)).to_string(), "255DAY");
    assert_eq!(p(PeriodInner::Minute(100)).to_string(), "100MIN");
}

#[test]
fn exact_round_trip_every_entry() {
    for period in supported_periods() {
        assert_eq!(Period::get_nearest(period.duration()), Ok(period));
        assert_eq!(resolve_nanos(period.nanos()), Ok(period));
        assert!(Period::new_exact(period.duration()).is_ok());
        assert_eq!(Period::new(period.duration()), period);
    }
}

#[test]
fn zero_clamps_to_smallest() {
    assert_eq!(
        Period::get_nearest(Duration::from_secs(0)),
        Err(p(PeriodInner::Second(1)))
    );
    assert_eq!(resolve_nanos(0), Err(p(PeriodInner::Second(1))));
}

#[test]
fn huge_clamps_to_largest() {
    assert_eq!(
        Period::get_nearest(Duration::from_secs(u64::MAX)),
        Err(p(PeriodInner::Day(10)))
    );
    assert_eq!(resolve_nanos(u128::MAX), Err(p(PeriodInner::Day(10))));
    assert_eq!(
        Period::get_nearest(Duration::from_secs(14 * 86_400)),
        Err(p(PeriodInner::Day(10)))
    );
}

#[test]
fn midpoint_goes_to_higher_entry() {
    assert_eq!(
        Period::get_nearest(Duration::from_millis(1500)),
        Err(p(PeriodInner::Second(2)))
    );
    assert_eq!(
        Period::get_nearest(Duration::from_millis(1499)),
        Err(p(PeriodInner::Second(1)))
    );
    // midway between 6 and 8 hours
    assert_eq!(
        Period::get_nearest(Duration::from_secs(7 * 3600)),
        Err(p(PeriodInner::Hour(8)))
    );
    // midway between 30 minutes and 1 hour
    assert_eq!(
        Period::get_nearest(Duration::from_secs(45 * 60)),
        Err(p(PeriodInner::Hour(1)))
    );
    assert_eq!(
        Period::get_nearest(Duration::from_secs(45 * 60 - 1)),
        Err(p(PeriodInner::Minute(30)))
    );
}

#[test]
fn concrete_scenarios() {
    assert_eq!(
        Period::get_nearest(Duration::from_secs(40 * 60)),
        Err(p(PeriodInner::Minute(30)))
    );
    assert_eq!(
        Period::get_nearest(Duration::from_secs(7 * 3600 + 360)),
        Err(p(PeriodInner::Hour(8)))
    );
    assert_eq!(
        Period::get_nearest(Duration::from_secs(14 * 86_400)),
        Err(p(PeriodInner::Day(10)))
    );
    assert_eq!(
        Period::get_nearest(Duration::from_secs(0)),
        Err(p(PeriodInner::Second(1)))
    );
}

#[test]
fn new_exact_reports_request_and_closest() {
    let requested = Duration::from_secs(40 * 60);
    match Period::new_exact(requested) {
        Ok(_) => panic!("40 minutes is not a supported period"),
        Err(ExactError { requested: r, closest }) => {
            assert_eq!(r, requested);
            assert_eq!(closest, p(PeriodInner::Minute(30)));
        }
    }
    assert_eq!(
        Period::new_exact(Duration::from_secs(3600)).ok(),
        Some(p(PeriodInner::Hour(1)))
    );
}

#[test]
fn new_takes_nearest() {
    assert_eq!(Period::new(Duration::from_secs(40 * 60)), p(PeriodInner::Minute(30)));
    assert_eq!(Period::new(Duration::from_secs(2)), p(PeriodInner::Second(2)));
    assert_eq!(Period::new(Duration::from_secs(100 * 86_400)), p(PeriodInner::Day(10)));
}

#[test]
fn sub_second_precision_counts() {
    // 1 second and 1 nanosecond is not exactly 1 second
    assert_eq!(
        Period::get_nearest(Duration::new(1, 1)),
        Err(p(PeriodInner::Second(1)))
    );
    assert_eq!(resolve_nanos(1_500_000_000), Err(p(PeriodInner::Second(2))));
    assert_eq!(resolve_nanos(1_499_999_999), Err(p(PeriodInner::Second(1))));
}

#[test]
fn duration_of_period() {
    assert_eq!(p(PeriodInner::Second(5)).duration(), Duration::from_secs(5));
    assert_eq!(p(PeriodInner::Minute(10)).duration(), Duration::from_secs(600));
    assert_eq!(p(PeriodInner::Hour(12)).duration(), Duration::from_secs(43_200));
    assert_eq!(p(PeriodInner::Day(7)).duration(), Duration::from_secs(604_800));
    assert_eq!(p(PeriodInner::Day(7)).nanos(), 604_800_000_000_000);
    assert_eq!(p(PeriodInner::Hour(3)).multiplier(), 3);
}
