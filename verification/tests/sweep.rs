use rp_watch::config::{check_date, ConfigError, RunConfig};
use rp_watch::sweep::sweep;

fn bounds(lower: u32, upper: u32, step: u32) -> Vec<(u32, u32)> {
    sweep(lower, upper, step, Some(2), Some(2), 2021, 9, 6)
        .iter()
        .map(|f| (f.min_rent().unwrap(), f.max_rent().unwrap()))
        .collect()
}

fn config() -> RunConfig {
    RunConfig {
        rent_lower: 1700,
        rent_upper: 2500,
        step: 10,
        bedrooms: Some(2),
        bathrooms: Some(2),
        move_in_year: 2021,
        move_in_month: 9,
        move_in_day: 6,
        listing_limit: 16,
        detail_limit: 16,
    }
}

#[test]
fn the_sweep_of_the_site() {
    let forms = sweep(1700, 2500, 10, Some(2), Some(2), 2021, 9, 6);
    assert_eq!(forms.len(), 80);
    assert_eq!(forms[0].min_rent(), Some(1700));
    assert_eq!(forms[0].max_rent(), Some(1709));
    assert_eq!(forms[1].min_rent(), Some(1710));
    assert_eq!(forms[1].max_rent(), Some(1719));
    assert_eq!(forms[79].min_rent(), Some(2490));
    assert_eq!(forms[79].max_rent(), Some(2499));
    for f in &forms {
        assert_eq!(f.bedrooms(), Some(2));
        assert_eq!(f.bathrooms(), Some(2));
        assert_eq!(f.move_in_date(), "09/06/2021");
    }
}

#[test]
fn the_last_bucket_stops_below_the_upper_bound() {
    assert_eq!(bounds(1700, 1705, 10), vec![(1700, 1704)]);
    assert_eq!(bounds(1700, 1725, 10), vec![(1700, 1709), (1710, 1719), (1720, 1724)]);
    assert_eq!(bounds(0, 1, 1), vec![(0, 0)]);
    assert_eq!(bounds(10, 13, 1), vec![(10, 10), (11, 11), (12, 12)]);
}

#[test]
fn a_range_that_holds_nothing_has_no_bucket() {
    assert_eq!(bounds(1700, 1700, 10), vec![]);
    assert_eq!(bounds(1700, 1600, 10), vec![]);
    assert_eq!(bounds(u32::MAX, 0, 1), vec![]);
}

#[test]
fn buckets_near_the_largest_rent() {
    assert_eq!(
        bounds(u32::MAX - 25, u32::MAX, 10),
        vec![
            (u32::MAX - 25, u32::MAX - 16),
            (u32::MAX - 15, u32::MAX - 6),
            (u32::MAX - 5, u32::MAX - 1)
        ]
    );
    assert_eq!(bounds(0, u32::MAX, u32::MAX), vec![(0, u32::MAX - 1)]);
    assert_eq!(bounds(5, 100, u32::MAX), vec![(5, 99)]);
}

#[test]
fn every_rent_of_the_range_lies_in_one_bucket() {
    for (lower, upper, step) in [(1700u32, 2500u32, 10u32), (3, 50, 7), (0, 9, 4), (100, 101, 1000)] {
        let b = bounds(lower, upper, step);
        assert_eq!(b[0].0, lower);
        assert_eq!(b[b.len() - 1].1, upper - 1);
        for w in b.windows(2) {
            assert_eq!(w[0].1 + 1, w[1].0);
        }
        for rent in lower..upper {
            let holding = b.iter().filter(|(lo, hi)| *lo <= rent && rent <= *hi).count();
            assert_eq!(holding, 1);
        }
    }
}

#[test]
fn settings_that_are_in_order() {
    assert_eq!(config().validate(), Ok(()));
    let forms = config().forms().unwrap();
    assert_eq!(forms.len(), 80);
    assert_eq!(forms[79].max_rent(), Some(2499));
}

#[test]
fn settings_that_are_not() {
    let c = RunConfig { rent_upper: 1700, ..config() };
    assert_eq!(c.validate(), Err(ConfigError::EmptyRange));
    let c = RunConfig { rent_upper: 1000, step: 0, ..config() };
    assert_eq!(c.validate(), Err(ConfigError::EmptyRange));
    let c = RunConfig { step: 0, ..config() };
    assert_eq!(c.validate(), Err(ConfigError::ZeroStep));
    assert!(matches!(c.forms(), Err(ConfigError::ZeroStep)));
    let c = RunConfig { move_in_month: 13, ..config() };
    assert_eq!(c.validate(), Err(ConfigError::InvalidDate));
    let c = RunConfig { move_in_month: 13, detail_limit: 0, ..config() };
    assert_eq!(c.validate(), Err(ConfigError::InvalidDate));
    let c = RunConfig { listing_limit: 0, ..config() };
    assert_eq!(c.validate(), Err(ConfigError::NoConcurrency));
    let c = RunConfig { detail_limit: 0, ..config() };
    assert_eq!(c.validate(), Err(ConfigError::NoConcurrency));
}

#[test]
fn days_of_the_calendar() {
    assert!(check_date(2021, 9, 6));
    assert!(check_date(2021, 1, 31));
    assert!(check_date(2021, 4, 30));
    assert!(!check_date(2021, 4, 31));
    assert!(check_date(2020, 2, 29));
    assert!(!check_date(2021, 2, 29));
    assert!(!check_date(1900, 2, 29));
    assert!(check_date(2000, 2, 29));
    assert!(check_date(1, 1, 1));
    assert!(check_date(9999, 12, 31));
    assert!(!check_date(0, 1, 1));
    assert!(!check_date(10000, 1, 1));
    assert!(!check_date(2021, 0, 1));
    assert!(!check_date(2021, 13, 1));
    assert!(!check_date(2021, 9, 0));
    assert!(!check_date(2021, 9, 31));
}
