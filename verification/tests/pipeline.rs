use rp_watch::config::{ConfigError, RunConfig};
use rp_watch::page::{complete, get_page, Fetched, Page};
use rp_watch::pipeline::{Action, Pipeline, Report, RunError};
use rp_watch::rules::{print_field, ExtractionRules, Failure, Field};
use rp_watch::shorelandsearch::{detail_url, BareInfo, FullInfo, ShoreLandSearchForm};
use rp_watch::sweep::sweep;

fn config(lower: u32, upper: u32, c1: usize, c2: usize) -> RunConfig {
    RunConfig {
        rent_lower: lower,
        rent_upper: upper,
        step: 10,
        bedrooms: Some(2),
        bathrooms: Some(2),
        move_in_year: 2021,
        move_in_month: 9,
        move_in_day: 6,
        listing_limit: c1,
        detail_limit: c2,
    }
}

fn row(label: &str, listed: u32) -> String {
    format!(
        "<div class=\"content-wrapper clearfix\"><a class=\"caps\">{}</a>\
         <table class=\"results-table\"><tbody><tr><td>2</td><td>2.0</td><td>950.00</td>\
         <td>{}</td></tr></tbody></table></div>",
        label,
        print_field(Field::ListedRent, &listed.to_string())
    )
}

fn listing(rows: &[String]) -> Fetched {
    Fetched::Body(format!(
        "<html><body><form id=\"shorelandsearch:searchresultspanelform\">{}</form></body></html>",
        rows.concat()
    ))
}

fn unit_page(rent: u32, months: u32) -> Fetched {
    Fetched::Body(format!(
        "<html><body><h3 id=\"priceUnit\">{}<span>{}</span></h3></body></html>",
        print_field(Field::ActualRent, &rent.to_string()),
        print_field(Field::LeasePeriod, &months.to_string())
    ))
}

/// A site that answers from memory: the listing by the lowest rent of
/// the form, the unit page by its address.
struct Site {
    listings: Vec<(u32, Fetched)>,
    units: Vec<(String, Fetched)>,
}

impl Site {
    fn post(&self, form: &ShoreLandSearchForm) -> &Fetched {
        let low = form.min_rent().unwrap();
        match self.listings.iter().find(|(l, _)| *l == low) {
            Some((_, f)) => f,
            None => &Fetched::Failed,
        }
    }

    fn get(&self, url: &str) -> &Fetched {
        match self.units.iter().find(|(unit, _)| detail_url(unit) == url) {
            Some((_, f)) => f,
            None => &Fetched::Failed,
        }
    }
}

fn run(site: &Site, config: &RunConfig) -> Result<Report, RunError> {
    let rules = ExtractionRules::new();
    let mut pipeline = Pipeline::start(config).ok().unwrap();
    let mut steps = 0;
    loop {
        steps += 1;
        assert!(steps < 10_000);
        match pipeline.next_action() {
            Action::FetchListing(form) => {
                let page = get_page(&rules, site.post(&form));
                pipeline.listing_finished(page);
            }
            Action::FetchDetail(bare) => {
                let url = detail_url(&bare.room);
                let record = complete(&rules, bare, site.get(&url));
                pipeline.detail_finished(record);
            }
            Action::Wait => panic!("nothing is under way"),
            Action::Finish => break,
        }
    }
    assert_eq!(pipeline.listings_in_flight(), 0);
    assert_eq!(pipeline.details_in_flight(), 0);
    pipeline.finish()
}

fn rows(report: &Report) -> Vec<String> {
    report.table.iter().map(|r| r.row()).collect()
}

#[test]
fn one_unit_in_one_bucket() {
    let site = Site {
        listings: vec![(1700, listing(&[row("2BR - N0501", 1705)]))],
        units: vec![("N0501".to_string(), unit_page(1750, 12))],
    };
    let report = run(&site, &config(1700, 1710, 16, 16)).ok().unwrap();
    assert_eq!(rows(&report), vec!["N0501,2,2,950,1705,1750,12"]);
    assert!(report.dropped.is_empty());
}

#[test]
fn a_row_with_a_foreign_label_does_not_stop_the_bucket() {
    let site = Site {
        listings: vec![
            (1700, listing(&[])),
            (1710, listing(&[row("2BR - S0203", 1712), row("Studio - A1", 1715), row("2BR - N0711", 1719)])),
        ],
        units: vec![
            ("S0203".to_string(), unit_page(1800, 6)),
            ("N0711".to_string(), unit_page(1725, 12)),
        ],
    };
    let report = run(&site, &config(1700, 1720, 16, 16)).ok().unwrap();
    assert_eq!(rows(&report), vec!["N0711,2,2,950,1719,1725,12", "S0203,2,2,950,1712,1800,6"]);
    assert_eq!(report.dropped.len(), 1);
    assert_eq!(report.dropped[0].unit, None);
    assert_eq!(report.dropped[0].failure, Failure::Pattern(Field::Room));
}

#[test]
fn a_unit_page_that_times_out_drops_its_record_only() {
    let site = Site {
        listings: vec![(1700, listing(&[row("2BR - N0501", 1705), row("2BR - N0502", 1706)]))],
        units: vec![("N0502".to_string(), unit_page(1760, 12))],
    };
    let report = run(&site, &config(1700, 1710, 16, 16)).ok().unwrap();
    assert_eq!(rows(&report), vec!["N0502,2,2,950,1706,1760,12"]);
    assert_eq!(report.dropped.len(), 1);
    assert_eq!(report.dropped[0].unit.as_deref(), Some("N0501"));
    assert_eq!(report.dropped[0].failure, Failure::Transport);
}

#[test]
fn a_unit_in_two_buckets_has_one_row() {
    let site = Site {
        listings: vec![
            (1700, listing(&[row("2BR - S0203", 1709)])),
            (1710, listing(&[row("2BR - N0501", 1715), row("2BR - S0203", 1709)])),
        ],
        units: vec![
            ("S0203".to_string(), unit_page(1800, 6)),
            ("N0501".to_string(), unit_page(1750, 12)),
        ],
    };
    let report = run(&site, &config(1700, 1720, 16, 16)).ok().unwrap();
    assert_eq!(rows(&report), vec!["N0501,2,2,950,1715,1750,12", "S0203,2,2,950,1709,1800,6"]);
    assert_eq!(report.table.iter().filter(|r| r.bare.room == "S0203").count(), 1);
}

#[test]
fn two_runs_over_the_same_site_give_the_same_table() {
    let site = Site {
        listings: vec![
            (1700, listing(&[row("2BR - S0203", 1709), row("2BR - N0501", 1705)])),
            (1710, listing(&[row("2BR - N0711", 1719)])),
            (1720, listing(&[row("2BR - S0203", 1709)])),
        ],
        units: vec![
            ("S0203".to_string(), unit_page(1800, 6)),
            ("N0501".to_string(), unit_page(1750, 12)),
            ("N0711".to_string(), unit_page(1725, 12)),
        ],
    };
    let first = run(&site, &config(1700, 1730, 16, 16)).ok().unwrap();
    let second = run(&site, &config(1700, 1730, 1, 3)).ok().unwrap();
    assert_eq!(rows(&first), rows(&second));
    assert_eq!(rows(&first).len(), 3);
}

#[test]
fn a_bucket_without_rows_leaves_the_others_alone() {
    let full = Site {
        listings: vec![(1700, listing(&[row("2BR - N0501", 1705)])), (1710, listing(&[]))],
        units: vec![("N0501".to_string(), unit_page(1750, 12))],
    };
    let report = run(&full, &config(1700, 1720, 16, 16)).ok().unwrap();
    assert_eq!(rows(&report), vec!["N0501,2,2,950,1705,1750,12"]);
    assert!(report.dropped.is_empty());
}

#[test]
fn a_bucket_that_cannot_be_fetched_gives_no_record() {
    let site = Site {
        listings: vec![(1710, listing(&[row("2BR - N0711", 1719)]))],
        units: vec![("N0711".to_string(), unit_page(1725, 12))],
    };
    let report = run(&site, &config(1700, 1720, 16, 16)).ok().unwrap();
    assert_eq!(rows(&report), vec!["N0711,2,2,950,1719,1725,12"]);
    assert_eq!(report.dropped.len(), 1);
    assert_eq!(report.dropped[0].unit, None);
    assert_eq!(report.dropped[0].failure, Failure::Transport);
}

#[test]
fn a_site_that_is_never_reached_fails_the_run() {
    let site = Site { listings: vec![], units: vec![] };
    assert!(matches!(run(&site, &config(1700, 1730, 2, 2)), Err(RunError::SiteNotReached)));
}

#[test]
fn a_site_without_units_gives_an_empty_table() {
    let site = Site { listings: vec![(1700, listing(&[])), (1710, listing(&[]))], units: vec![] };
    let report = run(&site, &config(1700, 1720, 2, 2)).ok().unwrap();
    assert!(report.table.is_empty());
    assert!(report.dropped.is_empty());
}

#[test]
fn settings_are_checked_before_anything_is_fetched() {
    assert!(matches!(Pipeline::start(&config(1700, 1700, 16, 16)), Err(ConfigError::EmptyRange)));
    assert!(matches!(Pipeline::start(&config(1700, 1710, 0, 16)), Err(ConfigError::NoConcurrency)));
    let zero = RunConfig { step: 0, ..config(1700, 1710, 16, 16) };
    assert!(matches!(Pipeline::start(&zero), Err(ConfigError::ZeroStep)));
    let bad = RunConfig { move_in_day: 31, ..config(1700, 1710, 16, 16) };
    assert!(matches!(Pipeline::start(&bad), Err(ConfigError::InvalidDate)));
    let forms = sweep(1700, 1710, 10, None, None, 2021, 9, 6);
    assert!(matches!(Pipeline::new(forms, 1, 0), Err(ConfigError::NoConcurrency)));
}

fn bare(room: &str) -> BareInfo {
    BareInfo { room: room.to_string(), bedrooms: 2, bathrooms: 2, area: 950, rent: 1705 }
}

fn page(rooms: &[&str]) -> Result<Page, Failure> {
    Ok(Page { records: rooms.iter().map(|r| bare(r)).collect(), dropped: vec![] })
}

fn full(b: BareInfo) -> FullInfo {
    FullInfo { bare: b, rent: 1750, period: 12 }
}

fn listing_of(action: Action) -> u32 {
    match action {
        Action::FetchListing(form) => form.min_rent().unwrap(),
        _ => panic!("a form was expected"),
    }
}

fn detail_of(action: Action) -> BareInfo {
    match action {
        Action::FetchDetail(b) => b,
        _ => panic!("a unit was expected"),
    }
}

#[test]
fn neither_stage_goes_beyond_its_limit() {
    let mut p = Pipeline::start(&config(1700, 1750, 2, 3)).ok().unwrap();
    assert_eq!(listing_of(p.next_action()), 1700);
    assert_eq!(listing_of(p.next_action()), 1710);
    assert!(matches!(p.next_action(), Action::Wait));
    assert_eq!(p.listings_in_flight(), 2);
    p.listing_finished(page(&["N0001", "N0002", "N0003", "N0004", "N0005"]));
    assert_eq!(p.listings_in_flight(), 1);
    // Units go before forms, and three at most are under way.
    assert_eq!(detail_of(p.next_action()).room, "N0001");
    assert_eq!(detail_of(p.next_action()).room, "N0002");
    assert_eq!(detail_of(p.next_action()).room, "N0003");
    assert_eq!(p.details_in_flight(), 3);
    assert_eq!(listing_of(p.next_action()), 1720);
    assert!(matches!(p.next_action(), Action::Wait));
    assert_eq!(p.listings_in_flight(), 2);
    assert_eq!(p.details_in_flight(), 3);
    p.detail_finished(Ok(full(bare("N0002"))));
    assert_eq!(p.collected(), 1);
    assert_eq!(detail_of(p.next_action()).room, "N0004");
    assert!(matches!(p.next_action(), Action::Wait));
}

#[test]
fn units_start_while_listings_are_still_under_way() {
    let mut p = Pipeline::start(&config(1700, 1800, 1, 1)).ok().unwrap();
    assert_eq!(listing_of(p.next_action()), 1700);
    p.listing_finished(page(&["N0001"]));
    assert_eq!(detail_of(p.next_action()).room, "N0001");
    assert_eq!(listing_of(p.next_action()), 1710);
    assert_eq!(p.listings_in_flight(), 1);
    assert_eq!(p.details_in_flight(), 1);
}

#[test]
fn a_report_that_nobody_waits_for_changes_nothing() {
    let mut p = Pipeline::start(&config(1700, 1710, 1, 1)).ok().unwrap();
    p.listing_finished(page(&["N0001"]));
    p.detail_finished(Ok(full(bare("N0009"))));
    assert_eq!(p.collected(), 0);
    assert_eq!(listing_of(p.next_action()), 1700);
    p.listing_finished(page(&[]));
    assert!(matches!(p.next_action(), Action::Finish));
    let report = p.finish().ok().unwrap();
    assert!(report.table.is_empty());
}

#[test]
fn a_run_that_is_stopped_starts_nothing_new() {
    let mut p = Pipeline::start(&config(1700, 1800, 2, 1)).ok().unwrap();
    assert_eq!(listing_of(p.next_action()), 1700);
    p.listing_finished(page(&["N0001", "N0002"]));
    assert_eq!(detail_of(p.next_action()).room, "N0001");
    assert_eq!(listing_of(p.next_action()), 1710);
    assert!(!p.is_cancelled());
    p.cancel();
    assert!(p.is_cancelled());
    // N0002 waits and seven forms are left: none of them starts.
    assert!(matches!(p.next_action(), Action::Wait));
    p.detail_finished(Ok(full(bare("N0001"))));
    assert!(matches!(p.next_action(), Action::Wait));
    p.listing_finished(page(&["N0003"]));
    assert!(matches!(p.next_action(), Action::Finish));
    let report = p.finish().ok().unwrap();
    assert_eq!(report.table.len(), 1);
    assert_eq!(report.table[0].bare.room, "N0001");
}

#[test]
fn pages_that_cannot_be_read_are_logged() {
    let mut p = Pipeline::start(&config(1700, 1720, 2, 2)).ok().unwrap();
    p.next_action();
    p.next_action();
    p.listing_finished(Err(Failure::TooLarge));
    p.listing_finished(Err(Failure::Transport));
    assert!(matches!(p.next_action(), Action::Finish));
    // One page came back, so the site was reached.
    let report = p.finish().ok().unwrap();
    assert!(report.table.is_empty());
    let failures: Vec<Failure> = report.dropped.iter().map(|d| d.failure).collect();
    assert_eq!(failures, vec![Failure::TooLarge, Failure::Transport]);
}
