use rp_watch::shorelandsearch::{BareInfo, FullInfo};
use rp_watch::table::finalize;

fn record(room: &str, listed: u32, rent: u32) -> FullInfo {
    FullInfo {
        bare: BareInfo { room: room.to_string(), bedrooms: 2, bathrooms: 2, area: 900, rent: listed },
        rent,
        period: 12,
    }
}

fn rows(table: &[FullInfo]) -> Vec<String> {
    table.iter().map(|r| r.row()).collect()
}

#[test]
fn the_table_is_sorted_by_unit() {
    let table = finalize(vec![
        record("S0203", 1712, 1800),
        record("N0711", 1719, 1725),
        record("N0501", 1705, 1750),
    ]);
    assert_eq!(
        rows(&table),
        vec!["N0501,2,2,900,1705,1750,12", "N0711,2,2,900,1719,1725,12", "S0203,2,2,900,1712,1800,12"]
    );
}

#[test]
fn no_record_gives_an_empty_table() {
    assert!(finalize(vec![]).is_empty());
}

#[test]
fn a_unit_found_twice_has_one_row() {
    let table = finalize(vec![
        record("S0203", 1712, 1800),
        record("N0501", 1705, 1750),
        record("S0203", 1712, 1800),
    ]);
    assert_eq!(rows(&table), vec!["N0501,2,2,900,1705,1750,12", "S0203,2,2,900,1712,1800,12"]);
    assert_eq!(table.iter().filter(|r| r.bare.room == "S0203").count(), 1);
}

#[test]
fn of_the_records_of_a_unit_the_one_with_the_smallest_numbers_stays() {
    let table = finalize(vec![
        record("S0203", 1712, 1800),
        record("S0203", 1999, 1),
        record("S0203", 0, 2),
    ]);
    assert_eq!(rows(&table), vec!["S0203,2,2,900,0,2,12"]);
    let table = finalize(vec![record("S0203", 1712, 1800), record("S0203", 1712, 1799)]);
    assert_eq!(rows(&table), vec!["S0203,2,2,900,1712,1799,12"]);
    let mut shorter = record("S0203", 1712, 1800);
    shorter.period = 6;
    let mut smaller = record("S0203", 5000, 9000);
    smaller.bare.bedrooms = 1;
    let table = finalize(vec![record("S0203", 1712, 1800), shorter, smaller]);
    assert_eq!(rows(&table), vec!["S0203,1,2,900,5000,9000,12"]);
}

#[test]
fn records_that_disagree_give_the_same_table_in_any_order() {
    let all = [
        record("S0203", 1712, 1800),
        record("S0203", 1709, 1800),
        record("N0501", 1705, 1750),
        record("S0203", 1709, 1790),
        record("N0501", 1705, 1750),
    ];
    let expected = vec!["N0501,2,2,900,1705,1750,12", "S0203,2,2,900,1709,1790,12"];
    let orders: [[usize; 5]; 6] = [
        [0, 1, 2, 3, 4],
        [4, 3, 2, 1, 0],
        [3, 0, 4, 1, 2],
        [1, 3, 0, 2, 4],
        [2, 4, 3, 1, 0],
        [3, 1, 0, 4, 2],
    ];
    for order in orders {
        let records: Vec<FullInfo> = order.iter().map(|i| all[*i].clone()).collect();
        assert_eq!(rows(&finalize(records)), expected);
    }
}

#[test]
fn the_order_in_which_records_come_does_not_matter() {
    let a = vec![
        record("S0203", 1712, 1800),
        record("N0501", 1705, 1750),
        record("N0711", 1719, 1725),
        record("S0203", 1712, 1800),
    ];
    let b = vec![
        record("N0711", 1719, 1725),
        record("S0203", 1712, 1800),
        record("N0711", 1719, 1725),
        record("N0501", 1705, 1750),
    ];
    assert_eq!(rows(&finalize(a)), rows(&finalize(b)));
}

#[test]
fn a_table_is_its_own_table() {
    let once = finalize(vec![
        record("S0203", 1712, 1800),
        record("N0501", 1705, 1750),
        record("S0203", 1, 2),
        record("A", 1, 2),
        record("", 1, 2),
    ]);
    let expected = rows(&once);
    assert_eq!(rows(&finalize(once)), expected);
    assert_eq!(expected.len(), 4);
    assert_eq!(expected[0], ",2,2,900,1,2,12");
}

#[test]
fn units_are_ordered_as_strings_not_as_numbers() {
    let table = finalize(vec![record("N10", 1, 1), record("N9", 1, 1), record("N090", 1, 1)]);
    let units: Vec<&str> = table.iter().map(|r| r.bare.room.as_str()).collect();
    assert_eq!(units, vec!["N090", "N10", "N9"]);
}
