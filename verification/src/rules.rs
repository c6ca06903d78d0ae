//! The extraction rules: one pattern for each field, matched against the
//! trimmed text of the node that holds the field.

use crate::shorelandsearch::{BareInfo, BareInfoView, FullInfo, FullInfoView};
use crate::text::{
    decimal_digits, is_digit, is_white_space, lemma_decimal_round_trip,
    lemma_parse_of_rendered, parse_decimal, parsed_decimal, trim, trimmed, trimmed_end,
    trimmed_start,
};
use vstd::prelude::*;
use vstd::string::*;

verus! {

/// The label of a room: two bedrooms, then the wing and four digits.
pub const ROOM_PATTERN: &'static str = r"^2BR - ([NS]\d{4})$";

/// The bedroom count, a bare number.
pub const BEDROOMS_PATTERN: &'static str = r"^(\d+)$";

/// The bathroom count, with one decimal.
pub const BATHROOMS_PATTERN: &'static str = r"^(\d+)\.0$";

/// The area in square feet, with two decimals.
pub const AREA_PATTERN: &'static str = r"^(\d+)\.00$";

/// A rent in whole dollars, as the listing and the unit's page print it.
pub const RENT_PATTERN: &'static str = r"^\$(\d+)\.00$";

/// The months of a lease.
pub const PERIOD_PATTERN: &'static str = r"^for (\d+) Months$";

/// The fields that are read from the site's pages.
#[derive(Clone, Copy, Debug, PartialEq, Eq, Structural)]
pub enum Field {
    Room,
    Bedrooms,
    Bathrooms,
    Area,
    ListedRent,
    ActualRent,
    LeasePeriod,
}

/// Why a row, a record or a whole page was given up.
#[derive(Clone, Copy, Debug, PartialEq, Eq, Structural)]
pub enum Failure {
    /// The request did not come back.
    Transport,
    /// The page is larger than the parser takes.
    TooLarge,
    /// The node that should hold the field is not there.
    Structure(Field),
    /// The node is there, and its text is not of the field's form.
    Pattern(Field),
}

/// Why a pattern was not compiled, `regex::Error`. It is told apart
/// from success and never looked into.
#[verifier::external_type_specification]
#[verifier::external_body]
pub struct ExRegexError(regex::Error);

/// What the first capture group of `pattern` holds at the leftmost match
/// in `text`; nothing where `pattern` is no regular expression, where it
/// matches nowhere, or where the group takes no part in the match.
pub uninterp spec fn regex_capture(pattern: Seq<char>, text: Seq<char>) -> Option<Seq<char>>;

/// Compiles `pattern` with `regex::Regex::new`, searches `text` with
/// `Regex::captures` and copies out group 1. The outcome depends on the
/// two texts alone, so it has a name; nothing more is claimed of it.
#[verifier::external_body]
fn first_group(pattern: &str, text: &str) -> (r: Result<Option<String>, regex::Error>)
    ensures
        regex_capture(pattern@, text@) == match r {
            Ok(Some(s)) => Some(s@),
            _ => None,
        },
{
    match regex::Regex::new(pattern) {
        Ok(re) => Ok(re.captures(text).and_then(|c| c.get(1)).map(|m| m.as_str().to_string())),
        Err(e) => Err(e),
    }
}

/// The patterns of one run, fixed when it starts.
pub struct ExtractionRules {
    room: String,
    bedrooms: String,
    bathrooms: String,
    area: String,
    listed_rent: String,
    actual_rent: String,
    lease_period: String,
}

impl ExtractionRules {
    /// The pattern that the rules hold for `field`.
    pub closed spec fn pattern(&self, field: Field) -> Seq<char> {
        match field {
            Field::Room => self.room@,
            Field::Bedrooms => self.bedrooms@,
            Field::Bathrooms => self.bathrooms@,
            Field::Area => self.area@,
            Field::ListedRent => self.listed_rent@,
            Field::ActualRent => self.actual_rent@,
            Field::LeasePeriod => self.lease_period@,
        }
    }

    /// The rules for the site as it is laid out.
    pub fn new() -> (rules: Self)
        ensures
            rules.pattern(Field::Room) == ROOM_PATTERN@,
            rules.pattern(Field::Bedrooms) == BEDROOMS_PATTERN@,
            rules.pattern(Field::Bathrooms) == BATHROOMS_PATTERN@,
            rules.pattern(Field::Area) == AREA_PATTERN@,
            rules.pattern(Field::ListedRent) == RENT_PATTERN@,
            rules.pattern(Field::ActualRent) == RENT_PATTERN@,
            rules.pattern(Field::LeasePeriod) == PERIOD_PATTERN@,
    {
        ExtractionRules {
            room: String::from_str(ROOM_PATTERN),
            bedrooms: String::from_str(BEDROOMS_PATTERN),
            bathrooms: String::from_str(BATHROOMS_PATTERN),
            area: String::from_str(AREA_PATTERN),
            listed_rent: String::from_str(RENT_PATTERN),
            actual_rent: String::from_str(RENT_PATTERN),
            lease_period: String::from_str(PERIOD_PATTERN),
        }
    }

    /// The pattern that the rules hold for `field`.
    pub fn pattern_of(&self, field: Field) -> (p: &str)
        ensures
            p@ == self.pattern(field),
    {
        match field {
            Field::Room => self.room.as_str(),
            Field::Bedrooms => self.bedrooms.as_str(),
            Field::Bathrooms => self.bathrooms.as_str(),
            Field::Area => self.area.as_str(),
            Field::ListedRent => self.listed_rent.as_str(),
            Field::ActualRent => self.actual_rent.as_str(),
            Field::LeasePeriod => self.lease_period.as_str(),
        }
    }
}

/// The texts found in one row of the listing: the room's label and the
/// cells of the row's table, each as it stands in the page. A node that
/// is not there, or holds no text at its start, is `None`.
pub struct RowText {
    pub label: Option<String>,
    pub cells: Vec<Option<String>>,
}

/// What a row's texts hold.
pub struct RowTextView {
    pub label: Option<Seq<char>>,
    pub cells: Seq<Option<Seq<char>>>,
}

impl View for RowText {
    type V = RowTextView;

    open spec fn view(&self) -> RowTextView {
        RowTextView { label: self.label.deep_view(), cells: self.cells.deep_view() }
    }
}

impl DeepView for RowText {
    type V = RowTextView;

    open spec fn deep_view(&self) -> RowTextView {
        self@
    }
}

/// The texts found in a unit's own page: the price block's leading text
/// and the text of the span inside it.
pub struct DetailText {
    pub price: Option<String>,
    pub period: Option<String>,
}

/// What a unit page's texts hold.
pub struct DetailTextView {
    pub price: Option<Seq<char>>,
    pub period: Option<Seq<char>>,
}

impl View for DetailText {
    type V = DetailTextView;

    open spec fn view(&self) -> DetailTextView {
        DetailTextView { price: self.price.deep_view(), period: self.period.deep_view() }
    }
}

/// A row or a record that was given up, for the log: the unit where it
/// was known by then, and the reason.
pub struct Dropped {
    pub unit: Option<String>,
    pub failure: Failure,
}

/// What a log entry holds.
pub struct DroppedView {
    pub unit: Option<Seq<char>>,
    pub failure: Failure,
}

impl View for Dropped {
    type V = DroppedView;

    open spec fn view(&self) -> DroppedView {
        DroppedView { unit: self.unit.deep_view(), failure: self.failure }
    }
}

impl DeepView for Dropped {
    type V = DroppedView;

    open spec fn deep_view(&self) -> DroppedView {
        self@
    }
}

impl Clone for Dropped {
    fn clone(&self) -> (copy: Self)
        ensures
            copy@ == self@,
    {
        let unit = match &self.unit {
            Some(u) => Some(u.clone()),
            None => None,
        };
        Dropped { unit, failure: self.failure }
    }
}

/// The text that the site prints for a field: the value with what the
/// site puts around it.
pub open spec fn printed(field: Field, value: Seq<char>) -> Seq<char> {
    match field {
        Field::Room => "2BR - "@ + value,
        Field::Bedrooms => value,
        Field::Bathrooms => value + ".0"@,
        Field::Area => value + ".00"@,
        Field::ListedRent => "$"@ + value + ".00"@,
        Field::ActualRent => "$"@ + value + ".00"@,
        Field::LeasePeriod => "for "@ + value + " Months"@,
    }
}

/// Writes a value as the site prints it for `field`.
pub fn print_field(field: Field, value: &str) -> (text: String)
    ensures
        text@ == printed(field, value@),
{
    let (before, after) = match field {
        Field::Room => ("2BR - ", ""),
        Field::Bedrooms => ("", ""),
        Field::Bathrooms => ("", ".0"),
        Field::Area => ("", ".00"),
        Field::ListedRent => ("$", ".00"),
        Field::ActualRent => ("$", ".00"),
        Field::LeasePeriod => ("for ", " Months"),
    };
    proof {
        reveal_strlit("");
    }
    let mut text = String::from_str(before);
    text.append(value);
    text.append(after);
    assert(text@ =~= printed(field, value@));
    text
}

/// A captured text taken as it is; no capture is a text of the wrong form.
pub open spec fn capture_as_text(field: Field, capture: Option<Seq<char>>) -> Result<
    Seq<char>,
    Failure,
> {
    match capture {
        Some(c) => Ok(c),
        None => Err(Failure::Pattern(field)),
    }
}

/// A captured text read as a number; no capture, or one that is no
/// numeral of 32 bits, is a text of the wrong form.
pub open spec fn capture_as_number(field: Field, capture: Option<Seq<char>>) -> Result<
    u32,
    Failure,
> {
    match capture {
        Some(c) => match parsed_decimal(c) {
            Some(n) => Ok(n),
            None => Err(Failure::Pattern(field)),
        },
        None => Err(Failure::Pattern(field)),
    }
}

/// What the field's pattern captures in the trimmed text of its node.
pub open spec fn field_capture(
    rules: ExtractionRules,
    field: Field,
    located: Option<Seq<char>>,
) -> Result<Option<Seq<char>>, Failure> {
    match located {
        None => Err(Failure::Structure(field)),
        Some(raw) => Ok(regex_capture(rules.pattern(field), trimmed(raw))),
    }
}

/// The text of a field, from the text of its node.
pub open spec fn extracted_text(
    rules: ExtractionRules,
    field: Field,
    located: Option<Seq<char>>,
) -> Result<Seq<char>, Failure> {
    match field_capture(rules, field, located) {
        Err(f) => Err(f),
        Ok(capture) => capture_as_text(field, capture),
    }
}

/// The number of a field, from the text of its node.
pub open spec fn extracted_number(
    rules: ExtractionRules,
    field: Field,
    located: Option<Seq<char>>,
) -> Result<u32, Failure> {
    match field_capture(rules, field, located) {
        Err(f) => Err(f),
        Ok(capture) => capture_as_number(field, capture),
    }
}

/// The text of the row's cell `i`, where the row has one.
pub open spec fn cell_text(row: RowTextView, i: int) -> Option<Seq<char>> {
    if 0 <= i < row.cells.len() {
        row.cells[i]
    } else {
        None
    }
}

/// The four numbers of a row, cell by cell, or the first failure.
pub open spec fn extracted_numbers(rules: ExtractionRules, row: RowTextView) -> Result<
    (u32, u32, u32, u32),
    Failure,
> {
    match extracted_number(rules, Field::Bedrooms, cell_text(row, 0)) {
        Err(f) => Err(f),
        Ok(bedrooms) => match extracted_number(rules, Field::Bathrooms, cell_text(row, 1)) {
            Err(f) => Err(f),
            Ok(bathrooms) => match extracted_number(rules, Field::Area, cell_text(row, 2)) {
                Err(f) => Err(f),
                Ok(area) => match extracted_number(rules, Field::ListedRent, cell_text(row, 3)) {
                    Err(f) => Err(f),
                    Ok(rent) => Ok((bedrooms, bathrooms, area, rent)),
                },
            },
        },
    }
}

/// The record of a row: all five fields, or the first field that fails,
/// the room first and then the cells in their order. The unit is known
/// once the room has been read.
pub open spec fn extracted_info(rules: ExtractionRules, row: RowTextView) -> Result<
    BareInfoView,
    DroppedView,
> {
    match extracted_text(rules, Field::Room, row.label) {
        Err(f) => Err(DroppedView { unit: None, failure: f }),
        Ok(room) => match extracted_numbers(rules, row) {
            Err(f) => Err(DroppedView { unit: Some(room), failure: f }),
            Ok(n) => Ok(BareInfoView { room, bedrooms: n.0, bathrooms: n.1, area: n.2, rent: n.3 }),
        },
    }
}

/// The complete record: the listing record with the rent and the lease
/// period of the unit's page, or the first of the two that fails.
pub open spec fn completed(
    rules: ExtractionRules,
    bare: BareInfoView,
    detail: DetailTextView,
) -> Result<FullInfoView, DroppedView> {
    match extracted_number(rules, Field::ActualRent, detail.price) {
        Err(f) => Err(DroppedView { unit: Some(bare.room), failure: f }),
        Ok(rent) => match extracted_number(rules, Field::LeasePeriod, detail.period) {
            Err(f) => Err(DroppedView { unit: Some(bare.room), failure: f }),
            Ok(period) => Ok(FullInfoView { bare, rent, period }),
        },
    }
}

/// Whether an outcome is the one that the model gives.
pub open spec fn text_is(r: Result<String, Failure>, model: Result<Seq<char>, Failure>) -> bool {
    match r {
        Ok(s) => model == Ok::<Seq<char>, Failure>(s@),
        Err(f) => model == Err::<Seq<char>, Failure>(f),
    }
}

/// Whether a row's outcome is the one that the model gives.
pub open spec fn info_is(
    r: Result<BareInfo, Dropped>,
    model: Result<BareInfoView, DroppedView>,
) -> bool {
    match r {
        Ok(info) => model == Ok::<BareInfoView, DroppedView>(info@),
        Err(d) => model == Err::<BareInfoView, DroppedView>(d@),
    }
}

/// Whether a record's outcome is the one that the model gives.
pub open spec fn record_is(
    r: Result<FullInfo, Dropped>,
    model: Result<FullInfoView, DroppedView>,
) -> bool {
    match r {
        Ok(info) => model == Ok::<FullInfoView, DroppedView>(info@),
        Err(d) => model == Err::<FullInfoView, DroppedView>(d@),
    }
}

/// Takes what a pattern captured as the field's text.
pub fn read_text(field: Field, capture: Option<String>) -> (r: Result<String, Failure>)
    ensures
        text_is(r, capture_as_text(field, capture.deep_view())),
{
    match capture {
        Some(c) => Ok(c),
        None => Err(Failure::Pattern(field)),
    }
}

/// Reads what a pattern captured as the field's number.
pub fn read_number(field: Field, capture: Option<String>) -> (r: Result<u32, Failure>)
    ensures
        r == capture_as_number(field, capture.deep_view()),
{
    match capture {
        Some(c) => match parse_decimal(c.as_str()) {
            Some(n) => Ok(n),
            None => Err(Failure::Pattern(field)),
        },
        None => Err(Failure::Pattern(field)),
    }
}

/// A number that is written out in decimal and captured whole reads
/// back as itself.
pub proof fn lemma_captured_numeral_reads_back(field: Field, n: u32)
    ensures
        capture_as_number(field, Some(decimal_digits(n as nat))) == Ok::<u32, Failure>(n),
{
    lemma_parse_of_rendered(n);
}

/// What is printed for a number has no white space at either end, so
/// trimming hands it to the pattern as it was printed.
pub proof fn lemma_printed_number_is_trimmed(field: Field, n: u32)
    ensures
        trimmed(printed(field, decimal_digits(n as nat))) == printed(
            field,
            decimal_digits(n as nat),
        ),
{
    reveal_strlit("2BR - ");
    reveal_strlit(".0");
    reveal_strlit(".00");
    reveal_strlit("$");
    reveal_strlit("for ");
    reveal_strlit(" Months");
    lemma_decimal_round_trip(n as nat);
    let d = decimal_digits(n as nat);
    let s = printed(field, d);
    assert(is_digit(d.first()) && is_digit(d.last()));
    assert(s.len() > 0);
    assert(!is_white_space(s.first()));
    assert(!is_white_space(s.last()));
    assert(trimmed_start(s) == s);
    assert(trimmed_end(s) == s);
}

/// Whether the pattern of `field` takes `value` out of what the site
/// prints for it.
pub open spec fn captures_printed(rules: ExtractionRules, field: Field, value: Seq<char>) -> bool {
    regex_capture(rules.pattern(field), printed(field, value)) == Some(value)
}

/// Where the pattern of a field captures the numeral out of what was
/// printed for a number, the extractor gives the number back: trimming
/// leaves the printed text alone, and the numeral reads as the number.
pub proof fn lemma_printed_number_reads_back(rules: ExtractionRules, field: Field, n: u32)
    ensures
        captures_printed(rules, field, decimal_digits(n as nat)) ==> extracted_number(
            rules,
            field,
            Some(printed(field, decimal_digits(n as nat))),
        ) == Ok::<u32, Failure>(n),
{
    lemma_printed_number_is_trimmed(field, n);
    lemma_captured_numeral_reads_back(field, n);
}

/// The label that is printed for a unit has no white space at either
/// end, unless the unit ends in some.
pub proof fn lemma_printed_room_is_trimmed(unit: Seq<char>)
    requires
        unit.len() > 0,
        !is_white_space(unit.last()),
    ensures
        trimmed(printed(Field::Room, unit)) == printed(Field::Room, unit),
{
    reveal_strlit("2BR - ");
    let s = printed(Field::Room, unit);
    assert(s.len() > 0);
    assert(s.first() == '2');
    assert(s.last() == unit.last());
    assert(trimmed_start(s) == s);
    assert(trimmed_end(s) == s);
}

/// Where the room's pattern captures the unit out of the label that
/// was printed for it, the extractor gives the unit back.
pub proof fn lemma_printed_room_reads_back(rules: ExtractionRules, unit: Seq<char>)
    requires
        unit.len() > 0,
        !is_white_space(unit.last()),
    ensures
        captures_printed(rules, Field::Room, unit) ==> extracted_text(
            rules,
            Field::Room,
            Some(printed(Field::Room, unit)),
        ) == Ok::<Seq<char>, Failure>(unit),
{
    lemma_printed_room_is_trimmed(unit);
}

/// The texts of the row that the site prints for a record.
pub open spec fn printed_row(info: BareInfoView) -> RowTextView {
    RowTextView {
        label: Some(printed(Field::Room, info.room)),
        cells: seq![
            Some(printed(Field::Bedrooms, decimal_digits(info.bedrooms as nat))),
            Some(printed(Field::Bathrooms, decimal_digits(info.bathrooms as nat))),
            Some(printed(Field::Area, decimal_digits(info.area as nat))),
            Some(printed(Field::ListedRent, decimal_digits(info.rent as nat))),
        ],
    }
}

/// Whether each pattern takes its value out of the row that is printed
/// for a record.
pub open spec fn captures_printed_row(rules: ExtractionRules, info: BareInfoView) -> bool {
    &&& captures_printed(rules, Field::Room, info.room)
    &&& captures_printed(rules, Field::Bedrooms, decimal_digits(info.bedrooms as nat))
    &&& captures_printed(rules, Field::Bathrooms, decimal_digits(info.bathrooms as nat))
    &&& captures_printed(rules, Field::Area, decimal_digits(info.area as nat))
    &&& captures_printed(rules, Field::ListedRent, decimal_digits(info.rent as nat))
}

/// A record that is printed as a row and read again is the same
/// record, where each pattern captures what was printed around its
/// value: reading, printing and reading again changes nothing.
pub proof fn lemma_printed_row_reads_back(rules: ExtractionRules, info: BareInfoView)
    requires
        info.room.len() > 0,
        !is_white_space(info.room.last()),
    ensures
        captures_printed_row(rules, info) ==> extracted_info(rules, printed_row(info)) == Ok::<
            BareInfoView,
            DroppedView,
        >(info),
{
    lemma_printed_room_reads_back(rules, info.room);
    lemma_printed_number_reads_back(rules, Field::Bedrooms, info.bedrooms);
    lemma_printed_number_reads_back(rules, Field::Bathrooms, info.bathrooms);
    lemma_printed_number_reads_back(rules, Field::Area, info.area);
    lemma_printed_number_reads_back(rules, Field::ListedRent, info.rent);
}

/// The texts of the price block that the site prints for a rent and a
/// lease period.
pub open spec fn printed_detail(rent: u32, period: u32) -> DetailTextView {
    DetailTextView {
        price: Some(printed(Field::ActualRent, decimal_digits(rent as nat))),
        period: Some(printed(Field::LeasePeriod, decimal_digits(period as nat))),
    }
}

/// A rent and a lease period that are printed as a price block and read
/// again complete the record with the same two numbers, where the two
/// patterns capture what was printed around them.
pub proof fn lemma_printed_detail_reads_back(
    rules: ExtractionRules,
    bare: BareInfoView,
    rent: u32,
    period: u32,
)
    ensures
        captures_printed(rules, Field::ActualRent, decimal_digits(rent as nat))
            && captures_printed(rules, Field::LeasePeriod, decimal_digits(period as nat))
            ==> completed(rules, bare, printed_detail(rent, period)) == Ok::<
            FullInfoView,
            DroppedView,
        >(FullInfoView { bare, rent, period }),
{
    lemma_printed_number_reads_back(rules, Field::ActualRent, rent);
    lemma_printed_number_reads_back(rules, Field::LeasePeriod, period);
}

impl ExtractionRules {
    fn capture(&self, field: Field, located: Option<&str>) -> (r: Result<Option<String>, Failure>)
        ensures
            match r {
                Ok(c) => field_capture(*self, field, located.deep_view()) == Ok::<
                    Option<Seq<char>>,
                    Failure,
                >(c.deep_view()),
                Err(f) => field_capture(*self, field, located.deep_view()) == Err::<
                    Option<Seq<char>>,
                    Failure,
                >(f),
            },
    {
        match located {
            None => Err(Failure::Structure(field)),
            Some(raw) => {
                let text = trim(raw);
                match first_group(self.pattern_of(field), text.as_str()) {
                    Ok(Some(c)) => Ok(Some(c)),
                    _ => Ok(None),
                }
            },
        }
    }

    /// Reads the text of `field` from the text of its node.
    pub fn extract_text(&self, field: Field, located: Option<&str>) -> (r: Result<String, Failure>)
        ensures
            text_is(r, extracted_text(*self, field, located.deep_view())),
    {
        match self.capture(field, located) {
            Err(f) => Err(f),
            Ok(capture) => read_text(field, capture),
        }
    }

    /// Reads the number of `field` from the text of its node.
    pub fn extract_number(&self, field: Field, located: Option<&str>) -> (r: Result<u32, Failure>)
        ensures
            r == extracted_number(*self, field, located.deep_view()),
    {
        match self.capture(field, located) {
            Err(f) => Err(f),
            Ok(capture) => read_number(field, capture),
        }
    }
}

fn cell_of(row: &RowText, i: usize) -> (r: Option<&str>)
    ensures
        r.deep_view() == cell_text(row@, i as int),
{
    if i < row.cells.len() {
        match &row.cells[i] {
            Some(s) => Some(s.as_str()),
            None => None,
        }
    } else {
        None
    }
}

fn text_of(located: &Option<String>) -> (r: Option<&str>)
    ensures
        r.deep_view() == located.deep_view(),
{
    match located {
        Some(s) => Some(s.as_str()),
        None => None,
    }
}

/// Reads the record of one row of the listing. All five fields are read
/// or the row is given up: no record comes out half filled.
pub fn extract_info(rules: &ExtractionRules, row: &RowText) -> (r: Result<BareInfo, Dropped>)
    ensures
        info_is(r, extracted_info(*rules, row@)),
{
    let room = match rules.extract_text(Field::Room, text_of(&row.label)) {
        Ok(room) => room,
        Err(failure) => { return Err(Dropped { unit: None, failure }); },
    };
    let bedrooms = match rules.extract_number(Field::Bedrooms, cell_of(row, 0)) {
        Ok(n) => n,
        Err(failure) => { return Err(Dropped { unit: Some(room), failure }); },
    };
    let bathrooms = match rules.extract_number(Field::Bathrooms, cell_of(row, 1)) {
        Ok(n) => n,
        Err(failure) => { return Err(Dropped { unit: Some(room), failure }); },
    };
    let area = match rules.extract_number(Field::Area, cell_of(row, 2)) {
        Ok(n) => n,
        Err(failure) => { return Err(Dropped { unit: Some(room), failure }); },
    };
    let rent = match rules.extract_number(Field::ListedRent, cell_of(row, 3)) {
        Ok(n) => n,
        Err(failure) => { return Err(Dropped { unit: Some(room), failure }); },
    };
    Ok(BareInfo { room, bedrooms, bathrooms, area, rent })
}

/// Completes a listing record with the rent and the lease period found
/// in the unit's own page. A record that cannot be completed is given
/// up whole.
pub fn enrich(rules: &ExtractionRules, bare: BareInfo, detail: &DetailText) -> (r: Result<
    FullInfo,
    Dropped,
>)
    ensures
        record_is(r, completed(*rules, bare@, detail@)),
{
    let rent = match rules.extract_number(Field::ActualRent, text_of(&detail.price)) {
        Ok(n) => n,
        Err(failure) => { return Err(Dropped { unit: Some(bare.room), failure }); },
    };
    let period = match rules.extract_number(Field::LeasePeriod, text_of(&detail.period)) {
        Ok(n) => n,
        Err(failure) => { return Err(Dropped { unit: Some(bare.room), failure }); },
    };
    Ok(FullInfo { bare, rent, period })
}

} // verus!
