//! The search form of the listing site and the records read from it.

use crate::text::{decimal_digits, padded_decimal, render_decimal, render_padded};
use vstd::prelude::*;
use vstd::string::*;

verus! {

/// Where the search form is posted.
pub const LISTING_URL: &'static str =
    "https://macapartments.secure.force.com/mac/ShorelandSiteSearch";

/// One submission of the search form: a rent range, the bedroom and
/// bathroom filters and the move-in date.
pub struct ShoreLandSearchForm {
    min_rent: Option<u32>,
    max_rent: Option<u32>,
    bedrooms: Option<u8>,
    bathrooms: Option<u8>,
    move_in_date: String,
}

/// What a search form holds.
pub struct FormView {
    pub min_rent: Option<u32>,
    pub max_rent: Option<u32>,
    pub bedrooms: Option<u8>,
    pub bathrooms: Option<u8>,
    pub move_in_date: Seq<char>,
}

impl View for ShoreLandSearchForm {
    type V = FormView;

    closed spec fn view(&self) -> FormView {
        FormView {
            min_rent: self.min_rent,
            max_rent: self.max_rent,
            bedrooms: self.bedrooms,
            bathrooms: self.bathrooms,
            move_in_date: self.move_in_date@,
        }
    }
}

impl DeepView for ShoreLandSearchForm {
    type V = FormView;

    open spec fn deep_view(&self) -> FormView {
        self@
    }
}

impl Clone for ShoreLandSearchForm {
    fn clone(&self) -> (copy: Self)
        ensures
            copy@ == self@,
    {
        ShoreLandSearchForm {
            min_rent: self.min_rent,
            max_rent: self.max_rent,
            bedrooms: self.bedrooms,
            bathrooms: self.bathrooms,
            move_in_date: self.move_in_date.clone(),
        }
    }
}

/// A date as the site reads it: month, day and year, two, two and four
/// digits at least, with a slash between them.
pub open spec fn date_text(year: u32, month: u32, day: u32) -> Seq<char> {
    padded_decimal(month as nat, 2).push('/') + padded_decimal(day as nat, 2).push('/')
        + padded_decimal(year as nat, 4)
}

impl ShoreLandSearchForm {
    pub fn new(
        min_rent: Option<u32>,
        max_rent: Option<u32>,
        bedrooms: Option<u8>,
        bathrooms: Option<u8>,
        move_in_year: u32,
        move_in_month: u32,
        move_in_day: u32,
    ) -> (form: Self)
        ensures
            form@ == (FormView {
                min_rent,
                max_rent,
                bedrooms,
                bathrooms,
                move_in_date: date_text(move_in_year, move_in_month, move_in_day),
            }),
    {
        let mut date = render_padded(move_in_month, 2);
        date.push('/');
        let day = render_padded(move_in_day, 2);
        date.append(day.as_str());
        date.push('/');
        let year = render_padded(move_in_year, 4);
        date.append(year.as_str());
        Self { min_rent, max_rent, bedrooms, bathrooms, move_in_date: date }
    }

    /// The lowest rent asked for, if any.
    pub fn min_rent(&self) -> (r: Option<u32>)
        ensures
            r == self@.min_rent,
    {
        self.min_rent
    }

    /// The highest rent asked for, if any.
    pub fn max_rent(&self) -> (r: Option<u32>)
        ensures
            r == self@.max_rent,
    {
        self.max_rent
    }

    /// The bedrooms asked for, if any.
    pub fn bedrooms(&self) -> (r: Option<u8>)
        ensures
            r == self@.bedrooms,
    {
        self.bedrooms
    }

    /// The bathrooms asked for, if any.
    pub fn bathrooms(&self) -> (r: Option<u8>)
        ensures
            r == self@.bathrooms,
    {
        self.bathrooms
    }

    /// The move-in date, as the site reads it.
    pub fn move_in_date(&self) -> (r: &str)
        ensures
            r@ == self@.move_in_date,
    {
        self.move_in_date.as_str()
    }
}

/// The address of a unit's own page, up to the unit.
pub const UNIT_URL_PREFIX: &'static str = "https://www.macapartments.com/unit/Regents-Park-";

/// The rest of the address of a unit's own page.
pub const UNIT_URL_SUFFIX: &'static str = "-2BR";

/// The column titles of the table that a run prints.
pub const TABLE_HEADER: &'static str = "room,bedrooms,bathrooms,area,wrong_rent,rent,period";

/// The address of the page of `unit`.
pub open spec fn unit_url(unit: Seq<char>) -> Seq<char> {
    UNIT_URL_PREFIX@ + unit + UNIT_URL_SUFFIX@
}

/// The address of the page of `unit`.
pub fn detail_url(unit: &str) -> (url: String)
    ensures
        url@ == unit_url(unit@),
{
    let mut url = String::from_str(UNIT_URL_PREFIX);
    url.append(unit);
    url.append(UNIT_URL_SUFFIX);
    url
}

/// A record as a row of the table: the unit, the bedrooms, bathrooms
/// and area, the rent of the listing, the rent that holds and the
/// months of the lease, with commas between them.
pub open spec fn table_row(record: FullInfoView) -> Seq<char> {
    record.bare.room.push(',') + decimal_digits(record.bare.bedrooms as nat).push(',')
        + decimal_digits(record.bare.bathrooms as nat).push(',') + decimal_digits(
        record.bare.area as nat,
    ).push(',') + decimal_digits(record.bare.rent as nat).push(',') + decimal_digits(
        record.rent as nat,
    ).push(',') + decimal_digits(record.period as nat)
}

fn append_number(row: &mut String, n: u32, comma: bool)
    ensures
        comma ==> final(row)@ == old(row)@ + decimal_digits(n as nat).push(','),
        !comma ==> final(row)@ == old(row)@ + decimal_digits(n as nat),
{
    let digits = render_decimal(n);
    row.append(digits.as_str());
    if comma {
        row.push(',');
        assert((old(row)@ + decimal_digits(n as nat)).push(',') =~= old(row)@ + decimal_digits(
            n as nat,
        ).push(','));
    }
}

/// The session fields that the site hands out and wants back with every
/// submission. They are passed through as they are.
pub struct SessionState {
    pub view_state: String,
    pub view_state_version: String,
    pub view_state_mac: String,
}

/// What the session fields hold.
pub struct SessionView {
    pub view_state: Seq<char>,
    pub view_state_version: Seq<char>,
    pub view_state_mac: Seq<char>,
}

impl View for SessionState {
    type V = SessionView;

    open spec fn view(&self) -> SessionView {
        SessionView {
            view_state: self.view_state@,
            view_state_version: self.view_state_version@,
            view_state_mac: self.view_state_mac@,
        }
    }
}

/// A number as the form carries it; a filter that is not set is blank.
pub open spec fn number_or_blank(value: Option<u32>) -> Seq<char> {
    match value {
        Some(n) => decimal_digits(n as nat),
        None => Seq::empty(),
    }
}

/// A count as the form carries it; a filter that is not set is blank.
pub open spec fn count_or_blank(value: Option<u8>) -> Seq<char> {
    match value {
        Some(n) => decimal_digits(n as nat),
        None => Seq::empty(),
    }
}

/// The bedroom filter as the form carries it: the count and the word
/// `Bedrooms`, or blank.
pub open spec fn bedrooms_label(value: Option<u8>) -> Seq<char> {
    match value {
        Some(n) => decimal_digits(n as nat) + " Bedrooms"@,
        None => Seq::empty(),
    }
}

/// The ten fields of a submission, name and value, in the order in
/// which they are sent.
pub open spec fn form_fields(form: FormView, session: SessionView) -> Seq<(Seq<char>, Seq<char>)> {
    seq![
        ("shorelandsearch:mainform"@, "shorelandsearch:mainform"@),
        ("shorelandsearch:mainform:min_rent"@, number_or_blank(form.min_rent)),
        ("shorelandsearch:mainform:max_rent"@, number_or_blank(form.max_rent)),
        ("shorelandsearch:mainform:bedrooms"@, bedrooms_label(form.bedrooms)),
        ("shorelandsearch:mainform:bathrooms"@, count_or_blank(form.bathrooms)),
        ("move_in_date"@, form.move_in_date),
        ("shorelandsearch:mainform:search"@, "Search"@),
        ("com.salesforce.visualforce.ViewState"@, session.view_state),
        ("com.salesforce.visualforce.ViewStateVersion"@, session.view_state_version),
        ("com.salesforce.visualforce.ViewStateMAC"@, session.view_state_mac),
    ]
}

fn number_text(value: Option<u32>) -> (s: String)
    ensures
        s@ == number_or_blank(value),
{
    match value {
        Some(n) => render_decimal(n),
        None => String::new(),
    }
}

fn count_text(value: Option<u8>) -> (s: String)
    ensures
        s@ == count_or_blank(value),
{
    match value {
        Some(n) => render_decimal(n as u32),
        None => String::new(),
    }
}

fn field(name: &str, value: String) -> (f: (String, String))
    ensures
        f.deep_view() == (name@, value@),
{
    (String::from_str(name), value)
}

impl ShoreLandSearchForm {
    /// The fields of the submission, as names and values.
    pub fn fields(&self, session: &SessionState) -> (fields: Vec<(String, String)>)
        ensures
            fields.deep_view() == form_fields(self@, session@),
    {
        let bedrooms = match self.bedrooms {
            Some(n) => {
                let mut label = render_decimal(n as u32);
                label.append(" Bedrooms");
                label
            },
            None => String::new(),
        };
        let mut fields: Vec<(String, String)> = Vec::new();
        fields.push(field("shorelandsearch:mainform", String::from_str("shorelandsearch:mainform")));
        fields.push(field("shorelandsearch:mainform:min_rent", number_text(self.min_rent)));
        fields.push(field("shorelandsearch:mainform:max_rent", number_text(self.max_rent)));
        fields.push(field("shorelandsearch:mainform:bedrooms", bedrooms));
        fields.push(field("shorelandsearch:mainform:bathrooms", count_text(self.bathrooms)));
        fields.push(field("move_in_date", self.move_in_date.clone()));
        fields.push(field("shorelandsearch:mainform:search", String::from_str("Search")));
        fields.push(field("com.salesforce.visualforce.ViewState", session.view_state.clone()));
        fields.push(
            field(
                "com.salesforce.visualforce.ViewStateVersion",
                session.view_state_version.clone(),
            ),
        );
        fields.push(
            field("com.salesforce.visualforce.ViewStateMAC", session.view_state_mac.clone()),
        );
        assert(fields.deep_view() =~= form_fields(self@, session@));
        fields
    }
}

/// A unit as its row of the listing page describes it.
pub struct BareInfo {
    pub room: String,
    pub bedrooms: u32,
    pub bathrooms: u32,
    pub area: u32,
    pub rent: u32,
}

/// What a listing record holds.
pub struct BareInfoView {
    pub room: Seq<char>,
    pub bedrooms: u32,
    pub bathrooms: u32,
    pub area: u32,
    pub rent: u32,
}

impl View for BareInfo {
    type V = BareInfoView;

    open spec fn view(&self) -> BareInfoView {
        BareInfoView {
            room: self.room@,
            bedrooms: self.bedrooms,
            bathrooms: self.bathrooms,
            area: self.area,
            rent: self.rent,
        }
    }
}

impl DeepView for BareInfo {
    type V = BareInfoView;

    open spec fn deep_view(&self) -> BareInfoView {
        self@
    }
}

impl Clone for BareInfo {
    fn clone(&self) -> (copy: Self)
        ensures
            copy@ == self@,
    {
        BareInfo {
            room: self.room.clone(),
            bedrooms: self.bedrooms,
            bathrooms: self.bathrooms,
            area: self.area,
            rent: self.rent,
        }
    }
}

/// A listing record with what the unit's own page adds: the rent that
/// holds and the months of the lease.
pub struct FullInfo {
    pub bare: BareInfo,
    pub rent: u32,
    pub period: u32,
}

/// What a complete record holds.
pub struct FullInfoView {
    pub bare: BareInfoView,
    pub rent: u32,
    pub period: u32,
}

impl View for FullInfo {
    type V = FullInfoView;

    open spec fn view(&self) -> FullInfoView {
        FullInfoView { bare: self.bare@, rent: self.rent, period: self.period }
    }
}

impl DeepView for FullInfo {
    type V = FullInfoView;

    open spec fn deep_view(&self) -> FullInfoView {
        self@
    }
}

impl FullInfo {
    /// The record as a row of the table.
    pub fn row(&self) -> (row: String)
        ensures
            row@ == table_row(self@),
    {
        let mut row = self.bare.room.clone();
        row.push(',');
        append_number(&mut row, self.bare.bedrooms, true);
        append_number(&mut row, self.bare.bathrooms, true);
        append_number(&mut row, self.bare.area, true);
        append_number(&mut row, self.bare.rent, true);
        append_number(&mut row, self.rent, true);
        append_number(&mut row, self.period, false);
        row
    }
}

impl Clone for FullInfo {
    fn clone(&self) -> (copy: Self)
        ensures
            copy@ == self@,
    {
        FullInfo { bare: self.bare.clone(), rent: self.rent, period: self.period }
    }
}

} // verus!
