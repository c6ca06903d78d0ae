//! Reading the site's pages: the rows of a listing and the price block
//! of a unit's own page are located in the parsed document, and the
//! extraction rules are applied to the texts found there.

use crate::rules::{
    completed, enrich, extract_info, extracted_info, record_is, DetailText, DetailTextView,
    Dropped, DroppedView, ExtractionRules, Failure, Field, RowText, RowTextView,
};
use crate::shorelandsearch::{BareInfo, BareInfoView, FullInfo, FullInfoView};
use kuchiki::traits::TendrilSink;
use vstd::prelude::*;
use vstd::string::*;
use vstd::utf8::encode_utf8;

verus! {

/// One row group for each unit, inside the results form.
pub const ROWS_SELECTOR: &'static str =
    r"form#shorelandsearch\:searchresultspanelform div.content-wrapper.clearfix";

/// The link that carries the room's label.
pub const LABEL_SELECTOR: &'static str = "a.caps";

/// The cells of a row's table.
pub const CELLS_SELECTOR: &'static str = "table.results-table > tbody > tr > td";

/// The price block of a unit's page.
pub const PRICE_SELECTOR: &'static str = "h3#priceUnit";

/// The lease period, inside the price block.
pub const PERIOD_SELECTOR: &'static str = "span";

/// The cells of a row that are read: bedrooms, bathrooms, area, rent.
pub const CELLS_READ: usize = 4;

/// The largest page that is handed to the parser, in bytes. The parser
/// may write three bytes for one that it reads, and a buffer of its
/// texts cannot grow beyond 2 GiB.
pub const MAX_PAGE_BYTES: usize = 0x2000_0000;

/// The leading texts of some elements, in the order of the elements.
/// The leading text of an element is the contents of its first child
/// where that is a text node, and nothing otherwise.
pub type Texts = Seq<Option<Seq<char>>>;

/// What the parser's library finds in the document `html`: for each
/// element that `outer` selects, in the order of the document, the
/// leading texts of the elements that `first` selects among it and its
/// descendants, and those of the elements that `second` selects there.
/// Nothing where a selector that is put to use is not understood.
pub uninterp spec fn texts_within(
    html: Seq<char>,
    outer: Seq<char>,
    first: Seq<char>,
    second: Seq<char>,
) -> Option<Seq<(Texts, Texts)>>;

/// Parses `html` with `kuchiki::parse_html`, selects with
/// `NodeRef::select`, first `outer` in the document and then `first`
/// and `second` under each element found, and copies out the leading
/// text of each element, from `Node::first_child` and `Node::as_text`.
/// What comes back depends on the four texts alone, so it has a name;
/// nothing more is claimed of it. The page is bounded because the
/// parser does not return for one that outgrows its buffers.
#[verifier::external_body]
fn select_texts(html: &str, outer: &str, first: &str, second: &str) -> (found: Option<
    Vec<(Vec<Option<String>>, Vec<Option<String>>)>,
>)
    requires
        html.spec_bytes().len() <= MAX_PAGE_BYTES,
    ensures
        texts_within(html@, outer@, first@, second@) == found.deep_view(),
{
    let text = |e: kuchiki::NodeDataRef<kuchiki::ElementData>| {
        e.as_node().first_child().and_then(|c| c.as_text().map(|t| t.borrow().clone()))
    };
    let under = |e: &kuchiki::NodeRef, selector: &str| {
        e.select(selector).ok().map(|found| found.map(text).collect::<Vec<_>>())
    };
    let root = kuchiki::parse_html().one(html);
    let elements = root.select(outer).ok()?;
    elements.map(|e| Some((under(e.as_node(), first)?, under(e.as_node(), second)?))).collect()
}

/// What a request brought back.
pub enum Fetched {
    /// The body of the response.
    Body(String),
    /// Nothing: the connection failed or timed out.
    Failed,
}

/// What one listing page gave: the records of the rows that could be
/// read, in the page's order, and a log entry for each row given up.
pub struct Page {
    pub records: Vec<BareInfo>,
    pub dropped: Vec<Dropped>,
}

/// What a page's outcome holds.
pub struct PageView {
    pub records: Seq<BareInfoView>,
    pub dropped: Seq<DroppedView>,
}

impl View for Page {
    type V = PageView;

    open spec fn view(&self) -> PageView {
        PageView { records: self.records.deep_view(), dropped: self.dropped.deep_view() }
    }
}

/// The rows of a page taken one by one: a row that can be read adds its
/// record, a row that cannot adds a log entry, and the rows after it are
/// read all the same.
pub open spec fn sifted(rules: ExtractionRules, rows: Seq<RowTextView>) -> PageView
    decreases rows.len(),
{
    if rows.len() == 0 {
        PageView { records: Seq::empty(), dropped: Seq::empty() }
    } else {
        let before = sifted(rules, rows.drop_last());
        match extracted_info(rules, rows.last()) {
            Ok(info) => PageView { records: before.records.push(info), dropped: before.dropped },
            Err(d) => PageView { records: before.records, dropped: before.dropped.push(d) },
        }
    }
}

/// A page without rows gives no record and no log entry.
pub proof fn lemma_no_rows_no_records(rules: ExtractionRules)
    ensures
        sifted(rules, Seq::empty()).records.len() == 0,
        sifted(rules, Seq::empty()).dropped.len() == 0,
{
}

/// Every row of a page ends as a record or as a log entry, and none as
/// both: a row that cannot be read takes no other row with it.
pub proof fn lemma_every_row_is_accounted_for(rules: ExtractionRules, rows: Seq<RowTextView>)
    ensures
        sifted(rules, rows).records.len() + sifted(rules, rows).dropped.len() == rows.len(),
    decreases rows.len(),
{
    if rows.len() > 0 {
        lemma_every_row_is_accounted_for(rules, rows.drop_last());
    }
}

/// Whether a page's outcome is the one that the model gives.
pub open spec fn page_is(r: Result<Page, Failure>, model: Result<PageView, Failure>) -> bool {
    match r {
        Ok(page) => model == Ok::<PageView, Failure>(page@),
        Err(f) => model == Err::<PageView, Failure>(f),
    }
}

/// Reads the records out of the rows located in a listing page.
pub fn sift_rows(rules: &ExtractionRules, rows: &Vec<RowText>) -> (page: Page)
    ensures
        page@ == sifted(*rules, rows.deep_view()),
{
    let mut records: Vec<BareInfo> = Vec::new();
    let mut dropped: Vec<Dropped> = Vec::new();
    let mut i: usize = 0;
    assert(rows.deep_view().take(0).len() == 0);
    while i < rows.len()
        invariant
            i <= rows.len(),
            records.deep_view() == sifted(*rules, rows.deep_view().take(i as int)).records,
            dropped.deep_view() == sifted(*rules, rows.deep_view().take(i as int)).dropped,
        decreases rows.len() - i,
    {
        let ghost seen = rows.deep_view().take(i as int);
        let ghost next = rows.deep_view().take(i + 1);
        assert(next.drop_last() == seen);
        assert(next.last() == rows[i as int]@);
        let ghost old_records = records.deep_view();
        let ghost old_dropped = dropped.deep_view();
        match extract_info(rules, &rows[i]) {
            Ok(info) => {
                records.push(info);
                assert(records.deep_view() == old_records.push(info@));
            },
            Err(d) => {
                dropped.push(d);
                assert(dropped.deep_view() == old_dropped.push(d@));
            },
        }
        i += 1;
    }
    assert(rows.deep_view().take(rows.len() as int) == rows.deep_view());
    Page { records, dropped }
}

/// Whether a page is too large for the parser.
pub open spec fn too_large(html: Seq<char>) -> bool {
    encode_utf8(html).len() > MAX_PAGE_BYTES
}

/// The text that stands for a selection where one element is looked
/// for: that of the first element found, and none where none was found.
pub open spec fn first_text(texts: Texts) -> Option<Seq<char>> {
    if texts.len() > 0 {
        texts[0]
    } else {
        None
    }
}

/// The texts that are read as the cells of a row: those of the first
/// `CELLS_READ` cells found.
pub open spec fn cells_read(texts: Texts) -> Texts {
    if texts.len() > CELLS_READ {
        texts.subrange(0, CELLS_READ as int)
    } else {
        texts
    }
}

/// The texts of one row, from the texts of its labels and of its cells.
pub open spec fn row_of(found: (Texts, Texts)) -> RowTextView {
    RowTextView { label: first_text(found.0), cells: cells_read(found.1) }
}

/// The texts of the rows of a listing page, from what was found under
/// each of its row groups.
pub open spec fn rows_from(found: Seq<(Texts, Texts)>) -> Seq<RowTextView> {
    Seq::new(found.len(), |i: int| row_of(found[i]))
}

/// The texts of the price block of a unit's page, from what was found
/// under each of its price blocks: of the first block, the first text
/// that its own selector gave and the first that the span's gave; no
/// text where no block was found or a selector was not understood.
pub open spec fn detail_from(found: Option<Seq<(Texts, Texts)>>) -> DetailTextView {
    match found {
        Some(blocks) => if blocks.len() > 0 {
            DetailTextView { price: first_text(blocks[0].0), period: first_text(blocks[0].1) }
        } else {
            DetailTextView { price: None, period: None }
        },
        None => DetailTextView { price: None, period: None },
    }
}

/// The rows of a listing page, in the order of the page; nothing where
/// the page cannot be taken apart.
pub open spec fn located_rows(html: Seq<char>) -> Option<Seq<RowTextView>> {
    match texts_within(html, ROWS_SELECTOR@, LABEL_SELECTOR@, CELLS_SELECTOR@) {
        Some(found) => Some(rows_from(found)),
        None => None,
    }
}

/// The texts of the price block of a unit's page: its own leading text
/// and that of the first span in it. A selection under an element
/// takes in the element itself, so the block's own selector finds the
/// block first.
pub open spec fn located_detail(html: Seq<char>) -> DetailTextView {
    detail_from(texts_within(html, PRICE_SELECTOR@, PRICE_SELECTOR@, PERIOD_SELECTOR@))
}

/// What is located in a listing page: its rows, or the reason why the
/// page was given up.
pub open spec fn rows_of(html: Seq<char>) -> Result<Seq<RowTextView>, Failure> {
    if too_large(html) {
        Err(Failure::TooLarge)
    } else {
        match located_rows(html) {
            Some(rows) => Ok(rows),
            None => Err(Failure::Structure(Field::Room)),
        }
    }
}

/// What is located in a unit's page: the texts of its price block, or
/// the reason why the page was given up.
pub open spec fn detail_of(html: Seq<char>) -> Result<DetailTextView, Failure> {
    if too_large(html) {
        Err(Failure::TooLarge)
    } else {
        Ok(located_detail(html))
    }
}

/// What a listing request gives: no page where it did not come back or
/// its page was given up, and else the records and log entries of the
/// rows of its page.
pub open spec fn page_of(rules: ExtractionRules, fetched: Fetched) -> Result<PageView, Failure> {
    match fetched {
        Fetched::Failed => Err(Failure::Transport),
        Fetched::Body(html) => match rows_of(html@) {
            Err(f) => Err(f),
            Ok(rows) => Ok(sifted(rules, rows)),
        },
    }
}

/// A record given up for `failure`, with its unit for the log.
pub open spec fn given_up(unit: Seq<char>, failure: Failure) -> Result<FullInfoView, DroppedView> {
    Err(DroppedView { unit: Some(unit), failure })
}

/// What a unit page request gives: the complete record, or the log
/// entry of a record given up because the request did not come back,
/// the page was given up or one of its two texts could not be read.
pub open spec fn record_of(rules: ExtractionRules, bare: BareInfoView, fetched: Fetched) -> Result<
    FullInfoView,
    DroppedView,
> {
    match fetched {
        Fetched::Failed => given_up(bare.room, Failure::Transport),
        Fetched::Body(html) => match detail_of(html@) {
            Err(f) => given_up(bare.room, f),
            Ok(detail) => completed(rules, bare, detail),
        },
    }
}

/// Whether located rows are those that the model gives.
pub open spec fn rows_are(
    r: Result<Vec<RowText>, Failure>,
    model: Result<Seq<RowTextView>, Failure>,
) -> bool {
    match r {
        Ok(rows) => model == Ok::<Seq<RowTextView>, Failure>(rows.deep_view()),
        Err(f) => model == Err::<Seq<RowTextView>, Failure>(f),
    }
}

/// Whether located texts are those that the model gives.
pub open spec fn detail_is(
    r: Result<DetailText, Failure>,
    model: Result<DetailTextView, Failure>,
) -> bool {
    match r {
        Ok(detail) => model == Ok::<DetailTextView, Failure>(detail@),
        Err(f) => model == Err::<DetailTextView, Failure>(f),
    }
}

fn copy_text(text: &Option<String>) -> (copy: Option<String>)
    ensures
        copy.deep_view() == text.deep_view(),
{
    match text {
        Some(s) => Some(s.clone()),
        None => None,
    }
}

fn first_text_of(texts: &Vec<Option<String>>) -> (first: Option<String>)
    ensures
        first.deep_view() == first_text(texts.deep_view()),
{
    if texts.len() > 0 {
        copy_text(&texts[0])
    } else {
        None
    }
}

/// The texts of one row: the text of its first label, and the texts of
/// the cells that are read.
pub fn row_text(found: &(Vec<Option<String>>, Vec<Option<String>>)) -> (texts: RowText)
    ensures
        texts@ == row_of(found.deep_view()),
{
    let label = first_text_of(&found.0);
    let mut cells: Vec<Option<String>> = Vec::new();
    let mut i: usize = 0;
    while i < found.1.len() && i < CELLS_READ
        invariant
            i <= found.1.len(),
            i <= CELLS_READ,
            cells.deep_view() == found.1.deep_view().subrange(0, i as int),
        decreases CELLS_READ - i,
    {
        let ghost before = cells.deep_view();
        let text = copy_text(&found.1[i]);
        cells.push(text);
        i += 1;
        assert(cells.deep_view() == before.push(found.1.deep_view()[i - 1]));
        assert(cells.deep_view() == found.1.deep_view().subrange(0, i as int));
    }
    assert(cells.deep_view() == cells_read(found.1.deep_view()));
    RowText { label, cells }
}

/// The texts of the rows of a listing page, in the order of the page.
pub fn rows_text(found: &Vec<(Vec<Option<String>>, Vec<Option<String>>)>) -> (rows: Vec<RowText>)
    ensures
        rows.deep_view() == rows_from(found.deep_view()),
{
    let ghost model = rows_from(found.deep_view());
    let mut rows: Vec<RowText> = Vec::new();
    let mut i: usize = 0;
    while i < found.len()
        invariant
            i <= found.len(),
            model == rows_from(found.deep_view()),
            rows.deep_view() == model.subrange(0, i as int),
        decreases found.len() - i,
    {
        let ghost before = rows.deep_view();
        let row = row_text(&found[i]);
        assert(found.deep_view()[i as int] == found[i as int].deep_view());
        rows.push(row);
        i += 1;
        assert(rows.deep_view() == before.push(model[i - 1]));
        assert(rows.deep_view() == model.subrange(0, i as int));
    }
    assert(rows.deep_view() == model);
    rows
}

/// The texts of the price block of a unit's page.
pub fn detail_text(found: &Option<Vec<(Vec<Option<String>>, Vec<Option<String>>)>>) -> (detail:
    DetailText)
    ensures
        detail@ == detail_from(found.deep_view()),
{
    match found {
        Some(blocks) => {
            if blocks.len() > 0 {
                assert(blocks.deep_view()[0] == blocks[0].deep_view());
                let price = first_text_of(&blocks[0].0);
                let period = first_text_of(&blocks[0].1);
                DetailText { price, period }
            } else {
                DetailText { price: None, period: None }
            }
        },
        None => DetailText { price: None, period: None },
    }
}

/// Locates the rows of a listing page and, in each, the texts that the
/// rules are applied to: the leading text of the first label, and
/// those of the first cells of the row's table. A page beyond
/// `MAX_PAGE_BYTES` is not parsed.
pub fn locate_rows(html: &str) -> (r: Result<Vec<RowText>, Failure>)
    ensures
        rows_are(r, rows_of(html@)),
{
    if html.as_bytes().len() > MAX_PAGE_BYTES {
        return Err(Failure::TooLarge);
    }
    match select_texts(html, ROWS_SELECTOR, LABEL_SELECTOR, CELLS_SELECTOR) {
        Some(found) => Ok(rows_text(&found)),
        None => Err(Failure::Structure(Field::Room)),
    }
}

/// Locates the price block of a unit's page and the two texts in it.
/// A page beyond `MAX_PAGE_BYTES` is not parsed.
pub fn locate_detail(html: &str) -> (r: Result<DetailText, Failure>)
    ensures
        detail_is(r, detail_of(html@)),
{
    if html.as_bytes().len() > MAX_PAGE_BYTES {
        return Err(Failure::TooLarge);
    }
    let found = select_texts(html, PRICE_SELECTOR, PRICE_SELECTOR, PERIOD_SELECTOR);
    Ok(detail_text(&found))
}

/// The partial records of one listing page. A request that failed, or
/// a page that cannot be taken apart, gives the reason and no record; a
/// page without rows gives an empty page; a row that cannot be read is
/// logged and the rows after it are read all the same.
pub fn get_page(rules: &ExtractionRules, fetched: &Fetched) -> (r: Result<Page, Failure>)
    ensures
        page_is(r, page_of(*rules, *fetched)),
{
    match fetched {
        Fetched::Failed => Err(Failure::Transport),
        Fetched::Body(html) => match locate_rows(html.as_str()) {
            Err(f) => Err(f),
            Ok(rows) => Ok(sift_rows(rules, &rows)),
        },
    }
}

/// The complete record of a unit, from its listing record and what the
/// request for its own page brought back. A request that failed, or a
/// page in which the rent or the lease period cannot be read, gives the
/// record up whole, with the unit and the reason.
pub fn complete(rules: &ExtractionRules, bare: BareInfo, fetched: &Fetched) -> (r: Result<
    FullInfo,
    Dropped,
>)
    ensures
        record_is(r, record_of(*rules, bare@, *fetched)),
{
    match fetched {
        Fetched::Failed => Err(Dropped { unit: Some(bare.room), failure: Failure::Transport }),
        Fetched::Body(html) => match locate_detail(html.as_str()) {
            Err(failure) => Err(Dropped { unit: Some(bare.room), failure }),
            Ok(detail) => enrich(rules, bare, &detail),
        },
    }
}

} // verus!
