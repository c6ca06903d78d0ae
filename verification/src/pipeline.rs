//! The decisions of a run. The two fetch stages are driven from outside:
//! the pipeline says what to fetch next, is told what came back, and
//! keeps each stage within its limit of requests under way.

use crate::config::{config_error, ConfigError, RunConfig};
use crate::page::{Page, PageView};
use crate::rules::{Dropped, DroppedView, Failure};
use crate::shorelandsearch::{
    BareInfo, BareInfoView, FormView, FullInfo, FullInfoView, ShoreLandSearchForm,
};
use crate::table::{finalize, is_table_of, lemma_table_is_order_independent, same_records};
use vstd::prelude::*;

verus! {

/// What the driver of a run does next.
pub enum Action {
    /// Submit this form and report the page with `listing_finished`.
    FetchListing(ShoreLandSearchForm),
    /// Fetch the page of this unit and report with `detail_finished`.
    FetchDetail(BareInfo),
    /// Nothing can start: report a request that is under way.
    Wait,
    /// Nothing is left to do: take the report.
    Finish,
}

/// What an action holds.
pub enum ActionView {
    FetchListing(FormView),
    FetchDetail(BareInfoView),
    Wait,
    Finish,
}

impl View for Action {
    type V = ActionView;

    open spec fn view(&self) -> ActionView {
        match self {
            Action::FetchListing(form) => ActionView::FetchListing(form@),
            Action::FetchDetail(bare) => ActionView::FetchDetail(bare@),
            Action::Wait => ActionView::Wait,
            Action::Finish => ActionView::Finish,
        }
    }
}

/// The state of a run.
pub struct Pipeline {
    listing_limit: usize,
    detail_limit: usize,
    forms: Vec<ShoreLandSearchForm>,
    submitted: usize,
    listings_in_flight: usize,
    listings_lost: usize,
    found: Vec<BareInfo>,
    started: usize,
    details_in_flight: usize,
    given_up: usize,
    records: Vec<FullInfo>,
    dropped: Vec<Dropped>,
    cancelled: bool,
}

/// What the state of a run holds.
pub struct PipelineView {
    /// How many listing requests may be under way at once.
    pub listing_limit: nat,
    /// How many unit page requests may be under way at once.
    pub detail_limit: nat,
    /// The forms of the sweep.
    pub forms: Seq<FormView>,
    /// How many of the forms have been handed out, from the first on.
    pub submitted: nat,
    /// The listing requests under way.
    pub listings_in_flight: nat,
    /// The listing requests that did not come back.
    pub listings_lost: nat,
    /// The partial records, in the order in which the pages brought them.
    pub found: Seq<BareInfoView>,
    /// How many of them have been handed out, from the first on.
    pub started: nat,
    /// The unit page requests under way.
    pub details_in_flight: nat,
    /// The partial records that could not be completed.
    pub given_up: nat,
    /// The complete records, in the order in which they came.
    pub records: Seq<FullInfoView>,
    /// The log of what was given up.
    pub dropped: Seq<DroppedView>,
    /// Whether the run was told to stop.
    pub cancelled: bool,
}

impl View for Pipeline {
    type V = PipelineView;

    closed spec fn view(&self) -> PipelineView {
        PipelineView {
            listing_limit: self.listing_limit as nat,
            detail_limit: self.detail_limit as nat,
            forms: self.forms.deep_view(),
            submitted: self.submitted as nat,
            listings_in_flight: self.listings_in_flight as nat,
            listings_lost: self.listings_lost as nat,
            found: self.found.deep_view(),
            started: self.started as nat,
            details_in_flight: self.details_in_flight as nat,
            given_up: self.given_up as nat,
            records: self.records.deep_view(),
            dropped: self.dropped.deep_view(),
            cancelled: self.cancelled,
        }
    }
}

/// What holds of every state of a run: neither stage has more requests
/// under way than its limit; every form handed out is under way, came
/// back or did not; every partial record handed out is under way, was
/// completed or was given up.
pub open spec fn well_formed(v: PipelineView) -> bool {
    &&& 1 <= v.listing_limit
    &&& 1 <= v.detail_limit
    &&& v.submitted <= v.forms.len()
    &&& v.listings_in_flight <= v.listing_limit
    &&& v.listings_in_flight + v.listings_lost <= v.submitted
    &&& v.started <= v.found.len()
    &&& v.details_in_flight <= v.detail_limit
    &&& v.details_in_flight + v.records.len() + v.given_up == v.started
}

/// The state in which a run starts.
pub open spec fn initial(forms: Seq<FormView>, listing_limit: nat, detail_limit: nat) -> PipelineView {
    PipelineView {
        listing_limit,
        detail_limit,
        forms,
        submitted: 0,
        listings_in_flight: 0,
        listings_lost: 0,
        found: Seq::empty(),
        started: 0,
        details_in_flight: 0,
        given_up: 0,
        records: Seq::empty(),
        dropped: Seq::empty(),
        cancelled: false,
    }
}

/// Whether a unit page request can start: the run goes on, a partial
/// record waits, and the second stage is below its limit.
pub open spec fn can_start_detail(v: PipelineView) -> bool {
    !v.cancelled && v.started < v.found.len() && v.details_in_flight < v.detail_limit
}

/// Whether a listing request can start: the run goes on, a form waits,
/// and the first stage is below its limit.
pub open spec fn can_start_listing(v: PipelineView) -> bool {
    !v.cancelled && v.submitted < v.forms.len() && v.listings_in_flight < v.listing_limit
}

/// The next action. A partial record that waits goes before a form, so
/// that the second stage works while the first is still under way.
pub open spec fn next_action(v: PipelineView) -> ActionView {
    if can_start_detail(v) {
        ActionView::FetchDetail(v.found[v.started as int])
    } else if can_start_listing(v) {
        ActionView::FetchListing(v.forms[v.submitted as int])
    } else if v.listings_in_flight + v.details_in_flight > 0 {
        ActionView::Wait
    } else {
        ActionView::Finish
    }
}

/// The state once the next action has been handed out.
pub open spec fn after_action(v: PipelineView) -> PipelineView {
    if can_start_detail(v) {
        PipelineView { started: v.started + 1, details_in_flight: v.details_in_flight + 1, ..v }
    } else if can_start_listing(v) {
        PipelineView {
            submitted: v.submitted + 1,
            listings_in_flight: v.listings_in_flight + 1,
            ..v
        }
    } else {
        v
    }
}

/// The state once a listing request has ended. Its records join the
/// partial records and its log entries the log; a page that was not to
/// be had is logged, and counted where the request did not come back.
/// A report with no listing request under way changes nothing.
pub open spec fn after_listing(v: PipelineView, outcome: Result<PageView, Failure>) -> PipelineView {
    if v.listings_in_flight == 0 {
        v
    } else {
        match outcome {
            Ok(page) => PipelineView {
                listings_in_flight: (v.listings_in_flight - 1) as nat,
                found: v.found + page.records,
                dropped: v.dropped + page.dropped,
                ..v
            },
            Err(failure) => PipelineView {
                listings_in_flight: (v.listings_in_flight - 1) as nat,
                listings_lost: if failure == Failure::Transport {
                    v.listings_lost + 1
                } else {
                    v.listings_lost
                },
                dropped: v.dropped.push(DroppedView { unit: None, failure }),
                ..v
            },
        }
    }
}

/// The state once a unit page request has ended: the record joins the
/// records, or its log entry the log. A report with no unit page
/// request under way changes nothing.
pub open spec fn after_detail(
    v: PipelineView,
    outcome: Result<FullInfoView, DroppedView>,
) -> PipelineView {
    if v.details_in_flight == 0 {
        v
    } else {
        match outcome {
            Ok(record) => PipelineView {
                details_in_flight: (v.details_in_flight - 1) as nat,
                records: v.records.push(record),
                ..v
            },
            Err(entry) => PipelineView {
                details_in_flight: (v.details_in_flight - 1) as nat,
                given_up: v.given_up + 1,
                dropped: v.dropped.push(entry),
                ..v
            },
        }
    }
}

/// Whether the listing endpoint was never reached: forms were
/// submitted, none is under way, and not one request came back.
pub open spec fn site_not_reached(v: PipelineView) -> bool {
    v.submitted > 0 && v.listings_in_flight == 0 && v.listings_lost == v.submitted
}

/// Every step keeps what holds of every state: no report and no action
/// takes a stage beyond its limit or loses a record.
pub proof fn lemma_steps_keep_well_formed(
    v: PipelineView,
    page: Result<PageView, Failure>,
    record: Result<FullInfoView, DroppedView>,
)
    requires
        well_formed(v),
    ensures
        well_formed(after_action(v)),
        well_formed(after_listing(v, page)),
        well_formed(after_detail(v, record)),
{
}

/// A listing page without rows, and a listing request that failed,
/// leave the partial records and the records of the other pages as
/// they are.
pub proof fn lemma_empty_page_adds_nothing(v: PipelineView, outcome: Result<PageView, Failure>)
    requires
        outcome matches Ok(page) ==> page.records.len() == 0,
    ensures
        after_listing(v, outcome).found == v.found,
        after_listing(v, outcome).records == v.records,
        after_listing(v, outcome).started == v.started,
{
    assert(after_listing(v, outcome).found =~= v.found);
}

/// Whatever a listing request gave, the partial records found before
/// it stay where they were, and no record is touched.
pub proof fn lemma_listing_only_adds(v: PipelineView, outcome: Result<PageView, Failure>)
    ensures
        after_listing(v, outcome).found.len() >= v.found.len(),
        after_listing(v, outcome).found.take(v.found.len() as int) == v.found,
        after_listing(v, outcome).records == v.records,
{
    assert(after_listing(v, outcome).found.take(v.found.len() as int) =~= v.found);
}

/// A unit page request that failed drops its record and no other: the
/// records stay as they are, the log has one entry more, and the
/// partial records that wait are not touched.
pub proof fn lemma_failed_detail_drops_one(v: PipelineView, entry: DroppedView)
    requires
        v.details_in_flight > 0,
    ensures
        after_detail(v, Err(entry)).records == v.records,
        after_detail(v, Err(entry)).dropped == v.dropped.push(entry),
        after_detail(v, Err(entry)).found == v.found,
        after_detail(v, Err(entry)).started == v.started,
{
}

/// The order in which two unit page requests end does not show in the
/// table: where both are under way, the records are the same whichever
/// of the two is reported first, and so is the table made of them.
pub proof fn lemma_order_of_reports_does_not_show(
    v: PipelineView,
    a: FullInfoView,
    b: FullInfoView,
    ta: Seq<FullInfoView>,
    tb: Seq<FullInfoView>,
)
    requires
        v.details_in_flight >= 2,
        is_table_of(ta, after_detail(after_detail(v, Ok(a)), Ok(b)).records),
        is_table_of(tb, after_detail(after_detail(v, Ok(b)), Ok(a)).records),
    ensures
        same_records(
            after_detail(after_detail(v, Ok(a)), Ok(b)).records,
            after_detail(after_detail(v, Ok(b)), Ok(a)).records,
        ),
        ta == tb,
{
    let ab = after_detail(after_detail(v, Ok(a)), Ok(b)).records;
    let ba = after_detail(after_detail(v, Ok(b)), Ok(a)).records;
    let n = v.records.len() as int;
    assert(ab == v.records.push(a).push(b));
    assert(ba == v.records.push(b).push(a));
    assert forall|x: FullInfoView| ab.contains(x) <==> ba.contains(x) by {
        if ab.contains(x) {
            let i = choose|i: int| 0 <= i < ab.len() && ab[i] == x;
            if i < n {
                assert(ba[i] == x);
            } else if i == n {
                assert(ba[n + 1] == x);
            } else {
                assert(ba[n] == x);
            }
        }
        if ba.contains(x) {
            let i = choose|i: int| 0 <= i < ba.len() && ba[i] == x;
            if i < n {
                assert(ab[i] == x);
            } else if i == n {
                assert(ab[n + 1] == x);
            } else {
                assert(ab[n] == x);
            }
        }
    }
    lemma_table_is_order_independent(ab, ba, ta, tb);
}

/// A run is at its end exactly when nothing is under way and nothing
/// can start; unless it was stopped, every form has then been
/// submitted and every partial record was completed or given up.
pub proof fn lemma_finish_means_done(v: PipelineView)
    requires
        well_formed(v),
        next_action(v) is Finish,
    ensures
        v.listings_in_flight == 0,
        v.details_in_flight == 0,
        !v.cancelled ==> v.submitted == v.forms.len() && v.started == v.found.len(),
        v.records.len() + v.given_up == v.started,
{
}

/// As long as the run goes on and something waits, the next action
/// starts a request or waits for one that is under way.
pub proof fn lemma_no_early_finish(v: PipelineView)
    requires
        well_formed(v),
        !v.cancelled,
        v.submitted < v.forms.len() || v.started < v.found.len(),
    ensures
        !(next_action(v) is Finish),
{
}

/// What a page's outcome holds.
pub open spec fn page_outcome_view(outcome: Result<Page, Failure>) -> Result<PageView, Failure> {
    match outcome {
        Ok(page) => Ok(page@),
        Err(f) => Err(f),
    }
}

/// What a record's outcome holds.
pub open spec fn record_outcome_view(outcome: Result<FullInfo, Dropped>) -> Result<
    FullInfoView,
    DroppedView,
> {
    match outcome {
        Ok(record) => Ok(record@),
        Err(entry) => Err(entry@),
    }
}

/// Why a run ended without a table.
#[derive(Clone, Copy, Debug, PartialEq, Eq, Structural)]
pub enum RunError {
    /// Not one listing request came back.
    SiteNotReached,
}

/// What a run hands over at its end.
pub struct Report {
    /// One record for each unit, in the order of the units.
    pub table: Vec<FullInfo>,
    /// What was given up on the way.
    pub dropped: Vec<Dropped>,
}

impl Pipeline {
    /// A run over `forms` with the two limits. A stage that may have no
    /// request under way cannot work.
    pub fn new(forms: Vec<ShoreLandSearchForm>, listing_limit: usize, detail_limit: usize) -> (r:
        Result<Pipeline, ConfigError>)
        ensures
            match r {
                Ok(p) => listing_limit > 0 && detail_limit > 0 && well_formed(p@) && p@ == initial(
                    forms.deep_view(),
                    listing_limit as nat,
                    detail_limit as nat,
                ),
                Err(e) => (listing_limit == 0 || detail_limit == 0) && e
                    == ConfigError::NoConcurrency,
            },
    {
        if listing_limit == 0 || detail_limit == 0 {
            return Err(ConfigError::NoConcurrency);
        }
        let p = Pipeline {
            listing_limit,
            detail_limit,
            forms,
            submitted: 0,
            listings_in_flight: 0,
            listings_lost: 0,
            found: Vec::new(),
            started: 0,
            details_in_flight: 0,
            given_up: 0,
            records: Vec::new(),
            dropped: Vec::new(),
            cancelled: false,
        };
        assert(p@.found =~= Seq::empty());
        assert(p@.records =~= Seq::empty());
        assert(p@.dropped =~= Seq::empty());
        Ok(p)
    }

    /// A run over the sweep of `config`. The settings are checked
    /// before anything else happens.
    pub fn start(config: &RunConfig) -> (r: Result<Pipeline, ConfigError>)
        ensures
            match r {
                Ok(p) => config_error(*config) is None && well_formed(p@) && p@ == initial(
                    Seq::new(config.form_count() as nat, |i: int| config.form(i)),
                    config.listing_limit as nat,
                    config.detail_limit as nat,
                ),
                Err(e) => config_error(*config) == Some(e),
            },
    {
        match config.forms() {
            Err(e) => Err(e),
            Ok(forms) => {
                assert(forms.deep_view() =~= Seq::new(
                    config.form_count() as nat,
                    |i: int| config.form(i),
                ));
                Pipeline::new(forms, config.listing_limit, config.detail_limit)
            },
        }
    }

    /// The listing requests under way.
    pub fn listings_in_flight(&self) -> (n: usize)
        ensures
            n == self@.listings_in_flight,
    {
        self.listings_in_flight
    }

    /// The unit page requests under way.
    pub fn details_in_flight(&self) -> (n: usize)
        ensures
            n == self@.details_in_flight,
    {
        self.details_in_flight
    }

    /// The records collected so far.
    pub fn collected(&self) -> (n: usize)
        ensures
            n == self@.records.len(),
    {
        self.records.len()
    }

    /// Whether the run was told to stop.
    pub fn is_cancelled(&self) -> (b: bool)
        ensures
            b == self@.cancelled,
    {
        self.cancelled
    }

    /// Says what to do next, and counts a request that it hands out as
    /// under way.
    pub fn next_action(&mut self) -> (action: Action)
        requires
            well_formed(old(self)@),
        ensures
            well_formed(final(self)@),
            action@ == next_action(old(self)@),
            final(self)@ == after_action(old(self)@),
    {
        if !self.cancelled && self.started < self.found.len() && self.details_in_flight
            < self.detail_limit {
            let bare = self.found[self.started].clone();
            self.started = self.started + 1;
            self.details_in_flight = self.details_in_flight + 1;
            Action::FetchDetail(bare)
        } else if !self.cancelled && self.submitted < self.forms.len() && self.listings_in_flight
            < self.listing_limit {
            let form = self.forms[self.submitted].clone();
            self.submitted = self.submitted + 1;
            self.listings_in_flight = self.listings_in_flight + 1;
            Action::FetchListing(form)
        } else if self.listings_in_flight > 0 || self.details_in_flight > 0 {
            Action::Wait
        } else {
            Action::Finish
        }
    }

    /// Takes what a listing request gave.
    pub fn listing_finished(&mut self, outcome: Result<Page, Failure>)
        requires
            well_formed(old(self)@),
        ensures
            well_formed(final(self)@),
            final(self)@ == after_listing(old(self)@, page_outcome_view(outcome)),
    {
        if self.listings_in_flight == 0 {
            return ;
        }
        let ghost found = self.found.deep_view();
        let ghost dropped = self.dropped.deep_view();
        self.listings_in_flight = self.listings_in_flight - 1;
        match outcome {
            Ok(page) => {
                let mut page = page;
                let ghost more = page@;
                self.found.append(&mut page.records);
                self.dropped.append(&mut page.dropped);
                assert(self.found.deep_view() =~= found + more.records);
                assert(self.dropped.deep_view() =~= dropped + more.dropped);
            },
            Err(failure) => {
                if failure == Failure::Transport {
                    self.listings_lost = self.listings_lost + 1;
                }
                self.dropped.push(Dropped { unit: None, failure });
                assert(self.dropped.deep_view() =~= dropped.push(
                    DroppedView { unit: None, failure },
                ));
            },
        }
    }

    /// Takes what a unit page request gave.
    pub fn detail_finished(&mut self, outcome: Result<FullInfo, Dropped>)
        requires
            well_formed(old(self)@),
        ensures
            well_formed(final(self)@),
            final(self)@ == after_detail(old(self)@, record_outcome_view(outcome)),
    {
        if self.details_in_flight == 0 {
            return ;
        }
        let ghost records = self.records.deep_view();
        let ghost dropped = self.dropped.deep_view();
        self.details_in_flight = self.details_in_flight - 1;
        match outcome {
            Ok(record) => {
                self.records.push(record);
                assert(self.records.deep_view() =~= records.push(record@));
            },
            Err(entry) => {
                self.given_up = self.given_up + 1;
                self.dropped.push(entry);
                assert(self.dropped.deep_view() =~= dropped.push(entry@));
            },
        }
    }

    /// Stops the run: from now on nothing new starts, and what is under
    /// way is still taken when it ends.
    pub fn cancel(&mut self)
        requires
            well_formed(old(self)@),
        ensures
            well_formed(final(self)@),
            final(self)@ == (PipelineView { cancelled: true, ..old(self)@ }),
    {
        self.cancelled = true;
    }

    /// Ends the run: the records become the table, unless the listing
    /// endpoint was never reached.
    pub fn finish(self) -> (r: Result<Report, RunError>)
        ensures
            match r {
                Ok(report) => !site_not_reached(self@) && is_table_of(
                    report.table.deep_view(),
                    self@.records,
                ) && report.dropped.deep_view() == self@.dropped,
                Err(e) => site_not_reached(self@) && e == RunError::SiteNotReached,
            },
    {
        if self.submitted > 0 && self.listings_in_flight == 0 && self.listings_lost == self.submitted {
            return Err(RunError::SiteNotReached);
        }
        let table = finalize(self.records);
        Ok(Report { table, dropped: self.dropped })
    }
}

} // verus!
