//! The pagination rules: which page of a listing is requested next, and
//! when the listing counts as read.
//!
//! The engine does no fetching. Its caller requests the page that the cursor
//! names, hands the number of records that the page gave to
//! [`Cursor::record_page`], and stops as soon as the cursor says so.

use vstd::prelude::*;
use crate::common::error::{Error, ErrorView};
use crate::numeric::{decimal_text, push_decimal};
use crate::text::{chain, string_of};

verus! {

/// The layout in which the site presents the records of a listing.
#[derive(Clone, Copy, PartialEq, Eq, Structural, Debug)]
pub enum RenderingShape {
    /// Posters side by side.
    Grid,
    /// One record per row, with its details.
    List,
    /// The hits of a search.
    SearchResult,
    /// The rows of a diary.
    DiaryRow,
}

/// The number of records on a full page of a grid.
pub const GRID_PAGE_SIZE: usize = 72;

/// The number of records on a full page of a list.
pub const LIST_PAGE_SIZE: usize = 20;

/// The number of hits on a full page of search results.
pub const SEARCH_PAGE_SIZE: usize = 20;

/// The number of rows on a full page of a diary.
pub const DIARY_PAGE_SIZE: usize = 50;

/// The number of collected records at which every run stops.
pub const SAFETY_CEILING: usize = 1000;

impl RenderingShape {
    /// The number of records that a full page of this layout holds.
    pub open spec fn full_page_size(self) -> nat {
        match self {
            RenderingShape::Grid => GRID_PAGE_SIZE as nat,
            RenderingShape::List => LIST_PAGE_SIZE as nat,
            RenderingShape::SearchResult => SEARCH_PAGE_SIZE as nat,
            RenderingShape::DiaryRow => DIARY_PAGE_SIZE as nat,
        }
    }

    /// The number of records that a full page of this layout holds.
    pub fn expected_full_page_size(&self) -> (size: usize)
        ensures
            size == self.full_page_size(),
    {
        match self {
            RenderingShape::Grid => GRID_PAGE_SIZE,
            RenderingShape::List => LIST_PAGE_SIZE,
            RenderingShape::SearchResult => SEARCH_PAGE_SIZE,
            RenderingShape::DiaryRow => DIARY_PAGE_SIZE,
        }
    }
}

/// A grid shows more records on a page than a list does.
pub proof fn lemma_grid_pages_are_larger()
    ensures
        RenderingShape::Grid.full_page_size() > RenderingShape::List.full_page_size(),
{
}

/// Why a page could not be fetched.
#[derive(Debug, Clone)]
pub enum FetchFailure {
    /// The site has no such page.
    NotFound,
    /// The page is private.
    Forbidden,
    /// The request did not get through; the text says why.
    Transport(String),
}

/// A `FetchFailure` with its text as a character sequence.
pub enum FetchFailureView {
    NotFound,
    Forbidden,
    Transport(Seq<char>),
}

impl View for FetchFailure {
    type V = FetchFailureView;

    open spec fn view(&self) -> FetchFailureView {
        match self {
            FetchFailure::NotFound => FetchFailureView::NotFound,
            FetchFailure::Forbidden => FetchFailureView::Forbidden,
            FetchFailure::Transport(detail) => FetchFailureView::Transport(detail@),
        }
    }
}

/// The error that a caller sees when fetching `url` failed with `failure`.
pub open spec fn fetch_error(url: Seq<char>, failure: FetchFailureView) -> ErrorView {
    match failure {
        FetchFailureView::NotFound => ErrorView::PageLoad { url, message: "Page not found"@ },
        FetchFailureView::Forbidden => ErrorView::PrivateRoute,
        FetchFailureView::Transport(detail) => ErrorView::PageLoad { url, message: detail },
    }
}

impl FetchFailure {
    /// The error that a caller sees when fetching `url` failed in this way.
    pub fn into_error(self, url: &str) -> (e: Error)
        ensures
            e@ == fetch_error(url@, self@),
    {
        match self {
            FetchFailure::NotFound => Error::PageLoad {
                url: url.to_owned(),
                message: "Page not found".to_owned(),
            },
            FetchFailure::Forbidden => Error::PrivateRoute,
            FetchFailure::Transport(detail) => Error::PageLoad {
                url: url.to_owned(),
                message: detail,
            },
        }
    }
}

/// When a run stops.
#[derive(Clone, Copy, PartialEq, Eq, Structural, Debug)]
pub struct StopPolicy {
    /// A page with fewer records than this is the last one.
    pub full_page_size: usize,
    /// The run stops once it has collected this many records.
    pub ceiling: usize,
    /// The run fetches at most this many pages, where a limit is set.
    pub max_pages: Option<u32>,
}

/// Why a run stopped.
#[derive(Clone, Copy, PartialEq, Eq, Structural, Debug)]
pub enum StopReason {
    /// The last page held fewer records than a full page does.
    ShortPage,
    /// The records collected reached the ceiling.
    Ceiling,
    /// The run fetched as many pages as it was allowed.
    PageLimit,
}

/// What the caller does after a page.
#[derive(Clone, Copy, PartialEq, Eq, Structural, Debug)]
pub enum Decision {
    /// Fetch the next page.
    Continue,
    /// The run is over.
    Stop(StopReason),
}

/// Where a run stands between two pages.
#[derive(Clone, Copy, PartialEq, Eq, Structural, Debug)]
pub enum Phase {
    /// The page with this number is to be fetched next.
    Fetching(u32),
    /// The run is over.
    Done(StopReason),
}

/// How far a run has come.
pub struct Progress {
    /// The number of the last page that was recorded; 0 before the first.
    pub page: nat,
    /// How many pages this run has recorded.
    pub fetched: nat,
    /// How many records the last recorded page gave.
    pub page_item_count: nat,
    /// How many records the pages recorded so far gave, this run's and
    /// those before it.
    pub cumulative: nat,
    /// Why the run stopped, once it has.
    pub stopped: Option<StopReason>,
}

/// The largest page number.
pub open spec fn last_page_number() -> nat {
    u32::MAX as nat
}

/// The largest count of records that a cursor keeps apart from larger ones.
pub open spec fn count_limit() -> nat {
    usize::MAX as nat
}

/// Whether a run that has recorded `fetched` pages, the last with the number
/// `page`, is out of pages before it has looked at any records.
pub open spec fn exhausted(policy: StopPolicy, page: nat, fetched: nat) -> bool {
    (policy.max_pages is Some && fetched >= policy.max_pages->Some_0) || page >= last_page_number()
}

/// Why a run stops after a page, if it does. The rules are tried in this
/// order: a short page; the ceiling; the page limit.
pub open spec fn stop_reason(
    policy: StopPolicy,
    page: nat,
    fetched: nat,
    page_item_count: nat,
    cumulative: nat,
) -> Option<StopReason> {
    if page_item_count < policy.full_page_size {
        Some(StopReason::ShortPage)
    } else if cumulative >= policy.ceiling {
        Some(StopReason::Ceiling)
    } else if exhausted(policy, page, fetched) {
        Some(StopReason::PageLimit)
    } else {
        None
    }
}

/// The state of a run that continues after page `last_page`, with
/// `cumulative` records collected before it began.
pub open spec fn resumed(policy: StopPolicy, last_page: nat, cumulative: nat) -> Progress {
    Progress {
        page: last_page,
        fetched: 0,
        page_item_count: 0,
        cumulative,
        stopped: if exhausted(policy, last_page, 0) {
            Some(StopReason::PageLimit)
        } else {
            None
        },
    }
}

/// The state of a run that has not fetched anything yet.
pub open spec fn fresh(policy: StopPolicy) -> Progress {
    resumed(policy, 0, 0)
}

/// The state after the next page gave `count` records. A run that has
/// stopped stays as it is.
pub open spec fn step(policy: StopPolicy, p: Progress, count: nat) -> Progress {
    if p.stopped is Some {
        p
    } else {
        let cumulative = if p.cumulative + count > count_limit() {
            count_limit()
        } else {
            p.cumulative + count
        };
        Progress {
            page: p.page + 1,
            fetched: p.fetched + 1,
            page_item_count: count,
            cumulative,
            stopped: stop_reason(policy, p.page + 1, p.fetched + 1, count, cumulative),
        }
    }
}

/// The state after the pages that follow gave `counts` records, in order.
pub open spec fn run(policy: StopPolicy, p: Progress, counts: Seq<nat>) -> Progress
    decreases counts.len(),
{
    if counts.len() == 0 {
        p
    } else {
        step(policy, run(policy, p, counts.drop_last()), counts.last())
    }
}

/// A run that has stopped stays where it is, whatever pages follow.
pub proof fn lemma_run_stays_stopped(policy: StopPolicy, p: Progress, counts: Seq<nat>)
    requires
        p.stopped is Some,
    ensures
        run(policy, p, counts) == p,
    decreases counts.len(),
{
    if counts.len() > 0 {
        lemma_run_stays_stopped(policy, p, counts.drop_last());
    }
}

/// Taking a first page and then the rest is the same as taking all pages.
pub proof fn lemma_run_from_the_front(policy: StopPolicy, p: Progress, counts: Seq<nat>)
    requires
        counts.len() > 0,
    ensures
        run(policy, p, counts) == run(policy, step(policy, p, counts[0]), counts.skip(1)),
    decreases counts.len(),
{
    if counts.len() == 1 {
        assert(counts.skip(1).len() == 0);
    } else {
        lemma_run_from_the_front(policy, p, counts.drop_last());
        assert(counts.drop_last().skip(1) == counts.skip(1).drop_last());
    }
}

/// A page with fewer records than a full page holds ends the run, whatever
/// the ceiling and the page limit are.
pub proof fn lemma_short_page_stops(policy: StopPolicy, p: Progress, count: nat)
    requires
        p.stopped is None,
        count < policy.full_page_size,
    ensures
        step(policy, p, count).stopped == Some(StopReason::ShortPage),
{
}

/// A run that is still going has only seen full pages, is below the
/// ceiling, and has pages left.
pub open spec fn on_course(policy: StopPolicy, p: Progress) -> bool {
    p.stopped is None ==> {
        &&& p.page < last_page_number()
        &&& policy.max_pages is Some ==> p.fetched < policy.max_pages->Some_0
        &&& p.fetched > 0 ==> p.cumulative < policy.ceiling && p.page_item_count
            >= policy.full_page_size
    }
}

/// The page numbers of a run go up by one with each page and never repeat;
/// the count of collected records never falls; and a run that has reached
/// the ceiling has stopped.
pub proof fn lemma_run_keeps_course(policy: StopPolicy, start: Progress, counts: Seq<nat>)
    requires
        start.fetched == 0,
        start.cumulative <= count_limit(),
        start.stopped == resumed(policy, start.page, start.cumulative).stopped,
    ensures
        ({
            let end = run(policy, start, counts);
            &&& end.page == start.page + end.fetched
            &&& end.fetched <= counts.len()
            &&& end.stopped is None ==> end.fetched == counts.len()
            &&& start.cumulative <= end.cumulative <= count_limit()
            &&& on_course(policy, end)
            &&& end.fetched > 0 && end.cumulative >= policy.ceiling ==> end.stopped is Some
        }),
    decreases counts.len(),
{
    if counts.len() > 0 {
        lemma_run_keeps_course(policy, start, counts.drop_last());
    }
}

/// From one page to the next, the count of collected records never falls
/// and the page number never goes back.
pub proof fn lemma_run_grows(policy: StopPolicy, start: Progress, counts: Seq<nat>, k: int)
    requires
        0 <= k <= counts.len(),
        start.cumulative <= count_limit(),
    ensures
        run(policy, start, counts.take(k)).cumulative <= run(policy, start, counts).cumulative
            <= count_limit(),
        run(policy, start, counts.take(k)).page <= run(policy, start, counts).page,
    decreases counts.len(),
{
    if counts.len() > 0 {
        lemma_run_grows(policy, start, counts.drop_last(), 0);
    }
    if k == counts.len() {
        assert(counts.take(k) == counts);
    } else {
        lemma_run_grows(policy, start, counts.drop_last(), k);
        assert(counts.drop_last().take(k) == counts.take(k));
    }
}

/// A run from the first page on never collects more than the ceiling and one
/// page's worth of records: before its last page it was below the ceiling.
pub proof fn lemma_ceiling_bounds_run(policy: StopPolicy, counts: Seq<nat>)
    ensures
        ({
            let end = run(policy, fresh(policy), counts);
            &&& end.cumulative <= policy.ceiling + end.page_item_count
            &&& policy.ceiling > 0 ==> end.cumulative < policy.ceiling + end.page_item_count
        }),
    decreases counts.len(),
{
    if counts.len() > 0 {
        lemma_ceiling_bounds_run(policy, counts.drop_last());
    }
}

/// The address of page `page` of the listing at `base`.
pub open spec fn page_url(base: Seq<char>, page: nat) -> Seq<char> {
    base + "/page/"@ + decimal_text(page)
}

/// The address of page `page` of the listing at `base`.
pub fn page_address(base: &str, page: u64) -> (url: String)
    ensures
        url@ == page_url(base@, page as nat),
{
    let mut digits: Vec<char> = Vec::new();
    push_decimal(&mut digits, page);
    let number = string_of(&digits);
    let head = chain(base, "/page/");
    chain(head.as_str(), number.as_str())
}

/// The state of one run over the pages of a listing.
#[derive(Debug)]
pub struct Cursor {
    base_url: String,
    policy: StopPolicy,
    page: u32,
    fetched: u32,
    page_item_count: usize,
    cumulative: usize,
    stopped: Option<StopReason>,
}

impl View for Cursor {
    type V = Progress;

    closed spec fn view(&self) -> Progress {
        Progress {
            page: self.page as nat,
            fetched: self.fetched as nat,
            page_item_count: self.page_item_count as nat,
            cumulative: self.cumulative as nat,
            stopped: self.stopped,
        }
    }
}

impl Cursor {
    #[verifier::type_invariant]
    spec fn well_formed(&self) -> bool {
        &&& self.fetched <= self.page
        &&& self.stopped is None ==> !exhausted(self.policy, self.page as nat, self.fetched as nat)
    }

    /// The address of the listing.
    pub closed spec fn base(&self) -> Seq<char> {
        self.base_url@
    }

    /// The rules under which the run stops.
    pub closed spec fn rules(&self) -> StopPolicy {
        self.policy
    }

    /// A run over the listing at `base_url` that begins with page 1.
    pub fn start(base_url: &str, policy: StopPolicy) -> (c: Cursor)
        ensures
            c@ == fresh(policy),
            c.base() == base_url@,
            c.rules() == policy,
    {
        Cursor::resume(base_url, policy, 0, 0)
    }

    /// A run over the listing at `base_url` that continues behind page
    /// `last_page`, with `cumulative` records collected before.
    pub fn resume(base_url: &str, policy: StopPolicy, last_page: u32, cumulative: usize) -> (c:
        Cursor)
        ensures
            c@ == resumed(policy, last_page as nat, cumulative as nat),
            c.base() == base_url@,
            c.rules() == policy,
    {
        let out_of_pages = last_page == u32::MAX || match policy.max_pages {
            Some(limit) => limit == 0,
            None => false,
        };
        Cursor {
            base_url: base_url.to_owned(),
            policy,
            page: last_page,
            fetched: 0,
            page_item_count: 0,
            cumulative,
            stopped: if out_of_pages {
                Some(StopReason::PageLimit)
            } else {
                None
            },
        }
    }

    /// The address of the listing.
    pub fn url(&self) -> (url: &str)
        ensures
            url@ == self.base(),
    {
        self.base_url.as_str()
    }

    /// The rules under which the run stops.
    pub fn policy(&self) -> (policy: StopPolicy)
        ensures
            policy == self.rules(),
    {
        self.policy
    }

    /// The number of the last page that was recorded; 0 before the first.
    pub fn page(&self) -> (page: u32)
        ensures
            page == self@.page,
    {
        self.page
    }

    /// How many pages this run has recorded.
    pub fn pages_fetched(&self) -> (fetched: u32)
        ensures
            fetched == self@.fetched,
    {
        self.fetched
    }

    /// How many records the last recorded page gave.
    pub fn page_item_count(&self) -> (count: usize)
        ensures
            count == self@.page_item_count,
    {
        self.page_item_count
    }

    /// How many records the pages recorded so far gave.
    pub fn cumulative(&self) -> (count: usize)
        ensures
            count == self@.cumulative,
    {
        self.cumulative
    }

    /// Why the run stopped, once it has.
    pub fn stopped(&self) -> (reason: Option<StopReason>)
        ensures
            reason == self@.stopped,
    {
        self.stopped
    }

    /// Whether the run is over.
    pub fn is_done(&self) -> (done: bool)
        ensures
            done == (self@.stopped is Some),
    {
        self.stopped.is_some()
    }

    /// Where the run stands: about to fetch its next page, or over.
    pub fn phase(&self) -> (phase: Phase)
        ensures
            phase == match self@.stopped {
                Some(reason) => Phase::Done(reason),
                None => Phase::Fetching((self@.page + 1) as u32),
            },
            self@.stopped is None ==> self@.page + 1 <= last_page_number(),
    {
        proof {
            use_type_invariant(self);
        }
        match self.stopped {
            Some(reason) => Phase::Done(reason),
            None => Phase::Fetching(self.page + 1),
        }
    }

    /// The number of the page to fetch next, unless the run is over.
    pub fn next_page(&self) -> (next: Option<u32>)
        ensures
            next == if self@.stopped is Some {
                None
            } else {
                Some((self@.page + 1) as u32)
            },
            next is Some ==> self@.page + 1 <= last_page_number(),
    {
        proof {
            use_type_invariant(self);
        }
        if self.stopped.is_some() {
            None
        } else {
            Some(self.page + 1)
        }
    }

    /// The address of page `page` of the listing.
    pub fn page_url_of(&self, page: u64) -> (url: String)
        ensures
            url@ == page_url(self.base(), page as nat),
    {
        page_address(self.base_url.as_str(), page)
    }

    /// The address of the page to fetch next, unless the run is over.
    pub fn next_url(&self) -> (url: Option<String>)
        ensures
            match url {
                Some(u) => self@.stopped is None && u@ == page_url(self.base(), self@.page + 1),
                None => self@.stopped is Some,
            },
    {
        match self.next_page() {
            Some(page) => Some(page_address(self.base_url.as_str(), page as u64)),
            None => None,
        }
    }

    /// Records that the next page gave `count` records, and decides whether
    /// the run goes on. A run that is over stays as it is.
    pub fn record_page(&mut self, count: usize) -> (decision: Decision)
        ensures
            final(self)@ == step(old(self).rules(), old(self)@, count as nat),
            final(self).rules() == old(self).rules(),
            final(self).base() == old(self).base(),
            decision == match final(self)@.stopped {
                Some(reason) => Decision::Stop(reason),
                None => Decision::Continue,
            },
    {
        proof {
            use_type_invariant(&*self);
        }
        match self.stopped {
            Some(reason) => Decision::Stop(reason),
            None => {
                let page: u32 = self.page + 1;
                let fetched: u32 = self.fetched + 1;
                let cumulative: usize = if count > usize::MAX - self.cumulative {
                    usize::MAX
                } else {
                    self.cumulative + count
                };
                let out_of_pages = page == u32::MAX || match self.policy.max_pages {
                    Some(limit) => fetched >= limit,
                    None => false,
                };
                let stopped = if count < self.policy.full_page_size {
                    Some(StopReason::ShortPage)
                } else if cumulative >= self.policy.ceiling {
                    Some(StopReason::Ceiling)
                } else if out_of_pages {
                    Some(StopReason::PageLimit)
                } else {
                    None
                };
                // While the numbers change the cursor counts as stopped.
                self.stopped = Some(StopReason::PageLimit);
                self.page = page;
                self.fetched = fetched;
                self.page_item_count = count;
                self.cumulative = cumulative;
                self.stopped = stopped;
                match stopped {
                    Some(reason) => Decision::Stop(reason),
                    None => Decision::Continue,
                }
            },
        }
    }
}

} // verus!
