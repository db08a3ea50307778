use crate::config::CrawlConfig;
use crate::extract::{extract, extraction_of, ExtractionResult, ExtractionView};
use crate::fetch::{PageResult, PageResultView};
use crate::markup::{scanned_blocks, MarkersView};
use crate::product::{batch_view, Product, ProductView};
use vstd::prelude::*;

verus! {

/// Consecutive refusals of one page from which on the crawler takes a long rest.
pub const RETRY_LIMIT: u64 = 10;

/// Seconds to wait before an ordinary retry of a refused page.
pub const SHORT_SLEEP_SECS: u64 = 15;

/// Seconds to rest once a page has been refused `RETRY_LIMIT` times in a row.
pub const LONG_REST_SECS: u64 = 3600;

/// Seconds to wait between a page that was read and the request for the next.
pub const COURTESY_SECS: u64 = 20;

/// What one request for a page came to, once its markup has been read.
#[derive(Debug, Clone, PartialEq, Eq)]
pub enum PageOutcome {
    /// The page holds listings; these are the records read from them.
    Entries(Vec<Product>),
    /// The page holds no listing.
    Empty,
    /// The site refused load.
    RateLimited,
    /// The request could not be sent or its body could not be decoded.
    TransportError,
    /// The page came, but the markers it is read with are not valid selectors.
    BadMarkers,
}

/// What a `PageOutcome` holds, as sequences of characters.
pub ghost enum OutcomeView {
    Entries(Seq<ProductView>),
    Empty,
    RateLimited,
    TransportError,
    BadMarkers,
}

impl View for PageOutcome {
    type V = OutcomeView;

    open spec fn view(&self) -> OutcomeView {
        match self {
            PageOutcome::Entries(products) => OutcomeView::Entries(batch_view(products@)),
            PageOutcome::Empty => OutcomeView::Empty,
            PageOutcome::RateLimited => OutcomeView::RateLimited,
            PageOutcome::TransportError => OutcomeView::TransportError,
            PageOutcome::BadMarkers => OutcomeView::BadMarkers,
        }
    }
}

/// What the crawler is to do next.
#[derive(Debug, Clone, Copy, PartialEq, Eq, Structural)]
pub enum CrawlAction {
    /// Wait the courtesy delay, then request this page: the one after the page
    /// that was just read.
    NextPage(u64),
    /// Wait the short delay, then request this page again.
    ShortSleep(u64),
    /// Rest for the long delay, then request this page again.
    LongRest(u64),
    /// The sweep is over: hand the batch on.
    Finish,
}

impl CrawlAction {
    /// The seconds to wait before the action's request.
    pub open spec fn spec_pause_seconds(self) -> u64 {
        match self {
            CrawlAction::NextPage(_) => COURTESY_SECS,
            CrawlAction::ShortSleep(_) => SHORT_SLEEP_SECS,
            CrawlAction::LongRest(_) => LONG_REST_SECS,
            CrawlAction::Finish => 0,
        }
    }

    /// The page to request, unless the sweep is over.
    pub open spec fn spec_page(self) -> Option<u64> {
        match self {
            CrawlAction::NextPage(page) => Some(page),
            CrawlAction::ShortSleep(page) => Some(page),
            CrawlAction::LongRest(page) => Some(page),
            CrawlAction::Finish => None,
        }
    }

    /// The seconds to wait before the action's request.
    #[verifier::when_used_as_spec(spec_pause_seconds)]
    pub fn pause_seconds(self) -> (seconds: u64)
        ensures
            seconds == self.spec_pause_seconds(),
    {
        match self {
            CrawlAction::NextPage(_) => COURTESY_SECS,
            CrawlAction::ShortSleep(_) => SHORT_SLEEP_SECS,
            CrawlAction::LongRest(_) => LONG_REST_SECS,
            CrawlAction::Finish => 0,
        }
    }

    /// The page to request, unless the sweep is over.
    #[verifier::when_used_as_spec(spec_page)]
    pub fn page(self) -> (page: Option<u64>)
        ensures
            page == self.spec_page(),
    {
        match self {
            CrawlAction::NextPage(page) => Some(page),
            CrawlAction::ShortSleep(page) => Some(page),
            CrawlAction::LongRest(page) => Some(page),
            CrawlAction::Finish => None,
        }
    }
}

/// One sweep over the pages of the search results: the page to request, how
/// often in a row it was refused, whether the sweep is over, and the records
/// gathered so far.
#[derive(Debug)]
pub struct CrawlState {
    page: u64,
    retries: u64,
    done: bool,
    batch: Vec<Product>,
}

/// What a `CrawlState` holds, as numbers and sequences.
pub ghost struct CrawlView {
    pub page: nat,
    pub retries: nat,
    pub done: bool,
    pub batch: Seq<ProductView>,
}

impl View for CrawlState {
    type V = CrawlView;

    closed spec fn view(&self) -> CrawlView {
        CrawlView {
            page: self.page as nat,
            retries: self.retries as nat,
            done: self.done,
            batch: batch_view(self.batch@),
        }
    }
}

/// The state in which a sweep begins.
pub open spec fn initial() -> CrawlView {
    CrawlView { page: 1, retries: 0, done: false, batch: Seq::empty() }
}

/// The count of refusals after one more. It stops at the largest number the
/// counter holds, far beyond the limit from which on the crawler rests.
pub open spec fn bumped(retries: nat) -> nat {
    if retries < u64::MAX {
        retries + 1
    } else {
        retries
    }
}

/// The state after one outcome, and what the crawler is to do then.
///
/// Records are appended and the next page is asked for; an empty page, a
/// transport error and unusable markers end the sweep with the batch as it
/// is; a refusal is counted and the same page is asked for again, after the
/// long rest once the count has reached the limit. A sweep that is over stays
/// as it is, and so does one that has read the last page a number can name.
pub open spec fn step(state: CrawlView, outcome: OutcomeView) -> (CrawlView, CrawlAction) {
    if state.done {
        (state, CrawlAction::Finish)
    } else {
        match outcome {
            OutcomeView::Entries(products) => {
                let batch = state.batch + products;
                if state.page < u64::MAX {
                    (
                        CrawlView { page: state.page + 1, retries: 0, done: false, batch },
                        CrawlAction::NextPage((state.page + 1) as u64),
                    )
                } else {
                    (CrawlView { retries: 0, done: true, batch, ..state }, CrawlAction::Finish)
                }
            },
            OutcomeView::Empty => (
                CrawlView { retries: 0, done: true, ..state },
                CrawlAction::Finish,
            ),
            OutcomeView::RateLimited => {
                let retries = bumped(state.retries);
                (
                    CrawlView { retries, ..state },
                    if retries >= RETRY_LIMIT {
                        CrawlAction::LongRest(state.page as u64)
                    } else {
                        CrawlAction::ShortSleep(state.page as u64)
                    },
                )
            },
            OutcomeView::TransportError => (CrawlView { done: true, ..state }, CrawlAction::Finish),
            OutcomeView::BadMarkers => (CrawlView { done: true, ..state }, CrawlAction::Finish),
        }
    }
}

/// What a page's extraction comes to as an outcome.
pub open spec fn outcome_of_extraction(extraction: Option<ExtractionView>) -> OutcomeView {
    match extraction {
        Some(ExtractionView::Entries(products)) => OutcomeView::Entries(products),
        Some(ExtractionView::Empty) => OutcomeView::Empty,
        None => OutcomeView::BadMarkers,
    }
}

/// What a classified request comes to once its markup has been scanned.
pub open spec fn outcome_of_page(
    result: PageResultView,
    markers: MarkersView,
    site: Seq<char>,
) -> OutcomeView {
    match result {
        PageResultView::Markup(markup) => outcome_of_extraction(
            match scanned_blocks(markup, markers) {
                Some(blocks) => Some(extraction_of(blocks, site)),
                None => None,
            },
        ),
        PageResultView::RateLimited => OutcomeView::RateLimited,
        PageResultView::TransportError => OutcomeView::TransportError,
    }
}

impl PageOutcome {
    /// The outcome of a page whose markup was read.
    pub fn of_extraction(extraction: Option<ExtractionResult>) -> (outcome: PageOutcome)
        ensures
            outcome@ == outcome_of_extraction(
                match extraction {
                    Some(e) => Some(e@),
                    None => None,
                },
            ),
    {
        match extraction {
            Some(ExtractionResult::Entries(products)) => PageOutcome::Entries(products),
            Some(ExtractionResult::Empty) => PageOutcome::Empty,
            None => PageOutcome::BadMarkers,
        }
    }

    /// Reads the markup of a page that came, and passes a failure on.
    pub fn of_page(result: PageResult, config: &CrawlConfig) -> (outcome: PageOutcome)
        ensures
            outcome@ == outcome_of_page(result@, config.markers@, config.site@),
    {
        match result {
            PageResult::Markup(markup) => PageOutcome::of_extraction(
                extract(markup.as_str(), &config.markers, config.site.as_str()),
            ),
            PageResult::RateLimited => PageOutcome::RateLimited,
            PageResult::TransportError => PageOutcome::TransportError,
        }
    }
}

impl CrawlState {
    /// Begins a sweep: the first page is to be requested, nothing is gathered.
    pub fn start() -> (state: CrawlState)
        ensures
            state@ == initial(),
    {
        let state = CrawlState { page: 1, retries: 0, done: false, batch: Vec::new() };
        assert(state@.batch =~= Seq::<ProductView>::empty());
        state
    }

    /// Takes the outcome of the request for the current page and says what to
    /// do next.
    pub fn advance(&mut self, outcome: PageOutcome) -> (action: CrawlAction)
        ensures
            (final(self)@, action) == step(old(self)@, outcome@),
    {
        if self.done {
            return CrawlAction::Finish;
        }
        match outcome {
            PageOutcome::Entries(products) => {
                let mut products = products;
                let ghost before = self.batch@;
                let ghost added = products@;
                self.batch.append(&mut products);
                assert(batch_view(before + added) =~= batch_view(before) + batch_view(added));
                self.retries = 0;
                if self.page < u64::MAX {
                    self.page = self.page + 1;
                    CrawlAction::NextPage(self.page)
                } else {
                    self.done = true;
                    CrawlAction::Finish
                }
            },
            PageOutcome::Empty => {
                self.retries = 0;
                self.done = true;
                CrawlAction::Finish
            },
            PageOutcome::RateLimited => {
                if self.retries < u64::MAX {
                    self.retries = self.retries + 1;
                }
                if self.retries >= RETRY_LIMIT {
                    CrawlAction::LongRest(self.page)
                } else {
                    CrawlAction::ShortSleep(self.page)
                }
            },
            PageOutcome::TransportError => {
                self.done = true;
                CrawlAction::Finish
            },
            PageOutcome::BadMarkers => {
                self.done = true;
                CrawlAction::Finish
            },
        }
    }

    /// Takes the classified result of the request for the current page, reads
    /// the markup if there is any, and says what to do next.
    pub fn on_page(&mut self, result: PageResult, config: &CrawlConfig) -> (action: CrawlAction)
        ensures
            (final(self)@, action) == step(
                old(self)@,
                outcome_of_page(result@, config.markers@, config.site@),
            ),
    {
        let outcome = PageOutcome::of_page(result, config);
        self.advance(outcome)
    }

    /// The page to request.
    pub fn page(&self) -> (page: u64)
        ensures
            page == self@.page,
    {
        self.page
    }

    /// How often in a row the current page was refused.
    pub fn retries(&self) -> (retries: u64)
        ensures
            retries == self@.retries,
    {
        self.retries
    }

    /// Whether the sweep is over.
    pub fn is_done(&self) -> (done: bool)
        ensures
            done == self@.done,
    {
        self.done
    }

    /// How many records are gathered.
    pub fn gathered(&self) -> (count: usize)
        ensures
            count == self@.batch.len(),
    {
        self.batch.len()
    }

    /// Ends the sweep and hands the records out, in the order in which they
    /// were gathered.
    pub fn into_batch(self) -> (batch: Vec<Product>)
        ensures
            batch_view(batch@) == self@.batch,
    {
        self.batch
    }
}

} // verus!
