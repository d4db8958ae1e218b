//! A run of the pagination engine over one listing: the cursor together
//! with the records collected so far.
//!
//! The caller fetches the page that [`Run::next_url`] names and hands its
//! records to [`Run::accept`], until the run is over. A fetch that fails
//! ends the run through [`Run::fail`], which gives the error and nothing
//! else: the records collected so far are dropped with the run.

use vstd::prelude::*;
use crate::collection::{absorbed, distinct, keys, lemma_absorbed_grows, Collection, Slugged};
use crate::common::error::Error;
use crate::engine::{
    fetch_error, fresh, lemma_run_from_the_front, lemma_run_stays_stopped, page_url, resumed, run,
    step, Cursor, Decision, FetchFailure, FetchFailureView, Progress, RenderingShape, StopPolicy,
    SAFETY_CEILING,
};

verus! {

/// The rules of a run over a listing in the layout `shape` that reads the
/// listing to its end.
pub open spec fn policy_for(shape: RenderingShape) -> StopPolicy {
    StopPolicy {
        full_page_size: shape.full_page_size() as usize,
        ceiling: SAFETY_CEILING,
        max_pages: None,
    }
}

/// Whether the records of a listing in the layout `shape` are keyed by
/// slug: those of grids and lists are, search hits and diary rows keep
/// their order.
pub open spec fn keyed_shape(shape: RenderingShape) -> bool {
    shape is Grid || shape is List
}

/// Whether the records of a listing in the layout `shape` are keyed by slug.
pub fn is_keyed_shape(shape: RenderingShape) -> (keyed: bool)
    ensures
        keyed == keyed_shape(shape),
{
    match shape {
        RenderingShape::Grid => true,
        RenderingShape::List => true,
        _ => false,
    }
}

/// Where a run stands: how far it has come and what it has collected.
pub struct Standing<T> {
    pub progress: Progress,
    pub records: Seq<T>,
}

/// Where a run stands after the next page gave `batch`. A run that has
/// stopped stays as it is.
pub open spec fn after_page<T: Slugged>(
    policy: StopPolicy,
    keyed: bool,
    s: Standing<T>,
    batch: Seq<T>,
) -> Standing<T> {
    if s.progress.stopped is Some {
        s
    } else {
        Standing {
            progress: step(policy, s.progress, batch.len()),
            records: absorbed(keyed, s.records, batch),
        }
    }
}

/// How a run ends on a given sequence of fetches.
pub enum Played<T> {
    /// Every fetch that the run asked for succeeded.
    Standing(Standing<T>),
    /// The fetch of page `page` failed.
    Failed { page: nat, failure: FetchFailureView },
}

/// How a run that stands at `s` ends when its fetches give `pages`, in
/// order. The run takes pages until it stops or a fetch fails; a failure
/// ends it at once, and what comes after is not looked at.
pub open spec fn play<T: Slugged>(
    policy: StopPolicy,
    keyed: bool,
    s: Standing<T>,
    pages: Seq<Result<Seq<T>, FetchFailureView>>,
) -> Played<T>
    decreases pages.len(),
{
    if pages.len() == 0 || s.progress.stopped is Some {
        Played::Standing(s)
    } else {
        match pages[0] {
            Err(failure) => Played::Failed { page: s.progress.page + 1, failure },
            Ok(batch) => play(policy, keyed, after_page(policy, keyed, s, batch), pages.skip(1)),
        }
    }
}

/// The numbers of records that pages gave; a failed fetch counts as none.
pub open spec fn counts<T>(pages: Seq<Result<Seq<T>, FetchFailureView>>) -> Seq<nat> {
    Seq::new(
        pages.len(),
        |i: int|
            match pages[i] {
                Ok(batch) => batch.len(),
                Err(_) => 0,
            },
    )
}

/// Where every fetch succeeds, a run comes as far as the numbers of records
/// on its pages say, whatever the records are.
pub proof fn lemma_play_progress<T: Slugged>(
    policy: StopPolicy,
    keyed: bool,
    s: Standing<T>,
    pages: Seq<Result<Seq<T>, FetchFailureView>>,
)
    requires
        forall|i: int| 0 <= i < pages.len() ==> (#[trigger] pages[i]) is Ok,
    ensures
        play(policy, keyed, s, pages) is Standing,
        play(policy, keyed, s, pages)->Standing_0.progress == run(
            policy,
            s.progress,
            counts(pages),
        ),
    decreases pages.len(),
{
    if pages.len() > 0 {
        let rest = pages.skip(1);
        assert(counts(pages).skip(1) == counts(rest));
        lemma_run_from_the_front(policy, s.progress, counts(pages));
        if s.progress.stopped is Some {
            lemma_run_stays_stopped(policy, s.progress, counts(pages));
        } else {
            lemma_play_progress(policy, keyed, after_page(policy, keyed, s, pages[0]->Ok_0), rest);
        }
    }
}

/// A run never ends with fewer records than it began with, and no slug
/// leaves its collection, as long as every fetch succeeds.
pub proof fn lemma_play_grows<T: Slugged>(
    policy: StopPolicy,
    keyed: bool,
    s: Standing<T>,
    pages: Seq<Result<Seq<T>, FetchFailureView>>,
)
    requires
        keyed ==> distinct(s.records),
    ensures
        match play(policy, keyed, s, pages) {
            Played::Standing(end) => {
                &&& end.records.len() >= s.records.len()
                &&& keys(s.records).subset_of(keys(end.records))
                &&& keyed ==> distinct(end.records)
            },
            Played::Failed { .. } => true,
        },
    decreases pages.len(),
{
    if pages.len() > 0 && s.progress.stopped is None {
        if let Ok(batch) = pages[0] {
            lemma_absorbed_grows(keyed, s.records, batch);
            lemma_play_grows(policy, keyed, after_page(policy, keyed, s, batch), pages.skip(1));
        }
    }
}

/// A run that has taken in the first `k` pages and not stopped goes on with
/// the rest from where it stands.
pub proof fn lemma_play_split<T: Slugged>(
    policy: StopPolicy,
    keyed: bool,
    s: Standing<T>,
    pages: Seq<Result<Seq<T>, FetchFailureView>>,
    k: int,
)
    requires
        0 <= k <= pages.len(),
        play(policy, keyed, s, pages.take(k)) is Standing,
        play(policy, keyed, s, pages.take(k))->Standing_0.progress.stopped is None,
    ensures
        play(policy, keyed, s, pages) == play(
            policy,
            keyed,
            play(policy, keyed, s, pages.take(k))->Standing_0,
            pages.skip(k),
        ),
    decreases k,
{
    if k == 0 {
        assert(pages.skip(0) == pages);
    } else {
        let front = pages.take(k);
        assert(front.skip(1) == pages.skip(1).take(k - 1));
        if s.progress.stopped is None {
            if let Ok(batch) = pages[0] {
                let next = after_page(policy, keyed, s, batch);
                lemma_play_split(policy, keyed, next, pages.skip(1), k - 1);
                assert(pages.skip(1).skip(k - 1) == pages.skip(k));
            }
        }
    }
}

/// A failed fetch ends the run with that failure, whatever the pages before
/// it gave: where the run has taken in the first `k` pages without
/// stopping and the next fetch fails, the run fails with it, and the
/// records of the pages before are not part of how it ends.
pub proof fn lemma_failure_aborts<T: Slugged>(
    policy: StopPolicy,
    keyed: bool,
    s: Standing<T>,
    pages: Seq<Result<Seq<T>, FetchFailureView>>,
    k: int,
)
    requires
        0 <= k < pages.len(),
        play(policy, keyed, s, pages.take(k)) is Standing,
        play(policy, keyed, s, pages.take(k))->Standing_0.progress.stopped is None,
        pages[k] is Err,
    ensures
        play(policy, keyed, s, pages) == (Played::<T>::Failed {
            page: play(policy, keyed, s, pages.take(k))->Standing_0.progress.page + 1,
            failure: pages[k]->Err_0,
        }),
{
    lemma_play_split(policy, keyed, s, pages, k);
}

/// One listing being read: the cursor and the records collected so far.
#[derive(Debug)]
pub struct Run<T: Slugged> {
    pub cursor: Cursor,
    pub collected: Collection<T>,
}

/// How a run ended.
#[derive(Debug)]
pub enum Outcome<T: Slugged> {
    /// The run stopped by its rules; these are its records.
    Complete(Collection<T>),
    /// A fetch failed; the run's records are gone.
    Failed(Error),
    /// The run has taken in every page it was given and asks for more.
    Unfinished(Run<T>),
}

/// What the fetches of a run gave, as the run's rules see it.
pub open spec fn fetched<T>(pages: Seq<Result<Vec<T>, FetchFailure>>) -> Seq<
    Result<Seq<T>, FetchFailureView>,
> {
    Seq::new(
        pages.len(),
        |i: int|
            match pages[i] {
                Ok(batch) => Ok(batch@),
                Err(failure) => Err(failure@),
            },
    )
}

impl<T: Slugged> Run<T> {
    /// Where the run stands.
    pub open spec fn standing(&self) -> Standing<T> {
        Standing { progress: self.cursor@, records: self.collected.records() }
    }

    /// A run over the listing at `base_url` in the layout `shape`, from
    /// page 1 to the listing's end.
    pub fn start(base_url: &str, shape: RenderingShape) -> (run: Self)
        ensures
            run.cursor@ == fresh(policy_for(shape)),
            run.cursor.rules() == policy_for(shape),
            run.cursor.base() == base_url@,
            run.collected.is_keyed() == keyed_shape(shape),
            run.collected.records() == Seq::<T>::empty(),
    {
        let policy = StopPolicy {
            full_page_size: shape.expected_full_page_size(),
            ceiling: SAFETY_CEILING,
            max_pages: None,
        };
        Run {
            cursor: Cursor::start(base_url, policy),
            collected: Collection::new(is_keyed_shape(shape)),
        }
    }

    /// A run over the listing at `base_url` under the rules `policy`, from
    /// page 1 on.
    pub fn with_policy(base_url: &str, keyed: bool, policy: StopPolicy) -> (run: Self)
        ensures
            run.cursor@ == fresh(policy),
            run.cursor.rules() == policy,
            run.cursor.base() == base_url@,
            run.collected.is_keyed() == keyed,
            run.collected.records() == Seq::<T>::empty(),
    {
        Run { cursor: Cursor::start(base_url, policy), collected: Collection::new(keyed) }
    }

    /// A run that loads at most `max_pages` further pages of the listing at
    /// `base_url`, behind page `last_page`, where `already` records have
    /// been collected before. The run collects the new records only.
    pub fn load_more(
        base_url: &str,
        shape: RenderingShape,
        last_page: u32,
        already: usize,
        max_pages: u32,
    ) -> (run: Self)
        ensures
            run.cursor.rules() == (StopPolicy {
                max_pages: Some(max_pages),
                ..policy_for(shape)
            }),
            run.cursor@ == resumed(run.cursor.rules(), last_page as nat, already as nat),
            run.cursor.base() == base_url@,
            run.collected.is_keyed() == keyed_shape(shape),
            run.collected.records() == Seq::<T>::empty(),
    {
        let policy = StopPolicy {
            full_page_size: shape.expected_full_page_size(),
            ceiling: SAFETY_CEILING,
            max_pages: Some(max_pages),
        };
        Run {
            cursor: Cursor::resume(base_url, policy, last_page, already),
            collected: Collection::new(is_keyed_shape(shape)),
        }
    }

    /// The address of the page to fetch next, unless the run is over.
    pub fn next_url(&self) -> (url: Option<String>)
        ensures
            match url {
                Some(u) => self.cursor@.stopped is None && u@ == page_url(
                    self.cursor.base(),
                    self.cursor@.page + 1,
                ),
                None => self.cursor@.stopped is Some,
            },
    {
        self.cursor.next_url()
    }

    /// Takes in the records of the page that was fetched, and decides
    /// whether the run goes on. A run that is over stays as it is.
    pub fn accept(&mut self, batch: Vec<T>) -> (decision: Decision)
        ensures
            final(self).standing() == after_page(
                old(self).cursor.rules(),
                old(self).collected.is_keyed(),
                old(self).standing(),
                batch@,
            ),
            final(self).cursor.rules() == old(self).cursor.rules(),
            final(self).cursor.base() == old(self).cursor.base(),
            final(self).collected.is_keyed() == old(self).collected.is_keyed(),
            final(self).collected.records().len() >= old(self).collected.records().len(),
            keys(old(self).collected.records()).subset_of(keys(final(self).collected.records())),
            decision == match final(self).cursor@.stopped {
                Some(reason) => Decision::Stop(reason),
                None => Decision::Continue,
            },
    {
        match self.cursor.stopped() {
            Some(reason) => Decision::Stop(reason),
            None => {
                let count = batch.len();
                self.collected.absorb(batch);
                self.cursor.record_page(count)
            },
        }
    }

    /// Ends the run because the fetch of its next page failed. What comes
    /// back is the error alone; the records collected so far are dropped.
    pub fn fail(self, failure: FetchFailure) -> (error: Error)
        ensures
            error@ == fetch_error(page_url(self.cursor.base(), self.cursor@.page + 1), failure@),
    {
        let url = self.cursor.page_url_of(self.cursor.page() as u64 + 1);
        failure.into_error(url.as_str())
    }

    /// The records that the run collected.
    pub fn finish(self) -> (out: Collection<T>)
        ensures
            out == self.collected,
    {
        self.collected
    }

    /// Plays the run on the fetches `pages`, in order: each page's records
    /// are taken in until the run stops, a fetch fails or the pages are used
    /// up.
    #[verifier::loop_isolation(false)]
    pub fn replay(self, pages: Vec<Result<Vec<T>, FetchFailure>>) -> (out: Outcome<T>)
        ensures
            match play(
                self.cursor.rules(),
                self.collected.is_keyed(),
                self.standing(),
                fetched(pages@),
            ) {
                Played::Failed { page, failure } => out matches Outcome::Failed(e) && e@
                    == fetch_error(page_url(self.cursor.base(), page), failure),
                Played::Standing(end) => if end.progress.stopped is Some {
                    out matches Outcome::Complete(c) && c.records() == end.records && c.is_keyed()
                        == self.collected.is_keyed()
                } else {
                    out matches Outcome::Unfinished(r) && r.standing() == end && r.cursor.rules()
                        == self.cursor.rules() && r.cursor.base() == self.cursor.base()
                },
            },
    {
        let ghost policy = self.cursor.rules();
        let ghost keyed = self.collected.is_keyed();
        let ghost base = self.cursor.base();
        let ghost start = self.standing();
        let ghost all = fetched(pages@);
        let ghost raw = pages@;
        let mut run = self;
        proof {
            assert(all.skip(0) == all);
        }
        for page in it: pages.into_iter()
            invariant
                it.seq() == raw,
                all == fetched(raw),
                run.cursor.rules() == policy,
                run.cursor.base() == base,
                run.collected.is_keyed() == keyed,
                play(policy, keyed, run.standing(), all.skip(it.index())) == play(
                    policy,
                    keyed,
                    start,
                    all,
                ),
        {
            let ghost rest = all.skip(it.index());
            proof {
                assert(rest.skip(1) == all.skip(it.index() + 1));
            }
            if run.cursor.is_done() {
                return Outcome::Complete(run.collected);
            }
            match page {
                Err(failure) => {
                    return Outcome::Failed(run.fail(failure));
                },
                Ok(batch) => {
                    run.accept(batch);
                },
            }
        }
        if run.cursor.is_done() {
            Outcome::Complete(run.collected)
        } else {
            Outcome::Unfinished(run)
        }
    }
}

} // verus!
