use crate::crawl::{step, CrawlAction, CrawlView, OutcomeView, RETRY_LIMIT};
use crate::product::ProductView;
use vstd::prelude::*;

verus! {

/// The state after the outcomes of a run of requests, taken in order.
pub open spec fn sweep(state: CrawlView, outcomes: Seq<OutcomeView>) -> CrawlView
    decreases outcomes.len(),
{
    if outcomes.len() == 0 {
        state
    } else {
        step(sweep(state, outcomes.drop_last()), outcomes.last()).0
    }
}

/// A run of `n` refusals.
pub open spec fn refusals(n: nat) -> Seq<OutcomeView> {
    Seq::new(n, |i: int| OutcomeView::RateLimited)
}

/// A run of refusals changes nothing but the count of refusals, which it
/// raises by its length.
pub proof fn lemma_refusals_are_counted(state: CrawlView, n: nat)
    requires
        !state.done,
        state.retries + n <= u64::MAX,
    ensures
        sweep(state, refusals(n)) == (CrawlView { retries: state.retries + n, ..state }),
    decreases n,
{
    if n > 0 {
        let shorter = (n - 1) as nat;
        assert(refusals(n).drop_last() =~= refusals(shorter));
        assert(refusals(n).last() == OutcomeView::RateLimited);
        lemma_refusals_are_counted(state, shorter);
    }
}

/// From a fresh page on, each of the first nine refusals in a row sends the
/// crawler to the short sleep and the tenth sends it to the long rest, each
/// time to ask for the same page again; after the ten the sweep still stands
/// at that page, with what it had gathered.
pub proof fn lemma_tenth_refusal_rests(state: CrawlView)
    requires
        !state.done,
        state.retries == 0,
    ensures
        forall|n: nat|
            n < 9 ==> step(#[trigger] sweep(state, refusals(n)), OutcomeView::RateLimited).1
                == CrawlAction::ShortSleep(state.page as u64),
        step(sweep(state, refusals(9)), OutcomeView::RateLimited).1 == CrawlAction::LongRest(
            state.page as u64,
        ),
        sweep(state, refusals(RETRY_LIMIT as nat)) == (CrawlView {
            retries: RETRY_LIMIT as nat,
            ..state
        }),
{
    assert forall|n: nat| n < 9 implies step(
        #[trigger] sweep(state, refusals(n)),
        OutcomeView::RateLimited,
    ).1 == CrawlAction::ShortSleep(state.page as u64) by {
        lemma_refusals_are_counted(state, n);
    }
    lemma_refusals_are_counted(state, 9);
    lemma_refusals_are_counted(state, RETRY_LIMIT as nat);
}

/// Once the count of refusals has reached the limit, every further refusal
/// sends the crawler to the long rest, for the same page.
pub proof fn lemma_rest_goes_on(state: CrawlView)
    requires
        !state.done,
        state.retries >= RETRY_LIMIT,
    ensures
        step(state, OutcomeView::RateLimited).1 == CrawlAction::LongRest(state.page as u64),
        step(state, OutcomeView::RateLimited).0.retries >= RETRY_LIMIT,
        step(state, OutcomeView::RateLimited).0.page == state.page,
{
}

/// A page that was read sets the count of refusals back to zero, whether it
/// held listings or not.
pub proof fn lemma_success_resets_retries(state: CrawlView, products: Seq<ProductView>)
    requires
        !state.done,
    ensures
        step(state, OutcomeView::Entries(products)).0.retries == 0,
        step(state, OutcomeView::Empty).0.retries == 0,
{
}

/// A page without listings ends the sweep, with the action to finish and the
/// batch as it was.
pub proof fn lemma_empty_page_ends_sweep(state: CrawlView)
    ensures
        step(state, OutcomeView::Empty).0.done,
        step(state, OutcomeView::Empty).1 == CrawlAction::Finish,
        step(state, OutcomeView::Empty).0.batch == state.batch,
{
}

/// A transport error after any run of outcomes ends the sweep and leaves the
/// batch as that run had made it: nothing gathered from the earlier pages is
/// lost.
pub proof fn lemma_transport_error_keeps_batch(state: CrawlView, earlier: Seq<OutcomeView>)
    ensures
        sweep(state, earlier.push(OutcomeView::TransportError)).batch == sweep(
            state,
            earlier,
        ).batch,
        sweep(state, earlier.push(OutcomeView::TransportError)).done,
        step(sweep(state, earlier), OutcomeView::TransportError).1 == CrawlAction::Finish,
{
    let run = earlier.push(OutcomeView::TransportError);
    assert(run.drop_last() =~= earlier);
    assert(run.last() == OutcomeView::TransportError);
}

/// No outcome takes a record away or moves one: the batch before a step is
/// the beginning of the batch after it.
pub proof fn lemma_step_only_adds(state: CrawlView, outcome: OutcomeView)
    ensures
        state.batch.is_prefix_of(step(state, outcome).0.batch),
{
    let after = step(state, outcome).0.batch;
    assert(after.subrange(0, state.batch.len() as int) =~= state.batch);
}

/// No run of outcomes takes a record away or moves one.
pub proof fn lemma_sweep_only_adds(state: CrawlView, outcomes: Seq<OutcomeView>)
    ensures
        state.batch.is_prefix_of(sweep(state, outcomes).batch),
    decreases outcomes.len(),
{
    if outcomes.len() == 0 {
        assert(state.batch.subrange(0, state.batch.len() as int) =~= state.batch);
    } else {
        let before = sweep(state, outcomes.drop_last());
        lemma_sweep_only_adds(state, outcomes.drop_last());
        lemma_step_only_adds(before, outcomes.last());
        let after = sweep(state, outcomes).batch;
        assert(after.subrange(0, state.batch.len() as int) =~= before.batch.subrange(
            0,
            state.batch.len() as int,
        ));
    }
}

/// Pages are asked for in order: a step asks for the page it stood at or for
/// the one after it, and the sweep never goes back.
pub proof fn lemma_pages_in_order(state: CrawlView, outcome: OutcomeView)
    requires
        1 <= state.page <= u64::MAX,
    ensures
        state.page <= step(state, outcome).0.page <= state.page + 1,
        step(state, outcome).0.page <= u64::MAX,
        match step(state, outcome).1 {
            CrawlAction::NextPage(page) => page == state.page + 1 && step(state, outcome).0.page
                == page,
            CrawlAction::ShortSleep(page) => page == state.page && step(state, outcome).0.page
                == page,
            CrawlAction::LongRest(page) => page == state.page && step(state, outcome).0.page
                == page,
            CrawlAction::Finish => step(state, outcome).0.done,
        },
{
}

/// A sweep that is over stays as it is, whatever comes in.
pub proof fn lemma_done_is_final(state: CrawlView, outcome: OutcomeView)
    requires
        state.done,
    ensures
        step(state, outcome) == (state, CrawlAction::Finish),
{
}

/// The records that a run of outcomes brings, page after page.
pub open spec fn gathered(outcomes: Seq<OutcomeView>) -> Seq<ProductView>
    decreases outcomes.len(),
{
    if outcomes.len() == 0 {
        Seq::empty()
    } else {
        gathered(outcomes.drop_last()) + match outcomes.last() {
            OutcomeView::Entries(products) => products,
            _ => Seq::empty(),
        }
    }
}

/// The number of pages with listings in a run of outcomes.
pub open spec fn pages_read(outcomes: Seq<OutcomeView>) -> nat
    decreases outcomes.len(),
{
    if outcomes.len() == 0 {
        0
    } else {
        pages_read(outcomes.drop_last()) + if outcomes.last() is Entries {
            1nat
        } else {
            0nat
        }
    }
}

/// While pages with listings and refusals come in, the sweep goes on: it has
/// gathered the records of those pages behind what it had, in the order in
/// which the pages came, and stands as many pages further as it has read.
pub proof fn lemma_sweep_gathers_in_order(state: CrawlView, outcomes: Seq<OutcomeView>)
    requires
        !state.done,
        forall|i: int|
            0 <= i < outcomes.len() ==> (#[trigger] outcomes[i] is Entries
                || outcomes[i] is RateLimited),
        state.page + pages_read(outcomes) <= u64::MAX,
    ensures
        !sweep(state, outcomes).done,
        sweep(state, outcomes).batch == state.batch + gathered(outcomes),
        sweep(state, outcomes).page == state.page + pages_read(outcomes),
    decreases outcomes.len(),
{
    if outcomes.len() == 0 {
        assert(state.batch + gathered(outcomes) =~= state.batch);
    } else {
        let earlier = outcomes.drop_last();
        assert forall|i: int| 0 <= i < earlier.len() implies (#[trigger] earlier[i] is Entries
            || earlier[i] is RateLimited) by {
            assert(earlier[i] == outcomes[i]);
        }
        lemma_sweep_gathers_in_order(state, earlier);
        assert(outcomes[outcomes.len() - 1] is Entries || outcomes[outcomes.len() - 1]
            is RateLimited);
        assert(sweep(state, outcomes).batch =~= state.batch + gathered(outcomes));
    }
}

} // verus!
