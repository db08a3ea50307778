use crate::product::{batch_view, text_view, Product, ProductView};
use crate::schedule::CalendarDate;
use vstd::prelude::*;

verus! {

/// The values of one row of the store's product table, column by column.
#[derive(Debug, Clone, PartialEq, Eq)]
pub struct InsertRow {
    pub name: String,
    pub price: String,
    pub old_price: Option<String>,
    pub link: String,
    /// The local day on which the row is written.
    pub scraped_at: CalendarDate,
}

/// What an `InsertRow` holds: the record and the day.
pub ghost struct RowView {
    pub product: ProductView,
    pub scraped_at: CalendarDate,
}

impl View for InsertRow {
    type V = RowView;

    open spec fn view(&self) -> RowView {
        RowView {
            product: ProductView {
                name: self.name@,
                price: self.price@,
                old_price: text_view(self.old_price),
                link: self.link@,
            },
            scraped_at: self.scraped_at,
        }
    }
}

/// The writing of one batch to the store, row by row: how many rows were
/// tried and whether the last of them failed.
#[derive(Debug)]
pub struct PersistRun {
    rows: Vec<Product>,
    attempted: usize,
    failed: bool,
}

/// What a `PersistRun` holds, as numbers and sequences.
pub ghost struct PersistView {
    pub rows: Seq<ProductView>,
    pub attempted: nat,
    pub failed: bool,
}

impl View for PersistRun {
    type V = PersistView;

    closed spec fn view(&self) -> PersistView {
        PersistView {
            rows: batch_view(self.rows@),
            attempted: self.attempted as nat,
            failed: self.failed,
        }
    }
}

impl PersistView {
    /// The run before its first insert.
    pub open spec fn fresh(rows: Seq<ProductView>) -> PersistView {
        PersistView { rows, attempted: 0, failed: false }
    }

    /// No more rows were tried than there are, and a failure is the failure
    /// of a row that was tried.
    pub open spec fn inv(self) -> bool {
        self.attempted <= self.rows.len() && (self.failed ==> self.attempted >= 1)
    }

    /// The record to insert next: the first that was not tried, unless an
    /// insert failed or none is left.
    pub open spec fn pending(self) -> Option<ProductView> {
        if !self.failed && self.attempted < self.rows.len() {
            Some(self.rows[self.attempted as int])
        } else {
            None
        }
    }

    /// The run after the pending insert succeeded or failed. A run without a
    /// pending insert stays as it is.
    pub open spec fn recorded(self, inserted: bool) -> PersistView {
        if self.pending() is Some {
            PersistView { attempted: self.attempted + 1, failed: !inserted, ..self }
        } else {
            self
        }
    }

    /// The number of rows that stand in the store: those that were tried, but
    /// for the one that failed.
    pub open spec fn committed(self) -> nat {
        if self.failed && self.attempted >= 1 {
            (self.attempted - 1) as nat
        } else {
            self.attempted
        }
    }

    /// The run after a series of inserts with these results, in order.
    pub open spec fn after(self, results: Seq<bool>) -> PersistView
        decreases results.len(),
    {
        if results.len() == 0 {
            self
        } else {
            self.recorded(results.first()).after(results.drop_first())
        }
    }
}

/// The number of successes with which a series of results begins.
pub open spec fn leading_successes(results: Seq<bool>) -> nat
    decreases results.len(),
{
    if results.len() == 0 || !results.first() {
        0
    } else {
        1 + leading_successes(results.drop_first())
    }
}

/// The smaller of two numbers.
pub open spec fn least(a: nat, b: nat) -> nat {
    if a <= b {
        a
    } else {
        b
    }
}

/// A run that has failed, or has no row left, is not changed by further
/// results.
pub proof fn lemma_halted_run_stays(run: PersistView, results: Seq<bool>)
    requires
        run.pending() is None,
    ensures
        run.after(results) == run,
    decreases results.len(),
{
    if results.len() > 0 {
        lemma_halted_run_stays(run, results.drop_first());
    }
}

/// Writing stops at the first failure. With `k` the number of successes with
/// which the results begin, and `room` the number of rows not yet tried: the
/// run commits the first `k` of those rows, or all of them if there are
/// fewer; it has failed if and only if a failure followed those successes
/// while a row was left for it; and it has tried the failed row and none
/// after it.
pub proof fn lemma_writing_stops_at_first_failure(run: PersistView, results: Seq<bool>)
    requires
        run.inv(),
        !run.failed,
    ensures
        run.after(results).inv(),
        run.after(results).rows == run.rows,
        run.after(results).committed() == run.attempted + least(
            leading_successes(results),
            (run.rows.len() - run.attempted) as nat,
        ),
        run.after(results).failed <==> leading_successes(results) < least(
            results.len(),
            (run.rows.len() - run.attempted) as nat,
        ),
        run.after(results).attempted == run.after(results).committed() + if run.after(
            results,
        ).failed {
            1nat
        } else {
            0nat
        },
    decreases results.len(),
{
    if results.len() > 0 {
        let next = run.recorded(results.first());
        if run.pending() is None {
            lemma_halted_run_stays(run, results);
        } else if results.first() {
            lemma_writing_stops_at_first_failure(next, results.drop_first());
        } else {
            lemma_halted_run_stays(next, results.drop_first());
        }
    }
}

impl PersistRun {
    /// Takes a batch to write, with no row tried yet.
    pub fn new(batch: Vec<Product>) -> (run: PersistRun)
        ensures
            run@ == PersistView::fresh(batch_view(batch@)),
    {
        PersistRun { rows: batch, attempted: 0, failed: false }
    }

    /// The row to insert next, written on the day `today`; `None` once an
    /// insert has failed or every row was tried.
    pub fn next_row(&self, today: CalendarDate) -> (row: Option<InsertRow>)
        ensures
            match row {
                Some(r) => self@.pending() == Some(r@.product) && r@.scraped_at == today,
                None => self@.pending() is None,
            },
    {
        if self.failed || self.attempted >= self.rows.len() {
            return None;
        }
        let product = &self.rows[self.attempted];
        let old_price = match &product.old_price {
            Some(price) => Some(price.clone()),
            None => None,
        };
        Some(
            InsertRow {
                name: product.name.clone(),
                price: product.price.clone(),
                old_price,
                link: product.link.clone(),
                scraped_at: today,
            },
        )
    }

    /// Takes the result of the pending insert. After a failure no further row
    /// is handed out; the rows written before it stay written.
    pub fn record(&mut self, inserted: bool)
        ensures
            final(self)@ == old(self)@.recorded(inserted),
    {
        if !self.failed && self.attempted < self.rows.len() {
            self.attempted = self.attempted + 1;
            self.failed = !inserted;
        }
    }

    /// The number of rows that stand in the store.
    pub fn committed(&self) -> (count: usize)
        ensures
            count == self@.committed(),
    {
        if self.failed && self.attempted >= 1 {
            self.attempted - 1
        } else {
            self.attempted
        }
    }

    /// The number of rows for which an insert was tried.
    pub fn attempted(&self) -> (count: usize)
        ensures
            count == self@.attempted,
    {
        self.attempted
    }

    /// Whether an insert has failed.
    pub fn has_failed(&self) -> (failed: bool)
        ensures
            failed == self@.failed,
    {
        self.failed
    }

    /// The number of rows in the batch.
    pub fn len(&self) -> (count: usize)
        ensures
            count == self@.rows.len(),
    {
        self.rows.len()
    }
}

} // verus!
