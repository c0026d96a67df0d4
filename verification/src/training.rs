//! The gradient-descent epoch schedule.
//!
//! Training runs a fixed number of epochs; each epoch makes a forward pass,
//! tests the intermediate shapes, and only then updates the parameters.
//! `EpochLoop` owns those decisions: which epoch runs next, what happens when
//! a shape test fails, and when the run counts as finished. The caller does
//! the numeric work of an epoch and reports back whether the shapes agreed.
//! A shape disagreement halts the loop at the epoch where it is detected;
//! there is no convergence test, early stopping, or rate decay.

use vstd::prelude::*;

use crate::error::RegressionError;
use crate::shape::{mul_shape, train_inputs_ok, weights_shape, MatShape};
use crate::text::{append_decimal, decimal_of};

verus! {

/// The state a run of the schedule reaches after a sequence of epoch
/// reports (`true` = shapes agreed, `false` = shape mismatch): how many
/// epochs completed their update, and whether the run has halted.
pub open spec fn run_outcome(reports: Seq<bool>) -> (int, bool)
    decreases reports.len(),
{
    if reports.len() == 0 {
        (0int, false)
    } else {
        let prev = run_outcome(reports.drop_last());
        if prev.1 {
            prev
        } else if reports.last() {
            (prev.0 + 1, false)
        } else {
            (prev.0, true)
        }
    }
}

/// Appending one report advances the outcome by exactly one step.
proof fn lemma_run_outcome_push(reports: Seq<bool>, report: bool)
    ensures
        run_outcome(reports.push(report)) == ({
            let prev = run_outcome(reports);
            if prev.1 {
                prev
            } else if report {
                (prev.0 + 1, false)
            } else {
                (prev.0, true)
            }
        }),
{
    assert(reports.push(report).drop_last() =~= reports);
    assert(reports.push(report).last() == report);
}

/// Law: a run whose every epoch kept its shapes halts nowhere and completes
/// one update per report.
pub proof fn lemma_clean_run_completes(reports: Seq<bool>)
    requires
        forall|i: int| 0 <= i < reports.len() ==> reports[i],
    ensures
        run_outcome(reports) == (reports.len() as int, false),
    decreases reports.len(),
{
    if reports.len() > 0 {
        lemma_clean_run_completes(reports.drop_last());
    }
}

/// Law: the first shape mismatch halts the run at the epoch where it is
/// detected. Whatever is reported afterwards, exactly the epochs before the
/// mismatch keep their updates.
pub proof fn lemma_mismatch_halts_run(reports: Seq<bool>, k: int)
    requires
        0 <= k < reports.len(),
        !reports[k],
        forall|i: int| 0 <= i < k ==> reports[i],
    ensures
        run_outcome(reports) == (k, true),
    decreases reports.len(),
{
    if reports.len() - 1 == k {
        lemma_clean_run_completes(reports.drop_last());
    } else {
        lemma_mismatch_halts_run(reports.drop_last(), k);
    }
}

/// Law: on a dataset that passed the entry checks, every epoch's forward
/// pass lands exactly on the target's shape, so every shape report is
/// favourable and the run completes its whole budget without halting.
pub proof fn lemma_valid_dataset_completes(x: MatShape, y: MatShape, reports: Seq<bool>)
    requires
        train_inputs_ok(x, y),
        forall|i: int|
            0 <= i < reports.len() ==> reports[i] == (mul_shape(x, weights_shape(x.cols)) == y),
    ensures
        run_outcome(reports) == (reports.len() as int, false),
{
    crate::shape::lemma_valid_inputs_keep_shapes(x, y);
    lemma_clean_run_completes(reports);
}

/// Drives one training run: schedules epochs `0, 1, ...` up to a fixed
/// budget, and halts for good at the first reported shape mismatch.
pub struct EpochLoop {
    epochs: usize,
    completed: usize,
    halted: bool,
    history: Ghost<Seq<bool>>,
}

impl EpochLoop {
    /// The fixed number of epochs this run was configured with.
    pub closed spec fn epoch_budget(self) -> usize {
        self.epochs
    }

    /// How many epochs have completed their parameter update.
    pub closed spec fn completed_epochs(self) -> usize {
        self.completed
    }

    /// Whether a shape mismatch has halted the run.
    pub closed spec fn is_halted(self) -> bool {
        self.halted
    }

    /// Every shape report this run has received, in order.
    pub closed spec fn history(self) -> Seq<bool> {
        self.history@
    }

    /// The state is exactly what its report history dictates, and never
    /// counts more epochs than the budget.
    pub open spec fn wf(self) -> bool {
        &&& self.completed_epochs() <= self.epoch_budget()
        &&& run_outcome(self.history()) == (self.completed_epochs() as int, self.is_halted())
    }

    /// The epoch that should run next: `None` once the run has halted or the
    /// budget is spent.
    pub open spec fn spec_next_epoch(self) -> Option<usize> {
        if !self.is_halted() && self.completed_epochs() < self.epoch_budget() {
            Some(self.completed_epochs())
        } else {
            None
        }
    }

    /// Starts a run over the full epoch budget.
    pub fn new(epochs: usize) -> (r: EpochLoop)
        requires
            epochs >= 1,
        ensures
            r.wf(),
            r.epoch_budget() == epochs,
            r.completed_epochs() == 0,
            !r.is_halted(),
            r.history() == Seq::<bool>::empty(),
    {
        EpochLoop { epochs, completed: 0, halted: false, history: Ghost(Seq::empty()) }
    }

    /// The index of the epoch to run next, or `None` when the run is over.
    pub fn next_epoch(&self) -> (r: Option<usize>)
        ensures
            r == self.spec_next_epoch(),
    {
        if !self.halted && self.completed < self.epochs {
            Some(self.completed)
        } else {
            None
        }
    }

    /// Records the outcome of the scheduled epoch's forward pass. Agreeing
    /// shapes complete the epoch's update; a mismatch halts the run where it
    /// stands, completing nothing further.
    pub fn report_epoch(&mut self, shapes_match: bool) -> (r: Result<(), RegressionError>)
        requires
            old(self).wf(),
            old(self).spec_next_epoch() is Some,
        ensures
            final(self).wf(),
            final(self).epoch_budget() == old(self).epoch_budget(),
            final(self).history() == old(self).history().push(shapes_match),
            shapes_match ==> {
                &&& r is Ok
                &&& final(self).completed_epochs() == old(self).completed_epochs() + 1
                &&& !final(self).is_halted()
            },
            !shapes_match ==> {
                &&& r == Err::<(), RegressionError>(RegressionError::ShapeMismatch)
                &&& final(self).completed_epochs() == old(self).completed_epochs()
                &&& final(self).is_halted()
            },
    {
        proof {
            lemma_run_outcome_push(self.history@, shapes_match);
        }
        self.history = Ghost(self.history@.push(shapes_match));
        if shapes_match {
            self.completed = self.completed + 1;
            Ok(())
        } else {
            self.halted = true;
            Err(RegressionError::ShapeMismatch)
        }
    }

    /// Whether the run completed its whole budget without halting; only then
    /// may the model be marked trained.
    pub fn finished(&self) -> (r: bool)
        ensures
            r == (self.completed_epochs() == self.epoch_budget() && !self.is_halted()),
    {
        self.completed == self.epochs && !self.halted
    }

    /// Whether a shape mismatch has halted the run.
    pub fn halted(&self) -> (r: bool)
        ensures
            r == self.is_halted(),
    {
        self.halted
    }

    /// How many epochs have completed their update so far.
    pub fn completed(&self) -> (r: usize)
        ensures
            r == self.completed_epochs(),
    {
        self.completed
    }

    /// The fixed number of epochs this run was configured with.
    pub fn budget(&self) -> (r: usize)
        ensures
            r == self.epoch_budget(),
    {
        self.epochs
    }
}

/// Law: a halted run never schedules another epoch; training cannot proceed
/// past the point where the mismatch was detected.
pub proof fn lemma_halted_schedules_nothing(ctl: EpochLoop)
    requires
        ctl.is_halted(),
    ensures
        ctl.spec_next_epoch() is None,
{
}

/// The diagnostic label of an epoch: `Epoch: ` followed by the epoch index
/// in decimal.
pub fn epoch_line(epoch: usize) -> (r: String)
    ensures
        r@ == "Epoch: "@ + decimal_of(epoch as nat),
{
    let mut s = "Epoch: ".to_owned();
    append_decimal(&mut s, epoch);
    s
}

/// Decides the per-epoch diagnostic line: the text is passed through exactly
/// when `verbose` is set, and dropped otherwise. Emitting the returned line
/// is the caller's concern; no computed value depends on it.
pub fn vprint(text: String, verbose: &bool) -> (r: Option<String>)
    ensures
        r is Some <==> *verbose,
        r matches Some(t) ==> t@ == text@,
{
    if *verbose {
        Some(text)
    } else {
        None
    }
}

} // verus!
