use vstd::prelude::*;
use vstd::arithmetic::div_mod::{lemma_div_nonincreasing, lemma_div_of0};

use crate::error::BenchmarkError;
use crate::types::{is_summary_of, BenchmarkResult, ModelSummary};

verus! {

/// The index of the winning summary: among the entries with a nonzero
/// success count, the first one whose average throughput is maximal; `None`
/// when the sequence is empty or nothing succeeded.
pub open spec fn winner_index(ss: Seq<ModelSummary>) -> Option<int>
    decreases ss.len(),
{
    if ss.len() == 0 {
        None
    } else {
        let rest = winner_index(ss.drop_last());
        let last = ss.len() - 1;
        if ss[last].successful_tests == 0 {
            rest
        } else {
            match rest {
                None => Some(last),
                Some(w) => if ss[last].avg_tokens_per_second_milli
                    > ss[w].avg_tokens_per_second_milli {
                    Some(last)
                } else {
                    Some(w)
                },
            }
        }
    }
}

/// What `winner_index` picks: nothing exactly when no entry has a success,
/// and otherwise the first maximum by average throughput.
pub proof fn lemma_winner_index_props(ss: Seq<ModelSummary>)
    ensures
        (winner_index(ss) is None) <==> (forall|i: int|
            0 <= i < ss.len() ==> #[trigger] ss[i].successful_tests == 0),
        winner_index(ss) matches Some(w) ==> {
            &&& 0 <= w < ss.len()
            &&& ss[w].successful_tests > 0
            &&& forall|j: int|
                0 <= j < ss.len() && #[trigger] ss[j].successful_tests > 0
                    ==> ss[j].avg_tokens_per_second_milli <= ss[w].avg_tokens_per_second_milli
            &&& forall|j: int|
                0 <= j < w && #[trigger] ss[j].successful_tests > 0
                    ==> ss[j].avg_tokens_per_second_milli < ss[w].avg_tokens_per_second_milli
        },
    decreases ss.len(),
{
    if ss.len() > 0 {
        lemma_winner_index_props(ss.drop_last());
        assert(forall|j: int| 0 <= j < ss.len() - 1 ==> ss.drop_last()[j] == ss[j]);
    }
}

/// Picks the winner among the summaries: the first entry with maximal
/// average throughput among those with a nonzero success rate, or `None`
/// when the input is empty or every entry has zero successes.
pub fn calculate_winner(summaries: &Vec<ModelSummary>) -> (r: Option<usize>)
    ensures
        r is None <==> winner_index(summaries@) is None,
        r matches Some(i) ==> winner_index(summaries@) == Some(i as int),
        r is None <==> (forall|i: int|
            0 <= i < summaries@.len() ==> #[trigger] summaries@[i].successful_tests == 0),
        r matches Some(i) ==> {
            &&& i < summaries@.len()
            &&& summaries@[i as int].successful_tests > 0
            &&& forall|j: int|
                0 <= j < summaries@.len() && #[trigger] summaries@[j].successful_tests > 0
                    ==> summaries@[j].avg_tokens_per_second_milli
                    <= summaries@[i as int].avg_tokens_per_second_milli
            &&& forall|j: int|
                0 <= j < i && #[trigger] summaries@[j].successful_tests > 0
                    ==> summaries@[j].avg_tokens_per_second_milli
                    < summaries@[i as int].avg_tokens_per_second_milli
        },
{
    let ghost ss = summaries@;
    let n = summaries.len();
    let mut best: Option<usize> = None;
    let mut best_avg: u64 = 0;
    let mut i: usize = 0;
    while i < n
        invariant
            n == ss.len(),
            ss == summaries@,
            0 <= i <= n,
            best is None <==> winner_index(ss.take(i as int)) is None,
            best matches Some(b) ==> b < i && winner_index(ss.take(i as int)) == Some(b as int)
                && best_avg == ss[b as int].avg_tokens_per_second_milli,
        decreases n - i,
    {
        proof {
            assert(ss.take(i as int + 1).drop_last() =~= ss.take(i as int));
            assert(ss.take(i as int + 1).last() == ss[i as int]);
        }
        let s = &summaries[i];
        if s.successful_tests > 0 {
            let better = match best {
                None => true,
                Some(_) => s.avg_tokens_per_second_milli > best_avg,
            };
            if better {
                best = Some(i);
                best_avg = s.avg_tokens_per_second_milli;
            }
        }
        i += 1;
    }
    proof {
        assert(ss.take(n as int) =~= ss);
        lemma_winner_index_props(ss);
    }
    best
}

/// The winner of two summaries with distinct positive average throughputs
/// does not depend on the order in which they are listed: either way, the
/// faster one is picked.
pub proof fn lemma_winner_order_independent_pair(a: ModelSummary, b: ModelSummary)
    requires
        a.successful_tests > 0,
        b.successful_tests > 0,
        a.avg_tokens_per_second_milli != b.avg_tokens_per_second_milli,
    ensures
        a.avg_tokens_per_second_milli > b.avg_tokens_per_second_milli ==> winner_index(seq![a, b])
            == Some(0int) && winner_index(seq![b, a]) == Some(1int),
        b.avg_tokens_per_second_milli > a.avg_tokens_per_second_milli ==> winner_index(seq![a, b])
            == Some(1int) && winner_index(seq![b, a]) == Some(0int),
{
    assert(seq![a, b].drop_last() =~= seq![a]);
    assert(seq![b, a].drop_last() =~= seq![b]);
    assert(seq![a].drop_last() =~= Seq::<ModelSummary>::empty());
    assert(seq![b].drop_last() =~= Seq::<ModelSummary>::empty());
    assert(winner_index(Seq::<ModelSummary>::empty()) is None);
    assert(winner_index(seq![a]) == Some(0int));
    assert(winner_index(seq![b]) == Some(0int));
}

/// The speed advantage of the winner over `o_avg`, in thousandths of a
/// percent, rounded toward zero; zero when the base is zero.
pub open spec fn speed_diff_milli_pct(w_avg: int, o_avg: int) -> int {
    if o_avg == 0 {
        0
    } else if w_avg >= o_avg {
        ((w_avg - o_avg) * 100_000) / o_avg
    } else {
        -(((o_avg - w_avg) * 100_000) / o_avg)
    }
}

/// How much lower the winner's time to first token is than `o_ttft`, in
/// thousandths of a percent, rounded toward zero; zero when the base is
/// zero. Positive means the winner is faster to first token.
pub open spec fn ttft_diff_milli_pct(w_ttft: int, o_ttft: int) -> int {
    if o_ttft == 0 {
        0
    } else if o_ttft >= w_ttft {
        ((o_ttft - w_ttft) * 100_000) / o_ttft
    } else {
        -(((w_ttft - o_ttft) * 100_000) / o_ttft)
    }
}

/// The relative performance of the winner against another summary: the
/// throughput difference and the time-to-first-token difference, both in
/// thousandths of a percent of the other summary's value (20_000 stands
/// for 20%). Either may be negative; a zero base yields zero.
pub fn calculate_performance_difference(winner: &ModelSummary, other: &ModelSummary) -> (r: (
    i128,
    i128,
))
    ensures
        r.0 == speed_diff_milli_pct(
            winner.avg_tokens_per_second_milli as int,
            other.avg_tokens_per_second_milli as int,
        ),
        r.1 == ttft_diff_milli_pct(winner.avg_ttft_ms_milli as int, other.avg_ttft_ms_milli as int),
{
    let w_avg = winner.avg_tokens_per_second_milli;
    let o_avg = other.avg_tokens_per_second_milli;
    let speed_diff: i128 = if o_avg == 0 {
        0
    } else if w_avg >= o_avg {
        let d: u128 = ((w_avg - o_avg) as u128) * 100_000;
        proof {
            lemma_div_nonincreasing(d as int, o_avg as int);
        }
        (d / (o_avg as u128)) as i128
    } else {
        let d: u128 = ((o_avg - w_avg) as u128) * 100_000;
        proof {
            lemma_div_nonincreasing(d as int, o_avg as int);
        }
        -((d / (o_avg as u128)) as i128)
    };
    let w_ttft = winner.avg_ttft_ms_milli;
    let o_ttft = other.avg_ttft_ms_milli;
    let ttft_diff: i128 = if o_ttft == 0 {
        0
    } else if o_ttft >= w_ttft {
        let d: u128 = ((o_ttft - w_ttft) as u128) * 100_000;
        proof {
            lemma_div_nonincreasing(d as int, o_ttft as int);
        }
        (d / (o_ttft as u128)) as i128
    } else {
        let d: u128 = ((w_ttft - o_ttft) as u128) * 100_000;
        proof {
            lemma_div_nonincreasing(d as int, o_ttft as int);
        }
        -((d / (o_ttft as u128)) as i128)
    };
    (speed_diff, ttft_diff)
}

/// A summary compared against itself shows no difference in either
/// dimension.
pub proof fn lemma_relative_difference_self(s: ModelSummary)
    ensures
        speed_diff_milli_pct(
            s.avg_tokens_per_second_milli as int,
            s.avg_tokens_per_second_milli as int,
        ) == 0,
        ttft_diff_milli_pct(s.avg_ttft_ms_milli as int, s.avg_ttft_ms_milli as int) == 0,
{
    if s.avg_tokens_per_second_milli != 0 {
        lemma_div_of0(s.avg_tokens_per_second_milli as int);
    }
    if s.avg_ttft_ms_milli != 0 {
        lemma_div_of0(s.avg_ttft_ms_milli as int);
    }
}

/// Where the scheduler stands: what it has just asked its driver to do, and
/// so which event it expects back.
#[derive(Debug, Clone, Copy, PartialEq, Eq, Structural)]
pub enum Phase {
    AwaitStart,
    AwaitHealth,
    AwaitInfoAck,
    AwaitModelCheck { next: usize },
    AwaitStartAck { model: usize },
    AwaitProgressAck { model: usize, iteration: u32 },
    AwaitSample { model: usize, iteration: u32 },
    AwaitIterPause { model: usize, iteration: u32 },
    AwaitCompleteAck { model: usize },
    AwaitModelPause { model: usize },
    Finished,
    Failed,
}

/// What the driver reports back to the scheduler: `Proceed` acknowledges a
/// notification or a pacing pause, the others answer a question or carry a
/// sample.
#[derive(Debug)]
pub enum SchedulerEvent {
    Proceed,
    HealthPassed,
    HealthFailed(BenchmarkError),
    ModelKnown(bool),
    CheckFailed(BenchmarkError),
    SampleReady(BenchmarkResult),
    GenerateFailed(BenchmarkError),
}

/// What the driver is asked to do next. Model positions in `StartModel` and
/// iteration counts in `Progress` are 1-based; `index` points into the
/// scheduler's model list.
#[derive(Debug)]
pub enum SchedulerAction {
    CheckHealth,
    ReportValidating,
    CheckModel { index: usize },
    StartModel { index: usize, position: u32, total: u32 },
    Progress { index: usize, current: u32, total: u32 },
    Generate { index: usize },
    PauseIteration,
    PauseModel,
    CompleteModel { index: usize },
    Finish,
    Fail(BenchmarkError),
}

/// Drives one benchmark run as a step machine: health check first, then
/// pre-flight validation of every model, then the per-model, per-iteration
/// request loop with pacing pauses, a summary computed as soon as a model
/// completes, and result order matching input order. All waiting and I/O is
/// the driver's: the scheduler only decides.
pub struct Scheduler {
    pub models: Vec<String>,
    pub iterations: u32,
    pub phase: Phase,
    pub current_samples: Vec<BenchmarkResult>,
    pub summaries: Vec<ModelSummary>,
    /// The per-model sample sequences already folded into `summaries`.
    pub collected: Ghost<Seq<Seq<BenchmarkResult>>>,
}

impl Scheduler {
    /// The scheduler's invariant: counters stay in range, exactly one
    /// summary exists per completed model, in input order, and each summary
    /// aggregates exactly the samples collected for its model.
    pub open spec fn inv(self) -> bool {
        &&& self.iterations >= 1
        &&& self.models@.len() <= u32::MAX
        &&& self.summaries@.len() == self.collected@.len()
        &&& forall|i: int|
            0 <= i < self.summaries@.len() ==> is_summary_of(
                #[trigger] self.summaries@[i],
                self.models@[i]@,
                self.collected@[i],
            )
        &&& forall|i: int| 0 <= i < self.summaries@.len() ==> (#[trigger] self.summaries@[i]).wf()
        &&& match self.phase {
            Phase::AwaitStart | Phase::AwaitHealth | Phase::AwaitInfoAck => self.summaries@.len()
                == 0 && self.current_samples@.len() == 0,
            Phase::AwaitModelCheck { next } => next < self.models@.len() && self.summaries@.len()
                == 0 && self.current_samples@.len() == 0,
            Phase::AwaitStartAck { model } => model < self.models@.len() && self.summaries@.len()
                == model && self.current_samples@.len() == 0,
            Phase::AwaitProgressAck { model, iteration } => model < self.models@.len() && 1
                <= iteration <= self.iterations && self.summaries@.len() == model
                && self.current_samples@.len() == iteration - 1,
            Phase::AwaitSample { model, iteration } => model < self.models@.len() && 1 <= iteration
                <= self.iterations && self.summaries@.len() == model
                && self.current_samples@.len() == iteration - 1,
            Phase::AwaitIterPause { model, iteration } => model < self.models@.len() && 1
                <= iteration < self.iterations && self.summaries@.len() == model
                && self.current_samples@.len() == iteration,
            Phase::AwaitCompleteAck { model } => model < self.models@.len()
                && self.summaries@.len() == model && self.current_samples@.len()
                == self.iterations,
            Phase::AwaitModelPause { model } => model + 1 < self.models@.len()
                && self.summaries@.len() == model + 1 && self.current_samples@.len() == 0,
            Phase::Finished => self.summaries@.len() == self.models@.len()
                && self.current_samples@.len() == 0,
            Phase::Failed => true,
        }
    }

    /// Which events the scheduler can take in its current phase.
    pub open spec fn accepts_spec(self, event: SchedulerEvent) -> bool {
        match self.phase {
            Phase::AwaitStart => event is Proceed,
            Phase::AwaitHealth => event is HealthPassed || event is HealthFailed,
            Phase::AwaitInfoAck => event is Proceed,
            Phase::AwaitModelCheck { .. } => event is ModelKnown || event is CheckFailed,
            Phase::AwaitStartAck { .. } => event is Proceed,
            Phase::AwaitProgressAck { .. } => event is Proceed,
            Phase::AwaitSample { .. } => event is SampleReady || event is GenerateFailed,
            Phase::AwaitIterPause { .. } => event is Proceed,
            Phase::AwaitCompleteAck { .. } => event is Proceed,
            Phase::AwaitModelPause { .. } => event is Proceed,
            Phase::Finished => false,
            Phase::Failed => false,
        }
    }

    /// Exec mirror of `accepts_spec`, for a driver that wants to check
    /// before stepping.
    pub fn accepts(&self, event: &SchedulerEvent) -> (r: bool)
        ensures
            r == self.accepts_spec(*event),
    {
        match self.phase {
            Phase::AwaitStart => matches!(event, SchedulerEvent::Proceed),
            Phase::AwaitHealth => matches!(
                event,
                SchedulerEvent::HealthPassed | SchedulerEvent::HealthFailed(_)
            ),
            Phase::AwaitInfoAck => matches!(event, SchedulerEvent::Proceed),
            Phase::AwaitModelCheck { .. } => matches!(
                event,
                SchedulerEvent::ModelKnown(_) | SchedulerEvent::CheckFailed(_)
            ),
            Phase::AwaitStartAck { .. } => matches!(event, SchedulerEvent::Proceed),
            Phase::AwaitProgressAck { .. } => matches!(event, SchedulerEvent::Proceed),
            Phase::AwaitSample { .. } => matches!(
                event,
                SchedulerEvent::SampleReady(_) | SchedulerEvent::GenerateFailed(_)
            ),
            Phase::AwaitIterPause { .. } => matches!(event, SchedulerEvent::Proceed),
            Phase::AwaitCompleteAck { .. } => matches!(event, SchedulerEvent::Proceed),
            Phase::AwaitModelPause { .. } => matches!(event, SchedulerEvent::Proceed),
            Phase::Finished => false,
            Phase::Failed => false,
        }
    }

    /// A fresh scheduler for the given models, before anything has run.
    pub fn new(models: Vec<String>, iterations: u32) -> (r: Scheduler)
        requires
            iterations >= 1,
            models@.len() <= u32::MAX,
        ensures
            r.inv(),
            r.models@ == models@,
            r.iterations == iterations,
            r.phase == Phase::AwaitStart,
            r.summaries@.len() == 0,
            r.current_samples@.len() == 0,
    {
        Scheduler {
            models,
            iterations,
            phase: Phase::AwaitStart,
            current_samples: Vec::new(),
            summaries: Vec::new(),
            collected: Ghost(Seq::empty()),
        }
    }

    /// Takes the driver's answer to the previous action and says what to do
    /// next. The ensures below is the whole transition relation: one case
    /// per phase, with the result order, the event counts and the abort
    /// rules of the run pinned by the phase bookkeeping in `inv`.
    pub fn step(&mut self, event: SchedulerEvent) -> (r: SchedulerAction)
        requires
            old(self).inv(),
            old(self).accepts_spec(event),
        ensures
            final(self).inv(),
            final(self).models@ == old(self).models@,
            final(self).iterations == old(self).iterations,
            match old(self).phase {
                Phase::AwaitStart => final(self).phase == Phase::AwaitHealth && (r
                    is CheckHealth) && final(self).unchanged_data(*old(self)),
                Phase::AwaitHealth => match event {
                    SchedulerEvent::HealthPassed => final(self).phase == Phase::AwaitInfoAck && (r
                        is ReportValidating) && final(self).unchanged_data(*old(self)),
                    SchedulerEvent::HealthFailed(e) => final(self).phase == Phase::Failed && r
                        == SchedulerAction::Fail(e) && final(self).unchanged_data(*old(self)),
                    _ => false,
                },
                Phase::AwaitInfoAck => if old(self).models@.len() == 0 {
                    final(self).phase == Phase::Finished && (r is Finish) && final(self).unchanged_data(
                        *old(self),
                    )
                } else {
                    final(self).phase == (Phase::AwaitModelCheck { next: 0 }) && r
                        == (SchedulerAction::CheckModel { index: 0 }) && final(self).unchanged_data(
                        *old(self),
                    )
                },
                Phase::AwaitModelCheck { next } => match event {
                    SchedulerEvent::ModelKnown(true) => if next + 1 < old(self).models@.len() {
                        final(self).phase == (Phase::AwaitModelCheck { next: (next + 1) as usize }) && r
                            == (SchedulerAction::CheckModel { index: (next + 1) as usize })
                            && final(self).unchanged_data(*old(self))
                    } else {
                        final(self).phase == (Phase::AwaitStartAck { model: 0 }) && r
                            == (SchedulerAction::StartModel {
                            index: 0,
                            position: 1,
                            total: old(self).models@.len() as u32,
                        }) && final(self).unchanged_data(*old(self))
                    },
                    SchedulerEvent::ModelKnown(false) => final(self).phase == Phase::Failed && (r matches
                        SchedulerAction::Fail(e) && e matches BenchmarkError::ModelNotFound(m)
                        && m@ == old(self).models@[next as int]@) && final(self).unchanged_data(
                        *old(self),
                    ),
                    SchedulerEvent::CheckFailed(e) => final(self).phase == Phase::Failed && r
                        == SchedulerAction::Fail(e) && final(self).unchanged_data(*old(self)),
                    _ => false,
                },
                Phase::AwaitStartAck { model } => final(self).phase == (Phase::AwaitProgressAck {
                    model,
                    iteration: 1,
                }) && r == (SchedulerAction::Progress {
                    index: model,
                    current: 1,
                    total: old(self).iterations,
                }) && final(self).unchanged_data(*old(self)),
                Phase::AwaitProgressAck { model, iteration } => final(self).phase == (Phase::AwaitSample {
                    model,
                    iteration,
                }) && r == (SchedulerAction::Generate { index: model }) && final(self).unchanged_data(
                    *old(self),
                ),
                Phase::AwaitSample { model, iteration } => match event {
                    SchedulerEvent::SampleReady(s) => {
                        &&& final(self).current_samples@ == old(self).current_samples@.push(s)
                        &&& final(self).summaries@ == old(self).summaries@
                        &&& final(self).collected@ == old(self).collected@
                        &&& if iteration < old(self).iterations {
                            final(self).phase == (Phase::AwaitIterPause { model, iteration }) && (r
                                is PauseIteration)
                        } else {
                            final(self).phase == (Phase::AwaitCompleteAck { model }) && r
                                == (SchedulerAction::CompleteModel { index: model })
                        }
                    },
                    SchedulerEvent::GenerateFailed(e) => final(self).phase == Phase::Failed && r
                        == SchedulerAction::Fail(e) && final(self).unchanged_data(*old(self)),
                    _ => false,
                },
                Phase::AwaitIterPause { model, iteration } => final(self).phase
                    == (Phase::AwaitProgressAck { model, iteration: (iteration + 1) as u32 }) && r
                    == (SchedulerAction::Progress {
                    index: model,
                    current: (iteration + 1) as u32,
                    total: old(self).iterations,
                }) && final(self).unchanged_data(*old(self)),
                Phase::AwaitCompleteAck { model } => {
                    &&& final(self).summaries@.len() == old(self).summaries@.len() + 1
                    &&& final(self).summaries@ =~= old(self).summaries@.push(final(self).summaries@.last())
                    &&& is_summary_of(
                        final(self).summaries@.last(),
                        old(self).models@[model as int]@,
                        old(self).current_samples@,
                    )
                    &&& final(self).collected@ == old(self).collected@.push(old(self).current_samples@)
                    &&& final(self).current_samples@.len() == 0
                    &&& if model + 1 < old(self).models@.len() {
                        final(self).phase == (Phase::AwaitModelPause { model }) && (r is PauseModel)
                    } else {
                        final(self).phase == Phase::Finished && (r is Finish)
                    }
                },
                Phase::AwaitModelPause { model } => final(self).phase == (Phase::AwaitStartAck {
                    model: (model + 1) as usize,
                }) && r == (SchedulerAction::StartModel {
                    index: (model + 1) as usize,
                    position: (model + 2) as u32,
                    total: old(self).models@.len() as u32,
                }) && final(self).unchanged_data(*old(self)),
                Phase::Finished => false,
                Phase::Failed => false,
            },
    {
        match self.phase {
            Phase::AwaitStart => {
                self.phase = Phase::AwaitHealth;
                SchedulerAction::CheckHealth
            },
            Phase::AwaitHealth => {
                match event {
                    SchedulerEvent::HealthPassed => {
                        self.phase = Phase::AwaitInfoAck;
                        SchedulerAction::ReportValidating
                    },
                    SchedulerEvent::HealthFailed(e) => {
                        self.phase = Phase::Failed;
                        SchedulerAction::Fail(e)
                    },
                    _ => {
                        proof {
                            assert(false);
                        }
                        SchedulerAction::Finish
                    },
                }
            },
            Phase::AwaitInfoAck => {
                if self.models.len() == 0 {
                    self.phase = Phase::Finished;
                    SchedulerAction::Finish
                } else {
                    self.phase = Phase::AwaitModelCheck { next: 0 };
                    SchedulerAction::CheckModel { index: 0 }
                }
            },
            Phase::AwaitModelCheck { next } => {
                match event {
                    SchedulerEvent::ModelKnown(true) => {
                        if next + 1 < self.models.len() {
                            self.phase = Phase::AwaitModelCheck { next: next + 1 };
                            SchedulerAction::CheckModel { index: next + 1 }
                        } else {
                            self.phase = Phase::AwaitStartAck { model: 0 };
                            SchedulerAction::StartModel {
                                index: 0,
                                position: 1,
                                total: self.models.len() as u32,
                            }
                        }
                    },
                    SchedulerEvent::ModelKnown(false) => {
                        self.phase = Phase::Failed;
                        let name = self.models[next].clone();
                        SchedulerAction::Fail(BenchmarkError::ModelNotFound(name))
                    },
                    SchedulerEvent::CheckFailed(e) => {
                        self.phase = Phase::Failed;
                        SchedulerAction::Fail(e)
                    },
                    _ => {
                        proof {
                            assert(false);
                        }
                        SchedulerAction::Finish
                    },
                }
            },
            Phase::AwaitStartAck { model } => {
                self.phase = Phase::AwaitProgressAck { model, iteration: 1 };
                SchedulerAction::Progress { index: model, current: 1, total: self.iterations }
            },
            Phase::AwaitProgressAck { model, iteration } => {
                self.phase = Phase::AwaitSample { model, iteration };
                SchedulerAction::Generate { index: model }
            },
            Phase::AwaitSample { model, iteration } => {
                match event {
                    SchedulerEvent::SampleReady(s) => {
                        self.current_samples.push(s);
                        if iteration < self.iterations {
                            self.phase = Phase::AwaitIterPause { model, iteration };
                            SchedulerAction::PauseIteration
                        } else {
                            self.phase = Phase::AwaitCompleteAck { model };
                            SchedulerAction::CompleteModel { index: model }
                        }
                    },
                    SchedulerEvent::GenerateFailed(e) => {
                        self.phase = Phase::Failed;
                        SchedulerAction::Fail(e)
                    },
                    _ => {
                        proof {
                            assert(false);
                        }
                        SchedulerAction::Finish
                    },
                }
            },
            Phase::AwaitIterPause { model, iteration } => {
                self.phase = Phase::AwaitProgressAck { model, iteration: iteration + 1 };
                SchedulerAction::Progress {
                    index: model,
                    current: iteration + 1,
                    total: self.iterations,
                }
            },
            Phase::AwaitCompleteAck { model } => {
                let name = self.models[model].clone();
                let summary = ModelSummary::from_results(name, &self.current_samples);
                proof {
                    self.collected@ = self.collected@.push(self.current_samples@);
                }
                self.summaries.push(summary);
                self.current_samples = Vec::new();
                if model + 1 < self.models.len() {
                    self.phase = Phase::AwaitModelPause { model };
                    SchedulerAction::PauseModel
                } else {
                    self.phase = Phase::Finished;
                    SchedulerAction::Finish
                }
            },
            Phase::AwaitModelPause { model } => {
                self.phase = Phase::AwaitStartAck { model: model + 1 };
                SchedulerAction::StartModel {
                    index: model + 1,
                    position: (model as u32) + 2,
                    total: self.models.len() as u32,
                }
            },
            Phase::Finished => {
                proof {
                    assert(false);
                }
                SchedulerAction::Finish
            },
            Phase::Failed => {
                proof {
                    assert(false);
                }
                SchedulerAction::Finish
            },
        }
    }

    /// True when the step left samples, summaries and collected history
    /// untouched.
    pub open spec fn unchanged_data(self, pre: Scheduler) -> bool {
        &&& self.current_samples@ == pre.current_samples@
        &&& self.summaries@ == pre.summaries@
        &&& self.collected@ == pre.collected@
    }
}

} // verus!

