//! The orchestrator: runs the enabled plugins in order, rejects conflicting
//! selections before anything executes, clamps and forwards each progress
//! record to the progress sink, synthesizes a terminal record for a plugin
//! that ended without one, and decides the final outcome of a run.
//!
//! Per run the states are: a conflict check up front, then one plugin running
//! at a time, then done — or rejected, in which case no plugin ever runs. The
//! blocking work (spawning a worker, executing commands) happens outside;
//! this type makes every decision, one channel event at a time.
use vstd::prelude::*;

use crate::channel::{try_recv_progress, PollEvent};
use crate::PluginProgress;

verus! {

/// The orchestrator's run state: either some plugin (by position) is active,
/// or the run finished, or the enabled selection was rejected because the
/// plugins at positions `first` and `second` conflict.
#[derive(Clone, Copy, Debug, PartialEq, Eq, Structural)]
pub enum RunState {
    Running { current: usize },
    Done,
    Rejected { first: usize, second: usize },
}

/// What the orchestrator forwards to the external progress sink for one
/// progress record: the record's content plus the position of its plugin
/// within the run, with the percent clamped to the 0..=100 contract.
#[derive(Clone, Debug)]
pub struct ForwardedProgress {
    pub name: String,
    /// 1-based position of the plugin in the run.
    pub index: usize,
    /// Number of enabled plugins in the run.
    pub total: usize,
    /// Clamped percent: never above 100, never below an earlier value
    /// forwarded for the same plugin.
    pub percent: u32,
    pub pulse: bool,
    pub status: String,
    pub stdout: Option<String>,
    pub stderr: Option<String>,
}

/// The outcome of a whole run, reported once after the last plugin.
#[derive(Clone, Debug)]
pub struct RunSummary {
    pub percent: u32,
    pub reboot_required: bool,
    /// Names of the plugins whose update reported failure, in run order.
    pub failed: Vec<String>,
    pub message: String,
}

/// One result of polling the progress channel: a record was forwarded, or
/// nothing was waiting, or the current plugin's channel has closed.
pub enum PollOutcome {
    Forwarded(ForwardedProgress),
    Idle,
    Closed,
}

/// A well-formed conflict matrix for `n` plugins: `m[i][j]` answers whether
/// plugin `i` declares a conflict with plugin `j`'s name.
pub open spec fn matrix_wf(m: Seq<Seq<bool>>, n: int) -> bool {
    m.len() == n && forall|i: int| 0 <= i < n ==> (#[trigger] m[i]).len() == n
}

/// Whether the plugins at positions `i` and `j` conflict in either direction.
pub open spec fn spec_pair_conflicts(m: Seq<Seq<bool>>, i: int, j: int) -> bool {
    m[i][j] || m[j][i]
}

/// Whether any enabled pair conflicts.
pub open spec fn spec_has_conflict(m: Seq<Seq<bool>>, n: int) -> bool {
    exists|i: int, j: int| 0 <= i < j < n && #[trigger] spec_pair_conflicts(m, i, j)
}

/// The percent forwarded for a record: capped at 100, and never below the
/// last percent forwarded for the same plugin.
pub open spec fn spec_clamp(last: u32, percent: u32) -> u32 {
    let capped = if percent > 100 {
        100u32
    } else {
        percent
    };
    if capped < last {
        last
    } else {
        capped
    }
}

/// The run state after the current plugin finishes: the next plugin starts,
/// or the run is done after the last one.
pub open spec fn spec_next_state(st: RunState, n: int) -> RunState {
    match st {
        RunState::Running { current } => if current + 1 == n {
            RunState::Done
        } else {
            RunState::Running { current: (current + 1) as usize }
        },
        _ => st,
    }
}

pub struct Orchestrator {
    /// The enabled plugins' names, in execution order.
    pub names: Vec<String>,
    pub state: RunState,
    /// Sticky across the run: true once any record asked for a reboot.
    pub reboot_required: bool,
    /// Whether the current plugin has produced a terminal record.
    pub saw_terminal: bool,
    /// The percent last forwarded for the current plugin.
    pub last_percent: u32,
    /// Names of the plugins that reported failure, in run order.
    pub failed: Vec<String>,
}

impl Orchestrator {
    /// Basic well-formedness: an active position is in range and the clamp
    /// floor never exceeds 100.
    pub open spec fn wf(self) -> bool {
        &&& (self.state matches RunState::Running { current } ==> current < self.names.len())
        &&& self.last_percent <= 100
    }

    /// The active plugin's position while some plugin is running.
    pub open spec fn spec_current(self) -> int {
        match self.state {
            RunState::Running { current } => current as int,
            _ => arbitrary(),
        }
    }

    pub open spec fn spec_names(self) -> Seq<String> {
        self.names@
    }

    pub open spec fn spec_state(self) -> RunState {
        self.state
    }

    pub open spec fn spec_reboot_required(self) -> bool {
        self.reboot_required
    }

    pub open spec fn spec_saw_terminal(self) -> bool {
        self.saw_terminal
    }

    pub open spec fn spec_last_percent(self) -> u32 {
        self.last_percent
    }

    pub open spec fn spec_failed(self) -> Seq<String> {
        self.failed@
    }

    /// Validate an enabled selection and set up a run. The run is rejected,
    /// and nothing will execute, exactly when some enabled pair conflicts in
    /// either direction; the reported pair is the first one in order.
    /// Otherwise the first plugin is up (or the empty run is already done).
    ///
    /// `conflict_matrix[i][j]` must answer whether plugin `i` declares a
    /// conflict with plugin `j`'s name, as plugin `i`'s conflict predicate
    /// said it.
    pub fn new(names: Vec<String>, conflict_matrix: &Vec<Vec<bool>>) -> (r: Orchestrator)
        requires
            matrix_wf(conflict_matrix.deep_view(), names@.len() as int),
        ensures
            r.wf(),
            r.spec_names() == names@,
            !r.spec_reboot_required(),
            !r.spec_saw_terminal(),
            r.spec_last_percent() == 0,
            r.spec_failed() == Seq::<String>::empty(),
            (r.spec_state() is Rejected) <==> spec_has_conflict(
                conflict_matrix.deep_view(),
                names@.len() as int,
            ),
            r.spec_state() matches RunState::Rejected { first, second } ==> {
                &&& 0 <= first < second < names@.len()
                &&& spec_pair_conflicts(conflict_matrix.deep_view(), first as int, second as int)
                &&& forall|i: int, j: int|
                    0 <= i < j < names@.len() && (i < first || (i == first && j < second))
                        ==> !#[trigger] spec_pair_conflicts(conflict_matrix.deep_view(), i, j)
            },
            !spec_has_conflict(conflict_matrix.deep_view(), names@.len() as int) ==> r.spec_state()
                == (if names@.len() == 0 {
                RunState::Done
            } else {
                RunState::Running { current: 0 }
            }),
    {
        let ghost m = conflict_matrix.deep_view();
        let n: usize = names.len();
        let mut state = if n == 0 {
            RunState::Done
        } else {
            RunState::Running { current: 0 }
        };
        let mut i: usize = 0;
        while i < n
            invariant
                i <= n,
                n == names@.len(),
                m == conflict_matrix.deep_view(),
                matrix_wf(m, n as int),
                forall|a: int, b: int|
                    0 <= a < b < n && a < i ==> !#[trigger] spec_pair_conflicts(m, a, b),
                state == (if n == 0 {
                    RunState::Done
                } else {
                    RunState::Running { current: 0usize }
                }),
            decreases n - i,
        {
            let mut j: usize = i + 1;
            while j < n
                invariant
                    i < j <= n,
                    n == names@.len(),
                    m == conflict_matrix.deep_view(),
                    matrix_wf(m, n as int),
                    forall|a: int, b: int|
                        0 <= a < b < n && a < i ==> !#[trigger] spec_pair_conflicts(m, a, b),
                    forall|b: int| i < b < j ==> !#[trigger] spec_pair_conflicts(m, i as int, b),
                    state == (if n == 0 {
                        RunState::Done
                    } else {
                        RunState::Running { current: 0usize }
                    }),
                decreases n - j,
            {
                let row_i = &conflict_matrix[i];
                let row_j = &conflict_matrix[j];
                proof {
                    assert(m[i as int] == conflict_matrix@[i as int].deep_view());
                    assert(m[j as int] == conflict_matrix@[j as int].deep_view());
                    assert(m[i as int][j as int] == conflict_matrix@[i as int]@[j as int]);
                    assert(m[j as int][i as int] == conflict_matrix@[j as int]@[i as int]);
                }
                if row_i[j] || row_j[i] {
                    assert(spec_pair_conflicts(m, i as int, j as int));
                    return Orchestrator {
                        names,
                        state: RunState::Rejected { first: i, second: j },
                        reboot_required: false,
                        saw_terminal: false,
                        last_percent: 0,
                        failed: Vec::new(),
                    };
                }
                j = j + 1;
            }
            i = i + 1;
        }
        Orchestrator {
            names,
            state,
            reboot_required: false,
            saw_terminal: false,
            last_percent: 0,
            failed: Vec::new(),
        }
    }

    /// What one progress record does to the run: the percent is clamped, the
    /// reboot flag is ORed in, a clamped percent of 100 marks the terminal
    /// record, and the record's content is forwarded together with the
    /// plugin's position in the run.
    pub open spec fn spec_on_record(self, rec: PluginProgress) -> (Orchestrator, ForwardedProgress) {
        let clamped = spec_clamp(self.last_percent, rec.progress);
        let post = Orchestrator {
            reboot_required: self.reboot_required || rec.reboot_required,
            saw_terminal: self.saw_terminal || clamped == 100,
            last_percent: clamped,
            ..self
        };
        let fwd = ForwardedProgress {
            name: rec.name,
            index: (self.spec_current() + 1) as usize,
            total: self.names@.len() as usize,
            percent: clamped,
            pulse: rec.pulse,
            status: rec.status,
            stdout: rec.stdout,
            stderr: rec.stderr,
        };
        (post, fwd)
    }

    /// Relates a processed record to its effect; `poll` promises this for
    /// whatever record the channel yielded.
    pub open spec fn on_record_rel(
        pre: Orchestrator,
        rec: PluginProgress,
        post: Orchestrator,
        fwd: ForwardedProgress,
    ) -> bool {
        (post, fwd) == pre.spec_on_record(rec)
    }

    /// Process one progress record from the current plugin and return what is
    /// forwarded to the progress sink.
    pub fn on_record(&mut self, rec: &PluginProgress) -> (fwd: ForwardedProgress)
        requires
            old(self).wf(),
            old(self).spec_state() is Running,
        ensures
            final(self).wf(),
            Self::on_record_rel(*old(self), *rec, *final(self), fwd),
    {
        let current: usize = match self.state {
            RunState::Running { current } => current,
            _ => {
                proof {
                    assert(false);
                }
                0
            },
        };
        let mut clamped: u32 = rec.progress;
        if clamped > 100 {
            clamped = 100;
        }
        if clamped < self.last_percent {
            clamped = self.last_percent;
        }
        self.reboot_required = self.reboot_required || rec.reboot_required;
        self.saw_terminal = self.saw_terminal || clamped == 100;
        self.last_percent = clamped;
        ForwardedProgress {
            name: rec.name.clone(),
            index: current + 1,
            total: self.names.len(),
            percent: clamped,
            pulse: rec.pulse,
            status: rec.status.clone(),
            stdout: crate::clone_opt_string(&rec.stdout),
            stderr: crate::clone_opt_string(&rec.stderr),
        }
    }

    /// The current plugin's channel has closed and its update returned
    /// `update_ok` (false also stands for an abnormal end without a result).
    /// If no terminal record was seen, exactly one is synthesized and must be
    /// forwarded, so a run never stalls on a silent plugin; a failed update
    /// is recorded against that plugin only, and the run advances to the next
    /// plugin, or is done after the last.
    pub fn on_provider_end(&mut self, update_ok: bool) -> (synth: Option<ForwardedProgress>)
        requires
            old(self).wf(),
            old(self).spec_state() is Running,
        ensures
            final(self).wf(),
            final(self).spec_names() == old(self).spec_names(),
            final(self).spec_state() == spec_next_state(
                old(self).spec_state(),
                old(self).spec_names().len() as int,
            ),
            final(self).spec_reboot_required() == old(self).spec_reboot_required(),
            !final(self).spec_saw_terminal(),
            final(self).spec_last_percent() == 0,
            final(self).spec_failed() == (if update_ok {
                old(self).spec_failed()
            } else {
                old(self).spec_failed().push(old(self).spec_names()[old(self).spec_current()])
            }),
            old(self).spec_saw_terminal() ==> synth is None,
            !old(self).spec_saw_terminal() ==> (synth matches Some(f) && {
                &&& f.name == old(self).spec_names()[old(self).spec_current()]
                &&& f.index == old(self).spec_current() + 1
                &&& f.total == old(self).spec_names().len()
                &&& f.percent == 100
                &&& !f.pulse
                &&& f.status@ == (if update_ok {
                    "Update complete."@
                } else {
                    "Update failed."@
                })
                &&& f.stdout is None
                &&& f.stderr is None
            }),
    {
        let current: usize = match self.state {
            RunState::Running { current } => current,
            _ => {
                proof {
                    assert(false);
                }
                0
            },
        };
        let synth = if !self.saw_terminal {
            let status = if update_ok {
                "Update complete."
            } else {
                "Update failed."
            };
            Some(
                ForwardedProgress {
                    name: self.names[current].clone(),
                    index: current + 1,
                    total: self.names.len(),
                    percent: 100,
                    pulse: false,
                    status: status.to_owned(),
                    stdout: None,
                    stderr: None,
                },
            )
        } else {
            None
        };
        if !update_ok {
            let name = self.names[current].clone();
            self.failed.push(name);
        }
        self.state = if current + 1 == self.names.len() {
            RunState::Done
        } else {
            RunState::Running { current: current + 1 }
        };
        self.saw_terminal = false;
        self.last_percent = 0;
        synth
    }

    /// Poll the current plugin's progress channel once, without blocking.
    /// Whatever the channel yielded, the state changes exactly as
    /// `spec_on_record` says for the record that arrived, and not at all
    /// otherwise.
    pub fn poll(&mut self, rx: &flume::Receiver<PluginProgress>) -> (r: PollOutcome)
        requires
            old(self).wf(),
            old(self).spec_state() is Running,
        ensures
            final(self).wf(),
            match r {
                PollOutcome::Forwarded(fwd) => exists|rec: PluginProgress|
                    #[trigger] Self::on_record_rel(*old(self), rec, *final(self), fwd),
                PollOutcome::Idle => *final(self) == *old(self),
                PollOutcome::Closed => *final(self) == *old(self),
            },
    {
        match try_recv_progress(rx) {
            PollEvent::Record(rec) => {
                let fwd = self.on_record(&rec);
                PollOutcome::Forwarded(fwd)
            },
            PollEvent::Empty => PollOutcome::Idle,
            PollEvent::Disconnected => PollOutcome::Closed,
        }
    }

    /// Report the outcome of a finished run: a completion record at 100
    /// percent, the sticky reboot flag for the reboot collaborator, and which
    /// plugins failed.
    pub fn finalize(&self) -> (r: RunSummary)
        requires
            self.spec_state() is Done,
        ensures
            r.percent == 100,
            r.reboot_required == self.spec_reboot_required(),
            r.failed@ == self.spec_failed(),
            r.message@ == "Updates complete!"@,
    {
        let mut failed: Vec<String> = Vec::new();
        let mut i: usize = 0;
        while i < self.failed.len()
            invariant
                i <= self.failed.len(),
                failed@ == self.failed@.take(i as int),
            decreases self.failed.len() - i,
        {
            failed.push(self.failed[i].clone());
            proof {
                assert(failed@ =~= self.failed@.take(i + 1));
            }
            i = i + 1;
        }
        proof {
            assert(failed@ =~= self.failed@);
        }
        RunSummary {
            percent: 100,
            reboot_required: self.reboot_required,
            failed,
            message: "Updates complete!".to_owned(),
        }
    }

    /// The enabled plugin names, in execution order.
    pub fn enabled_names(&self) -> (r: &Vec<String>)
        ensures
            r@ == self.spec_names(),
    {
        &self.names
    }

    /// The run state.
    pub fn state(&self) -> (r: RunState)
        ensures
            r == self.spec_state(),
    {
        self.state
    }

    /// Whether any record in this run asked for a reboot.
    pub fn reboot_required(&self) -> (r: bool)
        ensures
            r == self.spec_reboot_required(),
    {
        self.reboot_required
    }
}

/// The forwarded percents for a sequence of records processed in order by
/// one plugin's consumption loop.
pub open spec fn spec_forward_percents(o: Orchestrator, recs: Seq<PluginProgress>) -> Seq<u32>
    decreases recs.len(),
{
    if recs.len() == 0 {
        Seq::empty()
    } else {
        let (post, fwd) = o.spec_on_record(recs[0]);
        seq![fwd.percent] + spec_forward_percents(post, recs.drop_first())
    }
}

/// Law: within one plugin's run, the forwarded percents are non-decreasing
/// and never exceed 100, whatever raw percents the plugin reported. The
/// terminal side of the same property stands in `on_provider_end`: when the
/// channel closes without a terminal record, one is synthesized, so a
/// terminal record is always eventually observed.
pub proof fn lemma_forwarded_percents_monotone(o: Orchestrator, recs: Seq<PluginProgress>)
    requires
        o.spec_last_percent() <= 100,
    ensures
        spec_forward_percents(o, recs).len() == recs.len(),
        forall|i: int, j: int|
            0 <= i <= j < recs.len() ==> spec_forward_percents(o, recs)[i]
                <= spec_forward_percents(o, recs)[j],
        forall|i: int|
            0 <= i < recs.len() ==> o.spec_last_percent() <= #[trigger] spec_forward_percents(
                o,
                recs,
            )[i] <= 100,
    decreases recs.len(),
{
    if recs.len() > 0 {
        let (post, fwd) = o.spec_on_record(recs[0]);
        lemma_forwarded_percents_monotone(post, recs.drop_first());
        let out = spec_forward_percents(o, recs);
        let rest = spec_forward_percents(post, recs.drop_first());
        assert(out[0] == fwd.percent);
        assert(forall|i: int| 1 <= i < out.len() ==> out[i] == rest[i - 1]);
        assert(fwd.percent == post.spec_last_percent());
    }
}

/// The orchestrator after a sequence of records processed in order by one
/// plugin's consumption loop.
pub open spec fn spec_run_after(o: Orchestrator, recs: Seq<PluginProgress>) -> Orchestrator
    decreases recs.len(),
{
    if recs.len() == 0 {
        o
    } else {
        let (post, fwd) = o.spec_on_record(recs[0]);
        spec_run_after(post, recs.drop_first())
    }
}

/// Law: a terminal record is always eventually observed. After any sequence
/// of records, the orchestrator has seen a terminal record exactly when one
/// was forwarded at 100 percent (or one had been seen before); and by
/// `on_provider_end`, when the plugin's channel closes without one, exactly
/// one terminal record is synthesized and forwarded in its place.
pub proof fn lemma_terminal_eventually_observed(o: Orchestrator, recs: Seq<PluginProgress>)
    ensures
        spec_forward_percents(o, recs).len() == recs.len(),
        spec_run_after(o, recs).saw_terminal <==> (o.saw_terminal || exists|i: int|
            0 <= i < recs.len() && #[trigger] spec_forward_percents(o, recs)[i] == 100),
    decreases recs.len(),
{
    if recs.len() > 0 {
        let (post, fwd) = o.spec_on_record(recs[0]);
        lemma_terminal_eventually_observed(post, recs.drop_first());
        let out = spec_forward_percents(o, recs);
        let rest = spec_forward_percents(post, recs.drop_first());
        assert(out[0] == fwd.percent);
        assert(forall|i: int| 1 <= i < out.len() ==> out[i] == rest[i - 1]);
        if spec_run_after(o, recs).saw_terminal {
            if post.saw_terminal {
                if !o.saw_terminal {
                    assert(out[0] == 100);
                }
            } else {
                let i = choose|i: int|
                    0 <= i < recs.drop_first().len() && #[trigger] rest[i] == 100;
                assert(out[i + 1] == 100);
            }
        }
        if !spec_run_after(o, recs).saw_terminal {
            assert(!post.saw_terminal);
            assert forall|i: int| 0 <= i < recs.len() implies #[trigger] out[i] != 100 by {
                if i >= 1 {
                    assert(out[i] == rest[i - 1]);
                }
            }
        }
    }
}

/// The run state after `k` plugins have finished, starting from the first.
pub open spec fn spec_state_after(k: int, n: int) -> RunState
    decreases k,
{
    if k <= 0 {
        RunState::Running { current: 0 }
    } else {
        spec_next_state(spec_state_after(k - 1, n), n)
    }
}

/// Law: when no enabled pair conflicts, the plugins execute in the
/// configured order: after `k` of `n` plugins finish, the plugin at position
/// `k` is the active one, and the run is done exactly after the last.
/// Together with `new`, which rejects the run (and never reaches a running
/// state) exactly when some pair conflicts, this is the conflict dichotomy.
pub proof fn lemma_providers_run_in_order(k: int, n: int)
    requires
        0 < n <= usize::MAX,
        0 <= k <= n,
    ensures
        k < n ==> spec_state_after(k, n) == (RunState::Running { current: k as usize }),
        k == n ==> spec_state_after(k, n) == RunState::Done,
    decreases k,
{
    if k > 0 {
        lemma_providers_run_in_order(k - 1, n);
    }
}

} // verus!
