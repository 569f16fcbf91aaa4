//! The uupd plugin and its progress normalizer.
//!
//! uupd is itself a multi-tool aggregator: it drives several sub-steps and
//! emits its own structured progress records, with a discrete step counter,
//! a step total, an optional finer-grained per-step percentage, and a
//! self-reported overall percent. The normalizer rescales that nested
//! stream into the plugin's single 0-to-100 progress contract.
use vstd::prelude::*;

use crate::strutil::{spec_u32_digits, u32_to_string};
use crate::{Plugin, PluginProgress};

verus! {

/// One record of the nested stream that uupd emits: a log level and
/// message, display titles, the discrete step counter (`progress`) out of
/// `total` steps, the optional finer per-step percentage, and the
/// self-reported overall percent across all steps.
#[derive(Clone, Debug)]
pub struct Progress {
    pub level: String,
    pub msg: String,
    pub title: String,
    pub description: String,
    pub previous_overall: u32,
    pub progress: u32,
    pub total: u32,
    pub step_progress: u32,
    pub overall: u32,
}

/// The nested stream's completion sentinel: step and total both report that
/// no more work remains.
pub open spec fn spec_is_sentinel(rec: Progress) -> bool {
    rec.progress == 0 && rec.total == 0
}

/// The step number to display: one past the zero-based counter, but never
/// past the total, so the last increment does not read "step 6 of 5".
pub open spec fn spec_display_step(step: u32, total: u32) -> int {
    if step < total {
        step + 1
    } else {
        total as int
    }
}

/// The "(step X of Y)" suffix of a normalized status message.
pub open spec fn spec_step_suffix(step: u32, total: u32) -> Seq<char> {
    "(step "@ + spec_u32_digits(spec_display_step(step, total)) + " of "@ + spec_u32_digits(
        total as int,
    ) + ")"@
}

/// The status message for one nested record: its own message, title and
/// description, plus the step suffix — or the completion message at the
/// sentinel.
pub open spec fn spec_message(rec: Progress) -> Seq<char> {
    if spec_is_sentinel(rec) {
        "Update complete."@
    } else {
        rec.msg@ + " "@ + rec.title@ + " - "@ + rec.description@ + " "@ + spec_step_suffix(
            rec.progress,
            rec.total,
        )
    }
}

/// The percent reported for one nested record: the finer per-step
/// percentage when one is present (greater than zero), otherwise the
/// record's own overall — the milestone is taken up before the record is
/// reported, so the display never falls behind a milestone that has already
/// landed; the completion sentinel reports 100.
pub open spec fn spec_percent(rec: Progress) -> u32 {
    if spec_is_sentinel(rec) {
        100u32
    } else if rec.step_progress > 0 {
        rec.step_progress
    } else {
        rec.overall
    }
}

/// The progress normalizer: tracks the nested stream's self-reported
/// overall milestone, so that records without finer per-step detail hold
/// the display at the milestone instead of dropping it.
pub struct Normalizer {
    pub previous_overall: u32,
}

impl Normalizer {
    /// A normalizer at the start of a plugin's run: no milestone yet.
    pub fn new() -> (r: Self)
        ensures
            r.previous_overall == 0,
    {
        Normalizer { previous_overall: 0 }
    }

    /// Normalize one nested record into the plugin's own progress record.
    /// The record's overall percent becomes the tracked milestone before
    /// the record is reported, so a record without per-step detail reports
    /// the milestone its own stream just set.
    pub fn feed(&mut self, name: &str, rec: &Progress) -> (out: PluginProgress)
        ensures
            final(self).previous_overall == rec.overall,
            out.progress == spec_percent(*rec),
            out.name@ == name@,
            !out.pulse,
            !out.reboot_required,
            out.status@ == spec_message(*rec),
            out.stdout is None,
            out.stderr is None,
    {
        let sentinel = rec.progress == 0 && rec.total == 0;
        self.previous_overall = rec.overall;
        let percent: u32 = if sentinel {
            100
        } else if rec.step_progress > 0 {
            rec.step_progress
        } else {
            self.previous_overall
        };
        let status: String = if sentinel {
            "Update complete.".to_owned()
        } else {
            let display_step: u32 = if rec.progress < rec.total {
                rec.progress + 1
            } else {
                rec.total
            };
            let mut s = rec.msg.clone();
            s.append(" ");
            s.append(rec.title.as_str());
            s.append(" - ");
            s.append(rec.description.as_str());
            s.append(" ");
            s.append("(step ");
            let step_digits = u32_to_string(display_step);
            s.append(step_digits.as_str());
            s.append(" of ");
            let total_digits = u32_to_string(rec.total);
            s.append(total_digits.as_str());
            s.append(")");
            proof {
                assert(s@ =~= spec_message(*rec));
            }
            s
        };
        let mut out = PluginProgress::new(name);
        out.progress = percent;
        out.status = status;
        out
    }
}

/// The percents a normalizer reports for a nested stream fed in order.
pub open spec fn spec_feed_percents(recs: Seq<Progress>) -> Seq<u32>
    decreases recs.len(),
{
    if recs.len() == 0 {
        Seq::empty()
    } else {
        seq![spec_percent(recs[0])] + spec_feed_percents(recs.drop_first())
    }
}

/// Law: a nested stream whose every record carries no per-step percentage
/// (and is not the completion sentinel) normalizes to the stream's own
/// milestones: each percent is exactly that record's self-reported overall.
/// The display therefore changes only where the nested overall changed — a
/// milestone boundary — and never momentarily drops to zero between
/// milestones once a nonzero one was reported.
pub proof fn lemma_normalizer_holds_milestones(recs: Seq<Progress>)
    requires
        forall|i: int|
            0 <= i < recs.len() ==> (#[trigger] recs[i]).step_progress == 0 && !spec_is_sentinel(
                recs[i],
            ),
    ensures
        spec_feed_percents(recs).len() == recs.len(),
        forall|i: int|
            0 <= i < recs.len() ==> #[trigger] spec_feed_percents(recs)[i] == recs[i].overall,
        forall|i: int, j: int|
            0 <= i <= j < recs.len() && recs[i].overall == recs[j].overall
                ==> spec_feed_percents(recs)[i] == spec_feed_percents(recs)[j],
    decreases recs.len(),
{
    if recs.len() > 0 {
        lemma_normalizer_holds_milestones(recs.drop_first());
        let out = spec_feed_percents(recs);
        let rest = spec_feed_percents(recs.drop_first());
        assert(out[0] == spec_percent(recs[0]));
        assert forall|i: int| 1 <= i < recs.len() implies #[trigger] out[i] == recs[i].overall by {
            assert(out[i] == rest[i - 1]);
            assert(recs.drop_first()[i - 1] == recs[i]);
        }
    }
}

/// The uupd plugin: delegates to the uupd aggregator and renormalizes its
/// nested progress stream.
pub struct Uupd;

impl Plugin for Uupd {
    open spec fn spec_name(&self) -> Seq<char> {
        "uupd"@
    }

    open spec fn spec_description(&self) -> Seq<char> {
        "uupd updates bootc, rpm-ostree, flatpak, brew, and distrobox."@
    }

    open spec fn spec_version(&self) -> Seq<char> {
        "0.1.0"@
    }

    /// uupd updates everything itself, so it conflicts with every other
    /// plugin.
    open spec fn spec_conflicts(&self, plugin_name: Seq<char>) -> bool {
        true
    }

    fn name(&self) -> (r: &str) {
        "uupd"
    }

    fn description(&self) -> (r: &str) {
        "uupd updates bootc, rpm-ostree, flatpak, brew, and distrobox."
    }

    fn version(&self) -> (r: &str) {
        "0.1.0"
    }

    fn conflicts(&self, plugin_name: &str) -> (r: bool) {
        true
    }
}

impl Uupd {
    /// Begin an update: a fresh normalizer, and the command whose streamed
    /// JSON output is fed to it line by line. The update reports success
    /// when the stream has ended.
    pub fn start(&self) -> (r: (Normalizer, String))
        ensures
            r.0.previous_overall == 0,
            r.1@ == "pkexec uupd --json"@,
    {
        (Normalizer::new(), "pkexec uupd --json".to_owned())
    }
}

} // verus!
