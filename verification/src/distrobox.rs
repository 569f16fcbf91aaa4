//! The distrobox plugin: list the containers, then upgrade each in turn,
//! advancing the percent by an equal share per container.
use vstd::prelude::*;

use crate::strutil::{spec_lines, spec_split, spec_trim, split_char, split_lines, trim_spaces};
use crate::{Plugin, PluginProgress, ProviderAction};

verus! {

/// The distrobox plugin.
pub struct Distrobox;

impl Plugin for Distrobox {
    open spec fn spec_name(&self) -> Seq<char> {
        "distrobox"@
    }

    open spec fn spec_description(&self) -> Seq<char> {
        "Update distrobox containers."@
    }

    open spec fn spec_version(&self) -> Seq<char> {
        "0.1.0"@
    }

    /// distrobox declares itself exclusive: it conflicts with every other
    /// plugin.
    open spec fn spec_conflicts(&self, plugin_name: Seq<char>) -> bool {
        true
    }

    fn name(&self) -> (r: &str) {
        "distrobox"
    }

    fn description(&self) -> (r: &str) {
        "Update distrobox containers."
    }

    fn version(&self) -> (r: &str) {
        "0.1.0"
    }

    fn conflicts(&self, plugin_name: &str) -> (r: bool) {
        true
    }
}

/// The container name on one listing line: the second '|'-separated column,
/// trimmed. A line without that column names no container.
pub open spec fn spec_boxes_of_lines(lines: Seq<Seq<char>>) -> Seq<Seq<char>>
    decreases lines.len(),
{
    if lines.len() == 0 {
        Seq::empty()
    } else {
        let cols = spec_split(lines[0], '|');
        let head: Seq<Seq<char>> = if cols.len() >= 2 {
            seq![spec_trim(cols[1])]
        } else {
            Seq::empty()
        };
        head + spec_boxes_of_lines(lines.drop_first())
    }
}

/// The container names in the listing command's output: every line but the
/// header, read as '|'-separated columns.
pub open spec fn spec_list(stdout: Seq<char>) -> Seq<Seq<char>> {
    if spec_lines(stdout).len() == 0 {
        Seq::empty()
    } else {
        spec_boxes_of_lines(spec_lines(stdout).drop_first())
    }
}

proof fn lemma_boxes_push(lines: Seq<Seq<char>>, x: Seq<char>)
    ensures
        spec_boxes_of_lines(lines.push(x)) == spec_boxes_of_lines(lines) + (
        if spec_split(x, '|').len() >= 2 {
            seq![spec_trim(spec_split(x, '|')[1])]
        } else {
            Seq::<Seq<char>>::empty()
        }),
    decreases lines.len(),
{
    let tail = if spec_split(x, '|').len() >= 2 {
        seq![spec_trim(spec_split(x, '|')[1])]
    } else {
        Seq::<Seq<char>>::empty()
    };
    if lines.len() == 0 {
        assert(lines.push(x).drop_first() =~= lines);
        assert(spec_boxes_of_lines(lines.push(x)) =~= spec_boxes_of_lines(lines) + tail);
    } else {
        assert(lines.push(x).drop_first() =~= lines.drop_first().push(x));
        lemma_boxes_push(lines.drop_first(), x);
        assert(spec_boxes_of_lines(lines.push(x)) =~= spec_boxes_of_lines(lines) + tail);
    }
}

/// Parse the listing command's output into container names: skip the header
/// line, take the second column of each remaining line.
pub fn list(stdout: &str) -> (r: Vec<String>)
    ensures
        r.deep_view() == spec_list(stdout@),
{
    let lines = split_lines(stdout);
    let ghost body = if lines.deep_view().len() == 0 {
        Seq::<Seq<char>>::empty()
    } else {
        lines.deep_view().drop_first()
    };
    let mut out: Vec<String> = Vec::new();
    let mut i: usize = 1;
    if lines.len() == 0 {
        proof {
            assert(out.deep_view() =~= spec_list(stdout@));
        }
        return out;
    }
    while i < lines.len()
        invariant
            1 <= i <= lines@.len(),
            lines@.len() >= 1,
            body == lines.deep_view().drop_first(),
            body.len() == lines@.len() - 1,
            forall|k: int| 0 <= k < body.len() ==> body[k] == lines.deep_view()[k + 1],
            out.deep_view() == spec_boxes_of_lines(body.take(i - 1)),
        decreases lines@.len() - i,
    {
        let line = &lines[i];
        proof {
            assert(body.take(i as int) =~= body.take(i - 1).push(line@));
            lemma_boxes_push(body.take(i - 1), line@);
        }
        let ghost pre = out.deep_view();
        let cols = split_char(line.as_str(), '|');
        if cols.len() >= 2 {
            let name = trim_spaces(cols[1].as_str());
            out.push(name);
            proof {
                assert(out.deep_view() =~= pre.push(spec_trim(spec_split(line@, '|')[1])));
            }
        }
        proof {
            assert(out.deep_view() =~= spec_boxes_of_lines(body.take(i as int)));
        }
        i = i + 1;
    }
    proof {
        assert(body.take(lines@.len() - 1) =~= body);
    }
    out
}

/// The listing command whose output `list` parses.
pub fn list_command() -> (r: String)
    ensures
        r@ == "distrobox list --no-color"@,
{
    "distrobox list --no-color".to_owned()
}

/// The command that upgrades one container.
pub fn upgrade(name: &str) -> (r: String)
    ensures
        r@ == "distrobox upgrade "@ + name@,
{
    let mut cmd = "distrobox upgrade ".to_owned();
    cmd.append(name);
    cmd
}

pub open spec fn spec_announce_status(name: Seq<char>) -> Seq<char> {
    "Upgrading distrobox "@ + name + "..."@
}

pub open spec fn spec_fail_status(name: Seq<char>) -> Seq<char> {
    "Failed to upgrade distrobox "@ + name
}

/// The distrobox update as a step machine: one container's upgrade command
/// runs at a time.
pub struct DistroboxRun {
    pub boxes: Vec<String>,
    /// The container whose upgrade command is running.
    pub awaiting: usize,
    /// The percent accumulated before that container completes.
    pub progress: u32,
    /// The percent share of one container.
    pub step: u32,
    pub done: bool,
}

impl DistroboxRun {
    pub open spec fn wf(self) -> bool {
        &&& self.step as int == crate::spec_share(self.boxes@.len() as int)
        &&& (!self.done ==> self.awaiting < self.boxes@.len())
        &&& (!self.done ==> self.progress as int == self.step as int * self.awaiting as int)
        &&& self.progress <= 100
    }

    /// The machine state after one upgrade outcome. The state moves the
    /// same way whatever the command reported: the percent advances by one
    /// share, and the next container is taken up, or the run is done after
    /// the last.
    pub open spec fn spec_run_next(self) -> DistroboxRun {
        if self.awaiting + 1 < self.boxes@.len() {
            DistroboxRun {
                awaiting: (self.awaiting + 1) as usize,
                progress: (self.progress + self.step) as u32,
                ..self
            }
        } else {
            DistroboxRun { done: true, progress: (self.progress + self.step) as u32, ..self }
        }
    }

    /// How many upgrade outcomes remain before the run is done.
    pub open spec fn spec_steps_left(self) -> int {
        self.boxes@.len() - self.awaiting
    }
}

/// The machine state after `k` upgrade outcomes.
pub open spec fn spec_run_after(run: DistroboxRun, k: int) -> DistroboxRun
    decreases k,
{
    if k <= 0 {
        run
    } else {
        spec_run_after(run, k - 1).spec_run_next()
    }
}

/// Law: a distrobox run always reaches its end and the terminal record with
/// it. From any live state the machine is done after exactly as many
/// outcomes as containers remain — and `on_result` fixes that finishing
/// step's last record at 100 percent, the terminal record, so a consumer
/// draining the records eventually observes one within this plugin's run.
/// (The orchestrator separately synthesizes a terminal record for any
/// plugin whose channel closes without one.)
pub proof fn lemma_distrobox_run_terminates(run: DistroboxRun, k: int)
    requires
        !run.done,
        run.awaiting < run.boxes@.len(),
        run.boxes@.len() <= usize::MAX,
        0 <= k <= run.spec_steps_left(),
    ensures
        spec_run_after(run, k).boxes == run.boxes,
        spec_run_after(run, k).awaiting == (if k < run.spec_steps_left() {
            run.awaiting + k
        } else {
            run.boxes@.len() - 1
        }),
        spec_run_after(run, k).done <==> k == run.spec_steps_left(),
    decreases k,
{
    if k > 0 {
        lemma_distrobox_run_terminates(run, k - 1);
    }
}

fn make_record(progress: u32) -> (r: PluginProgress)
    ensures
        r.name@ == "distrobox"@,
        r.progress == progress,
        !r.pulse,
        !r.reboot_required,
        r.status@ == Seq::<char>::empty(),
        r.stdout is None,
        r.stderr is None,
{
    let mut rec = PluginProgress::new("distrobox");
    rec.progress = progress;
    rec
}

fn make_announce(name: &str, progress: u32) -> (r: PluginProgress)
    ensures
        r.name@ == "distrobox"@,
        r.progress == progress,
        !r.pulse,
        !r.reboot_required,
        r.status@ == spec_announce_status(name@),
        r.stdout is None,
        r.stderr is None,
{
    let mut rec = make_record(progress);
    let mut s = "Upgrading distrobox ".to_owned();
    s.append(name);
    s.append("...");
    proof {
        assert(s@ =~= spec_announce_status(name@));
    }
    rec.status = s;
    rec
}

fn make_final() -> (r: PluginProgress)
    ensures
        r.name@ == "distrobox"@,
        r.progress == 100,
        !r.pulse,
        !r.reboot_required,
        r.status@ == "Upgrade completed!"@,
        r.stdout is None,
        r.stderr is None,
{
    let mut rec = make_record(100);
    rec.status = "Upgrade completed!".to_owned();
    rec
}

impl Distrobox {
    /// Begin upgrading the listed containers. With none to upgrade the
    /// update completes at once; otherwise the first container's upgrade is
    /// announced and its command requested.
    pub fn begin(&self, boxes: Vec<String>) -> (r: (
        DistroboxRun,
        Vec<PluginProgress>,
        ProviderAction,
    ))
        ensures
            r.0.wf(),
            r.0.boxes@ == boxes@,
            r.1@.len() == 1,
            r.1@[0].name@ == "distrobox"@,
            !r.1@[0].pulse,
            boxes@.len() == 0 ==> {
                &&& r.0.done
                &&& r.1@[0].progress == 100
                &&& r.1@[0].status@ == "Upgrade completed!"@
                &&& r.1@[0].stdout is None
                &&& r.1@[0].stderr is None
                &&& r.2 == ProviderAction::Finish(true)
            },
            boxes@.len() > 0 ==> {
                &&& !r.0.done
                &&& r.0.awaiting == 0
                &&& r.0.progress == 0
                &&& r.1@[0].progress == 0
                &&& r.1@[0].status@ == spec_announce_status(boxes@[0]@)
                &&& r.1@[0].stdout is None
                &&& r.1@[0].stderr is None
                &&& (r.2 matches ProviderAction::Run(cmd) && cmd@ == "distrobox upgrade "@
                    + boxes@[0]@)
            },
    {
        let n: usize = boxes.len();
        let step: u32 = if n > 0 {
            (100usize / n) as u32
        } else {
            100
        };
        let mut records: Vec<PluginProgress> = Vec::new();
        if n == 0 {
            records.push(make_final());
            let run = DistroboxRun { boxes, awaiting: 0, progress: 0, step, done: true };
            (run, records, ProviderAction::Finish(true))
        } else {
            let first = make_announce(boxes[0].as_str(), 0);
            records.push(first);
            let cmd = upgrade(boxes[0].as_str());
            let run = DistroboxRun { boxes, awaiting: 0, progress: 0, step, done: false };
            (run, records, ProviderAction::Run(cmd))
        }
    }
}

impl DistroboxRun {
    /// Take the outcome of the running container's upgrade. A failure is
    /// reported against that container and the update continues; the
    /// percent advances by one share either way; then the next container is
    /// announced and requested, or the update completes at 100.
    pub fn on_result(&mut self, stdout: &str, stderr: &str, rc: i32) -> (r: (
        Vec<PluginProgress>,
        ProviderAction,
    ))
        requires
            old(self).wf(),
            !old(self).done,
        ensures
            final(self).wf(),
            *final(self) == old(self).spec_run_next(),
            final(self).boxes@ == old(self).boxes@,
            final(self).step == old(self).step,
            r.0@.len() == (if rc != 0 {
                3int
            } else {
                2int
            }),
            forall|i: int|
                0 <= i < r.0@.len() ==> (#[trigger] r.0@[i]).name@ == "distrobox"@
                    && !r.0@[i].pulse && !r.0@[i].reboot_required,
            rc != 0 ==> {
                &&& r.0@[0].status@ == spec_fail_status(
                    old(self).boxes@[old(self).awaiting as int]@,
                )
                &&& r.0@[0].progress == old(self).progress
                &&& r.0@[0].stdout is None
                &&& (r.0@[0].stderr matches Some(e) && e@ == stderr@)
            },
            ({
                let p = r.0@[r.0@.len() - 2];
                &&& p.progress == old(self).progress + old(self).step
                &&& p.status@ == (if rc != 0 {
                    spec_fail_status(old(self).boxes@[old(self).awaiting as int]@)
                } else {
                    spec_announce_status(old(self).boxes@[old(self).awaiting as int]@)
                })
                &&& (p.stdout matches Some(s) && s@ == stdout@)
                &&& ((rc != 0 || stderr@.len() > 0) ==> (p.stderr matches Some(e) && e@
                    == stderr@))
                &&& ((rc == 0 && stderr@.len() == 0) ==> p.stderr is None)
            }),
            old(self).awaiting + 1 < old(self).boxes@.len() ==> {
                &&& !final(self).done
                &&& final(self).awaiting == old(self).awaiting + 1
                &&& final(self).progress == old(self).progress + old(self).step
                &&& r.0@.last().status@ == spec_announce_status(
                    old(self).boxes@[old(self).awaiting + 1]@,
                )
                &&& r.0@.last().progress == old(self).progress + old(self).step
                &&& (r.1 matches ProviderAction::Run(cmd) && cmd@ == "distrobox upgrade "@
                    + old(self).boxes@[old(self).awaiting + 1]@)
            },
            old(self).awaiting + 1 < old(self).boxes@.len() ==> (r.0@.last().stdout is None
                && r.0@.last().stderr is None),
            old(self).awaiting + 1 == old(self).boxes@.len() ==> {
                &&& final(self).done
                &&& r.0@.last().progress == 100
                &&& r.0@.last().status@ == "Upgrade completed!"@
                &&& r.0@.last().stdout is None
                &&& r.0@.last().stderr is None
                &&& r.1 == ProviderAction::Finish(true)
            },
    {
        proof {
            crate::lemma_share_bound(self.boxes@.len() as int, self.awaiting + 1);
            assert(self.step as int * (self.awaiting as int) + self.step as int == self.step as int
                * (self.awaiting as int + 1)) by (nonlinear_arith);
        }
        let name = self.boxes[self.awaiting].as_str();
        let mut records: Vec<PluginProgress> = Vec::new();
        if rc != 0 {
            let mut fail = make_record(self.progress);
            let mut s = "Failed to upgrade distrobox ".to_owned();
            s.append(name);
            proof {
                assert(s@ =~= spec_fail_status(name@));
            }
            fail.status = s;
            fail.stderr = Some(stderr.to_owned());
            records.push(fail);
        }
        let new_progress: u32 = self.progress + self.step;
        let mut p = make_record(new_progress);
        let mut s = if rc != 0 {
            let mut s = "Failed to upgrade distrobox ".to_owned();
            s.append(name);
            proof {
                assert(s@ =~= spec_fail_status(name@));
            }
            s
        } else {
            let mut s = "Upgrading distrobox ".to_owned();
            s.append(name);
            s.append("...");
            proof {
                assert(s@ =~= spec_announce_status(name@));
            }
            s
        };
        p.status = s;
        p.stdout = Some(stdout.to_owned());
        if rc != 0 || stderr.unicode_len() > 0 {
            p.stderr = Some(stderr.to_owned());
        }
        records.push(p);
        self.progress = new_progress;
        let total: usize = self.boxes.len();
        assert(self.awaiting < total);
        if self.awaiting + 1 < total {
            self.awaiting = self.awaiting + 1;
            let next_name = self.boxes[self.awaiting].as_str();
            records.push(make_announce(next_name, new_progress));
            let cmd = upgrade(next_name);
            (records, ProviderAction::Run(cmd))
        } else {
            self.done = true;
            records.push(make_final());
            (records, ProviderAction::Finish(true))
        }
    }
}

} // verus!
