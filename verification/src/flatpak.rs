//! The flatpak plugin: list the system and user flatpaks with updates, then
//! upgrade each in turn, advancing the percent by an equal share per
//! flatpak.
use vstd::prelude::*;

use crate::strutil::{spec_lines, split_lines};
use crate::{Plugin, PluginProgress, ProviderAction};

verus! {

/// The flatpak plugin.
pub struct Flatpak;

impl Plugin for Flatpak {
    open spec fn spec_name(&self) -> Seq<char> {
        "flatpak"@
    }

    open spec fn spec_description(&self) -> Seq<char> {
        "Update user and system flatpaks."@
    }

    open spec fn spec_version(&self) -> Seq<char> {
        "0.1.0"@
    }

    /// flatpak declares itself exclusive: it conflicts with every other
    /// plugin.
    open spec fn spec_conflicts(&self, plugin_name: Seq<char>) -> bool {
        true
    }

    fn name(&self) -> (r: &str) {
        "flatpak"
    }

    fn description(&self) -> (r: &str) {
        "Update user and system flatpaks."
    }

    fn version(&self) -> (r: &str) {
        "0.1.0"
    }

    fn conflicts(&self, plugin_name: &str) -> (r: bool) {
        true
    }
}

/// The application names in the listing command's output: every line but
/// the first.
pub open spec fn spec_list_updates(stdout: Seq<char>) -> Seq<Seq<char>> {
    if spec_lines(stdout).len() == 0 {
        Seq::empty()
    } else {
        spec_lines(stdout).drop_first()
    }
}

/// The command that lists the applications with updates in one
/// installation.
pub fn list_updates_command(system: bool) -> (r: String)
    ensures
        system ==> r@ == "flatpak remote-ls --updates --columns=application --system"@,
        !system ==> r@ == "flatpak remote-ls --updates --columns=application --user"@,
{
    if system {
        "flatpak remote-ls --updates --columns=application --system".to_owned()
    } else {
        "flatpak remote-ls --updates --columns=application --user".to_owned()
    }
}

/// Parse the listing command's output into application names, skipping the
/// leading line.
pub fn list_updates(stdout: &str) -> (r: Vec<String>)
    ensures
        r.deep_view() == spec_list_updates(stdout@),
{
    let mut lines = split_lines(stdout);
    let ghost all = lines.deep_view();
    if lines.len() == 0 {
        proof {
            assert(lines.deep_view() =~= spec_list_updates(stdout@));
        }
        return lines;
    }
    lines.remove(0);
    proof {
        assert(lines.deep_view() =~= all.drop_first());
    }
    lines
}

/// The command that upgrades one flatpak.
pub fn upgrade_flatpak(name: &str) -> (r: String)
    ensures
        r@ == "flatpak update --noninteractive -y "@ + name@,
{
    let mut cmd = "flatpak update --noninteractive -y ".to_owned();
    cmd.append(name);
    cmd
}

pub open spec fn spec_flatpak_announce(installation: Seq<char>, name: Seq<char>) -> Seq<char> {
    "Upgrading "@ + installation + " flatpak "@ + name + "..."@
}

pub open spec fn spec_flatpak_fail(installation: Seq<char>, name: Seq<char>) -> Seq<char> {
    "Failed to upgrade "@ + installation + " flatpak "@ + name
}

/// The flatpak update as a step machine: the system flatpaks are upgraded
/// first, then the user flatpaks, one command at a time.
pub struct FlatpakRun {
    pub system: Vec<String>,
    pub user: Vec<String>,
    /// Position of the flatpak whose upgrade command is running, counting
    /// through the system list and then the user list.
    pub awaiting: usize,
    /// The percent accumulated before that flatpak completes.
    pub progress: u32,
    /// The percent share of one flatpak.
    pub step: u32,
    pub done: bool,
}

impl FlatpakRun {
    /// How many flatpaks the run upgrades in all.
    pub open spec fn spec_total(self) -> int {
        self.system@.len() + self.user@.len() as int
    }

    /// The name of the flatpak at position `i`.
    pub open spec fn spec_item(self, i: int) -> Seq<char> {
        if i < self.system@.len() {
            self.system@[i]@
        } else {
            self.user@[i - self.system@.len()]@
        }
    }

    /// The installation label of the flatpak at position `i`.
    pub open spec fn spec_installation(self, i: int) -> Seq<char> {
        if i < self.system@.len() {
            "system"@
        } else {
            "user"@
        }
    }

    pub open spec fn wf(self) -> bool {
        &&& self.spec_total() <= usize::MAX
        &&& self.step as int == crate::spec_share(self.spec_total())
        &&& (!self.done ==> self.awaiting < self.spec_total())
        &&& (!self.done ==> self.progress as int == self.step as int * self.awaiting as int)
        &&& self.progress <= 100
    }
}

fn make_record(progress: u32) -> (r: PluginProgress)
    ensures
        r.name@ == "flatpak"@,
        r.progress == progress,
        !r.pulse,
        !r.reboot_required,
        r.status@ == Seq::<char>::empty(),
        r.stdout is None,
        r.stderr is None,
{
    let mut rec = PluginProgress::new("flatpak");
    rec.progress = progress;
    rec
}

fn announce_status(installation: &str, name: &str) -> (r: String)
    ensures
        r@ == spec_flatpak_announce(installation@, name@),
{
    let mut s = "Upgrading ".to_owned();
    s.append(installation);
    s.append(" flatpak ");
    s.append(name);
    s.append("...");
    proof {
        assert(s@ =~= spec_flatpak_announce(installation@, name@));
    }
    s
}

fn fail_status(installation: &str, name: &str) -> (r: String)
    ensures
        r@ == spec_flatpak_fail(installation@, name@),
{
    let mut s = "Failed to upgrade ".to_owned();
    s.append(installation);
    s.append(" flatpak ");
    s.append(name);
    proof {
        assert(s@ =~= spec_flatpak_fail(installation@, name@));
    }
    s
}

fn make_final() -> (r: PluginProgress)
    ensures
        r.name@ == "flatpak"@,
        r.progress == 100,
        !r.pulse,
        !r.reboot_required,
        r.status@ == "Upgrade completed!"@,
        r.stdout is None,
        r.stderr is None,
{
    let mut rec = make_record(100);
    rec.status = "Upgrade completed!".to_owned();
    rec
}

impl FlatpakRun {
    /// The item at position `i`, with its installation label.
    fn item(&self, i: usize) -> (r: (&String, &'static str))
        requires
            self.wf(),
            i < self.spec_total(),
        ensures
            r.0@ == self.spec_item(i as int),
            r.1@ == self.spec_installation(i as int),
    {
        if i < self.system.len() {
            (&self.system[i], "system")
        } else {
            (&self.user[i - self.system.len()], "user")
        }
    }
}

impl Flatpak {
    /// Begin upgrading the listed flatpaks, system ones first. With none to
    /// upgrade the update completes at once; otherwise the first flatpak's
    /// upgrade is announced and its command requested, after the general
    /// announcement.
    pub fn begin(&self, system: Vec<String>, user: Vec<String>) -> (r: (
        FlatpakRun,
        Vec<PluginProgress>,
        ProviderAction,
    ))
        requires
            system@.len() + user@.len() <= usize::MAX,
        ensures
            r.0.wf(),
            r.0.system@ == system@,
            r.0.user@ == user@,
            r.1@.len() == 2,
            r.1@[0].progress == 0,
            r.1@[0].status@ == "Upgrading flatpaks..."@,
            r.1@[0].stdout is None,
            r.1@[0].stderr is None,
            r.1@[0].name@ == "flatpak"@,
            !r.1@[0].pulse,
            r.1@[1].name@ == "flatpak"@,
            !r.1@[1].pulse,
            system@.len() + user@.len() == 0 ==> {
                &&& r.0.done
                &&& r.1@[1].progress == 100
                &&& r.1@[1].status@ == "Upgrade completed!"@
                &&& r.1@[1].stdout is None
                &&& r.1@[1].stderr is None
                &&& r.2 == ProviderAction::Finish(true)
            },
            system@.len() + user@.len() > 0 ==> {
                &&& !r.0.done
                &&& r.0.awaiting == 0
                &&& r.0.progress == 0
                &&& r.1@[1].progress == 0
                &&& r.1@[1].status@ == spec_flatpak_announce(
                    r.0.spec_installation(0),
                    r.0.spec_item(0),
                )
                &&& (r.2 matches ProviderAction::Run(cmd) && cmd@
                    == "flatpak update --noninteractive -y "@ + r.0.spec_item(0))
            },
    {
        let n: usize = system.len() + user.len();
        let step: u32 = if n > 0 {
            (100usize / n) as u32
        } else {
            100
        };
        let mut records: Vec<PluginProgress> = Vec::new();
        let mut general = make_record(0);
        general.status = "Upgrading flatpaks...".to_owned();
        records.push(general);
        let run = FlatpakRun { system, user, awaiting: 0, progress: 0, step, done: n == 0 };
        if n == 0 {
            records.push(make_final());
            (run, records, ProviderAction::Finish(true))
        } else {
            let (name, installation) = run.item(0);
            let mut announce = make_record(0);
            announce.status = announce_status(installation, name.as_str());
            let cmd = upgrade_flatpak(name.as_str());
            records.push(announce);
            (run, records, ProviderAction::Run(cmd))
        }
    }
}

impl FlatpakRun {
    /// Take the outcome of the running flatpak's upgrade. A failure is
    /// reported against that flatpak and the update continues; the percent
    /// advances by one share either way; then the next flatpak is announced
    /// and requested, or the update completes at 100.
    pub fn on_result(&mut self, stdout: &str, stderr: &str, rc: i32) -> (r: (
        Vec<PluginProgress>,
        ProviderAction,
    ))
        requires
            old(self).wf(),
            !old(self).done,
        ensures
            final(self).wf(),
            final(self).system@ == old(self).system@,
            final(self).user@ == old(self).user@,
            final(self).step == old(self).step,
            r.0@.len() == (if rc != 0 {
                3int
            } else {
                2int
            }),
            forall|i: int|
                0 <= i < r.0@.len() ==> (#[trigger] r.0@[i]).name@ == "flatpak"@
                    && !r.0@[i].pulse && !r.0@[i].reboot_required,
            rc != 0 ==> {
                &&& r.0@[0].status@ == spec_flatpak_fail(
                    old(self).spec_installation(old(self).awaiting as int),
                    old(self).spec_item(old(self).awaiting as int),
                )
                &&& r.0@[0].progress == old(self).progress
                &&& r.0@[0].stdout is None
                &&& (r.0@[0].stderr matches Some(e) && e@ == stderr@)
            },
            ({
                let p = r.0@[r.0@.len() - 2];
                &&& p.progress == old(self).progress + old(self).step
                &&& p.status@ == (if rc != 0 {
                    spec_flatpak_fail(
                        old(self).spec_installation(old(self).awaiting as int),
                        old(self).spec_item(old(self).awaiting as int),
                    )
                } else {
                    spec_flatpak_announce(
                        old(self).spec_installation(old(self).awaiting as int),
                        old(self).spec_item(old(self).awaiting as int),
                    )
                })
                &&& (p.stdout matches Some(s) && s@ == stdout@)
                &&& ((rc != 0 || stderr@.len() > 0) ==> (p.stderr matches Some(e) && e@
                    == stderr@))
                &&& ((rc == 0 && stderr@.len() == 0) ==> p.stderr is None)
            }),
            old(self).awaiting + 1 < old(self).spec_total() ==> {
                &&& !final(self).done
                &&& final(self).awaiting == old(self).awaiting + 1
                &&& final(self).progress == old(self).progress + old(self).step
                &&& r.0@.last().status@ == spec_flatpak_announce(
                    old(self).spec_installation(old(self).awaiting + 1),
                    old(self).spec_item(old(self).awaiting + 1),
                )
                &&& r.0@.last().progress == old(self).progress + old(self).step
                &&& (r.1 matches ProviderAction::Run(cmd) && cmd@
                    == "flatpak update --noninteractive -y "@ + old(self).spec_item(
                    old(self).awaiting + 1,
                ))
            },
            old(self).awaiting + 1 < old(self).spec_total() ==> (r.0@.last().stdout is None
                && r.0@.last().stderr is None),
            old(self).awaiting + 1 == old(self).spec_total() ==> {
                &&& final(self).done
                &&& r.0@.last().progress == 100
                &&& r.0@.last().status@ == "Upgrade completed!"@
                &&& r.0@.last().stdout is None
                &&& r.0@.last().stderr is None
                &&& r.1 == ProviderAction::Finish(true)
            },
    {
        proof {
            crate::lemma_share_bound(self.spec_total(), self.awaiting + 1);
            assert(self.step as int * (self.awaiting as int) + self.step as int == self.step as int
                * (self.awaiting as int + 1)) by (nonlinear_arith);
        }
        let total: usize = self.system.len() + self.user.len();
        let mut records: Vec<PluginProgress> = Vec::new();
        if rc != 0 {
            let mut fail = make_record(self.progress);
            let (name, installation) = self.item(self.awaiting);
            fail.status = fail_status(installation, name.as_str());
            fail.stderr = Some(stderr.to_owned());
            records.push(fail);
        }
        let new_progress: u32 = self.progress + self.step;
        let mut p = make_record(new_progress);
        {
            let (name, installation) = self.item(self.awaiting);
            p.status = if rc != 0 {
                fail_status(installation, name.as_str())
            } else {
                announce_status(installation, name.as_str())
            };
        }
        p.stdout = Some(stdout.to_owned());
        if rc != 0 || stderr.unicode_len() > 0 {
            p.stderr = Some(stderr.to_owned());
        }
        records.push(p);
        self.progress = new_progress;
        assert(self.awaiting < total);
        if self.awaiting + 1 < total {
            self.awaiting = self.awaiting + 1;
            let (name, installation) = self.item(self.awaiting);
            let mut announce = make_record(new_progress);
            announce.status = announce_status(installation, name.as_str());
            let cmd = upgrade_flatpak(name.as_str());
            records.push(announce);
            (records, ProviderAction::Run(cmd))
        } else {
            self.done = true;
            records.push(make_final());
            (records, ProviderAction::Finish(true))
        }
    }
}

} // verus!
