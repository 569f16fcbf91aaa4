//! The brew plugin: refresh brew itself, list the outdated formulae and
//! casks, then upgrade each in turn, advancing the percent by an equal
//! share per package after the two fixed opening steps.
use vstd::prelude::*;

use crate::{Plugin, PluginProgress, ProviderAction};

verus! {

/// One outdated package in the listing command's report, formula or cask.
#[derive(Clone, Debug)]
pub struct Formulae {
    pub name: String,
    pub installed_versions: Vec<String>,
    pub current_version: String,
    pub pinned: bool,
    pub pinned_version: Option<String>,
}

impl Formulae {
    /// An empty entry: no name, no versions, not pinned.
    pub fn new() -> (r: Formulae)
        ensures
            r.name@ == Seq::<char>::empty(),
            r.installed_versions@ == Seq::<String>::empty(),
            r.current_version@ == Seq::<char>::empty(),
            !r.pinned,
            r.pinned_version is None,
    {
        Formulae {
            name: String::new(),
            installed_versions: Vec::new(),
            current_version: String::new(),
            pinned: false,
            pinned_version: None,
        }
    }
}

impl Default for Formulae {
    fn default() -> (r: Formulae)
        ensures
            r.name@ == Seq::<char>::empty(),
            r.installed_versions@ == Seq::<String>::empty(),
            r.current_version@ == Seq::<char>::empty(),
            !r.pinned,
            r.pinned_version is None,
    {
        Formulae::new()
    }
}

/// The listing command's report: the outdated formulae and casks.
#[derive(Clone, Debug)]
pub struct Outdated {
    pub formulae: Vec<Formulae>,
    pub casks: Vec<Formulae>,
}

impl Outdated {
    /// An empty report.
    pub fn new() -> (r: Outdated)
        ensures
            r.formulae@ == Seq::<Formulae>::empty(),
            r.casks@ == Seq::<Formulae>::empty(),
    {
        Outdated { formulae: Vec::new(), casks: Vec::new() }
    }
}

impl Default for Outdated {
    fn default() -> (r: Outdated)
        ensures
            r.formulae@ == Seq::<Formulae>::empty(),
            r.casks@ == Seq::<Formulae>::empty(),
    {
        Outdated::new()
    }
}

/// The brew plugin.
pub struct Brew;

impl Plugin for Brew {
    open spec fn spec_name(&self) -> Seq<char> {
        "brew"@
    }

    open spec fn spec_description(&self) -> Seq<char> {
        "Update and upgrade formulae and casks via brew."@
    }

    open spec fn spec_version(&self) -> Seq<char> {
        "0.1.0"@
    }

    /// brew only conflicts with uupd, which would update brew packages
    /// itself.
    open spec fn spec_conflicts(&self, plugin_name: Seq<char>) -> bool {
        plugin_name == "uupd"@
    }

    fn name(&self) -> (r: &str) {
        "brew"
    }

    fn description(&self) -> (r: &str) {
        "Update and upgrade formulae and casks via brew."
    }

    fn version(&self) -> (r: &str) {
        "0.1.0"
    }

    fn conflicts(&self, plugin_name: &str) -> (r: bool) {
        crate::strutil::str_eq(plugin_name, "uupd")
    }
}

/// The command that refreshes brew's package lists.
pub fn update() -> (r: String)
    ensures
        r@ == "brew update"@,
{
    "brew update".to_owned()
}

/// The command that reports the outdated packages as JSON.
pub fn get_outdated() -> (r: String)
    ensures
        r@ == "brew outdated --json"@,
{
    "brew outdated --json".to_owned()
}

/// The command that upgrades one formula.
pub fn upgrade_formulae(formula: &str) -> (r: String)
    ensures
        r@ == "brew upgrade "@ + formula@,
{
    let mut cmd = "brew upgrade ".to_owned();
    cmd.append(formula);
    cmd
}

/// The command that upgrades one cask.
pub fn upgrade_cask(cask: &str) -> (r: String)
    ensures
        r@ == "brew upgrade --cask "@ + cask@,
{
    let mut cmd = "brew upgrade --cask ".to_owned();
    cmd.append(cask);
    cmd
}

/// A percent capped at the contract's ceiling of 100.
pub open spec fn spec_brew_capped(p: int) -> int {
    if p > 100 {
        100int
    } else {
        p
    }
}

pub open spec fn spec_brew_announce(kind: Seq<char>, name: Seq<char>) -> Seq<char> {
    "Upgrading "@ + kind + " "@ + name + "..."@
}

pub open spec fn spec_brew_fail(kind: Seq<char>, name: Seq<char>) -> Seq<char> {
    "Failed to upgrade "@ + kind + " "@ + name
}

/// Where the brew update stands.
#[derive(Clone, Copy, Debug, PartialEq, Eq, Structural)]
pub enum BrewPhase {
    /// The refresh command is running.
    Update,
    /// The outdated-listing command is running.
    Outdated,
    /// One package's upgrade command is running.
    Upgrading,
    /// The update ended, successfully or not.
    Finished,
}

/// The brew update as a step machine: the formulae are upgraded first, then
/// the casks, one command at a time.
pub struct BrewRun {
    pub phase: BrewPhase,
    pub formulae: Vec<Formulae>,
    pub casks: Vec<Formulae>,
    /// Position of the package whose upgrade command is running, counting
    /// through the formulae and then the casks.
    pub awaiting: usize,
    /// The percent accumulated before that package completes.
    pub progress: u32,
    /// The percent share of one package.
    pub step: u32,
}

impl BrewRun {
    /// How many packages the run upgrades in all.
    pub open spec fn spec_total(self) -> int {
        self.formulae@.len() + self.casks@.len() as int
    }

    /// The name of the package at position `i`.
    pub open spec fn spec_item(self, i: int) -> Seq<char> {
        if i < self.formulae@.len() {
            self.formulae@[i].name@
        } else {
            self.casks@[i - self.formulae@.len()].name@
        }
    }

    /// The kind label of the package at position `i`.
    pub open spec fn spec_kind(self, i: int) -> Seq<char> {
        if i < self.formulae@.len() {
            "formulae"@
        } else {
            "cask"@
        }
    }

    /// The upgrade command for the package at position `i`.
    pub open spec fn spec_upgrade_command(self, i: int) -> Seq<char> {
        if i < self.formulae@.len() {
            "brew upgrade "@ + self.spec_item(i)
        } else {
            "brew upgrade --cask "@ + self.spec_item(i)
        }
    }

    pub open spec fn wf(self) -> bool {
        &&& (self.phase is Upgrading ==> {
            &&& self.spec_total() <= usize::MAX
            &&& self.awaiting < self.spec_total()
            &&& self.step as int == crate::spec_share(self.spec_total())
            &&& self.progress as int == spec_brew_capped(
                10 + self.step as int * self.awaiting as int,
            )
        })
        &&& self.progress <= 100
    }
}

fn make_record(progress: u32) -> (r: PluginProgress)
    ensures
        r.name@ == "brew"@,
        r.progress == progress,
        !r.pulse,
        !r.reboot_required,
        r.status@ == Seq::<char>::empty(),
        r.stdout is None,
        r.stderr is None,
{
    let mut rec = PluginProgress::new("brew");
    rec.progress = progress;
    rec
}

fn announce_status(kind: &str, name: &str) -> (r: String)
    ensures
        r@ == spec_brew_announce(kind@, name@),
{
    let mut s = "Upgrading ".to_owned();
    s.append(kind);
    s.append(" ");
    s.append(name);
    s.append("...");
    proof {
        assert(s@ =~= spec_brew_announce(kind@, name@));
    }
    s
}

fn fail_status(kind: &str, name: &str) -> (r: String)
    ensures
        r@ == spec_brew_fail(kind@, name@),
{
    let mut s = "Failed to upgrade ".to_owned();
    s.append(kind);
    s.append(" ");
    s.append(name);
    proof {
        assert(s@ =~= spec_brew_fail(kind@, name@));
    }
    s
}

impl BrewRun {
    /// The package at position `i`, with its kind label.
    fn item(&self, i: usize) -> (r: (&String, &'static str))
        requires
            i < self.spec_total(),
            self.spec_total() <= usize::MAX,
        ensures
            r.0@ == self.spec_item(i as int),
            r.1@ == self.spec_kind(i as int),
    {
        if i < self.formulae.len() {
            (&self.formulae[i].name, "formulae")
        } else {
            (&self.casks[i - self.formulae.len()].name, "cask")
        }
    }

    /// The upgrade command for the package at position `i`.
    fn upgrade_command(&self, i: usize) -> (r: String)
        requires
            i < self.spec_total(),
            self.spec_total() <= usize::MAX,
        ensures
            r@ == self.spec_upgrade_command(i as int),
    {
        if i < self.formulae.len() {
            upgrade_formulae(self.formulae[i].name.as_str())
        } else {
            upgrade_cask(self.casks[i - self.formulae.len()].name.as_str())
        }
    }
}

impl Brew {
    /// Begin an update: announce the refresh at five percent and ask for the
    /// refresh command.
    pub fn start(&self) -> (r: (BrewRun, PluginProgress, String))
        ensures
            r.0.wf(),
            r.0.phase is Update,
            r.1.name@ == "brew"@,
            r.1.progress == 5,
            !r.1.pulse,
            !r.1.reboot_required,
            r.1.status@ == "Updating brew..."@,
            r.1.stdout is None,
            r.1.stderr is None,
            r.2@ == "brew update"@,
    {
        let mut rec = make_record(5);
        rec.status = "Updating brew...".to_owned();
        let run = BrewRun {
            phase: BrewPhase::Update,
            formulae: Vec::new(),
            casks: Vec::new(),
            awaiting: 0,
            progress: 5,
            step: 0,
        };
        (run, rec, update())
    }
}

impl BrewRun {
    /// Take the refresh command's outcome. A failure ends the update as
    /// failed with the captured standard error; otherwise the outdated
    /// listing is requested at ten percent, with the refresh output
    /// surfaced.
    pub fn on_update_result(&mut self, stdout: &str, stderr: &str, rc: i32) -> (r: (
        PluginProgress,
        ProviderAction,
    ))
        requires
            old(self).wf(),
            old(self).phase is Update,
        ensures
            final(self).wf(),
            r.0.name@ == "brew"@,
            !r.0.pulse,
            !r.0.reboot_required,
            rc != 0 ==> {
                &&& final(self).phase is Finished
                &&& r.0.progress == 5
                &&& r.0.status@ == "Failed to update brew"@
                &&& r.0.stdout is None
                &&& (r.0.stderr matches Some(e) && e@ == stderr@)
                &&& r.1 == ProviderAction::Finish(false)
            },
            rc == 0 ==> {
                &&& final(self).phase is Outdated
                &&& final(self).progress == 10
                &&& r.0.progress == 10
                &&& r.0.status@ == "Getting outdated packages..."@
                &&& (r.0.stdout matches Some(s) && s@ == stdout@)
                &&& r.0.stderr is None
                &&& (r.1 matches ProviderAction::Run(cmd) && cmd@ == "brew outdated --json"@)
            },
    {
        if rc != 0 {
            self.phase = BrewPhase::Finished;
            let mut rec = make_record(5);
            rec.status = "Failed to update brew".to_owned();
            rec.stderr = Some(stderr.to_owned());
            (rec, ProviderAction::Finish(false))
        } else {
            self.phase = BrewPhase::Outdated;
            self.progress = 10;
            let mut rec = make_record(10);
            rec.status = "Getting outdated packages...".to_owned();
            rec.stdout = Some(stdout.to_owned());
            (rec, ProviderAction::Run(get_outdated()))
        }
    }

    /// Take the outdated listing's outcome, already parsed. A failed command
    /// or an unreadable report ends the update as failed; an empty report
    /// completes it at once; otherwise the first package's upgrade is
    /// announced and requested.
    pub fn on_outdated_result(&mut self, outdated: Option<Outdated>, stderr: &str, rc: i32) -> (r:
        (PluginProgress, ProviderAction))
        requires
            old(self).wf(),
            old(self).phase is Outdated,
            old(self).progress == 10,
            outdated matches Some(o) ==> o.formulae@.len() + o.casks@.len() <= usize::MAX,
        ensures
            final(self).wf(),
            r.0.name@ == "brew"@,
            !r.0.pulse,
            !r.0.reboot_required,
            (rc != 0 || outdated is None) ==> {
                &&& final(self).phase is Finished
                &&& r.0.progress == 10
                &&& r.0.status@ == "Failed to get outdated brew"@
                &&& r.0.stdout is None
                &&& (r.0.stderr matches Some(e) && e@ == stderr@)
                &&& r.1 == ProviderAction::Finish(false)
            },
            rc == 0 && (outdated matches Some(o)) ==> {
                &&& final(self).formulae@ == outdated.unwrap().formulae@
                &&& final(self).casks@ == outdated.unwrap().casks@
                &&& r.0.stdout is None
                &&& r.0.stderr is None
            },
            rc == 0 && (outdated matches Some(o) && o.formulae@.len() + o.casks@.len() == 0)
                ==> {
                &&& final(self).phase is Finished
                &&& r.0.progress == 100
                &&& r.0.status@ == "Upgrade completed!"@
                &&& r.1 == ProviderAction::Finish(true)
            },
            rc == 0 && (outdated matches Some(o) && o.formulae@.len() + o.casks@.len() > 0)
                ==> {
                &&& final(self).phase is Upgrading
                &&& final(self).awaiting == 0
                &&& final(self).progress == 10
                &&& r.0.progress == 10
                &&& r.0.status@ == spec_brew_announce(
                    final(self).spec_kind(0),
                    final(self).spec_item(0),
                )
                &&& (r.1 matches ProviderAction::Run(cmd) && cmd@ == final(self).spec_upgrade_command(0))
            },
    {
        match outdated {
            None => {
                self.phase = BrewPhase::Finished;
                let mut rec = make_record(10);
                rec.status = "Failed to get outdated brew".to_owned();
                rec.stderr = Some(stderr.to_owned());
                (rec, ProviderAction::Finish(false))
            },
            Some(o) => {
                if rc != 0 {
                    self.phase = BrewPhase::Finished;
                    let mut rec = make_record(10);
                    rec.status = "Failed to get outdated brew".to_owned();
                    rec.stderr = Some(stderr.to_owned());
                    (rec, ProviderAction::Finish(false))
                } else {
                    let Outdated { formulae, casks } = o;
                    self.formulae = formulae;
                    self.casks = casks;
                    if self.formulae.len() == 0 && self.casks.len() == 0 {
                        self.phase = BrewPhase::Finished;
                        self.progress = 100;
                        let mut rec = make_record(100);
                        rec.status = "Upgrade completed!".to_owned();
                        (rec, ProviderAction::Finish(true))
                    } else {
                        let total: usize = self.formulae.len() + self.casks.len();
                        self.step = (100usize / total) as u32;
                        self.awaiting = 0;
                        self.phase = BrewPhase::Upgrading;
                        let mut rec = make_record(10);
                        let (name, kind) = self.item(0);
                        rec.status = announce_status(kind, name.as_str());
                        let cmd = self.upgrade_command(0);
                        (rec, ProviderAction::Run(cmd))
                    }
                }
            },
        }
    }

    /// Take the outcome of the running package's upgrade. A failure is
    /// reported against that package and the update continues; the percent
    /// advances by one share either way; then the next package is announced
    /// and requested, or the update completes at 100.
    pub fn on_upgrade_result(&mut self, stdout: &str, stderr: &str, rc: i32) -> (r: (
        Vec<PluginProgress>,
        ProviderAction,
    ))
        requires
            old(self).wf(),
            old(self).phase is Upgrading,
        ensures
            final(self).wf(),
            final(self).formulae@ == old(self).formulae@,
            final(self).casks@ == old(self).casks@,
            final(self).step == old(self).step,
            r.0@.len() == (if rc != 0 {
                3int
            } else {
                2int
            }),
            forall|i: int|
                0 <= i < r.0@.len() ==> (#[trigger] r.0@[i]).name@ == "brew"@ && !r.0@[i].pulse
                    && !r.0@[i].reboot_required && r.0@[i].progress <= 100,
            rc != 0 ==> {
                &&& r.0@[0].status@ == spec_brew_fail(
                    old(self).spec_kind(old(self).awaiting as int),
                    old(self).spec_item(old(self).awaiting as int),
                )
                &&& r.0@[0].progress == old(self).progress
                &&& r.0@[0].stdout is None
                &&& (r.0@[0].stderr matches Some(e) && e@ == stderr@)
            },
            ({
                let p = r.0@[r.0@.len() - 2];
                &&& p.progress as int == spec_brew_capped(
                    old(self).progress + old(self).step as int,
                )
                &&& p.status@ == (if rc != 0 {
                    spec_brew_fail(
                        old(self).spec_kind(old(self).awaiting as int),
                        old(self).spec_item(old(self).awaiting as int),
                    )
                } else {
                    spec_brew_announce(
                        old(self).spec_kind(old(self).awaiting as int),
                        old(self).spec_item(old(self).awaiting as int),
                    )
                })
                &&& (p.stdout matches Some(s) && s@ == stdout@)
                &&& ((rc != 0 || stderr@.len() > 0) ==> (p.stderr matches Some(e) && e@
                    == stderr@))
                &&& ((rc == 0 && stderr@.len() == 0) ==> p.stderr is None)
            }),
            old(self).awaiting + 1 < old(self).spec_total() ==> {
                &&& final(self).phase is Upgrading
                &&& final(self).awaiting == old(self).awaiting + 1
                &&& final(self).progress as int == spec_brew_capped(
                    old(self).progress + old(self).step as int,
                )
                &&& r.0@.last().status@ == spec_brew_announce(
                    old(self).spec_kind(old(self).awaiting + 1),
                    old(self).spec_item(old(self).awaiting + 1),
                )
                &&& r.0@.last().progress == final(self).progress
                &&& r.0@.last().stdout is None
                &&& r.0@.last().stderr is None
                &&& (r.1 matches ProviderAction::Run(cmd) && cmd@ == old(self).spec_upgrade_command(
                    old(self).awaiting + 1,
                ))
            },
            old(self).awaiting + 1 == old(self).spec_total() ==> {
                &&& final(self).phase is Finished
                &&& r.0@.last().progress == 100
                &&& r.0@.last().status@ == "Upgrade completed!"@
                &&& r.0@.last().stdout is None
                &&& r.0@.last().stderr is None
                &&& r.1 == ProviderAction::Finish(true)
            },
    {
        proof {
            crate::lemma_share_bound(self.spec_total(), self.awaiting as int);
            crate::lemma_share_bound(self.spec_total(), self.awaiting + 1);
            assert(self.step as int * (self.awaiting as int) + self.step as int == self.step as int
                * (self.awaiting as int + 1)) by (nonlinear_arith);
        }
        let total: usize = self.formulae.len() + self.casks.len();
        let mut records: Vec<PluginProgress> = Vec::new();
        if rc != 0 {
            let mut fail = make_record(self.progress);
            let (name, kind) = self.item(self.awaiting);
            fail.status = fail_status(kind, name.as_str());
            fail.stderr = Some(stderr.to_owned());
            records.push(fail);
        }
        let mut new_progress: u32 = self.progress + self.step;
        if new_progress > 100 {
            new_progress = 100;
        }
        let mut p = make_record(new_progress);
        {
            let (name, kind) = self.item(self.awaiting);
            p.status = if rc != 0 {
                fail_status(kind, name.as_str())
            } else {
                announce_status(kind, name.as_str())
            };
        }
        p.stdout = Some(stdout.to_owned());
        if rc != 0 || stderr.unicode_len() > 0 {
            p.stderr = Some(stderr.to_owned());
        }
        records.push(p);
        self.progress = new_progress;
        assert(self.awaiting < total);
        if self.awaiting + 1 < total {
            self.awaiting = self.awaiting + 1;
            let mut announce = make_record(new_progress);
            {
                let (name, kind) = self.item(self.awaiting);
                announce.status = announce_status(kind, name.as_str());
            }
            let cmd = self.upgrade_command(self.awaiting);
            records.push(announce);
            (records, ProviderAction::Run(cmd))
        } else {
            self.phase = BrewPhase::Finished;
            let mut last = make_record(100);
            last.status = "Upgrade completed!".to_owned();
            self.progress = 100;
            records.push(last);
            (records, ProviderAction::Finish(true))
        }
    }
}

} // verus!
