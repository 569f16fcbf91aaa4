//! The rpm-ostree plugin: download the OS update, then install it, in two
//! fixed steps of equal weight.
use vstd::prelude::*;

use crate::{Plugin, PluginProgress, ProviderAction};

verus! {

/// The rpm-ostree plugin.
pub struct RpmOstree;

impl Plugin for RpmOstree {
    open spec fn spec_name(&self) -> Seq<char> {
        "rpm-ostree"@
    }

    open spec fn spec_description(&self) -> Seq<char> {
        "Update the OS via rpm-ostree."@
    }

    open spec fn spec_version(&self) -> Seq<char> {
        "0.1.0"@
    }

    /// rpm-ostree updates the whole OS image, so it conflicts with every
    /// other plugin.
    open spec fn spec_conflicts(&self, plugin_name: Seq<char>) -> bool {
        true
    }

    fn name(&self) -> (r: &str) {
        "rpm-ostree"
    }

    fn description(&self) -> (r: &str) {
        "Update the OS via rpm-ostree."
    }

    fn version(&self) -> (r: &str) {
        "0.1.0"
    }

    fn conflicts(&self, plugin_name: &str) -> (r: bool) {
        true
    }
}

/// The command that downloads the OS update without applying it.
pub fn download() -> (r: String)
    ensures
        r@ == "rpm-ostree upgrade --download-only"@,
{
    "rpm-ostree upgrade --download-only".to_owned()
}

/// The command that applies the downloaded OS update.
pub fn upgrade() -> (r: String)
    ensures
        r@ == "rpm-ostree upgrade"@,
{
    "rpm-ostree upgrade".to_owned()
}

/// Where the two-step update stands.
#[derive(Clone, Copy, Debug, PartialEq, Eq, Structural)]
pub enum RpmOstreePhase {
    /// The download command is running.
    Download,
    /// The install command is running.
    Install,
    /// The update ended, successfully or not.
    Finished,
}

/// The rpm-ostree update as a step machine: the driver runs each requested
/// command and hands its outcome back.
pub struct RpmOstreeRun {
    pub phase: RpmOstreePhase,
}

/// Every record of this plugin pulses (it has no fine-grained percentage)
/// and never asks for a reboot by itself.
pub open spec fn rpm_ostree_rec(rec: PluginProgress) -> bool {
    &&& rec.name@ == "rpm-ostree"@
    &&& rec.pulse
    &&& !rec.reboot_required
    &&& rec.stdout is None
}

impl RpmOstree {
    /// Begin an update: announce the check and ask for the download-only
    /// upgrade, the first of the two steps.
    pub fn start(&self) -> (r: (RpmOstreeRun, PluginProgress, String))
        ensures
            r.0.phase is Download,
            rpm_ostree_rec(r.1),
            r.1.progress == 0,
            r.1.status@ == "Checking for updates ..."@,
            r.1.stderr is None,
            r.2@ == "rpm-ostree upgrade --download-only"@,
    {
        let mut rec = PluginProgress::new("rpm-ostree");
        rec.pulse = true;
        rec.status = "Checking for updates ...".to_owned();
        (RpmOstreeRun { phase: RpmOstreePhase::Download }, rec, download())
    }
}

impl RpmOstreeRun {
    /// Take the outcome of the command last asked for. A failed download or
    /// install ends the update as failed, with the captured standard error
    /// surfaced; a finished download moves to the install step at half
    /// progress; a finished install completes the update at 100.
    pub fn on_result(&mut self, stdout: &str, stderr: &str, rc: i32) -> (r: (
        PluginProgress,
        ProviderAction,
    ))
        requires
            !(old(self).phase is Finished),
        ensures
            rpm_ostree_rec(r.0),
            old(self).phase is Download && rc != 0 ==> {
                &&& final(self).phase is Finished
                &&& r.0.progress == 0
                &&& r.0.status@ == "Failed to check/download updates"@
                &&& r.0.stderr matches Some(e) && e@ == stderr@
                &&& r.1 == ProviderAction::Finish(false)
            },
            old(self).phase is Download && rc == 0 ==> {
                &&& final(self).phase is Install
                &&& r.0.progress == 50
                &&& r.0.status@ == "Installing OS update ..."@
                &&& r.0.stderr is None
                &&& (r.1 matches ProviderAction::Run(cmd) && cmd@ == "rpm-ostree upgrade"@)
            },
            old(self).phase is Install && rc != 0 ==> {
                &&& final(self).phase is Finished
                &&& r.0.progress == 50
                &&& r.0.status@ == "Failed to install OS update..."@
                &&& r.0.stderr matches Some(e) && e@ == stderr@
                &&& r.1 == ProviderAction::Finish(false)
            },
            old(self).phase is Install && rc == 0 ==> {
                &&& final(self).phase is Finished
                &&& r.0.progress == 100
                &&& r.0.status@ == "Upgrade complete!"@
                &&& r.0.stderr is None
                &&& r.1 == ProviderAction::Finish(true)
            },
    {
        let mut rec = PluginProgress::new("rpm-ostree");
        rec.pulse = true;
        match self.phase {
            RpmOstreePhase::Download => {
                if rc != 0 {
                    self.phase = RpmOstreePhase::Finished;
                    rec.status = "Failed to check/download updates".to_owned();
                    rec.stderr = Some(stderr.to_owned());
                    (rec, ProviderAction::Finish(false))
                } else {
                    self.phase = RpmOstreePhase::Install;
                    rec.progress = 50;
                    rec.status = "Installing OS update ...".to_owned();
                    (rec, ProviderAction::Run(upgrade()))
                }
            },
            _ => {
                self.phase = RpmOstreePhase::Finished;
                if rc != 0 {
                    rec.progress = 50;
                    rec.status = "Failed to install OS update...".to_owned();
                    rec.stderr = Some(stderr.to_owned());
                    (rec, ProviderAction::Finish(false))
                } else {
                    rec.progress = 100;
                    rec.status = "Upgrade complete!".to_owned();
                    (rec, ProviderAction::Finish(true))
                }
            },
        }
    }
}

} // verus!
