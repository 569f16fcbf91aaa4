//! The bootc plugin: read the host status report, and either announce an
//! already-staged OS update or run the upgrade and report whether a reboot
//! is pending.
use vstd::prelude::*;

use crate::strutil::{spec_contains, str_contains};
use crate::{Plugin, PluginProgress, ProviderAction};

verus! {

/// The host status report, as the status command reports it.
#[derive(Clone, Debug)]
pub struct Root {
    pub api_version: String,
    pub kind: String,
    pub metadata: Metadata,
    pub spec: Spec,
    pub status: Status,
}

#[derive(Clone, Debug)]
pub struct Metadata {
    pub name: String,
}

#[derive(Clone, Debug)]
pub struct Spec {
    pub boot_order: String,
    pub image: Image,
}

#[derive(Clone, Debug)]
pub struct Image {
    pub image: String,
    pub signature: String,
    pub transport: String,
}

#[derive(Clone, Debug)]
pub struct Status {
    pub booted: Booted,
    pub rollback: Rollback,
    pub rollback_queued: bool,
    pub staged: Option<Staged>,
    pub type_field: String,
}

#[derive(Clone, Debug)]
pub struct Booted {
    pub cached_update: Option<CachedUpdate>,
    pub image: Image3,
    pub incompatible: bool,
    pub ostree: Ostree,
    pub pinned: bool,
    pub soft_reboot_capable: bool,
    pub store: String,
}

#[derive(Clone, Debug)]
pub struct CachedUpdate {
    pub architecture: String,
    pub image: Image2,
    pub image_digest: String,
    pub timestamp: String,
    pub version: String,
}

#[derive(Clone, Debug)]
pub struct Image2 {
    pub image: String,
    pub signature: String,
    pub transport: String,
}

#[derive(Clone, Debug)]
pub struct Image3 {
    pub architecture: String,
    pub image: Image4,
    pub image_digest: String,
    pub timestamp: String,
    pub version: String,
}

#[derive(Clone, Debug)]
pub struct Image4 {
    pub image: String,
    pub signature: String,
    pub transport: String,
}

#[derive(Clone, Debug)]
pub struct Ostree {
    pub checksum: String,
    pub deploy_serial: i64,
    pub stateroot: String,
}

#[derive(Clone, Debug)]
pub struct Rollback {
    pub image: Image3,
    pub incompatible: bool,
    pub ostree: Ostree2,
    pub pinned: bool,
    pub soft_reboot_capable: bool,
    pub store: String,
}

#[derive(Clone, Debug)]
pub struct Ostree2 {
    pub checksum: String,
    pub deploy_serial: i64,
    pub stateroot: String,
}

#[derive(Clone, Debug)]
pub struct Staged {
    pub image: Image5,
    pub incompatible: bool,
    pub ostree: Ostree3,
    pub pinned: bool,
    pub soft_reboot_capable: bool,
    pub store: String,
}

#[derive(Clone, Debug)]
pub struct Image5 {
    pub architecture: String,
    pub image: Image6,
    pub image_digest: String,
    pub timestamp: String,
    pub version: String,
}

#[derive(Clone, Debug)]
pub struct Image6 {
    pub image: String,
    pub signature: String,
    pub transport: String,
}

#[derive(Clone, Debug)]
pub struct Ostree3 {
    pub checksum: String,
    pub deploy_serial: i64,
    pub stateroot: String,
}

/// The bootc plugin.
pub struct Bootc;

impl Plugin for Bootc {
    open spec fn spec_name(&self) -> Seq<char> {
        "bootc"@
    }

    open spec fn spec_description(&self) -> Seq<char> {
        "Update the OS via bootc."@
    }

    open spec fn spec_version(&self) -> Seq<char> {
        "0.1.0"@
    }

    /// bootc updates the whole OS image, so it conflicts with every other
    /// plugin.
    open spec fn spec_conflicts(&self, plugin_name: Seq<char>) -> bool {
        true
    }

    fn name(&self) -> (r: &str) {
        "bootc"
    }

    fn description(&self) -> (r: &str) {
        "Update the OS via bootc."
    }

    fn version(&self) -> (r: &str) {
        "0.1.0"
    }

    fn conflicts(&self, plugin_name: &str) -> (r: bool) {
        true
    }
}

/// Where the bootc update stands.
#[derive(Clone, Copy, Debug, PartialEq, Eq, Structural)]
pub enum BootcPhase {
    /// The status command is running.
    Status,
    /// The upgrade command is running.
    Upgrade,
    /// The update ended.
    Finished,
}

/// The bootc update as a step machine.
pub struct BootcRun {
    pub phase: BootcPhase,
}

pub open spec fn spec_pending_status(version: Seq<char>) -> Seq<char> {
    "OS upgrade to "@ + version + " pending reboot"@
}

/// Every record of this plugin pulses; it has no fine-grained percentage.
pub open spec fn bootc_rec(rec: PluginProgress) -> bool {
    &&& rec.name@ == "bootc"@
    &&& rec.pulse
    &&& rec.stdout is None
    &&& rec.stderr is None
}

impl Bootc {
    /// Begin an update: announce the check and ask for the status report.
    pub fn start(&self) -> (r: (BootcRun, PluginProgress, String))
        ensures
            r.0.phase is Status,
            bootc_rec(r.1),
            r.1.progress == 0,
            !r.1.reboot_required,
            r.1.status@ == "Checking for updates..."@,
            r.2@ == "pkexec bootc status --json"@,
    {
        let mut rec = PluginProgress::new("bootc");
        rec.pulse = true;
        rec.status = "Checking for updates...".to_owned();
        (BootcRun { phase: BootcPhase::Status }, rec, "pkexec bootc status --json".to_owned())
    }
}

impl BootcRun {
    /// Take the status report, already parsed — or nothing, when the status
    /// command failed or its report was unreadable, which ends the update as
    /// failed with a terminal record. A cached update means the new version
    /// is staged and only a reboot is pending, so the update completes at
    /// 100 with the reboot flag set; otherwise the upgrade command is
    /// requested.
    pub fn on_status(&mut self, status: &Option<Root>) -> (r: (
        Option<PluginProgress>,
        ProviderAction,
    ))
        requires
            old(self).phase is Status,
        ensures
            status is None ==> {
                &&& final(self).phase is Finished
                &&& (r.0 matches Some(rec) && {
                    &&& bootc_rec(rec)
                    &&& rec.progress == 100
                    &&& !rec.reboot_required
                    &&& rec.status@ == "Failed to read the bootc status"@
                })
                &&& r.1 == ProviderAction::Finish(false)
            },
            status matches Some(root) ==> (root.status.booted.cached_update matches Some(cu)
                ==> {
                &&& final(self).phase is Finished
                &&& (r.0 matches Some(rec) && {
                    &&& bootc_rec(rec)
                    &&& rec.progress == 100
                    &&& rec.reboot_required
                    &&& rec.status@ == spec_pending_status(cu.version@)
                })
                &&& r.1 == ProviderAction::Finish(true)
            }),
            status matches Some(root) ==> (root.status.booted.cached_update is None ==> {
                &&& final(self).phase is Upgrade
                &&& (r.0 matches Some(rec) && {
                    &&& bootc_rec(rec)
                    &&& rec.progress == 0
                    &&& !rec.reboot_required
                    &&& rec.status@ == "Checking for updates..."@
                })
                &&& (r.1 matches ProviderAction::Run(cmd) && cmd@ == "pkexec bootc upgrade"@)
            }),
    {
        match status {
            None => {
                self.phase = BootcPhase::Finished;
                let mut rec = PluginProgress::new("bootc");
                rec.pulse = true;
                rec.progress = 100;
                rec.status = "Failed to read the bootc status".to_owned();
                (Some(rec), ProviderAction::Finish(false))
            },
            Some(root) => {
                match &root.status.booted.cached_update {
                    Some(cu) => {
                        self.phase = BootcPhase::Finished;
                        let mut rec = PluginProgress::new("bootc");
                        rec.pulse = true;
                        rec.progress = 100;
                        rec.reboot_required = true;
                        let mut s = "OS upgrade to ".to_owned();
                        s.append(cu.version.as_str());
                        s.append(" pending reboot");
                        proof {
                            assert(s@ =~= spec_pending_status(cu.version@));
                        }
                        rec.status = s;
                        (Some(rec), ProviderAction::Finish(true))
                    },
                    None => {
                        self.phase = BootcPhase::Upgrade;
                        let mut rec = PluginProgress::new("bootc");
                        rec.pulse = true;
                        rec.status = "Checking for updates...".to_owned();
                        (Some(rec), ProviderAction::Run("pkexec bootc upgrade".to_owned()))
                    },
                }
            },
        }
    }

    /// Take the upgrade command's outcome. A nonzero exit status ends the
    /// update as failed, with the captured standard error surfaced.
    /// Otherwise, when the output reports no changes there was nothing to
    /// update; else the new image is staged and a reboot is pending. Either
    /// way the update completes at 100.
    pub fn on_upgrade(&mut self, stdout: &str, stderr: &str, rc: i32) -> (r: (
        PluginProgress,
        ProviderAction,
    ))
        requires
            old(self).phase is Upgrade,
        ensures
            final(self).phase is Finished,
            r.0.name@ == "bootc"@,
            r.0.pulse,
            r.0.progress == 100,
            r.0.stdout is None,
            rc != 0 ==> {
                &&& !r.0.reboot_required
                &&& r.0.status@ == "Failed to upgrade the OS"@
                &&& (r.0.stderr matches Some(e) && e@ == stderr@)
                &&& r.1 == ProviderAction::Finish(false)
            },
            rc == 0 ==> r.0.stderr is None && r.1 == ProviderAction::Finish(true),
            rc == 0 && spec_contains(stdout@, "No changes in"@) ==> {
                &&& !r.0.reboot_required
                &&& r.0.status@ == "No updates available"@
            },
            rc == 0 && !spec_contains(stdout@, "No changes in"@) ==> {
                &&& r.0.reboot_required
                &&& r.0.status@ == "OS upgrade pending reboot"@
            },
    {
        self.phase = BootcPhase::Finished;
        let mut rec = PluginProgress::new("bootc");
        rec.pulse = true;
        rec.progress = 100;
        if rc != 0 {
            rec.status = "Failed to upgrade the OS".to_owned();
            rec.stderr = Some(stderr.to_owned());
            return (rec, ProviderAction::Finish(false));
        }
        if str_contains(stdout, "No changes in") {
            rec.status = "No updates available".to_owned();
        } else {
            rec.reboot_required = true;
            rec.status = "OS upgrade pending reboot".to_owned();
        }
        (rec, ProviderAction::Finish(true))
    }
}

} // verus!
