//! Renovatio: a plugin-driven update orchestrator.
//!
//! Update providers ("plugins") report progress over a channel as
//! [`PluginProgress`] records. The orchestrator runs the enabled plugins in
//! order, rejects conflicting selections, clamps and forwards each progress
//! record, and decides the final outcome of a run.
use vstd::prelude::*;

pub mod bootc;
pub mod brew;
pub mod channel;
pub mod distrobox;
pub mod flatpak;
pub mod orchestrator;
pub mod registry;
pub mod rpm_ostree;
pub mod strutil;
pub mod uupd;

verus! {

/// PluginProgress is used to communicate the progress of a plugin update.
#[derive(Clone, Debug)]
pub struct PluginProgress {
    /// The name of the plugin this status belongs to.
    pub name: String,
    /// The progress of the update, from 0 to 100.
    pub progress: u32,
    /// In lieu of incremental progress, asks the consumer to pulse its
    /// display to indicate that progress is being made.
    pub pulse: bool,
    /// Indicates that the update requires a reboot.
    pub reboot_required: bool,
    /// The status of the update.
    pub status: String,
    /// The standard output from the update, if available.
    pub stdout: Option<String>,
    /// The standard error from the update, if available.
    pub stderr: Option<String>,
}

impl PluginProgress {
    /// A fresh record for the named plugin: no progress, no pulse, no reboot,
    /// empty status, and no captured output.
    pub fn new(name: &str) -> (r: Self)
        ensures
            r.name@ == name@,
            r.progress == 0,
            !r.pulse,
            !r.reboot_required,
            r.status@ == Seq::<char>::empty(),
            r.stdout is None,
            r.stderr is None,
    {
        Self {
            name: name.to_owned(),
            progress: 0,
            pulse: false,
            reboot_required: false,
            status: String::new(),
            stdout: None,
            stderr: None,
        }
    }
}

/// PluginMetadata describes a plugin: what discovery records about a module
/// without keeping a live instance of it.
#[derive(Clone, Debug)]
pub struct PluginMetadata {
    pub name: String,
    pub version: String,
    pub description: String,
    pub path: Option<String>,
}

impl PluginMetadata {
    /// Read a live plugin's identity into a metadata record. The record holds
    /// exactly the instance's name, version and description; the load path is
    /// filled in by the discoverer afterwards.
    pub fn new<P: Plugin>(plugin: &P) -> (r: Self)
        ensures
            r.name@ == plugin.spec_name(),
            r.version@ == plugin.spec_version(),
            r.description@ == plugin.spec_description(),
            r.path is None,
    {
        Self {
            name: plugin.name().to_owned(),
            version: plugin.version().to_owned(),
            description: plugin.description().to_owned(),
            path: None,
        }
    }

    /// A copy of this metadata record, equal to the original.
    pub fn duplicate(&self) -> (r: Self)
        ensures
            r == *self,
    {
        Self {
            name: self.name.clone(),
            version: self.version.clone(),
            description: self.description.clone(),
            path: clone_opt_string(&self.path),
        }
    }
}

/// Law: registry metadata round-trips through re-instantiation. A registry
/// entry read from one instance of a plugin describes every instance with
/// the same identity: re-instantiating the provider and reading its name,
/// version and description yields exactly the discovery-time metadata.
pub proof fn lemma_metadata_roundtrip<P: Plugin>(first: &P, second: &P, m: PluginMetadata)
    requires
        m.name@ == first.spec_name(),
        m.version@ == first.spec_version(),
        m.description@ == first.spec_description(),
        second.spec_name() == first.spec_name(),
        second.spec_version() == first.spec_version(),
        second.spec_description() == first.spec_description(),
    ensures
        m.name@ == second.spec_name(),
        m.version@ == second.spec_version(),
        m.description@ == second.spec_description(),
{
}

/// Plugin is the contract every update provider implements: a stable
/// identity, a conflict predicate, and (outside this trait) a blocking
/// update operation that reports progress over a channel.
///
/// The update operation itself runs external commands, so each provider in
/// this crate exposes it as a step machine: `start` yields the first records
/// and the first command, and the `on_*` methods take a finished command's
/// output and yield the next records and the next action.
pub trait Plugin {
    /// The plugin's name, as a sequence of characters.
    spec fn spec_name(&self) -> Seq<char>;

    /// The plugin's description, as a sequence of characters.
    spec fn spec_description(&self) -> Seq<char>;

    /// The plugin's version, as a sequence of characters.
    spec fn spec_version(&self) -> Seq<char>;

    /// Whether this plugin declares a conflict with the named plugin.
    spec fn spec_conflicts(&self, plugin_name: Seq<char>) -> bool;

    /// The name of the plugin: unique and stable, used as a registry key and
    /// as the conflict-check argument.
    fn name(&self) -> (r: &str)
        ensures
            r@ == self.spec_name(),
    ;

    /// The description of the plugin, display text only.
    fn description(&self) -> (r: &str)
        ensures
            r@ == self.spec_description(),
    ;

    /// The version of the plugin, informational.
    fn version(&self) -> (r: &str)
        ensures
            r@ == self.spec_version(),
    ;

    /// Determine if this plugin conflicts with another plugin. The predicate
    /// may be asymmetric; the orchestrator queries both directions.
    fn conflicts(&self, plugin_name: &str) -> (r: bool)
        ensures
            r == self.spec_conflicts(plugin_name@),
    ;
}

/// What a provider's step machine asks its driver to do next: run a shell
/// command and hand back its output, or finish with an overall success flag.
#[derive(Clone, Debug)]
pub enum ProviderAction {
    Run(String),
    Finish(bool),
}

/// The percent share of one work item among `n`: an equal split, or the
/// whole hundred when there is nothing to split.
pub open spec fn spec_share(n: int) -> int {
    if n > 0 {
        100int / n
    } else {
        100int
    }
}

/// An equal split of one hundred stays within it: the share is at most 100,
/// and `k` shares of `n` never exceed 100.
pub proof fn lemma_share_bound(n: int, k: int)
    requires
        0 < n,
        0 <= k <= n,
    ensures
        0 <= 100int / n <= 100,
        0 <= (100int / n) * k <= 100,
{
    assert(0 <= 100int / n <= 100 && (100int / n) * n <= 100 && 0 <= (100int / n) * k <= (100int
        / n) * n) by (nonlinear_arith)
        requires
            0 < n,
            0 <= k <= n,
    ;
}

/// What a finished command contributes as captured output: a succeeding
/// command keeps its standard output, a failing one its standard error, the
/// other stream left empty; the exit code passes through, read as zero when
/// the process ended without one.
pub fn captured_output(success: bool, code: Option<i32>, stdout: String, stderr: String) -> (r: (
    String,
    String,
    i32,
))
    ensures
        success ==> r.0 == stdout && r.1@ == Seq::<char>::empty(),
        !success ==> r.0@ == Seq::<char>::empty() && r.1 == stderr,
        code matches Some(c) ==> r.2 == c,
        code is None ==> r.2 == 0,
{
    let rc: i32 = match code {
        Some(c) => c,
        None => 0,
    };
    if success {
        (stdout, String::new(), rc)
    } else {
        (String::new(), stderr, rc)
    }
}

/// A copy of an optional string, equal to the original.
pub fn clone_opt_string(o: &Option<String>) -> (r: Option<String>)
    ensures
        r == *o,
{
    match o {
        Some(s) => Some(s.clone()),
        None => None,
    }
}

} // verus!
