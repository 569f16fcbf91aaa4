use renovatio::bootc::{Bootc, BootcPhase, Booted, CachedUpdate, Image, Image2, Image3, Image4,
    Metadata, Ostree, Ostree2, Root, Rollback, Spec, Status};
use renovatio::brew::{Brew, BrewPhase, Formulae, Outdated};
use renovatio::distrobox::Distrobox;
use renovatio::flatpak::Flatpak;
use renovatio::rpm_ostree::{RpmOstree, RpmOstreePhase};
use renovatio::{Plugin, PluginMetadata, ProviderAction};

fn run_cmd(action: &ProviderAction) -> String {
    match action {
        ProviderAction::Run(cmd) => cmd.clone(),
        ProviderAction::Finish(_) => panic!("expected a command, got a finish"),
    }
}

#[test]
fn identities() {
    assert_eq!(Bootc.name(), "bootc");
    assert_eq!(Bootc.description(), "Update the OS via bootc.");
    assert_eq!(Brew.name(), "brew");
    assert_eq!(Brew.description(), "Update and upgrade formulae and casks via brew.");
    assert_eq!(Distrobox.name(), "distrobox");
    assert_eq!(Distrobox.description(), "Update distrobox containers.");
    assert_eq!(Flatpak.name(), "flatpak");
    assert_eq!(Flatpak.description(), "Update user and system flatpaks.");
    assert_eq!(RpmOstree.name(), "rpm-ostree");
    assert_eq!(RpmOstree.description(), "Update the OS via rpm-ostree.");
    for version in [
        Bootc.version(),
        Brew.version(),
        Distrobox.version(),
        Flatpak.version(),
        RpmOstree.version(),
    ] {
        assert_eq!(version, "0.1.0");
    }
}

#[test]
fn conflict_predicates() {
    // brew only conflicts with uupd; the others declare themselves
    // exclusive.
    assert!(Brew.conflicts("uupd"));
    assert!(!Brew.conflicts("flatpak"));
    assert!(!Brew.conflicts("brew"));
    assert!(Bootc.conflicts("brew"));
    assert!(Distrobox.conflicts("brew"));
    assert!(Flatpak.conflicts("brew"));
    assert!(RpmOstree.conflicts("brew"));
}

#[test]
fn metadata_roundtrip() {
    // Reading a second instance of the same provider yields exactly the
    // discovery-time metadata.
    let first = PluginMetadata::new(&Brew);
    let second = PluginMetadata::new(&Brew);
    assert_eq!(first.name, second.name);
    assert_eq!(first.version, second.version);
    assert_eq!(first.description, second.description);
    assert_eq!(first.name, "brew");
    assert!(first.path.is_none());
}

#[test]
fn rpm_ostree_happy_path() {
    let (mut run, rec, cmd) = RpmOstree.start();
    assert_eq!(run.phase, RpmOstreePhase::Download);
    assert_eq!(rec.status, "Checking for updates ...");
    assert!(rec.pulse);
    assert_eq!(rec.progress, 0);
    assert_eq!(cmd, "rpm-ostree upgrade --download-only");

    let (rec2, action) = run.on_result("downloaded", "", 0);
    assert_eq!(run.phase, RpmOstreePhase::Install);
    assert_eq!(rec2.progress, 50);
    assert_eq!(rec2.status, "Installing OS update ...");
    assert_eq!(run_cmd(&action), "rpm-ostree upgrade");

    let (rec3, action3) = run.on_result("installed", "", 0);
    assert_eq!(run.phase, RpmOstreePhase::Finished);
    assert_eq!(rec3.progress, 100);
    assert_eq!(rec3.status, "Upgrade complete!");
    assert!(matches!(action3, ProviderAction::Finish(true)));
}

#[test]
fn rpm_ostree_download_failure_is_fatal_to_the_plugin() {
    let (mut run, _rec, _cmd) = RpmOstree.start();
    let (rec, action) = run.on_result("", "no network", 1);
    assert_eq!(run.phase, RpmOstreePhase::Finished);
    assert_eq!(rec.status, "Failed to check/download updates");
    assert_eq!(rec.stderr.as_deref(), Some("no network"));
    assert_eq!(rec.progress, 0);
    assert!(matches!(action, ProviderAction::Finish(false)));
}

#[test]
fn rpm_ostree_install_failure_is_fatal_to_the_plugin() {
    let (mut run, _rec, _cmd) = RpmOstree.start();
    run.on_result("", "", 0);
    let (rec, action) = run.on_result("", "disk full", 1);
    assert_eq!(rec.status, "Failed to install OS update...");
    assert_eq!(rec.stderr.as_deref(), Some("disk full"));
    assert!(matches!(action, ProviderAction::Finish(false)));
}

#[test]
fn distrobox_list_parses_the_table() {
    let stdout = "ID | NAME | STATUS | IMAGE\n\
                  abc123 | ubuntu-box | Up 2 hours | ubuntu:22.04\n\
                  def456 | fedora-box | Exited | fedora:40\n";
    let boxes = renovatio::distrobox::list(stdout);
    assert_eq!(boxes, vec!["ubuntu-box".to_string(), "fedora-box".to_string()]);
}

#[test]
fn distrobox_list_skips_lines_without_columns() {
    let stdout = "header\nno columns here\na | keep-me | x\n";
    let boxes = renovatio::distrobox::list(stdout);
    assert_eq!(boxes, vec!["keep-me".to_string()]);
}

#[test]
fn distrobox_list_of_empty_output_is_empty() {
    assert!(renovatio::distrobox::list("").is_empty());
    assert!(renovatio::distrobox::list("header only\n").is_empty());
}

#[test]
fn distrobox_commands() {
    assert_eq!(renovatio::distrobox::list_command(), "distrobox list --no-color");
    assert_eq!(renovatio::distrobox::upgrade("mybox"), "distrobox upgrade mybox");
}

#[test]
fn distrobox_walks_every_container() {
    let boxes = vec!["one".to_string(), "two".to_string()];
    let (mut run, records, action) = Distrobox.begin(boxes);
    assert_eq!(records.len(), 1);
    assert_eq!(records[0].status, "Upgrading distrobox one...");
    assert_eq!(records[0].progress, 0);
    assert_eq!(run_cmd(&action), "distrobox upgrade one");

    let (records2, action2) = run.on_result("ok", "", 0);
    assert_eq!(records2.len(), 2);
    assert_eq!(records2[0].progress, 50);
    assert_eq!(records2[0].status, "Upgrading distrobox one...");
    assert_eq!(records2[0].stdout.as_deref(), Some("ok"));
    assert!(records2[0].stderr.is_none());
    assert_eq!(records2[1].status, "Upgrading distrobox two...");
    assert_eq!(run_cmd(&action2), "distrobox upgrade two");

    let (records3, action3) = run.on_result("ok", "warning", 0);
    assert_eq!(records3.len(), 2);
    assert_eq!(records3[0].progress, 100);
    assert_eq!(records3[0].stderr.as_deref(), Some("warning"));
    assert_eq!(records3[1].progress, 100);
    assert_eq!(records3[1].status, "Upgrade completed!");
    assert!(records3[1].stdout.is_none());
    assert!(records3[1].stderr.is_none());
    assert!(matches!(action3, ProviderAction::Finish(true)));
}

#[test]
fn distrobox_failure_is_reported_and_the_run_continues() {
    let boxes = vec!["one".to_string(), "two".to_string()];
    let (mut run, _records, _action) = Distrobox.begin(boxes);
    let (records, action) = run.on_result("", "broken", 1);
    assert_eq!(records.len(), 3);
    assert_eq!(records[0].status, "Failed to upgrade distrobox one");
    assert_eq!(records[0].stderr.as_deref(), Some("broken"));
    assert_eq!(records[1].status, "Failed to upgrade distrobox one");
    assert_eq!(records[1].progress, 50);
    assert_eq!(records[2].status, "Upgrading distrobox two...");
    assert_eq!(run_cmd(&action), "distrobox upgrade two");
}

#[test]
fn distrobox_with_nothing_to_do_completes_at_once() {
    let (_run, records, action) = Distrobox.begin(Vec::new());
    assert_eq!(records.len(), 1);
    assert_eq!(records[0].progress, 100);
    assert_eq!(records[0].status, "Upgrade completed!");
    assert!(matches!(action, ProviderAction::Finish(true)));
}

#[test]
fn flatpak_list_updates_skips_the_first_line() {
    let out = renovatio::flatpak::list_updates("header\norg.app.One\norg.app.Two\n");
    assert_eq!(out, vec!["org.app.One".to_string(), "org.app.Two".to_string()]);
    assert!(renovatio::flatpak::list_updates("").is_empty());
}

#[test]
fn flatpak_commands() {
    assert_eq!(
        renovatio::flatpak::list_updates_command(true),
        "flatpak remote-ls --updates --columns=application --system"
    );
    assert_eq!(
        renovatio::flatpak::list_updates_command(false),
        "flatpak remote-ls --updates --columns=application --user"
    );
    assert_eq!(
        renovatio::flatpak::upgrade_flatpak("org.app.One"),
        "flatpak update --noninteractive -y org.app.One"
    );
}

#[test]
fn flatpak_walks_system_then_user() {
    let system = vec!["org.sys.App".to_string()];
    let user = vec!["org.user.App".to_string()];
    let (mut run, records, action) = Flatpak.begin(system, user);
    assert_eq!(records.len(), 2);
    assert_eq!(records[0].status, "Upgrading flatpaks...");
    assert_eq!(records[1].status, "Upgrading system flatpak org.sys.App...");
    assert_eq!(run_cmd(&action), "flatpak update --noninteractive -y org.sys.App");

    let (records2, action2) = run.on_result("done", "", 0);
    assert_eq!(records2.len(), 2);
    assert_eq!(records2[0].progress, 50);
    assert_eq!(records2[1].status, "Upgrading user flatpak org.user.App...");
    assert_eq!(run_cmd(&action2), "flatpak update --noninteractive -y org.user.App");

    let (records3, action3) = run.on_result("done", "", 0);
    assert_eq!(records3.len(), 2);
    assert_eq!(records3[1].progress, 100);
    assert_eq!(records3[1].status, "Upgrade completed!");
    assert!(records3[1].stdout.is_none());
    assert!(records3[1].stderr.is_none());
    assert!(matches!(action3, ProviderAction::Finish(true)));
}

#[test]
fn flatpak_with_nothing_to_do_completes_at_once() {
    let (_run, records, action) = Flatpak.begin(Vec::new(), Vec::new());
    assert_eq!(records.len(), 2);
    assert_eq!(records[0].status, "Upgrading flatpaks...");
    assert_eq!(records[1].progress, 100);
    assert!(records[1].stdout.is_none());
    assert!(records[1].stderr.is_none());
    assert!(matches!(action, ProviderAction::Finish(true)));
}

#[test]
fn brew_happy_path_over_two_packages() {
    let (mut run, rec, cmd) = Brew.start();
    assert_eq!(rec.progress, 5);
    assert_eq!(rec.status, "Updating brew...");
    assert_eq!(cmd, "brew update");
    assert_eq!(run.phase, BrewPhase::Update);

    let (rec2, action2) = run.on_update_result("updated taps", "", 0);
    assert_eq!(run.phase, BrewPhase::Outdated);
    assert_eq!(rec2.progress, 10);
    assert_eq!(rec2.status, "Getting outdated packages...");
    assert_eq!(rec2.stdout.as_deref(), Some("updated taps"));
    assert_eq!(run_cmd(&action2), "brew outdated --json");

    let mut formula = Formulae::new();
    formula.name = "k9s".to_string();
    let mut cask = Formulae::new();
    cask.name = "firefox".to_string();
    let outdated = Outdated { formulae: vec![formula], casks: vec![cask] };
    let (rec3, action3) = run.on_outdated_result(Some(outdated), "", 0);
    assert_eq!(run.phase, BrewPhase::Upgrading);
    assert_eq!(rec3.status, "Upgrading formulae k9s...");
    assert_eq!(rec3.progress, 10);
    assert_eq!(run_cmd(&action3), "brew upgrade k9s");

    let (records4, action4) = run.on_upgrade_result("upgraded k9s", "", 0);
    assert_eq!(records4.len(), 2);
    assert_eq!(records4[0].progress, 60);
    assert_eq!(records4[0].stdout.as_deref(), Some("upgraded k9s"));
    assert_eq!(records4[1].status, "Upgrading cask firefox...");
    assert_eq!(run_cmd(&action4), "brew upgrade --cask firefox");

    let (records5, action5) = run.on_upgrade_result("upgraded firefox", "", 0);
    assert_eq!(records5.len(), 2);
    assert_eq!(records5[0].progress, 100);
    assert_eq!(records5[1].progress, 100);
    assert_eq!(records5[1].status, "Upgrade completed!");
    assert!(records5[1].stdout.is_none());
    assert!(records5[1].stderr.is_none());
    assert!(matches!(action5, ProviderAction::Finish(true)));
    assert_eq!(run.phase, BrewPhase::Finished);
}

#[test]
fn brew_update_failure_is_fatal_to_the_plugin() {
    let (mut run, _rec, _cmd) = Brew.start();
    let (rec, action) = run.on_update_result("", "network down", 1);
    assert_eq!(run.phase, BrewPhase::Finished);
    assert_eq!(rec.status, "Failed to update brew");
    assert_eq!(rec.stderr.as_deref(), Some("network down"));
    assert!(matches!(action, ProviderAction::Finish(false)));
}

#[test]
fn brew_unreadable_outdated_report_is_fatal_to_the_plugin() {
    let (mut run, _rec, _cmd) = Brew.start();
    run.on_update_result("", "", 0);
    let (rec, action) = run.on_outdated_result(None, "bad json", 0);
    assert_eq!(rec.status, "Failed to get outdated brew");
    assert_eq!(rec.stderr.as_deref(), Some("bad json"));
    assert!(matches!(action, ProviderAction::Finish(false)));
}

#[test]
fn brew_with_nothing_outdated_completes_at_once() {
    let (mut run, _rec, _cmd) = Brew.start();
    run.on_update_result("", "", 0);
    let (rec, action) = run.on_outdated_result(Some(Outdated::new()), "", 0);
    assert_eq!(rec.progress, 100);
    assert_eq!(rec.status, "Upgrade completed!");
    assert!(matches!(action, ProviderAction::Finish(true)));
}

#[test]
fn brew_upgrade_failure_is_reported_and_the_run_continues() {
    let (mut run, _rec, _cmd) = Brew.start();
    run.on_update_result("", "", 0);
    let mut f1 = Formulae::new();
    f1.name = "a".to_string();
    let mut f2 = Formulae::new();
    f2.name = "b".to_string();
    let outdated = Outdated { formulae: vec![f1, f2], casks: Vec::new() };
    run.on_outdated_result(Some(outdated), "", 0);
    let (records, action) = run.on_upgrade_result("", "compile error", 1);
    assert_eq!(records.len(), 3);
    assert_eq!(records[0].status, "Failed to upgrade formulae a");
    assert_eq!(records[0].progress, 10);
    assert_eq!(records[1].progress, 60);
    assert_eq!(records[1].stderr.as_deref(), Some("compile error"));
    assert_eq!(records[2].status, "Upgrading formulae b...");
    assert_eq!(run_cmd(&action), "brew upgrade b");
}

#[test]
fn brew_percent_is_capped_at_one_hundred() {
    // A single outdated package gives a share of 100 on top of the two
    // opening steps; the sent percent is capped at 100, never 110.
    let (mut run, _rec, _cmd) = Brew.start();
    run.on_update_result("", "", 0);
    let mut f = Formulae::new();
    f.name = "solo".to_string();
    let outdated = Outdated { formulae: vec![f], casks: Vec::new() };
    run.on_outdated_result(Some(outdated), "", 0);
    let (records, action) = run.on_upgrade_result("done", "", 0);
    assert_eq!(records.len(), 2);
    assert_eq!(records[0].progress, 100);
    assert_eq!(records[1].progress, 100);
    assert_eq!(records[1].status, "Upgrade completed!");
    assert!(records[1].stdout.is_none());
    assert!(records[1].stderr.is_none());
    assert!(records.iter().all(|r| r.progress <= 100));
    assert!(matches!(action, ProviderAction::Finish(true)));
}

#[test]
fn brew_empty_types() {
    let f = Formulae::new();
    assert_eq!(f.name, "");
    assert!(f.installed_versions.is_empty());
    assert_eq!(f.current_version, "");
    assert!(!f.pinned);
    assert!(f.pinned_version.is_none());
    let o = Outdated::default();
    assert!(o.formulae.is_empty());
    assert!(o.casks.is_empty());
}

fn sample_root(cached: Option<CachedUpdate>) -> Root {
    let ostree = Ostree {
        checksum: "abc".to_string(),
        deploy_serial: 0,
        stateroot: "default".to_string(),
    };
    let image4 = Image4 {
        image: "quay.io/fedora/fedora-bootc:41".to_string(),
        signature: String::new(),
        transport: "registry".to_string(),
    };
    let image3 = Image3 {
        architecture: "x86_64".to_string(),
        image: image4,
        image_digest: "sha256:abc".to_string(),
        timestamp: String::new(),
        version: "41.1".to_string(),
    };
    Root {
        api_version: "org.containers.bootc/v1".to_string(),
        kind: "BootcHost".to_string(),
        metadata: Metadata { name: "host".to_string() },
        spec: Spec {
            boot_order: "default".to_string(),
            image: Image {
                image: "quay.io/fedora/fedora-bootc:41".to_string(),
                signature: String::new(),
                transport: "registry".to_string(),
            },
        },
        status: Status {
            booted: Booted {
                cached_update: cached,
                image: image3.clone(),
                incompatible: false,
                ostree: ostree.clone(),
                pinned: false,
                soft_reboot_capable: false,
                store: "ostree".to_string(),
            },
            rollback: Rollback {
                image: image3,
                incompatible: false,
                ostree: Ostree2 {
                    checksum: "def".to_string(),
                    deploy_serial: 1,
                    stateroot: "default".to_string(),
                },
                pinned: false,
                soft_reboot_capable: false,
                store: "ostree".to_string(),
            },
            rollback_queued: false,
            staged: None,
            type_field: "bootcHost".to_string(),
        },
    }
}

#[test]
fn bootc_cached_update_means_reboot_pending() {
    let (mut run, rec, cmd) = Bootc.start();
    assert_eq!(rec.status, "Checking for updates...");
    assert!(rec.pulse);
    assert_eq!(cmd, "pkexec bootc status --json");
    let cached = CachedUpdate {
        architecture: "x86_64".to_string(),
        image: Image2 {
            image: "quay.io/fedora/fedora-bootc:41".to_string(),
            signature: String::new(),
            transport: "registry".to_string(),
        },
        image_digest: "sha256:def".to_string(),
        timestamp: String::new(),
        version: "41.2".to_string(),
    };
    let status = Some(sample_root(Some(cached)));
    let (out, action) = run.on_status(&status);
    let out = out.expect("a cached update yields a record");
    assert_eq!(out.progress, 100);
    assert!(out.reboot_required);
    assert_eq!(out.status, "OS upgrade to 41.2 pending reboot");
    assert!(matches!(action, ProviderAction::Finish(true)));
    assert_eq!(run.phase, BootcPhase::Finished);
}

#[test]
fn bootc_without_cached_update_runs_the_upgrade() {
    let (mut run, _rec, _cmd) = Bootc.start();
    let status = Some(sample_root(None));
    let (out, action) = run.on_status(&status);
    let out = out.expect("checking yields a record");
    assert_eq!(out.progress, 0);
    assert_eq!(out.status, "Checking for updates...");
    assert_eq!(run_cmd(&action), "pkexec bootc upgrade");
    assert_eq!(run.phase, BootcPhase::Upgrade);

    let (done, action2) =
        run.on_upgrade("Queued for next boot: quay.io/fedora/fedora-bootc:41", "", 0);
    assert_eq!(done.progress, 100);
    assert!(done.reboot_required);
    assert_eq!(done.status, "OS upgrade pending reboot");
    assert!(matches!(action2, ProviderAction::Finish(true)));
}

#[test]
fn bootc_no_changes_means_no_reboot() {
    let (mut run, _rec, _cmd) = Bootc.start();
    run.on_status(&Some(sample_root(None)));
    let (done, _action) = run.on_upgrade("No changes in quay.io/fedora/fedora-bootc:41", "", 0);
    assert_eq!(done.progress, 100);
    assert!(!done.reboot_required);
    assert_eq!(done.status, "No updates available");
}

#[test]
fn bootc_upgrade_failure_is_fatal_to_the_plugin() {
    let (mut run, _rec, _cmd) = Bootc.start();
    run.on_status(&Some(sample_root(None)));
    let (done, action) = run.on_upgrade("", "not authorized", 126);
    assert_eq!(done.progress, 100);
    assert!(!done.reboot_required);
    assert_eq!(done.status, "Failed to upgrade the OS");
    assert_eq!(done.stderr.as_deref(), Some("not authorized"));
    assert!(matches!(action, ProviderAction::Finish(false)));
    assert_eq!(run.phase, BootcPhase::Finished);
}

#[test]
fn bootc_without_a_status_report_fails_with_a_terminal_record() {
    let (mut run, _rec, _cmd) = Bootc.start();
    let (out, action) = run.on_status(&None);
    let out = out.expect("a terminal record is owed even without a status report");
    assert_eq!(out.progress, 100);
    assert!(!out.reboot_required);
    assert_eq!(out.status, "Failed to read the bootc status");
    assert!(matches!(action, ProviderAction::Finish(false)));
    assert_eq!(run.phase, BootcPhase::Finished);
}
