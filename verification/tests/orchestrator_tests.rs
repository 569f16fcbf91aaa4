use renovatio::orchestrator::{ForwardedProgress, Orchestrator, PollOutcome, RunState};
use renovatio::PluginProgress;

fn no_conflicts(n: usize) -> Vec<Vec<bool>> {
    let mut m: Vec<Vec<bool>> = Vec::new();
    for _ in 0..n {
        let mut row: Vec<bool> = Vec::new();
        for _ in 0..n {
            row.push(false);
        }
        m.push(row);
    }
    m
}

fn names(list: &[&str]) -> Vec<String> {
    list.iter().map(|s| s.to_string()).collect()
}

#[test]
fn empty_run_is_done_at_once() {
    let orch = Orchestrator::new(Vec::new(), &Vec::new());
    assert_eq!(orch.state(), RunState::Done);
    let summary = orch.finalize();
    assert_eq!(summary.percent, 100);
    assert!(!summary.reboot_required);
    assert!(summary.failed.is_empty());
    assert_eq!(summary.message, "Updates complete!");
}

#[test]
fn conflicting_pair_rejects_the_run() {
    // The second plugin declares a conflict with the first: the run is
    // rejected before anything executes, naming the pair.
    let mut m = no_conflicts(3);
    m[2][0] = true;
    let orch = Orchestrator::new(names(&["a", "b", "c"]), &m);
    assert_eq!(orch.state(), RunState::Rejected { first: 0, second: 2 });
}

#[test]
fn either_direction_counts_as_a_conflict() {
    let mut m = no_conflicts(2);
    m[0][1] = true;
    let orch = Orchestrator::new(names(&["a", "b"]), &m);
    assert_eq!(orch.state(), RunState::Rejected { first: 0, second: 1 });

    let mut m2 = no_conflicts(2);
    m2[1][0] = true;
    let orch2 = Orchestrator::new(names(&["a", "b"]), &m2);
    assert_eq!(orch2.state(), RunState::Rejected { first: 0, second: 1 });
}

#[test]
fn no_conflict_starts_the_first_plugin() {
    let orch = Orchestrator::new(names(&["a", "b"]), &no_conflicts(2));
    assert_eq!(orch.state(), RunState::Running { current: 0 });
}

#[test]
fn three_records() {
    // providerA sends 50 then 100 and returns true; providerB sends a
    // single 100 asking for a reboot and returns true. The sink sees
    // exactly three records, with indexes 1, 1, 2 out of 2, and the run
    // ends Done with the reboot flag set.
    let mut orch = Orchestrator::new(names(&["providerA", "providerB"]), &no_conflicts(2));
    let mut forwarded: Vec<ForwardedProgress> = Vec::new();

    let mut rec1 = PluginProgress::new("providerA");
    rec1.progress = 50;
    rec1.status = "halfway".to_string();
    forwarded.push(orch.on_record(&rec1));

    let mut rec2 = PluginProgress::new("providerA");
    rec2.progress = 100;
    forwarded.push(orch.on_record(&rec2));

    assert!(orch.on_provider_end(true).is_none());
    assert_eq!(orch.state(), RunState::Running { current: 1 });

    let mut rec3 = PluginProgress::new("providerB");
    rec3.progress = 100;
    rec3.reboot_required = true;
    forwarded.push(orch.on_record(&rec3));

    assert!(orch.on_provider_end(true).is_none());
    assert_eq!(orch.state(), RunState::Done);

    assert_eq!(forwarded.len(), 3);
    let indexes: Vec<usize> = forwarded.iter().map(|f| f.index).collect();
    assert_eq!(indexes, vec![1, 1, 2]);
    assert!(forwarded.iter().all(|f| f.total == 2));
    assert_eq!(forwarded[0].percent, 50);
    assert_eq!(forwarded[0].name, "providerA");
    assert_eq!(forwarded[0].status, "halfway");
    assert_eq!(forwarded[1].percent, 100);
    assert_eq!(forwarded[2].percent, 100);
    assert_eq!(forwarded[2].name, "providerB");

    assert!(orch.reboot_required());
    let summary = orch.finalize();
    assert_eq!(summary.percent, 100);
    assert!(summary.reboot_required);
    assert!(summary.failed.is_empty());
}

#[test]
fn silent_failing_plugin_gets_one_synthesized_terminal_record() {
    // providerX sends no records and returns false: exactly one terminal
    // failure record is synthesized and the run completes.
    let mut orch = Orchestrator::new(names(&["providerX"]), &no_conflicts(1));
    let synth = orch.on_provider_end(false);
    let rec = synth.expect("a terminal record must be synthesized");
    assert_eq!(rec.name, "providerX");
    assert_eq!(rec.index, 1);
    assert_eq!(rec.total, 1);
    assert_eq!(rec.percent, 100);
    assert!(!rec.pulse);
    assert_eq!(rec.status, "Update failed.");
    assert!(rec.stdout.is_none());
    assert!(rec.stderr.is_none());
    assert_eq!(orch.state(), RunState::Done);
    let summary = orch.finalize();
    assert_eq!(summary.failed, vec!["providerX".to_string()]);
}

#[test]
fn silent_successful_plugin_gets_a_synthesized_completion_record() {
    let mut orch = Orchestrator::new(names(&["quiet"]), &no_conflicts(1));
    let rec = orch.on_provider_end(true).expect("a terminal record must be synthesized");
    assert_eq!(rec.percent, 100);
    assert_eq!(rec.status, "Update complete.");
    assert_eq!(orch.state(), RunState::Done);
    assert!(orch.finalize().failed.is_empty());
}

#[test]
fn percents_are_clamped_and_never_regress() {
    // Raw percents 30, 20, 250: forwarded as 30, 30, 100.
    let mut orch = Orchestrator::new(names(&["p"]), &no_conflicts(1));
    let mut rec = PluginProgress::new("p");
    rec.progress = 30;
    assert_eq!(orch.on_record(&rec).percent, 30);
    rec.progress = 20;
    assert_eq!(orch.on_record(&rec).percent, 30);
    rec.progress = 250;
    assert_eq!(orch.on_record(&rec).percent, 100);
}

#[test]
fn reboot_flag_is_sticky() {
    let mut orch = Orchestrator::new(names(&["p", "q"]), &no_conflicts(2));
    let mut rec = PluginProgress::new("p");
    rec.reboot_required = true;
    orch.on_record(&rec);
    orch.on_provider_end(true);
    let mut rec2 = PluginProgress::new("q");
    rec2.progress = 100;
    orch.on_record(&rec2);
    orch.on_provider_end(true);
    assert!(orch.reboot_required());
    assert!(orch.finalize().reboot_required);
}

#[test]
fn failed_plugin_does_not_stop_the_run() {
    let mut orch = Orchestrator::new(names(&["p", "q"]), &no_conflicts(2));
    let mut rec = PluginProgress::new("p");
    rec.progress = 100;
    orch.on_record(&rec);
    assert!(orch.on_provider_end(false).is_none());
    assert_eq!(orch.state(), RunState::Running { current: 1 });
    let mut rec2 = PluginProgress::new("q");
    rec2.progress = 100;
    orch.on_record(&rec2);
    orch.on_provider_end(true);
    assert_eq!(orch.state(), RunState::Done);
    assert_eq!(orch.finalize().failed, vec!["p".to_string()]);
}

#[test]
fn poll_drains_a_real_channel() {
    let (tx, rx) = flume::unbounded::<PluginProgress>();
    let mut orch = Orchestrator::new(names(&["p"]), &no_conflicts(1));

    let mut rec1 = PluginProgress::new("p");
    rec1.progress = 40;
    let mut rec2 = PluginProgress::new("p");
    rec2.progress = 100;
    assert!(renovatio::channel::send_all(&tx, vec![rec1, rec2]));

    match orch.poll(&rx) {
        PollOutcome::Forwarded(f) => assert_eq!(f.percent, 40),
        _ => panic!("first poll must yield the first record"),
    }
    match orch.poll(&rx) {
        PollOutcome::Forwarded(f) => assert_eq!(f.percent, 100),
        _ => panic!("second poll must yield the second record"),
    }
    match orch.poll(&rx) {
        PollOutcome::Idle => {},
        _ => panic!("an open, empty channel polls as idle"),
    }
    drop(tx);
    match orch.poll(&rx) {
        PollOutcome::Closed => {},
        _ => panic!("a drained channel with no senders polls as closed"),
    }
    assert!(orch.on_provider_end(true).is_none());
    assert_eq!(orch.state(), RunState::Done);
}
