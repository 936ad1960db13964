use plugin_host::directory::get_plugins_from_path;
use plugin_host::execution::{ExecutionLoop, LoopAction, LoopEvent, LoopState};
use plugin_host::fault::{is_fatal, recovery, Activity, Fault, Recovery};

fn names(list: &[&str]) -> Vec<String> {
    list.iter().map(|s| s.to_string()).collect()
}

fn run_of(action: LoopAction) -> (String, u64) {
    match action {
        LoopAction::Run { artifact, run } => (artifact, run),
        _ => panic!("the loop did not ask for a run"),
    }
}

#[test]
fn artifacts_are_filtered_and_sorted() {
    let entries = names(&["b.wasm", "readme.txt", "a.wasm", "plugin.wasm", "a.wasm.bak", "wasm", "B.wasm"]);
    assert_eq!(get_plugins_from_path(&entries), names(&["B.wasm", "a.wasm", "b.wasm", "plugin.wasm"]));
}

#[test]
fn sorting_is_by_characters_and_keeps_duplicates() {
    let entries = names(&["ab.wasm", "a.wasm", "abc.wasm", "a.wasm", "é.wasm", "z.wasm", ".wasm"]);
    assert_eq!(
        get_plugins_from_path(&entries),
        names(&[".wasm", "a.wasm", "a.wasm", "ab.wasm", "abc.wasm", "z.wasm", "é.wasm"])
    );
}

#[test]
fn empty_listing_is_no_error() {
    assert_eq!(get_plugins_from_path(&Vec::new()), Vec::<String>::new());
    assert_eq!(get_plugins_from_path(&names(&["notes.md"])), Vec::<String>::new());
}

#[test]
fn execution_ordering() {
    let mut host = ExecutionLoop::new();
    assert_eq!(host.state(), LoopState::Scanning);
    let action = host.step(LoopEvent::Listed { entries: names(&["b.wasm", "a.wasm"]) });
    assert!(matches!(action, LoopAction::OpenChip));
    assert_eq!(host.state(), LoopState::Opening);
    let first = run_of(host.step(LoopEvent::ChipOpened));
    assert_eq!(first, ("a.wasm".to_string(), 0));
    assert_eq!(host.state(), LoopState::Running);
    let second = run_of(host.step(LoopEvent::RunCompleted));
    assert_eq!(second, ("b.wasm".to_string(), 1));
    let action = host.step(LoopEvent::RunCompleted);
    assert!(matches!(action, LoopAction::Scan));
    assert_eq!(host.state(), LoopState::Scanning);
    let action = host.step(LoopEvent::Listed { entries: names(&["a.wasm"]) });
    assert!(matches!(action, LoopAction::OpenChip));
    let third = run_of(host.step(LoopEvent::ChipOpened));
    assert_eq!(third, ("a.wasm".to_string(), 2));
}

#[test]
fn no_artifacts_ends_the_host() {
    let mut host = ExecutionLoop::new();
    let action = host.step(LoopEvent::Listed { entries: names(&["readme.txt"]) });
    assert!(matches!(action, LoopAction::Exit));
    assert_eq!(host.state(), LoopState::Finished);
    assert!(matches!(host.step(LoopEvent::ChipOpened), LoopAction::Ignore));
    assert!(matches!(host.step(LoopEvent::Listed { entries: names(&["a.wasm"]) }), LoopAction::Ignore));
}

#[test]
fn a_fault_ends_the_host_without_further_runs() {
    let mut host = ExecutionLoop::new();
    host.step(LoopEvent::Listed { entries: names(&["a.wasm", "b.wasm"]) });
    run_of(host.step(LoopEvent::ChipOpened));
    let action = host.step(LoopEvent::Failed { fault: Fault::Sandbox });
    assert!(matches!(action, LoopAction::Abort { fault: Fault::Sandbox }));
    assert_eq!(host.state(), LoopState::Finished);
    assert!(matches!(host.step(LoopEvent::RunCompleted), LoopAction::Ignore));
    assert!(matches!(host.step(LoopEvent::Failed { fault: Fault::Sandbox }), LoopAction::Ignore));
}

#[test]
fn faults_that_do_not_end_a_run_are_ignored() {
    let mut host = ExecutionLoop::new();
    host.step(LoopEvent::Listed { entries: names(&["a.wasm"]) });
    assert!(matches!(host.step(LoopEvent::Failed { fault: Fault::Hardware }), LoopAction::Ignore));
    assert_eq!(host.state(), LoopState::Opening);
    let action = host.step(LoopEvent::Failed { fault: Fault::Filesystem });
    assert!(matches!(action, LoopAction::Abort { fault: Fault::Filesystem }));
}

#[test]
fn events_out_of_turn_are_ignored() {
    let mut host = ExecutionLoop::new();
    assert!(matches!(host.step(LoopEvent::RunCompleted), LoopAction::Ignore));
    assert!(matches!(host.step(LoopEvent::ChipOpened), LoopAction::Ignore));
    assert_eq!(host.state(), LoopState::Scanning);
}

#[test]
fn each_fault_has_its_recovery() {
    assert_eq!(recovery(Fault::Hardware, Activity::Execution), Recovery::ReportToPlugin);
    assert_eq!(recovery(Fault::Handle, Activity::Execution), Recovery::EndInstantiation);
    assert_eq!(recovery(Fault::Transport, Activity::Update), Recovery::NoUpdate);
    assert_eq!(recovery(Fault::Integrity, Activity::Update), Recovery::Cleanup);
    assert_eq!(recovery(Fault::Filesystem, Activity::Execution), Recovery::EndHost);
    assert_eq!(recovery(Fault::Filesystem, Activity::Update), Recovery::SkipCycle);
    assert_eq!(recovery(Fault::Sandbox, Activity::Execution), Recovery::EndHost);
    assert!(is_fatal(Fault::Sandbox, Activity::Execution));
    assert!(is_fatal(Fault::Handle, Activity::Execution));
    assert!(is_fatal(Fault::Filesystem, Activity::Execution));
    assert!(!is_fatal(Fault::Filesystem, Activity::Update));
    assert!(!is_fatal(Fault::Hardware, Activity::Execution));
    assert!(!is_fatal(Fault::Transport, Activity::Update));
    assert!(!is_fatal(Fault::Integrity, Activity::Update));
}
