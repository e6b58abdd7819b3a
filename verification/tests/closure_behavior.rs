use gated_channel::closure::{ClosureWatcher, WatcherState};

#[test]
fn first_reaction_and_only_the_first_fires_the_delete() {
    let mut watcher = ClosureWatcher::new();
    assert_eq!(watcher.state(), WatcherState::Waiting);
    assert!(watcher.on_reaction());
    assert_eq!(watcher.state(), WatcherState::Closing);
    assert!(!watcher.on_reaction());
    assert!(!watcher.on_reaction());
    assert_eq!(watcher.state(), WatcherState::Closing);
}

#[test]
fn successful_delete_closes_the_watcher() {
    let mut watcher = ClosureWatcher::new();
    watcher.on_reaction();
    watcher.on_delete_succeeded();
    assert_eq!(watcher.state(), WatcherState::Closed);
    assert!(watcher.is_done());
    // Later reactions on the consumed message fire nothing.
    assert!(!watcher.on_reaction());
    assert_eq!(watcher.state(), WatcherState::Closed);
}

#[test]
fn failed_delete_is_terminal_and_surfaced() {
    let mut watcher = ClosureWatcher::new();
    watcher.on_reaction();
    watcher.on_delete_failed();
    assert_eq!(watcher.state(), WatcherState::Failed);
    assert!(watcher.is_done());
    assert!(!watcher.on_reaction());
    assert_eq!(watcher.state(), WatcherState::Failed);
}

#[test]
fn delete_outcomes_before_the_first_reaction_change_nothing() {
    let mut watcher = ClosureWatcher::new();
    watcher.on_delete_succeeded();
    assert_eq!(watcher.state(), WatcherState::Waiting);
    watcher.on_delete_failed();
    assert_eq!(watcher.state(), WatcherState::Waiting);
}
