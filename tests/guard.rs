use sprt::guard::{
    holder_from, parse_pid, plan_acquire, watch_paths, GuardError, LockStore, MarkerState,
};

#[test]
fn acquire_after_release_succeeds_again() {
    let mut store = LockStore::new("/tmp/watch");
    let p = String::from("deploy-online");
    assert!(store.try_acquire(&p).is_ok());
    assert_eq!(store.release(&p), Ok(()));
    assert!(store.try_acquire(&p).is_ok());
    assert!(matches!(store.state_of(&p), MarkerState::Present(c) if c.is_empty()));
}

#[test]
fn acquire_with_marker_is_refused_and_changes_nothing() {
    let mut store = LockStore::new("/tmp/watch");
    let p = String::from("deploy-online");
    assert!(store.try_acquire(&p).is_ok());
    assert_eq!(store.record(&p, String::from("4242\n")), Ok(()));
    assert!(matches!(store.try_acquire(&p), Err(GuardError::AlreadyWatching)));
    assert!(matches!(store.state_of(&p), MarkerState::Present(c) if c == "4242\n"));
    assert_eq!(store.holder_of(&p), Ok(4242));
}

#[test]
fn markers_of_pipelines_are_independent() {
    let mut store = LockStore::new("/tmp/watch");
    let a = String::from("a");
    let b = String::from("b");
    assert!(store.try_acquire(&a).is_ok());
    assert!(store.try_acquire(&b).is_ok());
    assert_eq!(store.release(&a), Ok(()));
    assert!(matches!(store.state_of(&a), MarkerState::Absent));
    assert!(matches!(store.state_of(&b), MarkerState::Present(_)));
}

#[test]
fn unwatch_twice_succeeds_then_not_watching() {
    let mut store = LockStore::new("/tmp/watch");
    let p = String::from("deploy-swc");
    assert!(store.try_acquire(&p).is_ok());
    assert_eq!(store.record(&p, String::from("1234\n")), Ok(()));
    assert_eq!(store.unwatch(&p), Ok(1234));
    assert_eq!(store.unwatch(&p), Err(GuardError::NotWatching));
}

#[test]
fn unwatch_with_unreadable_marker_keeps_it() {
    let mut store = LockStore::new("/tmp/watch");
    let p = String::from("deploy-swc");
    assert!(store.try_acquire(&p).is_ok());
    assert_eq!(store.unwatch(&p), Err(GuardError::MarkerUnreadable));
    assert!(matches!(store.state_of(&p), MarkerState::Present(_)));
}

#[test]
fn release_without_marker_is_not_watching() {
    let mut store = LockStore::new("/tmp/watch");
    let p = String::from("x");
    assert_eq!(store.release(&p), Err(GuardError::NotWatching));
    assert_eq!(store.record(&p, String::from("1")), Err(GuardError::NotWatching));
}

#[test]
fn acquire_returns_watch_files() {
    let mut store = LockStore::new("/run/w");
    let p = String::from("pipe");
    let paths = store.try_acquire(&p).ok().unwrap();
    assert_eq!(paths.marker, "/run/w/pipe/daemon.pid");
}

#[test]
fn parse_pid_reads_trimmed_decimal() {
    assert_eq!(parse_pid("1234\n"), Some(1234));
    assert_eq!(parse_pid("  77 \t\r\n"), Some(77));
    assert_eq!(parse_pid("2147483647"), Some(2147483647));
}

#[test]
fn parse_pid_rejects_malformed() {
    assert_eq!(parse_pid(""), None);
    assert_eq!(parse_pid("   \n"), None);
    assert_eq!(parse_pid("12a"), None);
    assert_eq!(parse_pid("-5"), None);
    assert_eq!(parse_pid("0"), None);
    assert_eq!(parse_pid("2147483648"), None);
    assert_eq!(parse_pid("99999999999999999999"), None);
    assert_eq!(parse_pid("1 2"), None);
}

#[test]
fn holder_from_each_state() {
    assert_eq!(holder_from(&MarkerState::Absent), Err(GuardError::NotWatching));
    assert_eq!(holder_from(&MarkerState::Unreadable), Err(GuardError::MarkerUnreadable));
    assert_eq!(holder_from(&MarkerState::Present(String::from("x"))), Err(GuardError::MarkerUnreadable));
    assert_eq!(holder_from(&MarkerState::Present(String::from("31\n"))), Ok(31));
}

#[test]
fn watch_paths_are_under_pipeline_directory() {
    let p = watch_paths("/tmp/watch", "online-prod");
    assert_eq!(p.dir, "/tmp/watch/online-prod");
    assert_eq!(p.marker, "/tmp/watch/online-prod/daemon.pid");
    assert_eq!(p.stdout_log, "/tmp/watch/online-prod/daemon.stdout.log");
    assert_eq!(p.stderr_log, "/tmp/watch/online-prod/daemon.stderr.log");
}

#[test]
fn plan_acquire_refuses_existing_marker() {
    assert!(matches!(plan_acquire(true, "/r", "p"), Err(GuardError::AlreadyWatching)));
    let paths = plan_acquire(false, "/r", "p").ok().unwrap();
    assert_eq!(paths.marker, "/r/p/daemon.pid");
}
