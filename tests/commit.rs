use delta_txn::commit::{
    check_expected_version, classify_store_failure, CommitEffect, CommitEvent, CommitPhase,
    CommitSession, StoreFailure,
};
use delta_txn::errors::DeltaTxnError;
use delta_txn::mapping::{
    ActionError, ActionFault, WireAction, WireActionKind, WireAdd, DATA_CHANGE_TRUE,
};
use delta_txn::table_lock::TableLockManager;

fn add(path: &str) -> WireAction {
    WireAction {
        action: Some(WireActionKind::Add(WireAdd {
            path: path.to_string(),
            size: 10,
            modification_time: 1,
            partition_values: vec![],
            data_change: DATA_CHANGE_TRUE,
            tags: vec![],
        })),
    }
}

fn resolve(s: &mut CommitSession, first: CommitEffect) -> String {
    match first {
        CommitEffect::ResolveTarget(uri) => match s.step(CommitEvent::TargetResolved(Ok(uri))) {
            CommitEffect::AcquireLock(k) => k,
            _ => panic!("expected a lock request"),
        },
        _ => panic!("expected a target request"),
    }
}

#[test]
fn version_check_outcomes() {
    assert!(check_expected_version(None, None).is_ok());
    assert!(check_expected_version(None, Some(3)).is_ok());
    assert!(check_expected_version(Some(3), Some(3)).is_ok());
    assert!(matches!(
        check_expected_version(Some(5), Some(6)),
        Err(DeltaTxnError::VersionConflict { expected: 5, actual: 6 })
    ));
    assert!(matches!(check_expected_version(Some(0), None), Err(DeltaTxnError::NotInitialized)));
}

#[test]
fn store_failures_are_classified() {
    assert!(matches!(
        classify_store_failure(StoreFailure::Conflict { expected: 2, actual: 3 }),
        DeltaTxnError::VersionConflict { expected: 2, actual: 3 }
    ));
    match classify_store_failure(StoreFailure::Other("disk full".to_string())) {
        DeltaTxnError::CommitFailed(m) => assert_eq!(m, "disk full"),
        _ => panic!("expected a commit failure"),
    }
}

#[test]
fn successful_commit_walks_every_phase() {
    let (mut s, first, actions) = CommitSession::begin("mem://t".to_string(), Some(4), vec![add("f")]);
    assert_eq!(actions.len(), 1);
    let key = resolve(&mut s, first);
    assert_eq!(key, "mem://t");
    assert!(matches!(s.step(CommitEvent::LockGranted), CommitEffect::OpenTable(k) if k == "mem://t"));
    assert!(matches!(
        s.step(CommitEvent::TableOpened(Ok(Some(4)))),
        CommitEffect::WriteActions(k) if k == "mem://t"
    ));
    assert!(matches!(s.step(CommitEvent::WriteFinished(Ok(5))), CommitEffect::Reply(Ok(5))));
    assert!(s.phase == CommitPhase::Finished);
}

#[test]
fn stale_expected_version_writes_nothing() {
    let (mut s, first, _) = CommitSession::begin("mem://t".to_string(), Some(5), vec![add("f")]);
    resolve(&mut s, first);
    s.step(CommitEvent::LockGranted);
    assert!(matches!(
        s.step(CommitEvent::TableOpened(Ok(Some(7)))),
        CommitEffect::Reply(Err(DeltaTxnError::VersionConflict { expected: 5, actual: 7 }))
    ));
    assert!(matches!(s.step(CommitEvent::WriteFinished(Ok(8))), CommitEffect::Wait));
}

#[test]
fn no_expected_version_commits_unconditionally() {
    let (mut s, first, _) = CommitSession::begin("mem://t".to_string(), None, vec![add("f")]);
    resolve(&mut s, first);
    s.step(CommitEvent::LockGranted);
    assert!(matches!(s.step(CommitEvent::TableOpened(Ok(Some(41)))), CommitEffect::WriteActions(_)));
    assert!(matches!(
        s.step(CommitEvent::WriteFinished(Err(StoreFailure::Other("io".to_string())))),
        CommitEffect::Reply(Err(DeltaTxnError::CommitFailed(_)))
    ));
}

#[test]
fn missing_path_fails_before_lock() {
    let (mut s, first, actions) = CommitSession::begin("mem://t".to_string(), Some(1), vec![add("")]);
    assert!(actions.is_empty());
    assert!(matches!(
        first,
        CommitEffect::Reply(Err(DeltaTxnError::InvalidAction(ActionError {
            index: 0,
            fault: ActionFault::MissingAddPath
        })))
    ));
    assert!(s.phase == CommitPhase::Finished);
    assert!(matches!(s.step(CommitEvent::TargetResolved(Ok("mem://t".to_string()))), CommitEffect::Wait));
}

#[test]
fn invalid_target_and_open_failure() {
    let (mut s, _, _) = CommitSession::begin("::".to_string(), None, vec![]);
    assert!(matches!(
        s.step(CommitEvent::TargetResolved(Err("bad uri".to_string()))),
        CommitEffect::Reply(Err(DeltaTxnError::InvalidTarget(_)))
    ));
    let (mut s, first, _) = CommitSession::begin("mem://t".to_string(), None, vec![]);
    resolve(&mut s, first);
    assert!(matches!(s.step(CommitEvent::TableOpened(Ok(None))), CommitEffect::Wait));
    s.step(CommitEvent::LockGranted);
    assert!(matches!(
        s.step(CommitEvent::TableOpened(Err("unreachable".to_string()))),
        CommitEffect::Reply(Err(DeltaTxnError::OpenFailed(_)))
    ));
}

#[test]
fn uninitialised_table_with_expected_version() {
    let (mut s, first, _) = CommitSession::begin("mem://t".to_string(), Some(0), vec![]);
    resolve(&mut s, first);
    s.step(CommitEvent::LockGranted);
    assert!(matches!(
        s.step(CommitEvent::TableOpened(Ok(None))),
        CommitEffect::Reply(Err(DeltaTxnError::NotInitialized))
    ));
}

#[test]
fn concurrent_commits_same_expected_version() {
    let mut locks = TableLockManager::new();
    let mut version: i64 = 5;
    let (mut a, fa, _) = CommitSession::begin("mem://T".to_string(), Some(5), vec![add("a")]);
    let (mut b, fb, _) = CommitSession::begin("mem://T".to_string(), Some(5), vec![add("b")]);
    let ka = resolve(&mut a, fa);
    let kb = resolve(&mut b, fb);
    let ha = locks.lock_for(&ka);
    let hb = locks.lock_for(&kb);
    assert!(ha.lock(&mut locks));
    assert!(!hb.lock(&mut locks));
    a.step(CommitEvent::LockGranted);
    assert!(matches!(a.step(CommitEvent::TableOpened(Ok(Some(version)))), CommitEffect::WriteActions(_)));
    version += 1;
    assert!(matches!(a.step(CommitEvent::WriteFinished(Ok(version))), CommitEffect::Reply(Ok(6))));
    locks.release(ha);
    assert!(hb.lock(&mut locks));
    b.step(CommitEvent::LockGranted);
    assert!(matches!(
        b.step(CommitEvent::TableOpened(Ok(Some(version)))),
        CommitEffect::Reply(Err(DeltaTxnError::VersionConflict { expected: 5, actual: 6 }))
    ));
    locks.release(hb);
    assert_eq!(locks.len(), 0);
}

#[test]
fn commits_to_different_tables_do_not_wait() {
    let mut locks = TableLockManager::new();
    let (mut a, fa, _) = CommitSession::begin("mem://T1".to_string(), None, vec![add("a")]);
    let (mut b, fb, _) = CommitSession::begin("mem://T2".to_string(), None, vec![add("b")]);
    let ha = locks.lock_for(&resolve(&mut a, fa));
    let hb = locks.lock_for(&resolve(&mut b, fb));
    assert!(ha.lock(&mut locks));
    assert!(hb.lock(&mut locks));
    a.step(CommitEvent::LockGranted);
    b.step(CommitEvent::LockGranted);
    assert!(matches!(a.step(CommitEvent::TableOpened(Ok(Some(0)))), CommitEffect::WriteActions(_)));
    assert!(matches!(b.step(CommitEvent::TableOpened(Ok(Some(9)))), CommitEffect::WriteActions(_)));
    assert!(matches!(b.step(CommitEvent::WriteFinished(Ok(10))), CommitEffect::Reply(Ok(10))));
    assert!(matches!(a.step(CommitEvent::WriteFinished(Ok(1))), CommitEffect::Reply(Ok(1))));
    locks.release(ha);
    locks.release(hb);
    assert_eq!(locks.len(), 0);
}
