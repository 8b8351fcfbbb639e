use kv_service::key::TimeStamp;
use kv_service::response::Reply;
use kv_service::txn::Action;
use kv_service::txn::BatchRollbackResponse;
use kv_service::txn::CheckSecondaryLocksResponse;
use kv_service::txn::CheckTxnStatusResponse;
use kv_service::txn::CleanupFailure;
use kv_service::txn::CleanupResponse;
use kv_service::txn::CommitResponse;
use kv_service::txn::KeyErrorsReply;
use kv_service::txn::Lock;
use kv_service::txn::MvccGetByKeyResponse;
use kv_service::txn::MvccGetByStartTsResponse;
use kv_service::txn::MvccInfo;
use kv_service::txn::PessimisticLockResponse;
use kv_service::txn::PessimisticRollbackResponse;
use kv_service::txn::PrewriteReply;
use kv_service::txn::PrewriteResponse;
use kv_service::txn::ResolveLockResponse;
use kv_service::txn::ScanLockResponse;
use kv_service::txn::SecondaryLocksStatus;
use kv_service::txn::TxnHeartBeatResponse;
use kv_service::txn::TxnStatus;

type Region = &'static str;
type KeyErr = &'static str;
type Info = &'static str;

fn ts(inner: u64) -> TimeStamp {
    TimeStamp { inner }
}

fn ok<T, E>(value: T) -> Reply<T, E, Region> {
    Reply { region_error: None, result: Ok(value) }
}

fn err<T, E>(error: E) -> Reply<T, E, Region> {
    Reply { region_error: None, result: Err(error) }
}

fn moved<T, E>(error: E) -> Reply<T, E, Region> {
    Reply { region_error: Some("moved"), result: Err(error) }
}

#[test]
fn prewrite_tells_the_least_commit_ts_and_the_errors() {
    let done: PrewriteResponse<Region, KeyErr> = PrewriteResponse::from_reply(PrewriteReply {
        region_error: None,
        min_commit_ts: Some(ts(12)),
        errors: vec![],
    });
    assert_eq!(
        done,
        PrewriteResponse { region_error: None, errors: vec![], min_commit_ts: 12 }
    );
    let failed: PrewriteResponse<Region, KeyErr> = PrewriteResponse::from_reply(PrewriteReply {
        region_error: None,
        min_commit_ts: None,
        errors: vec!["conflict", "locked"],
    });
    assert_eq!(
        failed,
        PrewriteResponse {
            region_error: None,
            errors: vec!["conflict", "locked"],
            min_commit_ts: 0,
        }
    );
    let misdirected: PrewriteResponse<Region, KeyErr> =
        PrewriteResponse::from_reply(PrewriteReply {
            region_error: Some("moved"),
            min_commit_ts: Some(ts(12)),
            errors: vec!["conflict"],
        });
    assert_eq!(
        misdirected,
        PrewriteResponse { region_error: Some("moved"), errors: vec![], min_commit_ts: 0 }
    );
}

#[test]
fn pessimistic_lock_fails_the_same_way_inside_and_outside() {
    let values = vec![vec![1u8], vec![2u8]];
    let locked: PessimisticLockResponse<Region, KeyErr> =
        PessimisticLockResponse::from_reply(ok(Ok(values.clone())));
    assert_eq!(locked.values, values);
    assert_eq!(locked.errors.len(), 0);
    let inside: PessimisticLockResponse<Region, KeyErr> =
        PessimisticLockResponse::from_reply(ok(Err("deadlock")));
    let outside: PessimisticLockResponse<Region, KeyErr> =
        PessimisticLockResponse::from_reply(err("deadlock"));
    assert_eq!(inside, outside);
    assert_eq!(inside.errors, vec!["deadlock"]);
    assert_eq!(inside.values.len(), 0);
    let away: PessimisticLockResponse<Region, KeyErr> =
        PessimisticLockResponse::from_reply(moved("deadlock"));
    assert_eq!(
        away,
        PessimisticLockResponse { region_error: Some("moved"), errors: vec![], values: vec![] }
    );
}

#[test]
fn pessimistic_rollback_tells_the_errors() {
    let resp: PessimisticRollbackResponse<Region, KeyErr> =
        PessimisticRollbackResponse::from_reply(KeyErrorsReply {
            region_error: None,
            errors: vec!["a", "b"],
        });
    assert_eq!(resp.errors, vec!["a", "b"]);
    let away: PessimisticRollbackResponse<Region, KeyErr> =
        PessimisticRollbackResponse::from_reply(KeyErrorsReply {
            region_error: Some("moved"),
            errors: vec!["a", "b"],
        });
    assert_eq!(
        away,
        PessimisticRollbackResponse { region_error: Some("moved"), errors: vec![] }
    );
}

#[test]
fn rollback_and_resolve_tell_the_failure() {
    let rollback = |reply| -> BatchRollbackResponse<Region, KeyErr> {
        BatchRollbackResponse::from_reply(reply)
    };
    assert_eq!(rollback(ok(())).error, None);
    assert_eq!(rollback(err("committed")).error, Some("committed"));
    assert_eq!(rollback(moved("committed")).error, None);
    assert_eq!(rollback(moved("committed")).region_error, Some("moved"));
    let resolve = |reply| -> ResolveLockResponse<Region, KeyErr> {
        ResolveLockResponse::from_reply(reply)
    };
    assert_eq!(resolve(ok(())).error, None);
    assert_eq!(resolve(err("committed")).error, Some("committed"));
    assert_eq!(resolve(moved("committed")).error, None);
}

#[test]
fn commit_tells_when() {
    let commit = |reply: Reply<TxnStatus<Info>, KeyErr, Region>| -> CommitResponse<Region, KeyErr> {
        CommitResponse::from_reply(reply)
    };
    assert_eq!(
        commit(ok(TxnStatus::Committed { commit_ts: ts(99) })),
        CommitResponse { region_error: None, error: None, commit_version: 99 }
    );
    assert_eq!(
        commit(err("no lock")),
        CommitResponse { region_error: None, error: Some("no lock"), commit_version: 0 }
    );
    assert_eq!(
        commit(moved("no lock")),
        CommitResponse { region_error: Some("moved"), error: None, commit_version: 0 }
    );
}

#[test]
fn cleanup_of_a_committed_transaction_tells_when() {
    let cleanup = |reply| -> CleanupResponse<Region, KeyErr> { CleanupResponse::from_reply(reply) };
    let failure = |committed| CleanupFailure { committed, key_error: "refused" };
    assert_eq!(
        cleanup(ok(())),
        CleanupResponse { region_error: None, error: None, commit_version: 0 }
    );
    assert_eq!(
        cleanup(err(failure(Some(ts(8))))),
        CleanupResponse { region_error: None, error: None, commit_version: 8 }
    );
    assert_eq!(
        cleanup(err(failure(None))),
        CleanupResponse { region_error: None, error: Some("refused"), commit_version: 0 }
    );
    assert_eq!(
        cleanup(moved(failure(Some(ts(8))))),
        CleanupResponse { region_error: Some("moved"), error: None, commit_version: 0 }
    );
}

fn lock(min_commit_ts: u64) -> Lock<Info> {
    Lock { ttl: 3000, min_commit_ts: ts(min_commit_ts), info: "primary" }
}

#[test]
fn heart_beat_tells_the_ttl() {
    let beat =
        |reply: Reply<TxnStatus<Info>, KeyErr, Region>| -> TxnHeartBeatResponse<Region, KeyErr> {
            TxnHeartBeatResponse::from_reply(reply)
        };
    assert_eq!(
        beat(ok(TxnStatus::Uncommitted { lock: lock(1) })),
        TxnHeartBeatResponse { region_error: None, error: None, lock_ttl: 3000 }
    );
    assert_eq!(
        beat(err("no lock")),
        TxnHeartBeatResponse { region_error: None, error: Some("no lock"), lock_ttl: 0 }
    );
    assert_eq!(beat(moved("no lock")).error, None);
}

fn check(
    caller: u64,
    reply: Reply<TxnStatus<Info>, KeyErr, Region>,
) -> CheckTxnStatusResponse<Region, KeyErr, Info> {
    CheckTxnStatusResponse::from_reply(ts(caller), reply)
}

fn unchecked() -> CheckTxnStatusResponse<Region, KeyErr, Info> {
    CheckTxnStatusResponse {
        region_error: None,
        error: None,
        lock_ttl: 0,
        commit_version: 0,
        action: Action::NoAction,
        lock_info: None,
    }
}

#[test]
fn check_of_a_finished_transaction() {
    assert_eq!(check(5, ok(TxnStatus::RolledBack)), unchecked());
    assert_eq!(
        check(5, ok(TxnStatus::TtlExpire)),
        CheckTxnStatusResponse { action: Action::TtlExpireRollback, ..unchecked() }
    );
    assert_eq!(
        check(5, ok(TxnStatus::LockNotExist)),
        CheckTxnStatusResponse { action: Action::LockNotExistRollback, ..unchecked() }
    );
    assert_eq!(
        check(5, ok(TxnStatus::Committed { commit_ts: ts(4) })),
        CheckTxnStatusResponse { commit_version: 4, ..unchecked() }
    );
    assert_eq!(
        check(5, err("no such lock")),
        CheckTxnStatusResponse { error: Some("no such lock"), ..unchecked() }
    );
    assert_eq!(
        check(5, moved("no such lock")),
        CheckTxnStatusResponse { region_error: Some("moved"), ..unchecked() }
    );
}

#[test]
fn check_of_a_live_transaction() {
    let live = |action| CheckTxnStatusResponse {
        lock_ttl: 3000,
        lock_info: Some("primary"),
        action,
        ..unchecked()
    };
    let status = |min| ok(TxnStatus::Uncommitted { lock: lock(min) });
    assert_eq!(check(5, status(6)), live(Action::MinCommitTsPushed));
    assert_eq!(check(5, status(5)), live(Action::NoAction));
    assert_eq!(check(5, status(4)), live(Action::NoAction));
    assert_eq!(check(u64::MAX - 1, status(4)), live(Action::NoAction));
}

#[test]
fn the_last_reader_never_waits() {
    for min in vec![0, 4, u64::MAX] {
        let resp = check(u64::MAX, ok(TxnStatus::Uncommitted { lock: lock(min) }));
        assert_eq!(resp.action, Action::MinCommitTsPushed);
        assert_eq!(resp.lock_info, Some("primary"));
    }
}

#[test]
fn secondary_locks_cases() {
    let secondary = |reply| -> CheckSecondaryLocksResponse<Region, KeyErr, Info> {
        CheckSecondaryLocksResponse::from_reply(reply)
    };
    let blank = || CheckSecondaryLocksResponse {
        region_error: None,
        error: None,
        locks: vec![],
        commit_ts: 0,
    };
    assert_eq!(
        secondary(ok(SecondaryLocksStatus::Locked(vec!["x", "y"]))),
        CheckSecondaryLocksResponse { locks: vec!["x", "y"], ..blank() }
    );
    assert_eq!(
        secondary(ok(SecondaryLocksStatus::Committed(ts(3)))),
        CheckSecondaryLocksResponse { commit_ts: 3, ..blank() }
    );
    assert_eq!(secondary(ok(SecondaryLocksStatus::RolledBack)), blank());
    assert_eq!(
        secondary(err("e")),
        CheckSecondaryLocksResponse { error: Some("e"), ..blank() }
    );
    assert_eq!(
        secondary(moved("e")),
        CheckSecondaryLocksResponse { region_error: Some("moved"), ..blank() }
    );
}

#[test]
fn scan_lock_cases() {
    let scan = |reply| -> ScanLockResponse<Region, KeyErr, Info> {
        ScanLockResponse::from_reply(reply)
    };
    assert_eq!(scan(ok(vec!["x"])).locks, vec!["x"]);
    assert_eq!(scan(err("e")).error, Some("e"));
    assert_eq!(scan(err("e")).locks.len(), 0);
    assert_eq!(scan(moved("e")).error, None);
    assert_eq!(scan(moved("e")).region_error, Some("moved"));
}

#[test]
fn mvcc_by_key_cases() {
    let by_key = |reply| -> MvccGetByKeyResponse<Region, Info> {
        MvccGetByKeyResponse::from_reply(reply)
    };
    assert_eq!(
        by_key(ok("versions")),
        MvccGetByKeyResponse { region_error: None, error: String::new(), info: Some("versions") }
    );
    assert_eq!(
        by_key(err("bad".to_string())),
        MvccGetByKeyResponse { region_error: None, error: "bad".to_string(), info: None }
    );
    assert_eq!(
        by_key(moved("bad".to_string())),
        MvccGetByKeyResponse { region_error: Some("moved"), error: String::new(), info: None }
    );
}

#[test]
fn mvcc_by_start_ts_cases() {
    let by_ts = |reply| -> MvccGetByStartTsResponse<Region, Info> {
        MvccGetByStartTsResponse::from_reply(reply)
    };
    let blank = || MvccGetByStartTsResponse {
        region_error: None,
        error: String::new(),
        key: vec![],
        info: None,
    };
    assert_eq!(
        by_ts(ok(Some((vec![7u8], "versions")))),
        MvccGetByStartTsResponse {
            key: vec![7u8],
            info: Some(MvccInfo::Of("versions")),
            ..blank()
        }
    );
    assert_eq!(
        by_ts(ok(None)),
        MvccGetByStartTsResponse { info: Some(MvccInfo::Empty), ..blank() }
    );
    assert_eq!(
        by_ts(err("bad".to_string())),
        MvccGetByStartTsResponse { error: "bad".to_string(), ..blank() }
    );
    assert_eq!(
        by_ts(moved("bad".to_string())),
        MvccGetByStartTsResponse { region_error: Some("moved"), ..blank() }
    );
}
