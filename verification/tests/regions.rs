use kv_service::bytes::sort_bytes;
use kv_service::gc::CheckLockObserverRequest;
use kv_service::gc::CheckLockObserverResponse;
use kv_service::gc::GcCall;
use kv_service::gc::PhysicalScanLockRequest;
use kv_service::gc::PhysicalScanLockResponse;
use kv_service::gc::RegisterLockObserverRequest;
use kv_service::gc::RegisterLockObserverResponse;
use kv_service::gc::RemoveLockObserverRequest;
use kv_service::gc::RemoveLockObserverResponse;
use kv_service::gc::UnsafeDestroyRangeRequest;
use kv_service::gc::UnsafeDestroyRangeResponse;
use kv_service::key::Key;
use kv_service::key::TimeStamp;
use kv_service::region::CmdType;
use kv_service::region::RaftRequestHeader;
use kv_service::region::ReadIndexContext;
use kv_service::region::ReadIndexReply;
use kv_service::region::ReadIndexRequest;
use kv_service::region::ReadIndexResponse;
use kv_service::region::RegionFailure;
use kv_service::region::SplitRegion;
use kv_service::region::SplitRegionReply;
use kv_service::region::SplitRegionRequest;
use kv_service::region::SplitRegionResponse;

fn bytes(s: &str) -> Vec<u8> {
    s.as_bytes().to_vec()
}

fn all(keys: &[&str]) -> Vec<Vec<u8>> {
    keys.iter().map(|k| bytes(k)).collect()
}

#[test]
fn sorting_puts_prefixes_first() {
    assert_eq!(
        sort_bytes(all(&["b", "ab", "", "a", "abc", "a", "ac"])),
        all(&["", "a", "a", "ab", "abc", "ac", "b"])
    );
    assert_eq!(sort_bytes(vec![]), Vec::<Vec<u8>>::new());
    assert_eq!(sort_bytes(vec![vec![255], vec![0, 255], vec![0]]), vec![
        vec![0],
        vec![0, 255],
        vec![255],
    ]);
}

#[test]
fn sorting_agrees_with_the_order_of_vectors() {
    let mut state: u64 = 12345;
    let mut keys: Vec<Vec<u8>> = Vec::new();
    for _ in 0..300 {
        let mut key = Vec::new();
        state = state.wrapping_mul(6364136223846793005).wrapping_add(1442695040888963407);
        for i in 0..(state >> 61) {
            key.push(((state >> (8 * i)) & 3) as u8);
        }
        keys.push(key);
    }
    let mut expected = keys.clone();
    expected.sort();
    assert_eq!(sort_bytes(keys), expected);
}

fn split(split_key: &str, split_keys: &[&str]) -> SplitRegion<&'static str> {
    let request = SplitRegionRequest {
        region_id: 17,
        region_epoch: "epoch",
        split_key: bytes(split_key),
        split_keys: all(split_keys),
    };
    request.into_order(|mut key: Vec<u8>| {
        key.insert(0, b'z');
        key
    })
}

#[test]
fn split_at_several_keys_sorts_them() {
    assert_eq!(
        split("", &["c", "a", "b"]),
        SplitRegion { region_id: 17, region_epoch: "epoch", split_keys: all(&["za", "zb", "zc"]) }
    );
    assert_eq!(split("", &[]).split_keys, all(&[]));
}

#[test]
fn split_at_one_key_takes_no_notice_of_the_others() {
    assert_eq!(split("m", &["c", "a"]).split_keys, all(&["zm"]));
}

#[test]
fn split_sorts_the_encoded_keys() {
    let request = SplitRegionRequest {
        region_id: 1,
        region_epoch: 0u8,
        split_key: vec![],
        split_keys: vec![vec![1], vec![2], vec![3]],
    };
    let order = request.into_order(|key: Vec<u8>| vec![255 - key[0]]);
    assert_eq!(order.split_keys, vec![vec![252], vec![253], vec![254]]);
}

#[test]
fn the_order_of_split_keys_does_not_matter() {
    assert_eq!(split("", &["c", "a", "b", "a"]), split("", &["a", "a", "b", "c"]));
}

fn split_response(
    header_error: Option<&'static str>,
    regions: Vec<u64>,
) -> SplitRegionResponse<&'static str, u64> {
    SplitRegionResponse::from_reply(SplitRegionReply {
        header_error,
        regions,
        rendered: "splits {}".to_string(),
    })
}

#[test]
fn split_into_two_tells_left_from_right() {
    assert_eq!(
        split_response(None, vec![1, 2]),
        SplitRegionResponse {
            region_error: None,
            left: Some(1),
            right: Some(2),
            regions: vec![1, 2],
        }
    );
    assert_eq!(
        split_response(None, vec![1, 2, 3]),
        SplitRegionResponse {
            region_error: None,
            left: None,
            right: None,
            regions: vec![1, 2, 3],
        }
    );
}

#[test]
fn split_into_fewer_than_two_makes_no_sense() {
    for regions in vec![vec![], vec![1]] {
        assert_eq!(
            split_response(None, regions),
            SplitRegionResponse {
                region_error: Some(RegionFailure::Internal(
                    "Internal Error: invalid response: splits {}".to_string()
                )),
                left: None,
                right: None,
                regions: vec![],
            }
        );
    }
}

#[test]
fn split_error_of_the_region_is_passed_on() {
    assert_eq!(
        split_response(Some("stale epoch"), vec![1, 2]),
        SplitRegionResponse {
            region_error: Some(RegionFailure::Reported("stale epoch")),
            left: None,
            right: None,
            regions: vec![],
        }
    );
}

#[test]
fn read_index_asks_a_quorum() {
    let request = ReadIndexRequest {
        context: ReadIndexContext {
            region_id: 2,
            peer: "peer",
            region_epoch: "epoch",
            term: 6,
            sync_log: true,
        },
    };
    let cmd = request.into_command();
    assert_eq!(
        cmd.header,
        RaftRequestHeader {
            region_id: 2,
            peer: "peer",
            region_epoch: "epoch",
            term: 6,
            sync_log: true,
            read_quorum: true,
        }
    );
    assert_eq!(cmd.requests, vec![CmdType::ReadIndex]);
}

fn read_index(header_error: Option<u8>, read_indexes: Vec<u64>) -> ReadIndexResponse<u8> {
    ReadIndexResponse::from_reply(ReadIndexReply {
        header_error,
        read_indexes,
        rendered: "[]".to_string(),
    })
}

#[test]
fn read_index_cases() {
    assert_eq!(
        read_index(None, vec![77]),
        ReadIndexResponse { region_error: None, read_index: 77 }
    );
    for indexes in vec![vec![], vec![77, 78]] {
        assert_eq!(
            read_index(None, indexes),
            ReadIndexResponse {
                region_error: Some(RegionFailure::Internal(
                    "Internal Error: invalid response: []".to_string()
                )),
                read_index: 0,
            }
        );
    }
    assert_eq!(
        read_index(Some(4), vec![77]),
        ReadIndexResponse { region_error: Some(RegionFailure::Reported(4)), read_index: 0 }
    );
}

#[test]
fn gc_calls() {
    let max_ts = TimeStamp { inner: 31 };
    let start: GcCall<u8> = RegisterLockObserverRequest { max_ts: 31 }.into_call();
    assert_eq!(start, GcCall::StartCollecting { max_ts });
    let look: GcCall<u8> = CheckLockObserverRequest { max_ts: 31 }.into_call();
    assert_eq!(look, GcCall::GetCollectedLocks { max_ts });
    let stop: GcCall<u8> = RemoveLockObserverRequest { max_ts: 31 }.into_call();
    assert_eq!(stop, GcCall::StopCollecting { max_ts });
    assert_eq!(
        PhysicalScanLockRequest { context: 9u8, max_ts: 31, start_key: bytes("a"), limit: 10 }
            .into_call(),
        GcCall::PhysicalScanLock {
            context: 9,
            max_ts,
            start_key: Key { raw: bytes("a") },
            limit: 10,
        }
    );
}

#[test]
fn only_bounded_ranges_are_destroyed() {
    let request = |start: &str, end: &str| UnsafeDestroyRangeRequest {
        context: 9u8,
        start_key: bytes(start),
        end_key: bytes(end),
    };
    assert!(!request("", "b").is_bounded());
    assert!(!request("a", "").is_bounded());
    assert!(!request("", "").is_bounded());
    assert!(request("a", "b").is_bounded());
    assert_eq!(
        request("a", "b").into_call(),
        GcCall::UnsafeDestroyRange {
            context: 9,
            start_key: Key { raw: bytes("a") },
            end_key: Key { raw: bytes("b") },
        }
    );
}

#[test]
fn gc_responses_tell_the_failure() {
    let busy = || "busy".to_string();
    assert_eq!(RegisterLockObserverResponse::from_result(Ok(())).error, "");
    assert_eq!(RegisterLockObserverResponse::from_result(Err(busy())).error, "busy");
    assert_eq!(RemoveLockObserverResponse::from_result(Ok(())).error, "");
    assert_eq!(RemoveLockObserverResponse::from_result(Err(busy())).error, "busy");
    assert_eq!(UnsafeDestroyRangeResponse::from_result(Ok(())).error, "");
    assert_eq!(UnsafeDestroyRangeResponse::from_result(Err(busy())).error, "busy");
    assert_eq!(
        CheckLockObserverResponse::from_result(Ok((vec!["x"], true))),
        CheckLockObserverResponse { error: String::new(), is_clean: true, locks: vec!["x"] }
    );
    let failed: CheckLockObserverResponse<u8> = CheckLockObserverResponse::from_result(Err(busy()));
    assert_eq!(failed, CheckLockObserverResponse { error: busy(), is_clean: false, locks: vec![] });
    assert_eq!(PhysicalScanLockResponse::from_result(Ok(vec!["x"])).locks, vec!["x"]);
    let failed: PhysicalScanLockResponse<u8> = PhysicalScanLockResponse::from_result(Err(busy()));
    assert_eq!(failed, PhysicalScanLockResponse { error: busy(), locks: vec![] });
}
