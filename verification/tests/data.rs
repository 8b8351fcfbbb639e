use kv_service::key::Key;
use kv_service::key::TimeStamp;
use kv_service::request::BatchGetRequest;
use kv_service::request::DeleteRangeRequest;
use kv_service::request::GetRequest;
use kv_service::request::KeyRange;
use kv_service::request::KvPair;
use kv_service::request::RawBatchDeleteRequest;
use kv_service::request::RawBatchGetRequest;
use kv_service::request::RawBatchPutRequest;
use kv_service::request::RawBatchScanRequest;
use kv_service::request::RawDeleteRangeRequest;
use kv_service::request::RawDeleteRequest;
use kv_service::request::RawGetRequest;
use kv_service::request::RawPutRequest;
use kv_service::request::RawScanRequest;
use kv_service::request::ScanRequest;
use kv_service::request::StorageCall;
use kv_service::response::BatchGetResponse;
use kv_service::response::DeleteRangeResponse;
use kv_service::response::GetResponse;
use kv_service::response::PairsReply;
use kv_service::response::RawBatchDeleteResponse;
use kv_service::response::RawBatchGetResponse;
use kv_service::response::RawBatchPutResponse;
use kv_service::response::RawBatchScanResponse;
use kv_service::response::RawDeleteRangeResponse;
use kv_service::response::RawDeleteResponse;
use kv_service::response::RawGetResponse;
use kv_service::response::RawPutResponse;
use kv_service::response::RawScanResponse;
use kv_service::response::Reply;
use kv_service::response::ScanResponse;

fn bytes(s: &str) -> Vec<u8> {
    s.as_bytes().to_vec()
}

fn key(s: &str) -> Key {
    Key { raw: bytes(s) }
}

fn scan_request(end_key: &str) -> ScanRequest<u32> {
    ScanRequest {
        context: 5,
        start_key: bytes("a"),
        end_key: bytes(end_key),
        limit: 100,
        sample_step: 3,
        version: 42,
        key_only: true,
        reverse: false,
    }
}

#[test]
fn get_names_its_key_and_version() {
    let call = GetRequest { context: 5u32, key: bytes("k"), version: 42 }.into_call();
    assert_eq!(
        call,
        StorageCall::Get { context: 5, key: key("k"), start_ts: TimeStamp { inner: 42 } }
    );
}

#[test]
fn scan_with_an_end_key_is_bounded() {
    assert_eq!(
        scan_request("z").into_call(),
        StorageCall::Scan {
            context: 5,
            start_key: key("a"),
            end_key: Some(key("z")),
            limit: 100,
            sample_step: 3,
            start_ts: TimeStamp { inner: 42 },
            key_only: true,
            reverse: false,
        }
    );
}

#[test]
fn scan_without_an_end_key_is_unbounded() {
    match scan_request("").into_call() {
        StorageCall::Scan { start_key, end_key, .. } => {
            assert_eq!(start_key, key("a"));
            assert_eq!(end_key, None);
        }
        other => panic!("{:?}", other),
    }
}

#[test]
fn scan_limit_takes_the_largest_number() {
    let mut request = scan_request("z");
    request.limit = u32::MAX;
    match request.into_call() {
        StorageCall::Scan { limit, .. } => assert_eq!(limit, 4294967295),
        other => panic!("{:?}", other),
    }
}

#[test]
fn batch_get_keeps_the_order_of_its_keys() {
    let request =
        BatchGetRequest { context: 5u32, keys: vec![bytes("b"), bytes("a"), bytes("b")], version: 7 };
    assert_eq!(
        request.into_call(),
        StorageCall::BatchGet {
            context: 5,
            keys: vec![key("b"), key("a"), key("b")],
            start_ts: TimeStamp { inner: 7 },
        }
    );
    let none: BatchGetRequest<u32> = BatchGetRequest { context: 5, keys: vec![], version: 7 };
    assert_eq!(
        none.into_call(),
        StorageCall::BatchGet { context: 5, keys: vec![], start_ts: TimeStamp { inner: 7 } }
    );
}

#[test]
fn delete_range_names_both_ends() {
    let request = DeleteRangeRequest {
        context: 5u32,
        start_key: bytes("a"),
        end_key: bytes(""),
        notify_only: true,
    };
    assert_eq!(
        request.into_call(),
        StorageCall::DeleteRange {
            context: 5,
            start_key: key("a"),
            end_key: key(""),
            notify_only: true,
        }
    );
}

#[test]
fn raw_calls_take_their_keys_as_they_are() {
    let cf = || "write".to_string();
    assert_eq!(
        RawGetRequest { context: 1u32, cf: cf(), key: bytes("k") }.into_call(),
        StorageCall::RawGet { context: 1, cf: cf(), key: bytes("k") }
    );
    assert_eq!(
        RawBatchGetRequest { context: 1u32, cf: cf(), keys: vec![bytes("b"), bytes("a")] }
            .into_call(),
        StorageCall::RawBatchGet { context: 1, cf: cf(), keys: vec![bytes("b"), bytes("a")] }
    );
    assert_eq!(
        RawPutRequest { context: 1u32, cf: cf(), key: bytes("k"), value: bytes("v") }.into_call(),
        StorageCall::RawPut { context: 1, cf: cf(), key: bytes("k"), value: bytes("v") }
    );
    assert_eq!(
        RawDeleteRequest { context: 1u32, cf: cf(), key: bytes("k") }.into_call(),
        StorageCall::RawDelete { context: 1, cf: cf(), key: bytes("k") }
    );
    assert_eq!(
        RawBatchDeleteRequest { context: 1u32, cf: cf(), keys: vec![bytes("k")] }.into_call(),
        StorageCall::RawBatchDelete { context: 1, cf: cf(), keys: vec![bytes("k")] }
    );
    assert_eq!(
        RawDeleteRangeRequest {
            context: 1u32,
            cf: cf(),
            start_key: bytes("a"),
            end_key: bytes("b"),
        }
        .into_call(),
        StorageCall::RawDeleteRange {
            context: 1,
            cf: cf(),
            start_key: bytes("a"),
            end_key: bytes("b"),
        }
    );
}

#[test]
fn raw_batch_put_pairs_keys_with_values() {
    let request = RawBatchPutRequest {
        context: 1u32,
        cf: String::new(),
        pairs: vec![
            KvPair { key: bytes("k2"), value: bytes("v2") },
            KvPair { key: bytes("k1"), value: bytes("v1") },
        ],
    };
    assert_eq!(
        request.into_call(),
        StorageCall::RawBatchPut {
            context: 1,
            cf: String::new(),
            pairs: vec![(bytes("k2"), bytes("v2")), (bytes("k1"), bytes("v1"))],
        }
    );
}

#[test]
fn raw_scan_end_key_is_optional() {
    for (end, expected) in vec![("", None), ("z", Some(bytes("z")))] {
        let request = RawScanRequest {
            context: 1u32,
            cf: String::new(),
            start_key: bytes("a"),
            end_key: bytes(end),
            limit: 9,
            key_only: false,
            reverse: true,
        };
        assert_eq!(
            request.into_call(),
            StorageCall::RawScan {
                context: 1,
                cf: String::new(),
                start_key: bytes("a"),
                end_key: expected,
                limit: 9,
                key_only: false,
                reverse: true,
            }
        );
    }
}

#[test]
fn raw_batch_scan_hands_on_its_ranges() {
    let ranges = || vec![KeyRange { start_key: bytes("a"), end_key: bytes("") }];
    let request = RawBatchScanRequest {
        context: 1u32,
        cf: String::new(),
        ranges: ranges(),
        each_limit: 2,
        key_only: true,
        reverse: false,
    };
    assert_eq!(
        request.into_call(),
        StorageCall::RawBatchScan {
            context: 1,
            cf: String::new(),
            ranges: ranges(),
            each_limit: 2,
            key_only: true,
            reverse: false,
        }
    );
}

fn get(
    region_error: Option<&'static str>,
    result: Result<Option<Vec<u8>>, &'static str>,
) -> GetResponse<&'static str, &'static str> {
    GetResponse::from_reply(Reply { region_error, result })
}

#[test]
fn get_response_cases() {
    let blank = || GetResponse { region_error: None, error: None, value: vec![], not_found: false };
    assert_eq!(
        get(None, Ok(Some(bytes("v")))),
        GetResponse { value: bytes("v"), ..blank() }
    );
    assert_eq!(get(None, Ok(Some(vec![]))), blank());
    assert_eq!(get(None, Ok(None)), GetResponse { not_found: true, ..blank() });
    assert_eq!(get(None, Err("locked")), GetResponse { error: Some("locked"), ..blank() });
}

#[test]
fn get_region_error_hides_the_rest() {
    let only = GetResponse {
        region_error: Some("not leader"),
        error: None,
        value: vec![],
        not_found: false,
    };
    assert_eq!(get(Some("not leader"), Ok(None)), only);
    assert_eq!(get(Some("not leader"), Ok(Some(bytes("v")))), only);
    assert_eq!(get(Some("not leader"), Err("locked")), only);
}

#[test]
fn raw_get_response_cases() {
    let raw_get = |region_error: Option<u8>, result| {
        RawGetResponse::from_reply(Reply { region_error, result })
    };
    let blank = || RawGetResponse {
        region_error: None,
        error: String::new(),
        value: vec![],
        not_found: false,
    };
    assert_eq!(
        raw_get(None, Ok(Some(bytes("v")))),
        RawGetResponse { value: bytes("v"), ..blank() }
    );
    assert_eq!(raw_get(None, Ok(None)), RawGetResponse { not_found: true, ..blank() });
    assert_eq!(
        raw_get(None, Err("io".to_string())),
        RawGetResponse { error: "io".to_string(), ..blank() }
    );
    assert_eq!(
        raw_get(Some(1), Err("io".to_string())),
        RawGetResponse { region_error: Some(1), ..blank() }
    );
}

#[test]
fn pairs_are_delivered_unless_there_is_a_region_error() {
    let ok = || PairsReply::<u8, &'static str> { region_error: None, pairs: vec![3, 1, 2] };
    let err = || PairsReply::<u8, &'static str> { region_error: Some("epoch"), pairs: vec![3] };
    assert_eq!(
        ScanResponse::from_reply(ok()),
        ScanResponse { region_error: None, pairs: vec![3, 1, 2] }
    );
    assert_eq!(
        ScanResponse::from_reply(err()),
        ScanResponse { region_error: Some("epoch"), pairs: vec![] }
    );
    assert_eq!(BatchGetResponse::from_reply(ok()).pairs, vec![3, 1, 2]);
    assert_eq!(BatchGetResponse::from_reply(err()).pairs.len(), 0);
    assert_eq!(RawBatchGetResponse::from_reply(ok()).pairs, vec![3, 1, 2]);
    assert_eq!(RawBatchGetResponse::from_reply(err()).region_error, Some("epoch"));
    assert_eq!(RawScanResponse::from_reply(ok()).kvs, vec![3, 1, 2]);
    assert_eq!(RawScanResponse::from_reply(err()).kvs.len(), 0);
    assert_eq!(RawBatchScanResponse::from_reply(ok()).kvs, vec![3, 1, 2]);
    assert_eq!(RawBatchScanResponse::from_reply(err()).region_error, Some("epoch"));
}

fn written() -> Reply<(), String, &'static str> {
    Reply { region_error: None, result: Ok(()) }
}

fn failed() -> Reply<(), String, &'static str> {
    Reply { region_error: None, result: Err("full".to_string()) }
}

fn misdirected() -> Reply<(), String, &'static str> {
    Reply { region_error: Some("moved"), result: Err("moved".to_string()) }
}

#[test]
fn write_responses_tell_the_failure() {
    assert_eq!(
        RawPutResponse::from_reply(written()),
        RawPutResponse { region_error: None, error: String::new() }
    );
    assert_eq!(
        RawPutResponse::from_reply(failed()),
        RawPutResponse { region_error: None, error: "full".to_string() }
    );
    assert_eq!(
        RawPutResponse::from_reply(misdirected()),
        RawPutResponse { region_error: Some("moved"), error: String::new() }
    );
    assert_eq!(RawBatchPutResponse::from_reply(failed()).error, "full");
    assert_eq!(RawBatchPutResponse::from_reply(misdirected()).error, "");
    assert_eq!(RawDeleteResponse::from_reply(failed()).error, "full");
    assert_eq!(RawDeleteResponse::from_reply(misdirected()).region_error, Some("moved"));
    assert_eq!(RawBatchDeleteResponse::from_reply(failed()).error, "full");
    assert_eq!(RawBatchDeleteResponse::from_reply(written()).error, "");
    assert_eq!(RawDeleteRangeResponse::from_reply(failed()).error, "full");
    assert_eq!(RawDeleteRangeResponse::from_reply(misdirected()).error, "");
    assert_eq!(DeleteRangeResponse::from_reply(failed()).error, "full");
    assert_eq!(DeleteRangeResponse::from_reply(misdirected()).region_error, Some("moved"));
}
