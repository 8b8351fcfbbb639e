use kv_service::batch::BatchCommandsResponse;
use kv_service::batch::BatchRespCollector;
use kv_service::batch::BatchSession;
use kv_service::batch::Step;
use kv_service::command::begin_command;
use kv_service::command::caller_start_ts;
use kv_service::command::command_label;
use kv_service::command::complete_command;
use kv_service::command::CmdKind;
use kv_service::command::CmdReply;
use kv_service::command::EmptyRequest;
use kv_service::command::EmptyResponse;
use kv_service::command::RequestCmd;
use kv_service::command::ResponseCmd;
use kv_service::command::TxnKind;
use kv_service::command::Wire;
use kv_service::command::Work;
use kv_service::key::TimeStamp;
use kv_service::metrics::Label;
use kv_service::request::GetRequest;
use kv_service::request::RawGetRequest;
use kv_service::request::RawPutRequest;
use kv_service::request::StorageCall;
use kv_service::response::PairsReply;
use kv_service::response::Reply;
use kv_service::service::Service;
use kv_service::status::RpcStatus;
use kv_service::txn::Action;
use kv_service::txn::Lock;
use kv_service::txn::TxnStatus;
use std::sync::Arc;

struct TestWire;

impl Wire for TestWire {
    type Context = u32;
    type RegionError = &'static str;
    type KeyError = &'static str;
    type KvPair = &'static str;
    type LockInfo = &'static str;
    type TxnRequest = &'static str;
    type CopRequest = &'static str;
    type CopResponse = &'static str;
}

type Cmd = RequestCmd<TestWire>;

fn get(key: u8) -> Option<Cmd> {
    Some(RequestCmd::Get(GetRequest { context: 0, key: vec![key], version: 1 }))
}

fn raw_get(key: u8) -> Option<Cmd> {
    Some(RequestCmd::RawGet(RawGetRequest { context: 0, cf: String::new(), key: vec![key] }))
}

fn prewrite() -> Option<Cmd> {
    Some(RequestCmd::Prewrite("tx"))
}

fn show(step: &Step<TestWire>) -> String {
    match step {
        Step::CommitIfEnough => "commit?".to_string(),
        Step::AskGet => "get?".to_string(),
        Step::AskRawGet => "raw?".to_string(),
        Step::JoinGet { id, request } => format!("join {} {}", id, request.key[0]),
        Step::JoinRawGet { id, request } => format!("join raw {} {}", id, request.key[0]),
        Step::Start { id, cmd: Some(RequestCmd::Get(request)) } => {
            format!("get {} {}", id, request.key[0])
        }
        Step::Start { id, cmd: Some(RequestCmd::RawGet(request)) } => {
            format!("raw {} {}", id, request.key[0])
        }
        Step::Start { id, cmd: Some(_) } => format!("start {}", id),
        Step::Start { id, cmd: None } => format!("invalid {}", id),
        Step::Commit => "commit".to_string(),
        Step::ReleaseSnapshot => "release".to_string(),
        Step::Finished => "finished".to_string(),
    }
}

fn run(session: &mut BatchSession<TestWire>, accept: fn(u8) -> bool) -> Vec<String> {
    let mut steps = Vec::new();
    loop {
        let step = session.poll();
        steps.push(show(&step));
        let key = match (session.asked_get(), session.asked_raw_get()) {
            (Some(request), None) => Some(request.key[0]),
            (None, Some(request)) => Some(request.key[0]),
            _ => None,
        };
        if let Some(key) = key {
            let step = session.answer(accept(key));
            steps.push(show(&step));
        }
        if matches!(step, Step::Finished) {
            return steps;
        }
    }
}

#[test]
fn a_large_batch_gathers_its_reads() {
    let mut session =
        BatchSession::new(true, vec![10, 11, 12, 13, 14], vec![
            get(1),
            prewrite(),
            raw_get(2),
            None,
            get(3),
        ]);
    assert_eq!(run(&mut session, |key| key < 3), vec![
        "commit?", "get?", "join 10 1", "start 11", "commit?", "raw?", "join raw 12 2",
        "invalid 13", "commit?", "get?", "get 14 3", "commit", "release", "finished",
    ]);
}

#[test]
fn reads_that_cannot_be_gathered_start_by_themselves() {
    let mut session = BatchSession::new(true, vec![1, 2, 3], vec![raw_get(7), get(8), raw_get(9)]);
    assert_eq!(run(&mut session, |_| false), vec![
        "commit?", "raw?", "raw 1 7", "commit?", "get?", "get 2 8", "commit?", "raw?", "raw 3 9",
        "commit", "release", "finished",
    ]);
}

#[test]
fn a_small_batch_is_not_gathered() {
    let mut session = BatchSession::new(true, vec![1, 2], vec![get(7), raw_get(8)]);
    assert_eq!(run(&mut session, |_| true), vec!["get 1 7", "raw 2 8", "finished"]);
}

#[test]
fn gathering_can_be_off() {
    let mut session = BatchSession::new(false, vec![1, 2, 3], vec![get(7), raw_get(8), get(9)]);
    assert_eq!(run(&mut session, |_| true), vec!["get 1 7", "raw 2 8", "get 3 9", "finished"]);
}

#[test]
fn an_empty_batch_is_finished_at_once() {
    let mut session = BatchSession::new(true, vec![], vec![]);
    assert_eq!(run(&mut session, |_| true), vec!["finished"]);
    assert_eq!(show(&session.poll()), "finished");
}

#[test]
fn commands_without_an_id_and_ids_without_a_command_are_left_out() {
    let mut session = BatchSession::new(true, vec![5], vec![get(1), get(2), get(3)]);
    assert_eq!(run(&mut session, |_| true), vec![
        "commit?", "get?", "join 5 1", "commit", "release", "finished",
    ]);
    let mut session = BatchSession::new(true, vec![5, 6, 7], vec![get(1)]);
    assert_eq!(run(&mut session, |_| true), vec!["get 5 1", "finished"]);
}

fn service(enable_req_batch: bool) -> Service<u8, u16, u32, char, &'static str, i32, i64> {
    Service::new(
        3u16,
        4u32,
        'c',
        5u8,
        "snap",
        Arc::new(1i32),
        Arc::new(2i32),
        enable_req_batch,
        Arc::new(6i64),
    )
}

#[test]
fn a_service_holds_what_it_was_given() {
    let service = service(true);
    assert_eq!(service.storage, 3);
    assert_eq!(service.gc_worker, 4);
    assert_eq!(service.cop, 'c');
    assert_eq!(service.ch, 5);
    assert_eq!(service.snap_scheduler, "snap");
    assert_eq!(*service.grpc_thread_load, 1);
    assert_eq!(*service.readpool_normal_thread_load, 2);
    assert_eq!(*service.security_mgr, 6);
    assert!(service.enable_req_batch);
}

#[test]
fn the_timer_pool_is_built_as_asked_for() {
    let service = service(true);
    let shown = format!("{:?}", service.timer_pool.lock().unwrap());
    assert!(shown.contains("name_prefix: Some(\"req_batch_timer_guard\")"), "{}", shown);
    let workers = shown.split("workers: [").nth(1).unwrap().split("], queue").next().unwrap();
    assert_eq!(workers.matches("WorkerEntry {").count(), 1, "{}", shown);
}

#[test]
fn clones_of_a_service_share_its_timer_pool() {
    let service = service(false);
    let other = service.clone();
    assert!(Arc::ptr_eq(&service.timer_pool, &other.timer_pool));
    assert!(Arc::ptr_eq(&service.security_mgr, &other.security_mgr));
    assert!(Arc::ptr_eq(&service.grpc_thread_load, &other.grpc_thread_load));
    assert!(!other.enable_req_batch);
    assert_eq!(other.storage, 3);
    assert_eq!(other.snap_scheduler, "snap");
}

#[test]
fn batches_enter_the_service_as_it_is_set_up() {
    let batch = || (vec![1, 2, 3], vec![get(7), get(8), get(9)]);
    assert!(service(true).open_batch_stream(false).is_none());
    for (enabled, first) in vec![(true, "commit?"), (false, "get 1 7")] {
        let stream = service(enabled).open_batch_stream(true).unwrap();
        assert_eq!(stream.notify_size, 8);
        assert_eq!(stream.max_batch_size, 128);
        assert_eq!(*stream.thread_load, 1);
        let (ids, cmds) = batch();
        let mut session = stream.receive::<TestWire>(ids, cmds);
        assert_eq!(show(&session.poll()), first);
    }
}

#[test]
fn collected_responses_keep_their_ids_and_their_order() {
    let mut reply = BatchCommandsResponse::new();
    for e in vec![(9, "a"), (2, "b"), (5, "c")] {
        assert_eq!(BatchRespCollector.collect(&mut reply, e), None);
    }
    assert_eq!(reply.request_ids, vec![9, 2, 5]);
    assert_eq!(reply.responses, vec!["a", "b", "c"]);
    assert_eq!(reply.transport_layer_load, 0);
    let (message, flags) = reply.into_message(350);
    assert_eq!(message.transport_layer_load, 350);
    assert_eq!(message.request_ids, vec![9, 2, 5]);
    assert!(!flags.buffer_hint);
}

#[test]
fn replies_go_out_whole() {
    let stream = service(true).open_batch_stream(true).unwrap();
    let collected: Vec<(u64, u64)> = (0..128).map(|i| (1000 - i, i * i)).collect();
    let mut reply = BatchCommandsResponse::new();
    for e in collected.clone() {
        assert_eq!(BatchRespCollector.collect(&mut reply, e), None);
    }
    let (message, flags) = stream.message(reply, |load| (*load as usize) + 40);
    let sent: Vec<(u64, u64)> =
        message.request_ids.iter().copied().zip(message.responses.iter().copied()).collect();
    assert_eq!(sent, collected);
    assert_eq!(message.request_ids.len(), 128);
    assert_eq!(message.responses.len(), 128);
    assert_eq!(message.transport_layer_load, 41);
    assert!(!flags.buffer_hint);
}

#[test]
fn commands_ask_the_storage() {
    match begin_command("peer", get(4)) {
        Work::Storage(StorageCall::Get { key, start_ts, .. }) => {
            assert_eq!(key.raw, vec![4]);
            assert_eq!(start_ts, TimeStamp { inner: 1 });
        }
        _ => panic!("not a read"),
    }
    let put: Cmd = RequestCmd::RawPut(RawPutRequest {
        context: 3,
        cf: "cf".to_string(),
        key: vec![1],
        value: vec![2],
    });
    match begin_command("peer", Some(put)) {
        Work::Storage(call) => assert_eq!(
            call,
            StorageCall::RawPut {
                context: 3,
                cf: "cf".to_string(),
                key: vec![1],
                value: vec![2],
            }
        ),
        _ => panic!("not a write"),
    }
    match begin_command("peer", prewrite()) {
        Work::Txn { kind: TxnKind::Prewrite, request } => assert_eq!(request, "tx"),
        _ => panic!("not a prewrite"),
    }
    let check: Cmd = RequestCmd::CheckTxnStatus { caller_start_ts: 8, request: "check" };
    let check = Some(check);
    assert_eq!(caller_start_ts(&check), TimeStamp { inner: 8 });
    assert_eq!(caller_start_ts(&prewrite()), TimeStamp { inner: 0 });
    match begin_command("peer", check) {
        Work::Txn { kind, request } => {
            assert_eq!(kind, TxnKind::CheckTxnStatus);
            assert_eq!(request, "check");
        }
        _ => panic!("not a check"),
    }
}

#[test]
fn coprocessor_learns_who_asks() {
    let cop: Cmd = RequestCmd::Coprocessor("dag");
    match begin_command("10.0.0.1:99", Some(cop)) {
        Work::Coprocessor { peer, request } => {
            assert_eq!(peer, Some("10.0.0.1:99".to_string()));
            assert_eq!(request, "dag");
        }
        _ => panic!("not for the coprocessor"),
    }
}

#[test]
fn commands_that_need_no_work() {
    assert!(matches!(begin_command::<TestWire>("peer", None), Work::Ready(None)));
    let ready = |cmd: Cmd| match begin_command("peer", Some(cmd)) {
        Work::Ready(resp) => resp,
        _ => panic!("not ready"),
    };
    assert!(matches!(ready(RequestCmd::VerGet), Some(ResponseCmd::VerGet)));
    assert!(matches!(ready(RequestCmd::VerBatchGet), Some(ResponseCmd::VerBatchGet)));
    assert!(matches!(ready(RequestCmd::VerMut), Some(ResponseCmd::VerMut)));
    assert!(matches!(ready(RequestCmd::VerBatchMut), Some(ResponseCmd::VerBatchMut)));
    assert!(matches!(ready(RequestCmd::VerScan), Some(ResponseCmd::VerScan)));
    assert!(matches!(ready(RequestCmd::VerDeleteRange), Some(ResponseCmd::VerDeleteRange)));
    match begin_command::<TestWire>("peer", Some(RequestCmd::Gc)) {
        Work::Fail(status) => assert_eq!(status, RpcStatus::unimplemented()),
        _ => panic!("not refused"),
    }
}

#[test]
fn only_long_delays_are_worth_a_timer() {
    for delay_time in vec![0, 9] {
        let cmd: Cmd = RequestCmd::Empty(EmptyRequest { test_id: 6, delay_time });
        match begin_command("peer", Some(cmd)) {
            Work::Ready(Some(ResponseCmd::Empty(resp))) => assert_eq!(resp.test_id, 6),
            _ => panic!("not ready"),
        }
    }
    for delay_time in vec![10, 5000] {
        let cmd: Cmd = RequestCmd::Empty(EmptyRequest { test_id: 6, delay_time });
        match begin_command("peer", Some(cmd)) {
            Work::Delay { millis, response } => {
                assert_eq!(millis, delay_time);
                assert_eq!(response, EmptyResponse { test_id: 6 });
            }
            _ => panic!("not delayed"),
        }
    }
}

#[test]
fn labels() {
    assert_eq!(command_label::<TestWire>(&None), Label::Invalid);
    assert_eq!(command_label(&get(1)), Label::KvGet);
    assert_eq!(command_label(&raw_get(1)), Label::RawGet);
    assert_eq!(command_label(&prewrite()), Label::KvPrewrite);
    assert_eq!(command_label::<TestWire>(&Some(RequestCmd::Gc)), Label::KvGc);
    assert_eq!(command_label::<TestWire>(&Some(RequestCmd::VerScan)), Label::VerScan);
    let empty: Cmd = RequestCmd::Empty(EmptyRequest { test_id: 6, delay_time: 0 });
    assert_eq!(command_label(&Some(empty)), Label::Invalid);
}

#[test]
fn replies_become_responses_to_the_same_command() {
    let reply: CmdReply<TestWire> =
        CmdReply::Get(Reply { region_error: None, result: Ok(Some(vec![1])) });
    assert!(reply.check());
    match complete_command(TimeStamp { inner: 0 }, reply) {
        ResponseCmd::Get(resp) => assert_eq!(resp.value, vec![1]),
        _ => panic!("not a read"),
    }
    let reply: CmdReply<TestWire> =
        CmdReply::Scan(PairsReply { region_error: Some("moved"), pairs: vec!["pair"] });
    match complete_command(TimeStamp { inner: 0 }, reply) {
        ResponseCmd::Scan(resp) => {
            assert_eq!(resp.region_error, Some("moved"));
            assert_eq!(resp.pairs.len(), 0);
        }
        _ => panic!("not a scan"),
    }
    let lock = Lock { ttl: 1, min_commit_ts: TimeStamp { inner: 9 }, info: "lock" };
    let reply: CmdReply<TestWire> = CmdReply::CheckTxnStatus(Reply {
        region_error: None,
        result: Ok(TxnStatus::Uncommitted { lock }),
    });
    match complete_command(TimeStamp { inner: 8 }, reply) {
        ResponseCmd::CheckTxnStatus(resp) => assert_eq!(resp.action, Action::MinCommitTsPushed),
        _ => panic!("not a check"),
    }
    assert!(matches!(
        complete_command::<TestWire>(TimeStamp { inner: 0 }, CmdReply::Coprocessor("rows")),
        ResponseCmd::Coprocessor("rows")
    ));
}

#[test]
fn work_and_replies_tell_their_command() {
    let kind = |cmd: Option<Cmd>| begin_command("peer", cmd).command_kind();
    assert_eq!(kind(get(1)), Some(CmdKind::Get));
    assert_eq!(kind(raw_get(1)), Some(CmdKind::RawGet));
    assert_eq!(kind(prewrite()), Some(CmdKind::Prewrite));
    assert_eq!(kind(Some(RequestCmd::VerMut)), Some(CmdKind::VerMut));
    let empty = |delay_time| Some(RequestCmd::Empty(EmptyRequest { test_id: 6, delay_time }));
    assert_eq!(kind(empty(0)), Some(CmdKind::Empty));
    assert_eq!(kind(empty(10)), Some(CmdKind::Empty));
    assert_eq!(kind(Some(RequestCmd::Gc)), None);
    assert_eq!(kind(None), None);
    let reply: CmdReply<TestWire> =
        CmdReply::BatchGet(PairsReply { region_error: None, pairs: vec![] });
    assert_eq!(reply.command_kind(), CmdKind::BatchGet);
    let resp = complete_command(TimeStamp { inner: 0 }, reply);
    assert_eq!(resp.command_kind(), CmdKind::BatchGet);
}

#[test]
fn a_commit_that_does_not_commit_is_noticed() {
    let commit = |region_error, status| -> CmdReply<TestWire> {
        CmdReply::Commit(Reply { region_error, result: Ok(status) })
    };
    assert!(commit(None, TxnStatus::Committed { commit_ts: TimeStamp { inner: 1 } }).check());
    assert!(!commit(None, TxnStatus::RolledBack).check());
    assert!(commit(Some("moved"), TxnStatus::RolledBack).check());
    let beat: CmdReply<TestWire> =
        CmdReply::TxnHeartBeat(Reply { region_error: None, result: Ok(TxnStatus::TtlExpire) });
    assert!(!beat.check());
}
