use futures::executor;
use futures::executor::Notify;
use futures::executor::Spawn;
use futures::Async;
use futures::Future;
use kv_service::call::submission;
use kv_service::call::BatchedAction;
use kv_service::call::BatchedCall;
use kv_service::call::BatchedEvent;
use kv_service::call::BatchedState;
use kv_service::call::Call;
use kv_service::call::CallAction;
use kv_service::call::CallEvent;
use kv_service::call::CallState;
use kv_service::call::Submission;
use kv_service::metrics::Label;
use kv_service::metrics::Rpc;
use kv_service::notify::Polled;
use kv_service::notify::TaskSlot;
use kv_service::raft::RaftStream;
use kv_service::raft::SnapshotCall;
use kv_service::status::RpcStatus;
use kv_service::status::RpcStatusCode;
use kv_service::stream::coprocessor_stream_item;
use std::sync::Arc;
use std::sync::Mutex;

#[test]
fn a_disallowed_caller_gets_nothing() {
    let mut call = Call::new(Rpc::KvGet);
    assert_eq!(call.on_event(CallEvent::Checked { allowed: false }), CallAction::Nothing);
    assert_eq!(call.state, CallState::Closed);
}

#[test]
fn a_call_that_goes_well_is_observed_once() {
    let mut call = Call::new(Rpc::RawBatchPut);
    assert_eq!(call.on_event(CallEvent::Checked { allowed: true }), CallAction::Submit);
    assert_eq!(call.on_event(CallEvent::Resolved { ok: true }), CallAction::Send);
    assert_eq!(
        call.on_event(CallEvent::Delivered { ok: true }),
        CallAction::Observe(Label::RawBatchPut)
    );
    assert_eq!(call.state, CallState::Closed);
}

#[test]
fn a_call_without_a_response_is_counted_as_failed() {
    let mut call = Call::new(Rpc::KvCommit);
    call.on_event(CallEvent::Checked { allowed: true });
    assert_eq!(
        call.on_event(CallEvent::Resolved { ok: false }),
        CallAction::CountFailure(Label::KvCommit)
    );
    assert_eq!(call.state, CallState::Closed);
}

#[test]
fn a_response_that_gets_lost_is_counted_as_failed() {
    let mut call = Call::new(Rpc::ReadIndex);
    call.on_event(CallEvent::Checked { allowed: true });
    call.on_event(CallEvent::Resolved { ok: true });
    assert_eq!(
        call.on_event(CallEvent::Delivered { ok: false }),
        CallAction::CountFailure(Label::ReadIndex)
    );
}

#[test]
fn a_call_that_cannot_be_handed_on_fails_with_a_status() {
    let mut call = Call::new(Rpc::SplitRegion);
    call.on_event(CallEvent::Checked { allowed: true });
    assert_eq!(
        call.on_event(CallEvent::Rejected { message: "region 4 is full".to_string() }),
        CallAction::Fail(RpcStatus {
            status: RpcStatusCode::ResourceExhausted,
            details: Some("region 4 is full".to_string()),
        })
    );
    assert_eq!(call.state, CallState::Closed);
}

#[test]
fn a_stream_of_responses_is_observed_as_a_whole() {
    for (ok, expected) in vec![
        (true, CallAction::Observe(Label::CoprocessorStream)),
        (false, CallAction::CountFailure(Label::CoprocessorStream)),
    ] {
        let mut call = Call::new(Rpc::CoprocessorStream);
        call.on_event(CallEvent::Checked { allowed: true });
        assert_eq!(call.on_event(CallEvent::Streamed { ok }), expected);
    }
    let (response, flags) = coprocessor_stream_item("chunk");
    assert_eq!(response, "chunk");
    assert!(flags.buffer_hint);
}

#[test]
fn destroying_a_range_is_counted_as_a_scan_for_locks() {
    assert_eq!(Rpc::UnsafeDestroyRange.label(), Label::PhysicalScanLock);
    assert_eq!(Rpc::PhysicalScanLock.label(), Label::PhysicalScanLock);
    assert_eq!(Rpc::KvTxnHeartBeat.label(), Label::KvTxnHeartBeat);
}

#[test]
fn a_batched_command_is_answered_under_its_id() {
    let mut call = BatchedCall::new(42, Label::KvScan);
    assert_eq!(call.on_event(BatchedEvent::Resolved { ok: true }), BatchedAction::Queue { id: 42 });
    assert_eq!(
        call.on_event(BatchedEvent::Queued { ok: true }),
        BatchedAction::Observe(Label::KvScan)
    );
    assert_eq!(call.state, BatchedState::Closed);
}

#[test]
fn a_batched_command_that_fails_is_not_answered() {
    let mut call = BatchedCall::new(42, Label::KvGc);
    assert_eq!(
        call.on_event(BatchedEvent::Resolved { ok: false }),
        BatchedAction::CountFailure(Label::KvGc)
    );
    assert_eq!(call.state, BatchedState::Closed);
}

#[test]
fn a_batched_response_that_cannot_be_queued_is_not_counted() {
    let mut call = BatchedCall::new(42, Label::RawGet);
    call.on_event(BatchedEvent::Resolved { ok: true });
    assert_eq!(call.on_event(BatchedEvent::Queued { ok: false }), BatchedAction::Nothing);
    assert_eq!(call.state, BatchedState::Closed);
}

#[test]
fn a_request_that_is_not_taken_is_settled() {
    let waiting: Submission<&str> = submission(Ok(()));
    assert_eq!(waiting, Submission::Waiting);
    let settled: Submission<&str> = submission(Err("too busy"));
    assert_eq!(settled, Submission::Settled("too busy"));
}

#[test]
fn statuses() {
    assert_eq!(
        RpcStatus::unimplemented(),
        RpcStatus { status: RpcStatusCode::Unimplemented, details: None }
    );
    assert_eq!(
        RpcStatus::broken_stream("lost".to_string()),
        RpcStatus { status: RpcStatusCode::Unknown, details: Some("lost".to_string()) }
    );
}

#[test]
fn snapshots() {
    assert_eq!(SnapshotCall::open(false), None);
    assert_eq!(SnapshotCall::open(true).unwrap().refusal(Ok(())), None);
    assert_eq!(
        SnapshotCall::open(true).unwrap().refusal(Err("channel is full".to_string())),
        Some(RpcStatus {
            status: RpcStatusCode::ResourceExhausted,
            details: Some("channel is full".to_string()),
        })
    );
}

#[test]
fn raft_messages_are_passed_on_in_order() {
    let mut stream = RaftStream::open(true).unwrap();
    let mut passed = Vec::new();
    for batch in vec![vec![1, 2, 3], vec![], vec![4]] {
        let len = batch.len();
        assert_eq!(stream.receive(batch), len);
        while let Some(msg) = stream.take() {
            passed.push(msg);
            stream.sent(Ok(()));
        }
    }
    stream.end(Ok(()));
    assert_eq!(passed, vec![1, 2, 3, 4]);
    assert_eq!(
        stream.status(),
        RpcStatus { status: RpcStatusCode::Unknown, details: None }
    );
}

#[test]
fn raft_stops_at_the_first_failure() {
    let mut stream = RaftStream::open(true).unwrap();
    assert_eq!(stream.receive(vec![1, 2, 3]), 3);
    assert_eq!(stream.take(), Some(1));
    stream.sent(Ok(()));
    assert_eq!(stream.take(), Some(2));
    stream.sent(Err("no such region".to_string()));
    assert_eq!(stream.queue.len(), 0);
    assert_eq!(
        stream.status(),
        RpcStatus {
            status: RpcStatusCode::Unknown,
            details: Some("no such region".to_string()),
        }
    );
}

#[test]
fn raft_stream_that_breaks_off_tells_why() {
    let mut stream: RaftStream<u8> = RaftStream::open(true).unwrap();
    stream.end(Err("connection reset".to_string()));
    assert_eq!(stream.status().details, Some("connection reset".to_string()));
    assert!(RaftStream::<u8>::open(false).is_none());
}

#[test]
fn a_task_leaves_its_slot_when_it_is_done() {
    for last in vec![Polled::Ready, Polled::Failed] {
        let mut slot = TaskSlot::new(0u32);
        for _ in 0..3 {
            let polled = slot.notify(|polls| {
                *polls += 1;
                Polled::NotReady
            });
            assert_eq!(polled, Some(Polled::NotReady));
        }
        assert_eq!(slot.task, Some(3));
        assert_eq!(slot.notify(|_| last), Some(last));
        assert_eq!(slot.task, None);
        for _ in 0..2 {
            assert_eq!(slot.notify(|_| panic!("polled again")), None);
            assert_eq!(slot.task, None);
        }
    }
}

struct SlotNotify<F>(Arc<Mutex<TaskSlot<Spawn<F>>>>);

impl<F: Future<Item = (), Error = ()> + Send + 'static> Notify for SlotNotify<F> {
    fn notify(&self, id: usize) {
        let handle = Arc::new(SlotNotify(Arc::clone(&self.0)));
        let mut slot = self.0.lock().unwrap();
        slot.notify(|task| match task.poll_future_notify(&handle, id) {
            Ok(Async::NotReady) => Polled::NotReady,
            Ok(Async::Ready(())) => Polled::Ready,
            Err(()) => Polled::Failed,
        });
    }
}

fn run_in_slot<F: Future<Item = (), Error = ()> + Send + 'static>(
    task: F,
) -> Arc<Mutex<TaskSlot<Spawn<F>>>> {
    let slot = Arc::new(Mutex::new(TaskSlot::new(executor::spawn(task))));
    SlotNotify(Arc::clone(&slot)).notify(0);
    slot
}

#[test]
fn a_task_with_a_slow_source_goes_on_when_it_is_notified() {
    let (tx, rx) = futures::sync::oneshot::channel::<usize>();
    let (tx1, rx1) = futures::sync::oneshot::channel::<usize>();
    let slot = run_in_slot(
        rx.map(move |i| {
            tx1.send(i + 100).unwrap();
        })
        .map_err(|_| ()),
    );
    assert!(slot.lock().unwrap().task.is_some());
    tx.send(100).unwrap();
    assert!(slot.lock().unwrap().task.is_none());
    assert_eq!(rx1.wait().unwrap(), 200);
}

#[test]
fn a_task_with_a_slow_poller_is_done_at_once() {
    let (tx, rx) = futures::sync::oneshot::channel::<usize>();
    tx.send(100).unwrap();
    let (tx1, rx1) = futures::sync::oneshot::channel::<usize>();
    let slot = run_in_slot(
        rx.map(move |i| {
            tx1.send(i + 100).unwrap();
        })
        .map_err(|_| ()),
    );
    assert!(slot.lock().unwrap().task.is_none());
    assert_eq!(rx1.wait().unwrap(), 200);
}
