//! The submit / poll / download workflow as decision functions.
//!
//! Every network round-trip and every sleep is performed by the caller;
//! the functions here take what came back and decide what happens next.
//! The caller's loops are therefore trivial: perform the action, feed
//! the outcome back in, follow the decision.

use vstd::prelude::*;
use crate::ClientError;
use crate::json::JsonValue;

verus! {

/// Job status meaning the render is still in progress.
pub const STATUS_GENERATING: i64 = 1;

/// Job status meaning the render finished successfully.
pub const STATUS_COMPLETE: i64 = 2;

/// Job status meaning the job failed and was refunded.
pub const STATUS_FAILED_REFUNDED: i64 = 3;

/// HTTP status by which the server signals the artifact is not yet
/// materialized, as opposed to a genuine failure.
pub const NOT_READY_STATUS: u16 = 500;

/// Seconds slept between two polls, and between two artifact attempts.
pub const RETRY_INTERVAL_SECONDS: u32 = 5;

/// Ceiling on the cumulative wait for the artifact, in seconds.
pub const FETCH_WAIT_CEILING_SECONDS: u32 = 120;

/// The `animation_id` of a submission response.
pub open spec fn spec_animation_id(resp: JsonValue) -> Option<i64> {
    resp.spec_int_field("animation_id"@)
}

/// The `status` of a status payload, read from its canonical record.
pub open spec fn spec_status(resp: JsonValue) -> Option<i64> {
    match resp.spec_normalized() {
        Some(record) => record.spec_int_field("status"@),
        None => None,
    }
}

/// The result identifier of a terminal status payload.
pub open spec fn spec_result_id(resp: JsonValue) -> Option<i64> {
    match resp.spec_normalized() {
        Some(record) => record.spec_int_field("id"@),
        None => None,
    }
}

/// What to do after submitting the generation request.
#[derive(Debug, PartialEq)]
pub enum SubmitDecision {
    /// Non-blocking mode: hand the raw submission payload back at once.
    ReturnNow { animation_id: i64, payload: JsonValue },
    /// Blocking mode: start polling this job.
    StartPolling { animation_id: i64 },
}

/// Decide on a submission response.
///
/// A payload without `animation_id` is malformed.  In non-blocking mode
/// the payload itself is the caller's result, and neither polling nor
/// downloading follows; in blocking mode polling begins.
pub fn on_submit_response(resp: JsonValue, block: bool) -> (r: Result<
    SubmitDecision,
    ClientError,
>)
    ensures
        spec_animation_id(resp) is None <==> r == Err::<SubmitDecision, ClientError>(
            ClientError::MalformedResponse,
        ),
        spec_animation_id(resp) matches Some(id) ==> r == (if block {
            Ok::<SubmitDecision, ClientError>(SubmitDecision::StartPolling { animation_id: id })
        } else {
            Ok(SubmitDecision::ReturnNow { animation_id: id, payload: resp })
        }),
{
    let id_opt = resp.int_field("animation_id");
    match id_opt {
        None => Err(ClientError::MalformedResponse),
        Some(id) => {
            if block {
                Ok(SubmitDecision::StartPolling { animation_id: id })
            } else {
                Ok(SubmitDecision::ReturnNow { animation_id: id, payload: resp })
            }
        },
    }
}

/// What one poll observation means for the loop.
#[derive(Debug, Clone, Copy, PartialEq, Eq, Structural)]
pub enum PollDecision {
    /// Still generating (or status unreadable): sleep one interval, poll again.
    Continue,
    /// Terminal success: stop polling, this payload names the result.
    Complete,
    /// Terminal failure: the job failed and was refunded.
    Failed,
}

/// The decision taken on one status payload.
pub open spec fn spec_poll_decision(resp: JsonValue) -> PollDecision {
    match spec_status(resp) {
        Some(status) => if status == STATUS_COMPLETE {
            PollDecision::Complete
        } else if status == STATUS_FAILED_REFUNDED {
            PollDecision::Failed
        } else {
            PollDecision::Continue
        },
        None => PollDecision::Continue,
    }
}

/// Decide on one status payload.
///
/// The caller sleeps one interval exactly on `Continue`; a terminal
/// status ends the loop with no further sleep.
pub fn poll_step(resp: &JsonValue) -> (d: PollDecision)
    ensures
        d == spec_poll_decision(*resp),
{
    let record = resp.normalized();
    let status = match record {
        Some(r) => r.int_field("status"),
        None => None,
    };
    match status {
        Some(status) => {
            if status == STATUS_COMPLETE {
                PollDecision::Complete
            } else if status == STATUS_FAILED_REFUNDED {
                PollDecision::Failed
            } else {
                PollDecision::Continue
            }
        },
        None => PollDecision::Continue,
    }
}

/// Where the poll loop ends on a given sequence of status payloads:
/// `Some(Ok(k))` when observation `k` completes the job (after exactly
/// `k` sleeps), `Some(Err(_))` when an observation reports the job
/// failed and refunded, `None` when every payload leaves it pending.
pub open spec fn spec_poll_run(resps: Seq<JsonValue>, i: int) -> Option<Result<int, ClientError>>
    decreases resps.len() - i,
{
    if i < 0 || i >= resps.len() {
        None
    } else {
        match spec_poll_decision(resps[i]) {
            PollDecision::Complete => Some(Ok(i)),
            PollDecision::Failed => Some(Err(ClientError::JobFailedRefunded)),
            PollDecision::Continue => spec_poll_run(resps, i + 1),
        }
    }
}

/// The poll loop stops at the first terminal observation: completing on
/// status 2 after exactly `k` sleeps, or failing with
/// `JobFailedRefunded` on status 3 — in particular, a first observation
/// of status 3 fails it with no sleep at all.
pub proof fn lemma_poll_stops_at_first_terminal(resps: Seq<JsonValue>, k: int)
    requires
        0 <= k < resps.len(),
        forall|i: int|
            0 <= i < k ==> spec_poll_decision(#[trigger] resps[i]) == PollDecision::Continue,
        spec_poll_decision(resps[k]) != PollDecision::Continue,
    ensures
        spec_poll_decision(resps[k]) == PollDecision::Complete ==> spec_poll_run(resps, 0) == Some(
            Ok::<int, ClientError>(k),
        ),
        spec_poll_decision(resps[k]) == PollDecision::Failed ==> spec_poll_run(resps, 0) == Some(
            Err::<int, ClientError>(ClientError::JobFailedRefunded),
        ),
{
    lemma_poll_run_from(resps, 0, k);
}

/// The run from `j` reaches the first terminal observation `k`.
proof fn lemma_poll_run_from(resps: Seq<JsonValue>, j: int, k: int)
    requires
        0 <= j <= k < resps.len(),
        forall|i: int|
            j <= i < k ==> spec_poll_decision(#[trigger] resps[i]) == PollDecision::Continue,
        spec_poll_decision(resps[k]) != PollDecision::Continue,
    ensures
        spec_poll_decision(resps[k]) == PollDecision::Complete ==> spec_poll_run(resps, j) == Some(
            Ok::<int, ClientError>(k),
        ),
        spec_poll_decision(resps[k]) == PollDecision::Failed ==> spec_poll_run(resps, j) == Some(
            Err::<int, ClientError>(ClientError::JobFailedRefunded),
        ),
    decreases k - j,
{
    if j < k {
        lemma_poll_run_from(resps, j + 1, k);
    }
}

/// Read the result identifier out of a terminal status payload.
pub fn extract_result_id(resp: &JsonValue) -> (r: Result<i64, ClientError>)
    ensures
        r == (match spec_result_id(*resp) {
            Some(id) => Ok::<i64, ClientError>(id),
            None => Err::<i64, ClientError>(ClientError::MalformedResponse),
        }),
{
    let record = resp.normalized();
    let id_opt = match record {
        Some(rec) => rec.int_field("id"),
        None => None,
    };
    match id_opt {
        Some(id) => Ok(id),
        None => Err(ClientError::MalformedResponse),
    }
}

/// What came back from one artifact-download attempt.
#[derive(Debug, PartialEq)]
pub enum FetchEvent {
    /// An HTTP response: its status, and its raw body.
    Response { status: u16, body: Vec<u8> },
    /// The server could not be reached at all.
    ConnFailed,
}

/// What one artifact-download attempt means for the loop.
#[derive(Debug, PartialEq)]
pub enum FetchDecision {
    /// Success: these are the artifact bytes.
    Done(Vec<u8>),
    /// Artifact not yet materialized: sleep one interval, then try again
    /// carrying this cumulative wait.
    RetryAfterSleep { waited_seconds: u32 },
    /// Permanent failure: stop with this error.
    Fail(ClientError),
}

/// Whether an HTTP status is a success.
pub open spec fn spec_is_success(status: u16) -> bool {
    200 <= status < 300
}

/// The decision taken on one download attempt, `waited_seconds` into
/// the wait.
pub open spec fn spec_fetch_decision(waited_seconds: u32, ev: FetchEvent) -> FetchDecision {
    match ev {
        FetchEvent::ConnFailed => FetchDecision::Fail(ClientError::TransportError),
        FetchEvent::Response { status, body } => {
            if spec_is_success(status) {
                FetchDecision::Done(body)
            } else if status == NOT_READY_STATUS {
                if waited_seconds >= FETCH_WAIT_CEILING_SECONDS {
                    FetchDecision::Fail(ClientError::Timeout)
                } else {
                    FetchDecision::RetryAfterSleep {
                        waited_seconds: (waited_seconds + RETRY_INTERVAL_SECONDS) as u32,
                    }
                }
            } else {
                FetchDecision::Fail(ClientError::RemoteError { status, body })
            }
        },
    }
}

/// Decide on one download attempt.
///
/// A success ends the loop with the bytes; the not-ready status retries
/// after one interval until the wait ceiling is reached, then times
/// out; every other outcome is a permanent failure.  The caller sleeps
/// one interval exactly on `RetryAfterSleep` and passes the carried
/// wait into the next attempt, starting from zero.
pub fn fetch_step(waited_seconds: u32, ev: FetchEvent) -> (d: FetchDecision)
    ensures
        d == spec_fetch_decision(waited_seconds, ev),
{
    match ev {
        FetchEvent::ConnFailed => FetchDecision::Fail(ClientError::TransportError),
        FetchEvent::Response { status, body } => {
            if 200 <= status && status < 300 {
                FetchDecision::Done(body)
            } else if status == NOT_READY_STATUS {
                if waited_seconds >= FETCH_WAIT_CEILING_SECONDS {
                    FetchDecision::Fail(ClientError::Timeout)
                } else {
                    FetchDecision::RetryAfterSleep {
                        waited_seconds: waited_seconds + RETRY_INTERVAL_SECONDS,
                    }
                }
            } else {
                FetchDecision::Fail(ClientError::RemoteError { status, body })
            }
        },
    }
}

/// Where the download loop ends on a given sequence of attempt
/// outcomes, entered `waited_seconds` into the wait: the artifact
/// bytes, an error, or `None` when the sequence runs out mid-loop.
pub open spec fn spec_fetch_run(events: Seq<FetchEvent>, i: int, waited_seconds: u32) -> Option<
    Result<Seq<u8>, ClientError>,
>
    decreases events.len() - i,
{
    if i < 0 || i >= events.len() {
        None
    } else {
        match spec_fetch_decision(waited_seconds, events[i]) {
            FetchDecision::Done(body) => Some(Ok(body@)),
            FetchDecision::Fail(e) => Some(Err(e)),
            FetchDecision::RetryAfterSleep { waited_seconds: w } => spec_fetch_run(
                events,
                i + 1,
                w,
            ),
        }
    }
}

/// Whether attempt `i` found the artifact not yet materialized.
pub open spec fn spec_not_ready(events: Seq<FetchEvent>, i: int) -> bool {
    events[i] matches FetchEvent::Response { status, .. } && status == NOT_READY_STATUS
}

/// The body of a response event; the empty sequence for a connection
/// failure.
pub open spec fn spec_response_body(ev: FetchEvent) -> Seq<u8> {
    match ev {
        FetchEvent::Response { body, .. } => body@,
        FetchEvent::ConnFailed => Seq::<u8>::empty(),
    }
}

/// While attempts keep finding the artifact not yet materialized, the
/// loop only accumulates sleeps: after `k` such attempts the cumulative
/// wait is exactly `5 * k` seconds and the run continues from attempt
/// `k`.
pub proof fn lemma_fetch_retries_accumulate(events: Seq<FetchEvent>, k: int)
    requires
        0 <= k < events.len(),
        k <= 24,
        forall|i: int| 0 <= i < k ==> spec_not_ready(events, i),
    ensures
        spec_fetch_run(events, 0, 0) == spec_fetch_run(events, k, (5 * k) as u32),
    decreases k,
{
    if k > 0 {
        lemma_fetch_retries_accumulate(events, k - 1);
        assert(spec_not_ready(events, k - 1));
        assert(spec_fetch_decision((5 * (k - 1)) as u32, events[k - 1])
            == (FetchDecision::RetryAfterSleep { waited_seconds: (5 * k) as u32 }));
    }
}

/// A download whose first `k` attempts find the artifact not yet
/// materialized and whose attempt `k` succeeds ends with the artifact
/// bytes, after exactly `k` retries spaced 5 seconds apart.
pub proof fn lemma_fetch_succeeds_after_retries(events: Seq<FetchEvent>, k: int)
    requires
        0 <= k < events.len(),
        k <= 24,
        forall|i: int| 0 <= i < k ==> spec_not_ready(events, i),
        events[k] matches FetchEvent::Response { status, .. } && spec_is_success(status),
    ensures
        spec_fetch_run(events, 0, 0) == Some(Ok::<Seq<u8>, ClientError>(
            spec_response_body(events[k]),
        )),
{
    lemma_fetch_retries_accumulate(events, k);
}

/// A download that never succeeds within the wait ceiling fails with
/// `Timeout`: when every attempt up to the ceiling finds the artifact
/// not yet materialized, the loop sleeps through the whole ceiling
/// (24 retries of 5 seconds) and the next attempt times out.
pub proof fn lemma_fetch_times_out(events: Seq<FetchEvent>)
    requires
        events.len() >= 25,
        forall|i: int| 0 <= i < 25 ==> spec_not_ready(events, i),
    ensures
        spec_fetch_run(events, 0, 0) == Some(Err::<Seq<u8>, ClientError>(ClientError::Timeout)),
{
    lemma_fetch_retries_accumulate(events, 24);
    assert(spec_not_ready(events, 24));
    assert(spec_fetch_decision(120, events[24]) == FetchDecision::Fail(ClientError::Timeout));
}

/// Assemble the durable summary of a successful blocking run.
pub fn make_outcome(animation_id: i64, result_id: i64, zip_path: String) -> (r: JsonValue)
    ensures
        r matches JsonValue::Obj(pairs) && pairs@.len() == 3,
        r.spec_int_field("animation_id"@) == Some(animation_id),
        r.spec_int_field("result_id"@) == Some(result_id),
        r.spec_str_field("zip_path"@) == Some(zip_path@),
{
    let mut pairs: Vec<(String, JsonValue)> = Vec::new();
    pairs.push(("animation_id".to_owned(), JsonValue::Int(animation_id)));
    pairs.push(("result_id".to_owned(), JsonValue::Int(result_id)));
    pairs.push(("zip_path".to_owned(), JsonValue::Str(zip_path)));
    let r = JsonValue::Obj(pairs);
    proof {
        reveal_with_fuel(crate::json::pairs_lookup_from, 4);
        reveal_strlit("animation_id");
        reveal_strlit("result_id");
        reveal_strlit("zip_path");
        assert("animation_id"@.len() == 12);
        assert("result_id"@.len() == 9);
        assert("zip_path"@.len() == 8);
    }
    r
}

} // verus!
