//! The capture worker's loop, reduced to its decisions.
//!
//! On a real device the worker blocks on the driver's "fetch next frame"
//! primitive; that blocking call is outside work performed by the embedding
//! program. The logic of the loop — publish every fetched frame, stop
//! cooperatively between fetches, terminate on the first fetch error
//! without retrying — lives here and is verified.

use vstd::prelude::*;

use crate::frame_slot::FrameSlot;
use crate::frame_slot::SlotModel;
use crate::frame_slot::publish_m;

verus! {

/// A fetch failure as the library records it: the device's error code
/// (a disconnect, a transient I/O fault). Never fatal to the process.
#[derive(Clone, Copy, PartialEq, Eq, Structural, Debug)]
pub struct FetchError {
    pub code: i32,
}

/// The outcome of one blocking "fetch next frame" call, handed in by the
/// embedding program.
pub enum FetchResult {
    Frame(Vec<u8>),
    Failed(FetchError),
}

/// Ghost counterpart of a fetch outcome.
pub enum FetchM {
    FrameM(Seq<u8>),
    FailedM(FetchError),
}

impl View for FetchResult {
    type V = FetchM;

    open spec fn view(&self) -> FetchM {
        match self {
            FetchResult::Frame(b) => FetchM::FrameM(b@),
            FetchResult::Failed(e) => FetchM::FailedM(*e),
        }
    }
}

/// What the worker does after one fetch: go on to the next fetch, exit
/// cleanly because a stop was requested, or exit carrying the fetch error.
#[derive(Clone, Copy, PartialEq, Eq, Structural, Debug)]
pub enum WorkerDecision {
    KeepRunning,
    StopOk,
    StopErr(FetchError),
}

/// One iteration of the worker loop: a successful fetch is always
/// published to the slot, and the stop flag — sampled once per iteration
/// by the caller and passed in here — is applied after the publish to
/// decide whether to go on; a failed fetch publishes nothing and
/// terminates the worker with the error. Cancellation therefore takes
/// effect only between fetches, never mid-fetch and never before the
/// fetched frame was handed over, and a fetch error is never retried.
pub fn worker_step(slot: &mut FrameSlot, fetch: &FetchResult, stop_requested: bool) -> (d:
    WorkerDecision)
    ensures
        fetch@ matches FetchM::FrameM(b) ==> final(slot)@ == publish_m(old(slot)@, b),
        fetch@ is FrameM && !stop_requested ==> d == WorkerDecision::KeepRunning,
        fetch@ is FrameM && stop_requested ==> d == WorkerDecision::StopOk,
        fetch@ matches FetchM::FailedM(e) ==> final(slot)@ == old(slot)@ && d
            == WorkerDecision::StopErr(e),
{
    match fetch {
        FetchResult::Frame(b) => {
            slot.publish(b.as_slice());
            if stop_requested {
                WorkerDecision::StopOk
            } else {
                WorkerDecision::KeepRunning
            }
        },
        FetchResult::Failed(e) => WorkerDecision::StopErr(*e),
    }
}

/// The worker's terminal result: a clean exit after a stop request, the
/// first fetch error, or a script that ran out (only meaningful when the
/// loop is driven from a finite script of fetch outcomes).
#[derive(Clone, Copy, PartialEq, Eq, Structural, Debug)]
pub enum WorkerExit {
    Stopped,
    Failed(FetchError),
    ScriptExhausted,
}

/// The slot model and terminal result of running the worker loop over a
/// script of fetch outcomes, where the stop flag reads true from iteration
/// `stop_at` onward.
pub open spec fn worker_run_m(m: SlotModel, fs: Seq<FetchM>, stop_at: int) -> (SlotModel, WorkerExit)
    decreases fs.len(),
{
    if fs.len() == 0 {
        (m, WorkerExit::ScriptExhausted)
    } else {
        match fs[0] {
            FetchM::FailedM(e) => (m, WorkerExit::Failed(e)),
            FetchM::FrameM(b) => {
                let m1 = publish_m(m, b);
                if stop_at <= 0 {
                    (m1, WorkerExit::Stopped)
                } else {
                    worker_run_m(m1, fs.skip(1), stop_at - 1)
                }
            },
        }
    }
}

/// With frames flowing and no fetch error, the worker exits cleanly at the
/// stop request: the frame fetched in that last iteration is still
/// published, and it is what the slot holds, fresh, when the worker is
/// gone.
pub proof fn lemma_worker_stops_on_request(m: SlotModel, fs: Seq<FetchM>, stop_at: int)
    requires
        0 <= stop_at < fs.len(),
        forall|i: int| 0 <= i <= stop_at ==> fs[i] is FrameM,
    ensures
        worker_run_m(m, fs, stop_at).1 == WorkerExit::Stopped,
        worker_run_m(m, fs, stop_at).0 == (SlotModel {
            data: fs[stop_at]->FrameM_0,
            consumed: false,
        }),
    decreases stop_at,
{
    if stop_at > 0 {
        let b0 = fs[0]->FrameM_0;
        lemma_worker_stops_on_request(publish_m(m, b0), fs.skip(1), stop_at - 1);
    }
}

/// A fetch error terminates the worker with exactly that error, without
/// retrying, as long as neither a stop request nor an earlier error cut
/// the run short first; every frame fetched before it was published and
/// the last of them is what the slot retains.
pub proof fn lemma_worker_fails_on_first_error(m: SlotModel, fs: Seq<FetchM>, stop_at: int, k: int)
    requires
        0 <= k < fs.len(),
        k <= stop_at,
        forall|i: int| 0 <= i < k ==> fs[i] is FrameM,
        fs[k] is FailedM,
    ensures
        worker_run_m(m, fs, stop_at).1 == WorkerExit::Failed(fs[k]->FailedM_0),
        k == 0 ==> worker_run_m(m, fs, stop_at).0 == m,
        k > 0 ==> worker_run_m(m, fs, stop_at).0 == (SlotModel {
            data: fs[k - 1]->FrameM_0,
            consumed: false,
        }),
    decreases k,
{
    if k > 0 {
        let b0 = fs[0]->FrameM_0;
        lemma_worker_fails_on_first_error(publish_m(m, b0), fs.skip(1), stop_at - 1, k - 1);
    }
}

/// Runs the worker loop over a finite script of fetch outcomes: the fetch of
/// iteration `i` yields `fetches[i]`, and the stop flag reads true from
/// iteration `stop_at` onward. Every fetched frame up to the exit point is
/// published; the first failed fetch terminates the run with its error and
/// leaves the last published frame in the slot.
pub fn run_worker(slot: &mut FrameSlot, fetches: Vec<FetchResult>, stop_at: usize) -> (r:
    WorkerExit)
    ensures
        (final(slot)@, r) == worker_run_m(
            old(slot)@,
            fetches@.map_values(|f: FetchResult| f@),
            stop_at as int,
        ),
{
    let ghost fs = fetches@.map_values(|f: FetchResult| f@);
    let mut i: usize = 0;
    proof {
        assert(fs.skip(0) =~= fs);
    }
    loop
        invariant
            i <= fetches@.len(),
            fs == fetches@.map_values(|f: FetchResult| f@),
            worker_run_m(old(slot)@, fs, stop_at as int) == worker_run_m(
                slot@,
                fs.skip(i as int),
                stop_at - i,
            ),
        decreases fetches@.len() - i,
    {
        if i == fetches.len() {
            proof {
                assert(fs.skip(i as int).len() == 0);
            }
            return WorkerExit::ScriptExhausted;
        }
        let fetch = &fetches[i];
        proof {
            assert(fs.skip(i as int)[0] == fs[i as int]);
            assert(fs.skip(i as int).skip(1) =~= fs.skip(i as int + 1));
        }
        let stop_now = i >= stop_at;
        let d = worker_step(slot, fetch, stop_now);
        match d {
            WorkerDecision::KeepRunning => {
                i = i + 1;
            },
            WorkerDecision::StopOk => {
                return WorkerExit::Stopped;
            },
            WorkerDecision::StopErr(e) => {
                return WorkerExit::Failed(e);
            },
        }
    }
}

} // verus!
