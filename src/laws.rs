use vstd::prelude::*;

use crate::router::{non_decreasing, strictly_increasing, FrameRouter};
use crate::worker::{encode_timestamp, EncoderWorker};
use vstd::set_lib::{lemma_int_range, set_int_range};

verus! {

/// While the step counter never goes back, the router starts exactly one
/// worker for each nonzero step that a valid frame arrived in while recording,
/// and sends every worker at least one frame. So the steps that get a clip are
/// exactly the steps that received frames, one clip each.
pub proof fn lemma_one_worker_per_step_with_frames(router: &FrameRouter)
    requires
        router.wf(),
        non_decreasing(router.observed()),
    ensures
        router.worker_steps().no_duplicates(),
        router.worker_steps().to_set() == router.observed().to_set().remove(0),
        router.worker_steps().len() == router.observed().to_set().remove(0).len(),
        forall|w: int|
            0 <= w < router.worker_steps().len() ==> #[trigger] router.forwarded()[w].len() > 0,
{
    let steps = router.worker_steps();
    assert(strictly_increasing(steps));
    assert forall|i: int, j: int| 0 <= i < steps.len() && 0 <= j < steps.len() && i != j implies steps[i]
        != steps[j] by {
        if i < j {
            assert(steps[i] < steps[j]);
        } else {
            assert(steps[j] < steps[i]);
        }
    }
    assert(steps.to_set() =~= router.observed().to_set().remove(0));
    steps.unique_seq_to_set();
}

/// Each worker's queue holds exactly the counted frames read at its step, in
/// the order they arrived. A frame sent to a worker was read at that worker's
/// step; every counted frame of a nonzero step was sent to a worker of that
/// step, at its place in the queue (its message index less one); and places
/// follow arrival order.
pub proof fn lemma_step_queues_hold_their_frames_in_order(router: &FrameRouter)
    requires
        router.wf(),
    ensures
        forall|w: int, i: int|
            0 <= w < router.forwarded().len() && 0 <= i < router.forwarded()[w].len() ==> {
                let c = #[trigger] router.forwarded()[w][i];
                &&& c < router.observed().len()
                &&& router.observed()[c as int] == router.worker_steps()[w]
            },
        forall|c: int|
            0 <= c < router.observed().len() && #[trigger] router.observed()[c] != 0 ==> {
                let w = router.owner()[c] as int;
                &&& w < router.worker_steps().len()
                &&& router.worker_steps()[w] == router.observed()[c]
                &&& router.slot()[c] < router.forwarded()[w].len()
                &&& router.forwarded()[w][router.slot()[c] as int] == c
            },
        forall|w: int, i: int, j: int|
            0 <= w < router.forwarded().len() && 0 <= i < j < router.forwarded()[w].len()
                ==> #[trigger] router.forwarded()[w][i] < #[trigger] router.forwarded()[w][j],
{
    assert forall|c: int|
        0 <= c < router.observed().len() && #[trigger] router.observed()[c] != 0 implies router.worker_steps()[
        router.owner()[c] as int] == router.observed()[c] by {
        let w = router.owner()[c] as int;
        let i = router.slot()[c] as int;
        assert(router.forwarded()[w][i] == c);
    }
}

/// With no click recorded, every counted frame was read at step 0 and no
/// worker is ever started.
pub proof fn lemma_no_clicks_no_workers(router: &FrameRouter)
    requires
        router.wf(),
        forall|c: int| 0 <= c < router.observed().len() ==> router.observed()[c] == 0,
    ensures
        router.worker_steps().len() == 0,
{
    assert(non_decreasing(router.observed()));
    if router.worker_steps().len() > 0 {
        assert(router.worker_steps().contains(router.worker_steps()[0]));
        let k = router.worker_steps()[0];
        let c = choose|c: int| 0 <= c < router.observed().len() && router.observed()[c] == k;
        assert(router.observed()[c] == 0);
    }
}

/// Every frame sent to a worker reaches its encoder and is accepted (no encoder
/// fails and every frame has pixels), and the step counter never goes back.
/// Then, once every worker has drained its queue, the number of output files
/// owed equals the number of distinct nonzero steps that a valid frame arrived
/// in while recording.
pub proof fn lemma_one_output_per_step_with_frames(router: &FrameRouter, workers: Seq<EncoderWorker>)
    requires
        router.wf(),
        non_decreasing(router.observed()),
        workers.len() == router.worker_steps().len(),
        forall|w: int|
            0 <= w < workers.len() ==> {
                &&& (#[trigger] workers[w]).wf()
                &&& workers[w].stopped()
                &&& !workers[w].finalized()
                &&& workers[w].written() == router.forwarded()[w].len()
            },
    ensures
        Set::new(|w: int| 0 <= w < workers.len() && workers[w].output_due()).len()
            == router.observed().to_set().remove(0).len(),
{
    lemma_one_worker_per_step_with_frames(router);
    let due = Set::new(|w: int| 0 <= w < workers.len() && workers[w].output_due());
    assert forall|w: int| 0 <= w < workers.len() implies #[trigger] workers[w].output_due() by {
        assert(router.forwarded()[w].len() > 0);
    }
    assert(due =~= set_int_range(0, workers.len() as int));
    lemma_int_range(0, workers.len() as int);
}

/// The first frame of a step is the baseline, so it is encoded at time 0; a
/// frame displayed no earlier than another is encoded no earlier.
pub proof fn lemma_encode_timestamps_start_at_zero_and_never_decrease(
    baseline: u64,
    first: u64,
    second: u64,
)
    requires
        first <= second,
    ensures
        encode_timestamp(baseline, baseline) == 0,
        encode_timestamp(baseline, first) <= encode_timestamp(baseline, second),
{
}

/// A worker whose encoder has accepted no frame has not finalized an output
/// file: finalizing is owed only after a frame was ingested.
pub proof fn lemma_no_frames_no_output(worker: &EncoderWorker)
    requires
        worker.wf(),
        worker.written() == 0,
    ensures
        !worker.finalized(),
{
}

} // verus!
