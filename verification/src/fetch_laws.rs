//! What holds of every run of the fetcher.

use crate::fetcher::backoff_wait;
use crate::fetcher::is_success;
use crate::fetcher::lemma_backoff_values;
use crate::fetcher::FetcherState;
use crate::fetcher::Input;
use crate::fetcher::Output;
use crate::fetcher::Phase;
use crate::fetcher::MAX_ATTEMPTS;
use crate::fetcher::SECOND;
use crate::title::page_address;
use vstd::prelude::*;

verus! {

/// Whether `input` reports a request that failed: one without a response,
/// or one whose response has no success status.
pub open spec fn is_failed_request(input: Input) -> bool {
    match input {
        Input::Unreachable { .. } => true,
        Input::Responded { status, .. } => !is_success(status),
        _ => false,
    }
}

/// Whether `inputs` are those of one fetch of `title` whose every request
/// fails: the begin, and then a failed request and the end of the rest that
/// follows it, as often as the fetch may try.
pub open spec fn every_request_fails(inputs: Seq<Input>, title: Seq<char>) -> bool {
    &&& inputs.len() == 2 * MAX_ATTEMPTS + 1
    &&& inputs[0] matches Input::Begin { title: begun, .. } && begun == title
    &&& forall|k: int|
        0 <= k < MAX_ATTEMPTS ==> is_failed_request(#[trigger] inputs[2 * k + 1]) && inputs[2 * k
            + 2] is Rested
}

/// Whether `output` asks for a send to `url`.
pub open spec fn is_send_to(output: Option<Output>, url: Seq<char>) -> bool {
    output matches Some(Output::Send { url: target, .. }) && target == url
}

/// The state between the attempts of a fetch whose every request fails.
proof fn lemma_failing_fetch_state(s: FetcherState, title: Seq<char>, inputs: Seq<Input>, k: int)
    requires
        every_request_fails(inputs, title),
        0 <= k <= MAX_ATTEMPTS,
    ensures
        s.after(inputs.take(2 * k + 1)).failures == k,
        s.after(inputs.take(2 * k + 1)).url == page_address(title),
        s.after(inputs.take(2 * k + 1)).phase == if k < MAX_ATTEMPTS {
            Phase::AwaitingResponse
        } else {
            Phase::Idle
        },
        k >= 1 ==> s.after(inputs.take(2 * k)).failures == k && s.after(
            inputs.take(2 * k),
        ).phase == Phase::BackingOff && s.after(inputs.take(2 * k)).url == page_address(title),
    decreases k,
{
    reveal(FetcherState::step);
    if k == 0 {
        assert(inputs.take(1).drop_last() =~= Seq::<Input>::empty());
        assert(inputs.take(1).last() == inputs[0]);
    } else {
        lemma_failing_fetch_state(s, title, inputs, k - 1);
        let j = k - 1;
        assert(inputs.take(2 * j + 2).drop_last() =~= inputs.take(2 * j + 1));
        assert(inputs.take(2 * j + 2).last() == inputs[2 * j + 1]);
        assert(inputs.take(2 * j + 3).drop_last() =~= inputs.take(2 * j + 2));
        assert(inputs.take(2 * j + 3).last() == inputs[2 * j + 2]);
        assert(is_failed_request(inputs[2 * j + 1]));
        assert(2 * k == 2 * j + 2);
    }
}

/// A fetch whose every request fails sends five requests and no more, rests
/// after them for 1, 2, 4, 8 and 16 seconds, and then gives up: the sends
/// answer the inputs at the even positions below ten, the rests those at the
/// odd positions, and giving up answers the last.
pub proof fn lemma_exhausted_after_five_attempts(
    s: FetcherState,
    title: Seq<char>,
    inputs: Seq<Input>,
)
    requires
        every_request_fails(inputs, title),
    ensures
        forall|k: int|
            0 <= k < MAX_ATTEMPTS ==> is_send_to(
                #[trigger] s.answer(inputs, 2 * k),
                page_address(title),
            ),
        s.answer(inputs, 1) == Some(Output::Backoff { wait: SECOND }),
        s.answer(inputs, 3) == Some(Output::Backoff { wait: (2 * SECOND) as u64 }),
        s.answer(inputs, 5) == Some(Output::Backoff { wait: (4 * SECOND) as u64 }),
        s.answer(inputs, 7) == Some(Output::Backoff { wait: (8 * SECOND) as u64 }),
        s.answer(inputs, 9) == Some(Output::Backoff { wait: (16 * SECOND) as u64 }),
        s.answer(inputs, 10) == Some(Output::GiveUp),
        s.after(inputs).phase == Phase::Idle,
{
    reveal(FetcherState::step);
    lemma_backoff_values();
    assert(inputs.take(0) =~= Seq::<Input>::empty());
    assert forall|k: int| 0 <= k < MAX_ATTEMPTS implies is_send_to(
        #[trigger] s.answer(inputs, 2 * k),
        page_address(title),
    ) by {
        if k > 0 {
            lemma_failing_fetch_state(s, title, inputs, k);
            assert(inputs[2 * (k - 1) + 2] is Rested);
        }
    }
    assert forall|k: int| 0 <= k < MAX_ATTEMPTS implies #[trigger] s.answer(inputs, 2 * k + 1)
        == Some(Output::Backoff { wait: backoff_wait(k as nat) as u64 }) by {
        lemma_failing_fetch_state(s, title, inputs, k);
        assert(is_failed_request(inputs[2 * k + 1]));
    }
    assert(s.answer(inputs, 2 * 0int + 1) == s.answer(inputs, 1));
    assert(s.answer(inputs, 2 * 1int + 1) == s.answer(inputs, 3));
    assert(s.answer(inputs, 2 * 2int + 1) == s.answer(inputs, 5));
    assert(s.answer(inputs, 2 * 3int + 1) == s.answer(inputs, 7));
    assert(s.answer(inputs, 2 * 4int + 1) == s.answer(inputs, 9));
    lemma_failing_fetch_state(s, title, inputs, 5);
    assert(inputs[2 * 4int + 2] is Rested);
    assert(inputs.take(11) =~= inputs);
}

/// The clock reading that `input` carries, where it carries one.
pub open spec fn input_time(input: Input) -> Option<u64> {
    match input {
        Input::Begin { now, .. } => Some(now),
        Input::Responded { now, .. } => Some(now),
        Input::Unreachable { now } => Some(now),
        Input::Rested { now } => Some(now),
        Input::BodyRead { .. } => None,
        Input::BodyFailed => None,
    }
}

/// The latest clock reading among `inputs`. Before any, it is the time of
/// the fetcher's last response.
pub open spec fn clock_after(s: FetcherState, inputs: Seq<Input>) -> int
    decreases inputs.len(),
{
    if inputs.len() == 0 {
        match s.last_fetch {
            Some(at) => at as int,
            None => 0,
        }
    } else {
        match input_time(inputs.last()) {
            Some(at) => at as int,
            None => clock_after(s, inputs.drop_last()),
        }
    }
}

/// The time before which the request that was last asked for cannot have
/// come back: the time at which its send was asked for, and the wait that
/// was asked for with it.
pub open spec fn due_after(s: FetcherState, inputs: Seq<Input>) -> int
    decreases inputs.len(),
{
    if inputs.len() == 0 {
        0
    } else {
        match s.after(inputs.drop_last()).step(inputs.last()).1 {
            Some(Output::Send { wait, .. }) => input_time(inputs.last()).unwrap() + wait,
            _ => due_after(s, inputs.drop_last()),
        }
    }
}

/// Whether the input at position `i` is a response that the fetcher waited
/// for: the end of a send.
pub open spec fn ends_send(s: FetcherState, inputs: Seq<Input>, i: int) -> bool {
    inputs[i] is Responded && s.after(inputs.take(i)).phase == Phase::AwaitingResponse
}

/// Whether the driver keeps time: no clock reading is earlier than the one
/// before it, and no response is reported earlier than the wait of its send
/// allows.
pub open spec fn keeps_time(s: FetcherState, inputs: Seq<Input>) -> bool {
    forall|i: int|
        #![trigger inputs[i]]
        0 <= i < inputs.len() ==> {
            &&& input_time(inputs[i]) matches Some(at) ==> at >= clock_after(s, inputs.take(i))
            &&& ends_send(s, inputs, i) ==> input_time(inputs[i]).unwrap() >= due_after(
                s,
                inputs.take(i),
            )
        }
}

/// Whether the fetcher keeps pace at a moment when the clock was last read
/// as `clock` and the request that was last asked for is due at `due`: its
/// time stamp is not ahead of the clock, and a request that is out is due no
/// earlier than the throttle after the time stamp.
pub open spec fn paced(st: FetcherState, clock: int, due: int, throttle: u64) -> bool {
    &&& st.throttle == throttle
    &&& st.last_fetch matches Some(at) ==> at <= clock && (st.phase == Phase::AwaitingResponse
        ==> due >= at + throttle)
}

/// The clock after `input`, where it was `clock` before.
pub open spec fn clock_past(clock: int, input: Input) -> int {
    match input_time(input) {
        Some(at) => at as int,
        None => clock,
    }
}

/// The time at which the request that was last asked for is due after
/// `input` was answered by `output`, where it was `due` before.
pub open spec fn due_past(due: int, input: Input, output: Option<Output>) -> int {
    match output {
        Some(Output::Send { wait, .. }) => input_time(input).unwrap() + wait,
        _ => due,
    }
}

/// One step of a driver that keeps time leaves the fetcher paced, never
/// moves its time stamp back, and stamps the end of a send.
proof fn lemma_step_keeps_pace(
    st: FetcherState,
    input: Input,
    clock: int,
    due: int,
    throttle: u64,
)
    requires
        paced(st, clock, due, throttle),
        input_time(input) matches Some(at) ==> at >= clock,
        input is Responded && st.phase == Phase::AwaitingResponse ==> input_time(input).unwrap()
            >= due,
    ensures
        paced(
            st.step(input).0,
            clock_past(clock, input),
            due_past(due, input, st.step(input).1),
            throttle,
        ),
        st.last_fetch matches Some(at) ==> (st.step(input).0.last_fetch matches Some(later)
            && later >= at),
        input is Responded && st.phase == Phase::AwaitingResponse ==> st.step(input).0.last_fetch
            == input_time(input),
{
    reveal(FetcherState::step);
}

/// How the state, the clock and the due time after `n` inputs come from
/// those after `n - 1`.
proof fn lemma_unfold_run(s: FetcherState, inputs: Seq<Input>, n: int)
    requires
        0 < n <= inputs.len(),
    ensures
        s.after(inputs.take(n)) == s.after(inputs.take(n - 1)).step(inputs[n - 1]).0,
        clock_after(s, inputs.take(n)) == clock_past(
            clock_after(s, inputs.take(n - 1)),
            inputs[n - 1],
        ),
        due_after(s, inputs.take(n)) == due_past(
            due_after(s, inputs.take(n - 1)),
            inputs[n - 1],
            s.after(inputs.take(n - 1)).step(inputs[n - 1]).1,
        ),
{
    assert(inputs.take(n).drop_last() =~= inputs.take(n - 1));
    assert(inputs.take(n).last() == inputs[n - 1]);
}

/// After any number of inputs of a run in which the driver keeps time, the
/// fetcher is paced.
proof fn lemma_paced(s: FetcherState, inputs: Seq<Input>, n: int)
    requires
        s.phase != Phase::AwaitingResponse,
        keeps_time(s, inputs),
        0 <= n <= inputs.len(),
    ensures
        paced(
            s.after(inputs.take(n)),
            clock_after(s, inputs.take(n)),
            due_after(s, inputs.take(n)),
            s.throttle,
        ),
    decreases n,
{
    if n > 0 {
        lemma_paced(s, inputs, n - 1);
        lemma_unfold_run(s, inputs, n);
        let input = inputs[n - 1];
        let st = s.after(inputs.take(n - 1));
        let clock = clock_after(s, inputs.take(n - 1));
        let due = due_after(s, inputs.take(n - 1));
        assert(input_time(input) matches Some(at) ==> at >= clock);
        assert(ends_send(s, inputs, n - 1) ==> input_time(input).unwrap() >= due);
        lemma_step_keeps_pace(st, input, clock, due, s.throttle);
    } else {
        assert(inputs.take(0) =~= Seq::<Input>::empty());
    }
}

/// The time stamp never falls behind the end of a send that it has seen.
proof fn lemma_stamp_follows(s: FetcherState, inputs: Seq<Input>, i: int, n: int)
    requires
        s.phase != Phase::AwaitingResponse,
        keeps_time(s, inputs),
        0 <= i < n <= inputs.len(),
        ends_send(s, inputs, i),
    ensures
        s.after(inputs.take(n)).last_fetch matches Some(at) && at >= input_time(
            inputs[i],
        ).unwrap(),
    decreases n,
{
    lemma_paced(s, inputs, n - 1);
    lemma_unfold_run(s, inputs, n);
    let input = inputs[n - 1];
    let st = s.after(inputs.take(n - 1));
    let clock = clock_after(s, inputs.take(n - 1));
    let due = due_after(s, inputs.take(n - 1));
    assert(input_time(input) matches Some(at) ==> at >= clock);
    assert(ends_send(s, inputs, n - 1) ==> input_time(input).unwrap() >= due);
    lemma_step_keeps_pace(st, input, clock, due, s.throttle);
    if i < n - 1 {
        lemma_stamp_follows(s, inputs, i, n - 1);
    }
}

/// Between the ends of any two sends of one fetcher lies at least its
/// throttle, whether they belong to one fetch or to two, as long as the
/// driver keeps time. The run may start in any state in which no request is
/// out.
pub proof fn lemma_sends_are_spaced(s: FetcherState, inputs: Seq<Input>, i: int, j: int)
    requires
        s.phase != Phase::AwaitingResponse,
        keeps_time(s, inputs),
        0 <= i < j < inputs.len(),
        ends_send(s, inputs, i),
        ends_send(s, inputs, j),
    ensures
        input_time(inputs[j]).unwrap() - input_time(inputs[i]).unwrap() >= s.throttle,
{
    lemma_paced(s, inputs, j);
    lemma_stamp_follows(s, inputs, i, j);
    assert(input_time(inputs[j]).unwrap() >= due_after(s, inputs.take(j)));
}

} // verus!
