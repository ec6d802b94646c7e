//! The pacing and the retries of page fetches, as a machine that is told
//! what happened and answers what to do next. It sends nothing and reads no
//! clock: its driver does, and reports back. Times are readings of one
//! monotonic clock, in nanoseconds; waits are nanoseconds too.

use crate::title::page_address;
use crate::title::PageTitle;
use vstd::prelude::*;

verus! {

/// The attempts that one fetch may make.
pub const MAX_ATTEMPTS: u32 = 5;

/// One second.
pub const SECOND: u64 = 1_000_000_000;

/// The least time between two sends, unless another is asked for.
pub const DEFAULT_THROTTLE: u64 = 1_000_000_000;

/// Where a fetch stands.
#[derive(Clone, Copy, Debug, PartialEq, Eq, Structural)]
pub enum Phase {
    /// No fetch is under way.
    Idle,
    /// A request is to be sent, or is out.
    AwaitingResponse,
    /// A response with a success status came; its body is being read.
    AwaitingBody,
    /// An attempt failed; the driver rests before the next step.
    BackingOff,
}

/// What the driver reports.
#[derive(Debug)]
pub enum FetchEvent {
    /// The request came back with a response of this status. `now` was read
    /// as soon as it came back.
    Responded { now: u64, status: u16 },
    /// The request failed without a response.
    Unreachable { now: u64 },
    /// The body of the response was read.
    BodyRead { body: String },
    /// The body of the response could not be read.
    BodyFailed,
    /// The rest after a failed attempt is over.
    Rested { now: u64 },
}

/// What the driver is to do.
#[derive(Debug)]
pub enum FetchAction {
    /// Wait for `wait`, send a GET request to `url`, read the clock, and
    /// report `Responded` or `Unreachable`.
    Send { url: String, wait: u64 },
    /// Read the body of the response, and report `BodyRead` or `BodyFailed`.
    ReadBody,
    /// Rest for `wait`, read the clock, and report `Rested`.
    Backoff { wait: u64 },
    /// The fetch is done: hand `html` to the caller.
    Deliver { html: String },
    /// Every attempt failed: the fetch is exhausted.
    GiveUp,
}

/// The fetcher as the contracts speak of it.
pub ghost struct FetcherState {
    /// When the last response came back, if one ever did.
    pub last_fetch: Option<u64>,
    /// The least time between a response and the next send.
    pub throttle: u64,
    pub phase: Phase,
    /// The attempts of the fetch under way that have failed.
    pub failures: nat,
    /// The address of the page that is being fetched.
    pub url: Seq<char>,
}

/// What can happen to a fetcher: a fetch is begun, or the driver reports.
pub ghost enum Input {
    Begin { title: Seq<char>, now: u64 },
    Responded { now: u64, status: u16 },
    Unreachable { now: u64 },
    BodyRead { body: Seq<char> },
    BodyFailed,
    Rested { now: u64 },
}

/// A `FetchAction` with its texts as sequences of characters.
pub ghost enum Output {
    Send { url: Seq<char>, wait: u64 },
    ReadBody,
    Backoff { wait: u64 },
    Deliver { html: Seq<char> },
    GiveUp,
}

impl View for FetchEvent {
    type V = Input;

    open spec fn view(&self) -> Input {
        match *self {
            FetchEvent::Responded { now, status } => Input::Responded { now, status },
            FetchEvent::Unreachable { now } => Input::Unreachable { now },
            FetchEvent::BodyRead { body } => Input::BodyRead { body: body@ },
            FetchEvent::BodyFailed => Input::BodyFailed,
            FetchEvent::Rested { now } => Input::Rested { now },
        }
    }
}

impl View for FetchAction {
    type V = Output;

    open spec fn view(&self) -> Output {
        match *self {
            FetchAction::Send { url, wait } => Output::Send { url: url@, wait },
            FetchAction::ReadBody => Output::ReadBody,
            FetchAction::Backoff { wait } => Output::Backoff { wait },
            FetchAction::Deliver { html } => Output::Deliver { html: html@ },
            FetchAction::GiveUp => Output::GiveUp,
        }
    }
}

/// The action, if there is one, as the contracts speak of it.
pub open spec fn answer_view(action: Option<FetchAction>) -> Option<Output> {
    match action {
        Some(a) => Some(a@),
        None => None,
    }
}

/// How long a send has to wait at `now`, so that `throttle` lies between it
/// and the response before: what is missing of `throttle` since `last`, and
/// nothing where no response came yet. A clock that went back counts as no
/// time passed.
pub open spec fn throttle_wait(last: Option<u64>, throttle: u64, now: u64) -> u64 {
    match last {
        None => 0,
        Some(at) => if now < at {
            throttle
        } else if now - at < throttle {
            (throttle - (now - at)) as u64
        } else {
            0
        },
    }
}

/// Two to the power of `k`.
pub open spec fn doubled(k: nat) -> nat
    decreases k,
{
    if k == 0 {
        1
    } else {
        2 * doubled((k - 1) as nat)
    }
}

/// The rest after the failure that follows `failures` earlier ones: one
/// second, doubled for each of them.
pub open spec fn backoff_wait(failures: nat) -> nat {
    doubled(failures) * SECOND as nat
}

/// Whether a status tells success: 200 to 299.
pub open spec fn is_success(status: u16) -> bool {
    200 <= status < 300
}

impl FetcherState {
    /// No fetch has failed more often than it may try, and while an attempt
    /// is out one more failure is still allowed.
    pub open spec fn well_formed(self) -> bool {
        &&& self.failures <= MAX_ATTEMPTS
        &&& (self.phase == Phase::AwaitingResponse || self.phase == Phase::AwaitingBody
            ==> self.failures < MAX_ATTEMPTS)
    }

    /// The state after a failed attempt, and the rest that is asked for.
    pub open spec fn fail(self) -> (FetcherState, Option<Output>) {
        (
            FetcherState { phase: Phase::BackingOff, failures: self.failures + 1, ..self },
            Some(Output::Backoff { wait: backoff_wait(self.failures) as u64 }),
        )
    }

    /// The state in which the next attempt is out, and the send that is
    /// asked for at `now`.
    pub open spec fn attempt(self, now: u64) -> (FetcherState, Option<Output>) {
        (
            FetcherState { phase: Phase::AwaitingResponse, ..self },
            Some(
                Output::Send {
                    url: self.url,
                    wait: throttle_wait(self.last_fetch, self.throttle, now),
                },
            ),
        )
    }

    /// The next state and the action for one input. An input that the phase
    /// does not expect changes nothing and is answered by no action.
    ///
    /// A fetch begins with a send. A response stamps the time, whatever its
    /// status; with a success status its body is read, and the body that was
    /// read is delivered. A request without response, a response of another
    /// status and a body that cannot be read are failures alike: each is
    /// followed by a rest, the first of a second, each next twice as long.
    /// After the rest comes the next send, or, when `MAX_ATTEMPTS` attempts
    /// have failed, the end of the fetch.
    #[verifier::opaque]
    pub open spec fn step(self, input: Input) -> (FetcherState, Option<Output>) {
        match input {
            Input::Begin { title, now } => FetcherState {
                failures: 0,
                url: page_address(title),
                ..self
            }.attempt(now),
            Input::Responded { now, status } => if self.phase == Phase::AwaitingResponse {
                let stamped = FetcherState { last_fetch: Some(now), ..self };
                if is_success(status) {
                    (FetcherState { phase: Phase::AwaitingBody, ..stamped }, Some(Output::ReadBody))
                } else {
                    stamped.fail()
                }
            } else {
                (self, None)
            },
            Input::Unreachable { now } => if self.phase == Phase::AwaitingResponse {
                self.fail()
            } else {
                (self, None)
            },
            Input::BodyRead { body } => if self.phase == Phase::AwaitingBody {
                (FetcherState { phase: Phase::Idle, ..self }, Some(Output::Deliver { html: body }))
            } else {
                (self, None)
            },
            Input::BodyFailed => if self.phase == Phase::AwaitingBody {
                self.fail()
            } else {
                (self, None)
            },
            Input::Rested { now } => if self.phase == Phase::BackingOff {
                if self.failures < MAX_ATTEMPTS {
                    self.attempt(now)
                } else {
                    (FetcherState { phase: Phase::Idle, ..self }, Some(Output::GiveUp))
                }
            } else {
                (self, None)
            },
        }
    }

    /// The state after all of `inputs`, one after the other.
    pub open spec fn after(self, inputs: Seq<Input>) -> FetcherState
        decreases inputs.len(),
    {
        if inputs.len() == 0 {
            self
        } else {
            self.after(inputs.drop_last()).step(inputs.last()).0
        }
    }

    /// The action that answers the input at position `i` of `inputs`.
    pub open spec fn answer(self, inputs: Seq<Input>, i: int) -> Option<Output>
        recommends
            0 <= i < inputs.len(),
    {
        self.after(inputs.take(i)).step(inputs[i]).1
    }
}

/// The fetcher that has sent nothing yet.
pub open spec fn fresh(throttle: u64) -> FetcherState {
    FetcherState {
        last_fetch: None,
        throttle,
        phase: Phase::Idle,
        failures: 0,
        url: Seq::empty(),
    }
}

/// Paces and retries the fetches of wiki pages. One fetcher serves all the
/// fetches of a run, so that its one time stamp spaces them all.
pub struct WikiFetcher {
    last_fetch: Option<u64>,
    throttle: u64,
    phase: Phase,
    failures: u32,
    url: String,
}

impl View for WikiFetcher {
    type V = FetcherState;

    closed spec fn view(&self) -> FetcherState {
        FetcherState {
            last_fetch: self.last_fetch,
            throttle: self.throttle,
            phase: self.phase,
            failures: self.failures as nat,
            url: self.url@,
        }
    }
}

impl Default for WikiFetcher {
    fn default() -> (r: Self)
        ensures
            r@ == fresh(DEFAULT_THROTTLE),
    {
        WikiFetcher::with_throttle(DEFAULT_THROTTLE)
    }
}

impl WikiFetcher {
    #[verifier::type_invariant]
    spec fn consistent(&self) -> bool {
        self@.well_formed()
    }

    /// A fetcher that has sent nothing yet and keeps `throttle` between a
    /// response and the next send.
    pub fn with_throttle(throttle: u64) -> (r: Self)
        ensures
            r@ == fresh(throttle),
    {
        WikiFetcher {
            last_fetch: None,
            throttle,
            phase: Phase::Idle,
            failures: 0,
            url: String::new(),
        }
    }

    /// When the last response came back, if one ever did.
    pub fn last_fetch(&self) -> (r: Option<u64>)
        ensures
            r == self@.last_fetch,
    {
        self.last_fetch
    }

    /// The least time between a response and the next send.
    pub fn throttle(&self) -> (r: u64)
        ensures
            r == self@.throttle,
    {
        self.throttle
    }

    /// Where the fetch under way stands.
    pub fn phase(&self) -> (r: Phase)
        ensures
            r == self@.phase,
    {
        self.phase
    }

    /// How long a send at `now` has to wait.
    fn wait_at(&self, now: u64) -> (r: u64)
        ensures
            r == throttle_wait(self@.last_fetch, self@.throttle, now),
    {
        match self.last_fetch {
            None => 0,
            Some(at) => if now < at {
                self.throttle
            } else if now - at < self.throttle {
                self.throttle - (now - at)
            } else {
                0
            },
        }
    }

    /// Sends the next attempt out.
    fn send(&mut self, now: u64) -> (action: FetchAction)
        requires
            old(self)@.failures < MAX_ATTEMPTS,
        ensures
            (final(self)@, Some(action@)) == old(self)@.attempt(now),
    {
        proof {
            use_type_invariant(&*self);
        }
        let wait = self.wait_at(now);
        self.phase = Phase::AwaitingResponse;
        FetchAction::Send { url: self.url.clone(), wait }
    }

    /// Counts a failed attempt and asks for the rest that follows it.
    fn rest(&mut self) -> (action: FetchAction)
        requires
            old(self)@.failures < MAX_ATTEMPTS,
        ensures
            (final(self)@, Some(action@)) == old(self)@.fail(),
    {
        proof {
            use_type_invariant(&*self);
        }
        let wait = rest_after(self.failures);
        self.phase = Phase::BackingOff;
        self.failures = self.failures + 1;
        FetchAction::Backoff { wait }
    }

    /// Begins the fetch of the page `title` at `now`, whatever went before,
    /// and asks for its first send.
    pub fn fetch(&mut self, title: &PageTitle, now: u64) -> (action: FetchAction)
        ensures
            (final(self)@, Some(action@)) == old(self)@.step(
                Input::Begin { title: title@, now },
            ),
            final(self)@.well_formed(),
    {
        proof {
            use_type_invariant(&*self);
            reveal(FetcherState::step);
        }
        self.url = title.to_url();
        self.failures = 0;
        self.send(now)
    }

    /// Takes the driver's report and answers with the next action; with
    /// none, and unchanged, where the report is not the one that is awaited.
    pub fn advance(&mut self, event: FetchEvent) -> (action: Option<FetchAction>)
        ensures
            (final(self)@, answer_view(action)) == old(self)@.step(event@),
            final(self)@.well_formed(),
    {
        proof {
            use_type_invariant(&*self);
            reveal(FetcherState::step);
        }
        match event {
            FetchEvent::Responded { now, status } => {
                if self.phase != Phase::AwaitingResponse {
                    return None;
                }
                self.last_fetch = Some(now);
                if 200 <= status && status < 300 {
                    self.phase = Phase::AwaitingBody;
                    Some(FetchAction::ReadBody)
                } else {
                    Some(self.rest())
                }
            },
            FetchEvent::Unreachable { now } => {
                if self.phase != Phase::AwaitingResponse {
                    return None;
                }
                Some(self.rest())
            },
            FetchEvent::BodyRead { body } => {
                if self.phase != Phase::AwaitingBody {
                    return None;
                }
                self.phase = Phase::Idle;
                Some(FetchAction::Deliver { html: body })
            },
            FetchEvent::BodyFailed => {
                if self.phase != Phase::AwaitingBody {
                    return None;
                }
                Some(self.rest())
            },
            FetchEvent::Rested { now } => {
                if self.phase != Phase::BackingOff {
                    return None;
                }
                if self.failures < MAX_ATTEMPTS {
                    Some(self.send(now))
                } else {
                    self.phase = Phase::Idle;
                    Some(FetchAction::GiveUp)
                }
            },
        }
    }
}

/// The rest after the failure that follows `failures` earlier ones.
fn rest_after(failures: u32) -> (r: u64)
    requires
        failures < MAX_ATTEMPTS,
    ensures
        r == backoff_wait(failures as nat),
{
    proof {
        lemma_backoff_values();
    }
    if failures == 0 {
        SECOND
    } else if failures == 1 {
        2 * SECOND
    } else if failures == 2 {
        4 * SECOND
    } else if failures == 3 {
        8 * SECOND
    } else {
        16 * SECOND
    }
}

/// The rests of a fetch: 1, 2, 4, 8 and 16 seconds.
pub proof fn lemma_backoff_values()
    ensures
        backoff_wait(0) == SECOND,
        backoff_wait(1) == 2 * SECOND,
        backoff_wait(2) == 4 * SECOND,
        backoff_wait(3) == 8 * SECOND,
        backoff_wait(4) == 16 * SECOND,
{
    reveal_with_fuel(doubled, 6);
}

} // verus!
