//! The life of a runtime: how it is brought up, step by step, and how it
//! then serves one request at a time.
//!
//! The host owns the engine and performs every step on it. This module
//! decides: which step comes next, when the bootstrap has failed, when
//! requests may be served, and what becomes of each request.

use std::marker::PhantomData;
use std::rc::Rc;
use vstd::prelude::*;
use crate::report::{describe, description, Failure, FailureView};
use crate::request::{encode_request, encoded_request, EncodedRequest, WireRequest};
use crate::response::{
    response_from, response_of, ResponseError, ScriptValue, WireResponse, WireResponseView,
};
use crate::token_table::TokenTable;

verus! {

/// The status with which the process ends after a fatal error.
pub const FATAL_STATUS: i32 = 1;

/// The steps of the bootstrap, in the order in which they are performed.
#[derive(Debug, Clone, Copy, PartialEq, Eq, Structural)]
pub enum BootStep {
    /// Create the execution environment and its global context.
    CreateContext,
    /// Run the internal setup source. It must evaluate to a function, the
    /// loader.
    RunSetup,
    /// Replace the logging method of the context's logging object.
    PatchLogger,
    /// Call the loader. It must return a function, the entry point.
    CallLoader,
    /// Read and run the user's script.
    RunUserScript,
    /// Call the entry point. It must return a function, the handler.
    CallEntryPoint,
    /// Attach the exports object to the global context.
    AttachExports,
}

/// Where a runtime stands.
#[derive(Debug, Clone, Copy, PartialEq, Eq, Structural)]
pub enum Phase {
    /// Nothing has been done yet.
    Uninitialized,
    /// The bootstrap is under way, and this step is being performed.
    Bootstrapping(BootStep),
    /// The handler is retained, and no request is being served.
    Ready,
    /// The handler is running.
    Invoking,
    /// The bootstrap has failed. Nothing follows.
    Failed,
}

/// How a step of the bootstrap ended.
#[derive(Debug, Clone, Copy, PartialEq, Eq, Structural)]
pub enum StepOutcome {
    /// The step ran to its end; `function` says whether what it produced
    /// is a function.
    Completed { function: bool },
    /// The step did not run to its end: the script raised an exception or
    /// did not compile, a file could not be read, an object was missing.
    Aborted,
}

/// What can happen to a runtime.
#[derive(Debug, Clone, Copy, PartialEq, Eq, Structural)]
pub enum Signal {
    /// The host begins the bootstrap.
    Start,
    /// The step under way has ended.
    StepEnded(StepOutcome),
    /// A request is about to be handed to the handler.
    RequestArrived,
    /// The handler has returned or has raised an exception.
    HandlerEnded,
}

/// The step after a step, where there is one.
pub open spec fn following(step: BootStep) -> Option<BootStep> {
    match step {
        BootStep::CreateContext => Some(BootStep::RunSetup),
        BootStep::RunSetup => Some(BootStep::PatchLogger),
        BootStep::PatchLogger => Some(BootStep::CallLoader),
        BootStep::CallLoader => Some(BootStep::RunUserScript),
        BootStep::RunUserScript => Some(BootStep::CallEntryPoint),
        BootStep::CallEntryPoint => Some(BootStep::AttachExports),
        BootStep::AttachExports => None,
    }
}

/// The steps that must produce a function.
pub open spec fn must_yield_function(step: BootStep) -> bool {
    step == BootStep::RunSetup || step == BootStep::CallLoader || step == BootStep::CallEntryPoint
}

/// Whether a step has ended in a way that lets the bootstrap go on.
pub open spec fn step_succeeded(step: BootStep, outcome: StepOutcome) -> bool {
    match outcome {
        StepOutcome::Completed { function } => must_yield_function(step) ==> function,
        StepOutcome::Aborted => false,
    }
}

/// The phase that follows a phase on a signal. `None` where the signal
/// has no place in the phase: the runtime then stays as it is.
pub open spec fn transition(phase: Phase, signal: Signal) -> Option<Phase> {
    match (phase, signal) {
        (Phase::Uninitialized, Signal::Start) => Some(
            Phase::Bootstrapping(BootStep::CreateContext),
        ),
        (Phase::Bootstrapping(step), Signal::StepEnded(outcome)) => if step_succeeded(
            step,
            outcome,
        ) {
            match following(step) {
                Some(next) => Some(Phase::Bootstrapping(next)),
                None => Some(Phase::Ready),
            }
        } else {
            Some(Phase::Failed)
        },
        (Phase::Ready, Signal::RequestArrived) => Some(Phase::Invoking),
        (Phase::Invoking, Signal::HandlerEnded) => Some(Phase::Ready),
        _ => None,
    }
}

/// Where a runtime stands after a run of signals, each of which had its
/// place. `None` where one of them had not.
pub open spec fn run(phase: Phase, signals: Seq<Signal>) -> Option<Phase>
    decreases signals.len(),
{
    if signals.len() == 0 {
        Some(phase)
    } else {
        match transition(phase, signals[0]) {
            Some(next) => run(next, signals.drop_first()),
            None => None,
        }
    }
}

/// The step that is performed as number `k`, counted from zero.
pub open spec fn step_number(k: int) -> BootStep {
    if k <= 0 {
        BootStep::CreateContext
    } else if k == 1 {
        BootStep::RunSetup
    } else if k == 2 {
        BootStep::PatchLogger
    } else if k == 3 {
        BootStep::CallLoader
    } else if k == 4 {
        BootStep::RunUserScript
    } else if k == 5 {
        BootStep::CallEntryPoint
    } else {
        BootStep::AttachExports
    }
}

/// Whether signal `at` of a run reports that step `step` went well.
pub open spec fn reports_success(signals: Seq<Signal>, at: int, step: BootStep) -> bool {
    signals[at] matches Signal::StepEnded(outcome) && step_succeeded(step, outcome)
}

/// A failed bootstrap is the end: no signal has a place after it.
pub proof fn law_failed_is_final(signal: Signal)
    ensures
        transition(Phase::Failed, signal) is None,
{
}

/// A runtime fails during the bootstrap and at no other time.
pub proof fn law_failure_only_while_bootstrapping(phase: Phase, signal: Signal)
    ensures
        transition(phase, signal) == Some(Phase::Failed) ==> phase is Bootstrapping,
{
}

/// A runtime becomes ready in two ways only: its last bootstrap step
/// went well, or its handler has ended.
pub proof fn law_ways_to_ready(phase: Phase, signal: Signal)
    ensures
        transition(phase, signal) == Some(Phase::Ready) ==> {
            ||| phase == Phase::Invoking && signal == Signal::HandlerEnded
            ||| {
                &&& phase == Phase::Bootstrapping(BootStep::AttachExports)
                &&& signal matches Signal::StepEnded(outcome)
                &&& step_succeeded(BootStep::AttachExports, outcome)
            }
        },
{
}

/// One request at a time: while the handler runs, the only signal that
/// has a place is its end, and the runtime is ready after it.
pub proof fn law_one_request_at_a_time(signal: Signal)
    ensures
        transition(Phase::Invoking, signal) is Some <==> signal == Signal::HandlerEnded,
        transition(Phase::Invoking, Signal::HandlerEnded) == Some(Phase::Ready),
        transition(Phase::Ready, Signal::RequestArrived) == Some(Phase::Invoking),
{
}

/// Requests are served only after the whole bootstrap, in its order. A
/// run that takes a fresh runtime to the point where it is ready or its
/// handler runs begins with the start and with seven reports of
/// success, one for each step from the first to the last.
pub proof fn law_bootstrap_in_order(signals: Seq<Signal>)
    requires
        run(Phase::Uninitialized, signals) == Some(Phase::Ready) || run(
            Phase::Uninitialized,
            signals,
        ) == Some(Phase::Invoking),
    ensures
        signals.len() >= 8,
        signals[0] == Signal::Start,
        forall|k: int| 0 <= k < 7 ==> #[trigger] reports_success(signals, k + 1, step_number(k)),
{
    let rest = signals.drop_first();
    lemma_bootstrap_from(0, rest);
    assert forall|k: int| 0 <= k < 7 implies #[trigger] reports_success(
        signals,
        k + 1,
        step_number(k),
    ) by {
        assert(reports_success(rest, k, step_number(0 + k)));
    }
}

/// Nothing leads out of a failed bootstrap.
proof fn lemma_failed_stays(signals: Seq<Signal>)
    ensures
        run(Phase::Failed, signals) matches Some(phase) ==> phase == Phase::Failed,
{
}

/// A run that leads from step `k` to serving reports success for every
/// step from `k` on.
proof fn lemma_bootstrap_from(k: int, signals: Seq<Signal>)
    requires
        0 <= k <= 6,
        run(Phase::Bootstrapping(step_number(k)), signals) == Some(Phase::Ready) || run(
            Phase::Bootstrapping(step_number(k)),
            signals,
        ) == Some(Phase::Invoking),
    ensures
        signals.len() >= 7 - k,
        forall|j: int|
            0 <= j < 7 - k ==> #[trigger] reports_success(signals, j, step_number(k + j)),
    decreases 7 - k,
{
    let step = step_number(k);
    let rest = signals.drop_first();
    assert(reports_success(signals, 0, step)) by {
        if let Signal::StepEnded(outcome) = signals[0] {
            if !step_succeeded(step, outcome) {
                lemma_failed_stays(rest);
            }
        }
    }
    if k < 6 {
        lemma_bootstrap_from(k + 1, rest);
        assert forall|j: int| 0 <= j < 7 - k implies #[trigger] reports_success(
            signals,
            j,
            step_number(k + j),
        ) by {
            if j > 0 {
                assert(reports_success(rest, j - 1, step_number(k + 1 + (j - 1))));
            }
        }
    }
}

/// What the host does next during the bootstrap.
#[derive(Debug, Clone, PartialEq, Eq)]
pub enum Directive {
    /// Perform this step and report how it ended.
    Perform(BootStep),
    /// The bootstrap is done: serve requests.
    Serve,
    /// The bootstrap has failed: write the message to the error stream
    /// and end the process with the status, which is not zero.
    Terminate { message: String, status: i32 },
}

/// The mathematical content of a [`Directive`].
pub enum DirectiveView {
    Perform(BootStep),
    Serve,
    Terminate { message: Seq<char>, status: i32 },
}

impl View for Directive {
    type V = DirectiveView;

    open spec fn view(&self) -> DirectiveView {
        match *self {
            Directive::Perform(step) => DirectiveView::Perform(step),
            Directive::Serve => DirectiveView::Serve,
            Directive::Terminate { message, status } => DirectiveView::Terminate {
                message: message@,
                status,
            },
        }
    }
}

/// The directive that goes with a phase of the bootstrap or with its
/// end. A failed bootstrap reports what the engine holds about the
/// failure.
pub open spec fn directive_in(phase: Phase, pending: FailureView) -> DirectiveView {
    match phase {
        Phase::Bootstrapping(step) => DirectiveView::Perform(step),
        Phase::Failed => DirectiveView::Terminate {
            message: description(pending),
            status: FATAL_STATUS,
        },
        _ => DirectiveView::Serve,
    }
}

/// How a call of the handler ended.
#[derive(Debug, PartialEq, Eq)]
pub enum HandlerOutcome {
    /// The handler returned this value.
    Returned(ScriptValue),
    /// The handler raised an exception, of which the engine holds this.
    Threw(Failure),
}

/// What becomes of a request.
#[derive(Debug, Clone, PartialEq, Eq)]
pub enum Disposition {
    /// Send the handler's response.
    Respond(WireResponse),
    /// Send the fallback response, write `log` to the error stream, and
    /// go on serving.
    Recover { response: WireResponse, log: String },
    /// The script broke its contract: give the request up.
    Abort(ResponseError),
}

/// The mathematical content of a [`Disposition`].
pub enum DispositionView {
    Respond(WireResponseView),
    Recover { response: WireResponseView, log: Seq<char> },
    Abort(ResponseError),
}

impl View for Disposition {
    type V = DispositionView;

    open spec fn view(&self) -> DispositionView {
        match *self {
            Disposition::Respond(response) => DispositionView::Respond(response@),
            Disposition::Recover { response, log } => DispositionView::Recover {
                response: response@,
                log: log@,
            },
            Disposition::Abort(error) => DispositionView::Abort(error),
        }
    }
}

/// The response that is sent where the handler's own cannot be: status
/// 500, no headers, and a fixed short body.
pub open spec fn fallback() -> WireResponseView {
    WireResponseView { status: 500, headers: Seq::empty(), body: "internal server error"@ }
}

/// The errors after which the fallback response is sent: a header name
/// or a header value that cannot be sent. Every other error is a breach
/// of the handler's contract.
pub open spec fn is_recoverable(error: ResponseError) -> bool {
    error == ResponseError::InvalidHeaderName || error == ResponseError::InvalidHeaderValue
}

/// What the engine holds when no exception is pending.
pub open spec fn nothing_pending() -> FailureView {
    FailureView { stack_trace: None, exception: None }
}

/// What becomes of a request, given how the call of the handler ended.
/// After an exception the returned value plays no part: there is none.
pub open spec fn disposition_of(table: TokenTable, outcome: HandlerOutcome) -> DispositionView {
    match outcome {
        HandlerOutcome::Threw(failure) => DispositionView::Recover {
            response: fallback(),
            log: description(failure@),
        },
        HandlerOutcome::Returned(value) => match response_of(table, value) {
            Ok(response) => DispositionView::Respond(response),
            Err(error) => if is_recoverable(error) {
                DispositionView::Recover {
                    response: fallback(),
                    log: description(nothing_pending()),
                }
            } else {
                DispositionView::Abort(error)
            },
        },
    }
}

/// An exception in the handler costs one request and no more. The
/// fallback response is sent whatever the table holds, the description
/// of the failure is logged, and the runtime, ready again, takes the
/// next request.
pub proof fn law_exception_is_survived(table: TokenTable, failure: Failure)
    ensures
        disposition_of(table, HandlerOutcome::Threw(failure)) == (DispositionView::Recover {
            response: fallback(),
            log: description(failure@),
        }),
        fallback().status == 500,
        transition(Phase::Invoking, Signal::HandlerEnded) == Some(Phase::Ready),
        transition(Phase::Ready, Signal::RequestArrived) == Some(Phase::Invoking),
{
}

/// A request is given up only where the script broke its contract, and
/// the handler's own response is sent only where nothing was wrong.
pub proof fn law_dispositions(table: TokenTable, value: ScriptValue)
    ensures
        match disposition_of(table, HandlerOutcome::Returned(value)) {
            DispositionView::Respond(response) => response_of(table, value) == Ok::<
                WireResponseView,
                ResponseError,
            >(response),
            DispositionView::Recover { response, log } => {
                &&& response == fallback()
                &&& response_of(table, value) matches Err(error) && is_recoverable(error)
            },
            DispositionView::Abort(error) => {
                &&& response_of(table, value) == Err::<WireResponseView, ResponseError>(error)
                &&& !is_recoverable(error)
            },
        },
{
}

/// The fallback response.
pub fn fallback_response() -> (response: WireResponse)
    ensures
        response@ == fallback(),
{
    let response = WireResponse {
        status: 500,
        headers: Vec::new(),
        body: "internal server error".to_owned(),
    };
    assert(response@.headers =~= Seq::empty());
    response
}

/// Whether the fallback response is sent after an error.
pub fn recoverable(error: ResponseError) -> (yes: bool)
    ensures
        yes == is_recoverable(error),
{
    match error {
        ResponseError::InvalidHeaderName => true,
        ResponseError::InvalidHeaderValue => true,
        _ => false,
    }
}

/// Decides what becomes of a request.
pub fn conclude(table: &TokenTable, outcome: &HandlerOutcome) -> (disposition: Disposition)
    ensures
        disposition@ == disposition_of(*table, *outcome),
{
    match outcome {
        HandlerOutcome::Threw(failure) => Disposition::Recover {
            response: fallback_response(),
            log: describe(failure),
        },
        HandlerOutcome::Returned(value) => match response_from(table, value) {
            Ok(response) => Disposition::Respond(response),
            Err(error) => {
                if recoverable(error) {
                    let nothing = Failure { stack_trace: None, exception: None };
                    Disposition::Recover { response: fallback_response(), log: describe(&nothing) }
                } else {
                    Disposition::Abort(error)
                }
            },
        },
    }
}

/// The phase after a step of the bootstrap has ended.
pub fn after_step(step: BootStep, outcome: StepOutcome) -> (next: Phase)
    ensures
        Some(next) == transition(Phase::Bootstrapping(step), Signal::StepEnded(outcome)),
{
    let function = match outcome {
        StepOutcome::Completed { function } => function,
        StepOutcome::Aborted => {
            return Phase::Failed;
        },
    };
    match step {
        BootStep::CreateContext => Phase::Bootstrapping(BootStep::RunSetup),
        BootStep::RunSetup => if function {
            Phase::Bootstrapping(BootStep::PatchLogger)
        } else {
            Phase::Failed
        },
        BootStep::PatchLogger => Phase::Bootstrapping(BootStep::CallLoader),
        BootStep::CallLoader => if function {
            Phase::Bootstrapping(BootStep::RunUserScript)
        } else {
            Phase::Failed
        },
        BootStep::RunUserScript => Phase::Bootstrapping(BootStep::CallEntryPoint),
        BootStep::CallEntryPoint => if function {
            Phase::Bootstrapping(BootStep::AttachExports)
        } else {
            Phase::Failed
        },
        BootStep::AttachExports => Phase::Ready,
    }
}

/// One runtime, as far as its life goes: the phase it is in. It serves
/// one request at a time, and it stays on the thread that made it: the
/// type can neither be sent to another thread nor shared with one. The
/// token table is not part of it: the table is built before any runtime
/// and lent to the runtime for each request.
pub struct Runtime {
    phase: Phase,
    /// Keeps the runtime on the thread that made it.
    confined: PhantomData<Rc<()>>,
}

impl Runtime {
    /// The phase the runtime is in.
    pub closed spec fn phase(&self) -> Phase {
        self.phase
    }

    /// A runtime on which nothing has been done yet.
    pub fn new() -> (runtime: Runtime)
        ensures
            runtime.phase() == Phase::Uninitialized,
    {
        Runtime { phase: Phase::Uninitialized, confined: PhantomData }
    }

    /// The phase the runtime is in.
    pub fn current_phase(&self) -> (phase: Phase)
        ensures
            phase == self.phase(),
    {
        self.phase
    }

    /// Begins the bootstrap and names its first step. On a runtime that
    /// is past its beginning nothing happens.
    pub fn start(&mut self) -> (directive: Option<Directive>)
        ensures
            match transition(old(self).phase(), Signal::Start) {
                Some(next) => {
                    &&& final(self).phase() == next
                    &&& directive matches Some(d) && d@ == directive_in(next, nothing_pending())
                },
                None => final(self).phase() == old(self).phase() && directive is None,
            },
    {
        match self.phase {
            Phase::Uninitialized => {
                self.phase = Phase::Bootstrapping(BootStep::CreateContext);
                Some(Directive::Perform(BootStep::CreateContext))
            },
            _ => None,
        }
    }

    /// Takes note of how the step under way ended, and says what the
    /// host does next: the following step, serving, or ending the
    /// process with the description of `pending`, which is what the
    /// engine holds about an exception at that moment. Outside the
    /// bootstrap nothing happens.
    pub fn step_ended(
        &mut self,
        outcome: StepOutcome,
        pending: &Failure,
    ) -> (directive: Option<Directive>)
        ensures
            match transition(old(self).phase(), Signal::StepEnded(outcome)) {
                Some(next) => {
                    &&& final(self).phase() == next
                    &&& directive matches Some(d) && d@ == directive_in(next, pending@)
                },
                None => final(self).phase() == old(self).phase() && directive is None,
            },
    {
        match self.phase {
            Phase::Bootstrapping(step) => {
                let next = after_step(step, outcome);
                self.phase = next;
                match next {
                    Phase::Bootstrapping(step) => Some(Directive::Perform(step)),
                    Phase::Failed => Some(
                        Directive::Terminate { message: describe(pending), status: FATAL_STATUS },
                    ),
                    _ => Some(Directive::Serve),
                }
            },
            _ => None,
        }
    }

    /// Takes a request in and encodes it for the handler. A runtime that
    /// is not ready takes nothing in: not before the bootstrap is done,
    /// not after it has failed, and not while the handler is running.
    pub fn begin_request(
        &mut self,
        table: &TokenTable,
        request: &WireRequest,
    ) -> (encoded: Option<EncodedRequest>)
        ensures
            match transition(old(self).phase(), Signal::RequestArrived) {
                Some(next) => {
                    &&& final(self).phase() == next
                    &&& encoded matches Some(e) && e@ == encoded_request(*table, request@)
                },
                None => final(self).phase() == old(self).phase() && encoded is None,
            },
    {
        match self.phase {
            Phase::Ready => {
                self.phase = Phase::Invoking;
                Some(encode_request(table, request))
            },
            _ => None,
        }
    }

    /// Takes note that the handler has ended, and decides what becomes
    /// of the request. The runtime is ready again whatever the handler
    /// did. On a runtime whose handler is not running nothing happens.
    pub fn finish_request(
        &mut self,
        table: &TokenTable,
        outcome: &HandlerOutcome,
    ) -> (disposition: Option<Disposition>)
        ensures
            match transition(old(self).phase(), Signal::HandlerEnded) {
                Some(next) => {
                    &&& final(self).phase() == next
                    &&& disposition matches Some(d) && d@ == disposition_of(*table, *outcome)
                },
                None => final(self).phase() == old(self).phase() && disposition is None,
            },
    {
        match self.phase {
            Phase::Invoking => {
                self.phase = Phase::Ready;
                Some(conclude(table, outcome))
            },
            _ => None,
        }
    }
}

} // verus!
