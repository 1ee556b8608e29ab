//! The worker: a task-execution unit that drives a model conversation to
//! completion across bounded segments, compacting its history to stay inside
//! the context-window budget and recovering from overflow rejections a
//! bounded number of times.
//!
//! The caller owns the invocation loop: it calls the model layer, classifies
//! the outcome as an [`InvokeOutcome`], and hands it to [`Worker::segment_step`]
//! (initial task) or [`Worker::followup_step`] (one follow-up prompt). The
//! step functions decide everything else: state changes, counter updates,
//! compaction, continuation prompts, status labels and failure traces.

use vstd::prelude::*;
use vstd::string::*;

use crate::compact::{
    compacted_rel, remove_count, remove_count_spec, soft_compaction_fires, soft_threshold_reached,
    usage_percent, usage_percent_spec, CompactionOutcome, CompactionReport,
    COMPACTION_MIN_LENGTH, FORCED_COMPACTION_HUNDREDTHS, SOFT_COMPACTION_HUNDREDTHS,
};
use crate::diagnostics::{now_rfc3339, trace_of};
use crate::message::{user_text_message, Message, UserItem};
use crate::prompts::{compact_marker_text, overflow_notice_text, PromptEngine};
use crate::recap::{recap_of, recap_of_prefix};
use crate::state::{transition_allowed, transition_error_text, WorkerError, WorkerState};
use crate::text::{dec_str, opt_text, u64_to_string};

verus! {

/// How many turns per segment before the model layer yields so the worker
/// can check context and potentially compact.
pub const TURNS_PER_SEGMENT: usize = 25;

/// Max consecutive context overflow recoveries before giving up. Prevents
/// infinite compact-retry loops if something is fundamentally wrong.
pub const MAX_OVERFLOW_RETRIES: u64 = 3;

/// Relies on uuid::Uuid::new_v4 and its Display rendering: a random
/// identifier, hyphenated lowercase, 36 characters. The value depends on the
/// randomness source, so only its length is promised.
#[verifier::external_body]
fn fresh_worker_id() -> (r: String)
    ensures
        r@.len() == 36,
{
    uuid::Uuid::new_v4().to_string()
}

/// The typed outcome of one model-invocation segment, as classified by the
/// model layer. The engine never inspects raw error text.
pub enum InvokeOutcome {
    /// The task (or follow-up) finished; carries the final response text.
    Success(String),
    /// The segment's turn bound was reached; expected forward progress, not
    /// a failure.
    MaxTurnsReached,
    /// An intentional external stop; carries the reason.
    Cancelled(String),
    /// The provider rejected the request for exceeding the context window;
    /// carries the provider's detail text for diagnostics.
    Overflow(String),
    /// Any other terminal error; carries its message.
    Other(String),
}

/// The bounded overflow-retry counter for one execution phase (the initial
/// task, or one follow-up). Counters are never shared across phases.
#[derive(Clone, Copy)]
pub struct OverflowCounter {
    /// Consecutive overflow recoveries in this phase.
    pub count: u64,
    /// The bound; exceeding it is terminal for the phase.
    pub max: u64,
}

impl OverflowCounter {
    /// A fresh counter: the overflow count for a new execution phase starts
    /// at 0 regardless of what happened in any earlier phase.
    pub fn new(max: u64) -> (c: OverflowCounter)
        ensures
            c.count == 0,
            c.max == max,
    {
        OverflowCounter { count: 0, max }
    }
}

/// What the executor does after one segment of the initial task.
pub enum SegmentStep {
    /// The task finished; `run` returns this text.
    Finished { text: String },
    /// The segment hit its turn bound: loop again with this continuation
    /// prompt after the soft compaction check.
    Continue { prompt: String, status: String, compaction: CompactionOutcome },
    /// Overflow within the retry bound: retry with this prompt after forced
    /// compaction.
    Retry { prompt: String, status: String, compaction: CompactionOutcome },
    /// Cancelled: terminal, but `run` reports this message as a non-error
    /// result; `trace` is the diagnostic to deliver.
    Cancelled { message: String, status: String, trace: String },
    /// A hard failure: `run` returns `error` as an error; `trace` is the
    /// diagnostic to deliver.
    Failed { error: String, status: String, trace: String },
}

/// What the follow-up loop does after one invocation for a follow-up prompt.
pub enum FollowupStep {
    /// The follow-up finished; keep consuming the queue.
    Completed { status: String },
    /// Overflow within the retry bound: invoke again with this prompt after
    /// forced compaction.
    Retry { prompt: String, status: String, compaction: CompactionOutcome },
    /// Terminal for the worker: stop consuming; `error` is what the caller of
    /// `run` receives, and `trace` is the diagnostic to deliver.
    Failed { error: String, status: String, trace: String },
}

/// The fixed continuation notice after a turn-bound segment.
pub open spec fn continuation_notice() -> Seq<char> {
    "Continue where you left off. Do not repeat completed work."@
}

/// The fixed continuation notice after an overflow recovery.
pub open spec fn overflow_continuation_notice() -> Seq<char> {
    "Continue where you left off. Do not repeat completed work. Your previous attempt exceeded the context limit, so older history has been compacted."@
}

/// The status label while a further segment runs.
pub open spec fn working_status(segment: nat) -> Seq<char> {
    "working (segment "@ + dec_str(segment) + ")"@
}

/// The non-error result text of a cancelled run.
pub open spec fn cancelled_run_message(reason: Seq<char>) -> Seq<char> {
    "Worker cancelled: "@ + reason
}

/// The diagnostic error text of a cancellation.
pub open spec fn cancelled_trace_text(reason: Seq<char>) -> Seq<char> {
    "cancelled: "@ + reason
}

/// The diagnostic error text of an unrecoverable overflow on the initial
/// task.
pub open spec fn overflow_trace_text(max: nat, detail: Seq<char>) -> Seq<char> {
    "context overflow after "@ + dec_str(max) + " compaction attempts: "@ + detail
}

/// The diagnostic error text of an unrecoverable overflow on a follow-up.
pub open spec fn followup_overflow_trace_text(max: nat, detail: Seq<char>) -> Seq<char> {
    "follow-up context overflow after "@ + dec_str(max) + " compaction attempts: "@ + detail
}

/// The diagnostic error text of any other follow-up failure.
pub open spec fn followup_failed_trace_text(detail: Seq<char>) -> Seq<char> {
    "follow-up failed: "@ + detail
}

/// The diagnostic detail used when a follow-up segment reaches its turn
/// bound: unlike the initial task, a follow-up is not auto-continued into
/// further segments, so the bound is terminal there.
pub open spec fn followup_max_turns_detail() -> Seq<char> {
    "max turns reached"@
}

/// What one compaction call promises: nothing changes at or under the no-op
/// bound; above it the history has the compacted shape, the marker at
/// position 0 states the removal count and carries the recap of the removed
/// prefix, and the report records the change exactly.
pub open spec fn compaction_post(
    old_h: Seq<Message>,
    new_h: Seq<Message>,
    hundredths: int,
    est: int,
    window: int,
    r: CompactionOutcome,
) -> bool {
    &&& (r is NotNeeded <==> old_h.len() <= COMPACTION_MIN_LENGTH)
    &&& (r is Compacted <==> old_h.len() > COMPACTION_MIN_LENGTH)
    &&& (r is NotNeeded ==> new_h == old_h)
    &&& (r matches CompactionOutcome::Compacted(rep) ==> {
        let rc = remove_count_spec(old_h.len() as int, hundredths);
        &&& compacted_rel(old_h, new_h, hundredths)
        &&& (new_h[0] matches Message::User(items) && items@.len() == 1 && (
        items@[0] matches UserItem::Text(t) && t@ == compact_marker_text(
            rc as nat,
            recap_of(old_h.take(rc)),
        )))
        &&& rep.removed == rc
        &&& rep.remaining == new_h.len()
        &&& rep.usage_percent == usage_percent_spec(est, window)
        &&& rep.recap@ == recap_of(old_h.take(rc))
    })
}

/// What a soft compaction check promises: a no-op under the usage threshold,
/// a compaction with the soft fraction at or over it.
pub open spec fn soft_compaction_post(
    old_h: Seq<Message>,
    new_h: Seq<Message>,
    est: int,
    window: int,
    r: CompactionOutcome,
) -> bool {
    if soft_compaction_fires(est, window) {
        compaction_post(old_h, new_h, SOFT_COMPACTION_HUNDREDTHS as int, est, window, r)
    } else {
        new_h == old_h && r is NotNeeded
    }
}

/// A worker process that executes tasks independently.
pub struct Worker {
    /// Opaque unique id.
    pub id: String,
    /// Optional association with a conversation channel.
    pub channel_id: Option<String>,
    /// The task text.
    pub task: String,
    /// Current lifecycle state.
    pub state: WorkerState,
    /// System prompt for the model layer.
    pub system_prompt: String,
    /// Whether the worker was constructed with a follow-up input channel.
    pub interactive: bool,
}

impl Worker {
    /// Create a new fire-and-forget worker.
    pub fn new(channel_id: Option<String>, task: String, system_prompt: String) -> (w: Worker)
        ensures
            w.state is Running,
            w.channel_id == channel_id,
            w.task == task,
            w.system_prompt == system_prompt,
            !w.interactive,
            w.id@.len() == 36,
    {
        Worker {
            id: fresh_worker_id(),
            channel_id,
            task,
            state: WorkerState::Running,
            system_prompt,
            interactive: false,
        }
    }

    /// Create a new interactive worker; the caller pairs it with a bounded
    /// follow-up input queue.
    pub fn new_interactive(channel_id: Option<String>, task: String, system_prompt: String) -> (w:
        Worker)
        ensures
            w.state is Running,
            w.channel_id == channel_id,
            w.task == task,
            w.system_prompt == system_prompt,
            w.interactive,
            w.id@.len() == 36,
    {
        Worker {
            id: fresh_worker_id(),
            channel_id,
            task,
            state: WorkerState::Running,
            system_prompt,
            interactive: true,
        }
    }

    /// Check if the worker can transition to a new state.
    pub fn can_transition_to(&self, target: WorkerState) -> (b: bool)
        ensures
            b == transition_allowed(self.state, target),
    {
        match (self.state, target) {
            (WorkerState::Running, WorkerState::WaitingForInput) => true,
            (WorkerState::Running, WorkerState::Done) => true,
            (WorkerState::Running, WorkerState::Failed) => true,
            (WorkerState::WaitingForInput, WorkerState::Running) => true,
            (WorkerState::WaitingForInput, WorkerState::Failed) => true,
            _ => false,
        }
    }

    /// Transition to a new state. Fails, leaving the state unchanged, when
    /// the pair is not in the legal-transition table.
    pub fn transition_to(&mut self, new_state: WorkerState) -> (r: Result<(), WorkerError>)
        ensures
            r is Ok <==> transition_allowed(old(self).state, new_state),
            r is Ok ==> *final(self) == (Worker { state: new_state, ..*old(self) }),
            r is Err ==> *final(self) == *old(self),
            r matches Err(WorkerError::InvalidStateTransition(m)) ==> m@ == transition_error_text(
                old(self).state,
                new_state,
            ),
    {
        if !self.can_transition_to(new_state) {
            let mut text = String::from_str("can't transition from ");
            text.append(self.state.label());
            text.append(" to ");
            text.append(new_state.label());
            proof {
                assert(text@ =~= transition_error_text(self.state, new_state));
            }
            return Err(WorkerError::InvalidStateTransition(text));
        }
        self.state = new_state;
        Ok(())
    }

    /// Check if the worker is in a terminal state.
    pub fn is_done(&self) -> (b: bool)
        ensures
            b == (self.state is Done || self.state is Failed),
    {
        match self.state {
            WorkerState::Done => true,
            WorkerState::Failed => true,
            _ => false,
        }
    }

    /// Check if the worker is interactive.
    pub fn is_interactive(&self) -> (b: bool)
        ensures
            b == self.interactive,
    {
        self.interactive
    }

    /// Check context usage and compact history if approaching the limit: a
    /// no-op while usage is under the threshold, a compaction with the soft
    /// fraction once it reaches it. Usage is `estimated_tokens` over
    /// `context_window`, both read freshly by the caller.
    pub fn maybe_compact_history(
        &self,
        history: &mut Vec<Message>,
        estimated_tokens: u64,
        context_window: u64,
        engine: &PromptEngine,
    ) -> (r: CompactionOutcome)
        ensures
            soft_compaction_post(
                old(history)@,
                final(history)@,
                estimated_tokens as int,
                context_window as int,
                r,
            ),
    {
        if !soft_threshold_reached(estimated_tokens, context_window) {
            return CompactionOutcome::NotNeeded;
        }
        self.compact_history(
            history,
            SOFT_COMPACTION_HUNDREDTHS,
            estimated_tokens,
            context_window,
            engine,
        )
    }

    /// Aggressive compaction for context overflow recovery: always fires
    /// regardless of current usage and removes the forced fraction. Used
    /// when the provider has already rejected the request for exceeding
    /// context limits.
    pub fn force_compact_history(
        &self,
        history: &mut Vec<Message>,
        estimated_tokens: u64,
        context_window: u64,
        engine: &PromptEngine,
    ) -> (r: CompactionOutcome)
        ensures
            compaction_post(
                old(history)@,
                final(history)@,
                FORCED_COMPACTION_HUNDREDTHS as int,
                estimated_tokens as int,
                context_window as int,
                r,
            ),
    {
        self.compact_history(
            history,
            FORCED_COMPACTION_HUNDREDTHS,
            estimated_tokens,
            context_window,
            engine,
        )
    }

    /// Compact worker history by removing a fraction of the oldest messages,
    /// replacing them with one synthetic marker that carries their recap. A
    /// history at or under the no-op bound is never touched, and at least the
    /// two most recent messages always survive.
    pub fn compact_history(
        &self,
        history: &mut Vec<Message>,
        hundredths: u64,
        estimated_tokens: u64,
        context_window: u64,
        engine: &PromptEngine,
    ) -> (r: CompactionOutcome)
        requires
            hundredths <= 100,
        ensures
            compaction_post(
                old(history)@,
                final(history)@,
                hundredths as int,
                estimated_tokens as int,
                context_window as int,
                r,
            ),
    {
        let ghost orig = history@;
        let total = history.len();
        if total <= COMPACTION_MIN_LENGTH {
            return CompactionOutcome::NotNeeded;
        }
        let rc = remove_count(total, hundredths);
        let usage = usage_percent(estimated_tokens, context_window);
        let recap = recap_of_prefix(history, rc);
        let marker_text = match engine.render_system_worker_compact(rc, recap.as_str()) {
            Ok(t) => t,
            // never reached: the marker render always succeeds
            Err(e) => e.detail,
        };
        let mut i: usize = 0;
        proof {
            assert(orig.skip(0) =~= orig);
        }
        while i < rc
            invariant
                i <= rc,
                rc <= orig.len() - 2,
                history@ == orig.skip(i as int),
            decreases rc - i,
        {
            history.remove(0);
            proof {
                assert(orig.skip(i as int).remove(0) =~= orig.skip(i + 1));
            }
            i = i + 1;
        }
        history.insert(0, user_text_message(marker_text));
        let remaining = history.len();
        proof {
            assert(history@.subrange(1, history@.len() as int) =~= orig.subrange(
                rc as int,
                orig.len() as int,
            ));
        }
        CompactionOutcome::Compacted(
            CompactionReport { removed: rc, remaining, usage_percent: usage, recap },
        )
    }

    /// Build the structured failure trace for this worker from an error text
    /// and a timestamp.
    pub fn failure_trace(&self, history: &Vec<Message>, error: &str, timestamp: &str) -> (r:
        String)
        ensures
            r@ == trace_of(
                self.id@,
                opt_text(self.channel_id),
                timestamp@,
                self.state,
                self.task@,
                error@,
                history@,
            ),
    {
        crate::diagnostics::build_failure_trace(
            self.id.as_str(),
            &self.channel_id,
            timestamp,
            self.state,
            self.task.as_str(),
            error,
            history,
        )
    }

    /// Build the structured failure trace with the current wall-clock time.
    pub fn failure_trace_now(&self, history: &Vec<Message>, error: &str) -> (r: String)
        ensures
            exists|ts: Seq<char>|
                r@ == trace_of(
                    self.id@,
                    opt_text(self.channel_id),
                    ts,
                    self.state,
                    self.task@,
                    error@,
                    history@,
                ),
    {
        let timestamp = now_rfc3339();
        let r = self.failure_trace(history, error, timestamp.as_str());
        proof {
            assert(r@ == trace_of(
                self.id@,
                opt_text(self.channel_id),
                timestamp@,
                self.state,
                self.task@,
                error@,
                history@,
            ));
        }
        r
    }
}

/// A failure trace for `w` with the given error text and some timestamp.
pub open spec fn is_failure_trace(
    trace: Seq<char>,
    w: Worker,
    error: Seq<char>,
    history: Seq<Message>,
) -> bool {
    exists|ts: Seq<char>|
        trace == trace_of(w.id@, opt_text(w.channel_id), ts, w.state, w.task@, error, history)
}

/// What one segment step of the initial task promises, for every outcome the
/// model layer can report.
pub open spec fn segment_step_post(
    pre: Worker,
    post: Worker,
    pre_c: OverflowCounter,
    post_c: OverflowCounter,
    old_h: Seq<Message>,
    new_h: Seq<Message>,
    segments_run: nat,
    outcome: InvokeOutcome,
    est: int,
    window: int,
    r: SegmentStep,
) -> bool {
    match outcome {
        InvokeOutcome::Success(text) => {
            &&& post == pre
            &&& post_c == pre_c
            &&& new_h == old_h
            &&& r matches SegmentStep::Finished { text: t } && t == text
        },
        InvokeOutcome::MaxTurnsReached => {
            &&& post == pre
            &&& post_c == (OverflowCounter { count: 0, max: pre_c.max })
            &&& r matches SegmentStep::Continue { prompt, status, compaction }
                && prompt@ == continuation_notice()
                && status@ == working_status(segments_run)
                && soft_compaction_post(old_h, new_h, est, window, compaction)
        },
        InvokeOutcome::Cancelled(reason) => {
            &&& post == (Worker { state: WorkerState::Failed, ..pre })
            &&& post_c == pre_c
            &&& new_h == old_h
            &&& r matches SegmentStep::Cancelled { message, status, trace }
                && message@ == cancelled_run_message(reason@)
                && status@ == "cancelled"@
                && is_failure_trace(trace@, post, cancelled_trace_text(reason@), old_h)
        },
        InvokeOutcome::Overflow(detail) => {
            if pre_c.count < pre_c.max {
                &&& post == pre
                &&& post_c == (OverflowCounter { count: (pre_c.count + 1) as u64, max: pre_c.max })
                &&& r matches SegmentStep::Retry { prompt, status, compaction }
                    && prompt@ == overflow_continuation_notice()
                    && status@ == "compacting (overflow recovery)"@
                    && compaction_post(
                    old_h,
                    new_h,
                    FORCED_COMPACTION_HUNDREDTHS as int,
                    est,
                    window,
                    compaction,
                )
            } else {
                &&& post == (Worker { state: WorkerState::Failed, ..pre })
                &&& post_c == pre_c
                &&& new_h == old_h
                &&& r matches SegmentStep::Failed { error, status, trace }
                    && error == detail
                    && status@ == "failed"@
                    && is_failure_trace(
                    trace@,
                    post,
                    overflow_trace_text(pre_c.max as nat, detail@),
                    old_h,
                )
            }
        },
        InvokeOutcome::Other(message) => {
            &&& post == (Worker { state: WorkerState::Failed, ..pre })
            &&& post_c == pre_c
            &&& new_h == old_h
            &&& r matches SegmentStep::Failed { error, status, trace }
                && error == message
                && status@ == "failed"@
                && is_failure_trace(trace@, post, message@, old_h)
        },
    }
}

/// What one follow-up step promises. Unlike the initial task, a follow-up is
/// not auto-continued after a turn-bound segment, and a cancellation is an
/// ordinary failure here; only overflow is retried, under its own fresh
/// counter.
pub open spec fn followup_step_post(
    pre: Worker,
    post: Worker,
    pre_c: OverflowCounter,
    post_c: OverflowCounter,
    old_h: Seq<Message>,
    new_h: Seq<Message>,
    follow_up: Seq<char>,
    outcome: InvokeOutcome,
    est: int,
    window: int,
    r: FollowupStep,
) -> bool {
    match outcome {
        InvokeOutcome::Success(text) => {
            &&& post == (Worker { state: WorkerState::WaitingForInput, ..pre })
            &&& post_c == pre_c
            &&& new_h == old_h
            &&& r matches FollowupStep::Completed { status } && status@ == "waiting for input"@
        },
        InvokeOutcome::MaxTurnsReached => {
            &&& post == (Worker { state: WorkerState::Failed, ..pre })
            &&& post_c == pre_c
            &&& new_h == old_h
            &&& r matches FollowupStep::Failed { error, status, trace }
                && error@ == followup_failed_trace_text(followup_max_turns_detail())
                && status@ == "failed"@
                && is_failure_trace(trace@, post, error@, old_h)
        },
        InvokeOutcome::Cancelled(reason) => {
            &&& post == (Worker { state: WorkerState::Failed, ..pre })
            &&& post_c == pre_c
            &&& new_h == old_h
            &&& r matches FollowupStep::Failed { error, status, trace }
                && error@ == followup_failed_trace_text(cancelled_trace_text(reason@))
                && status@ == "failed"@
                && is_failure_trace(trace@, post, error@, old_h)
        },
        InvokeOutcome::Overflow(detail) => {
            if pre_c.count < pre_c.max {
                &&& post == pre
                &&& post_c == (OverflowCounter { count: (pre_c.count + 1) as u64, max: pre_c.max })
                &&& r matches FollowupStep::Retry { prompt, status, compaction }
                    && prompt@ == follow_up + "\n\n"@ + overflow_notice_text()
                    && status@ == "compacting (overflow recovery)"@
                    && compaction_post(
                    old_h,
                    new_h,
                    FORCED_COMPACTION_HUNDREDTHS as int,
                    est,
                    window,
                    compaction,
                )
            } else {
                &&& post == (Worker { state: WorkerState::Failed, ..pre })
                &&& post_c == pre_c
                &&& new_h == old_h
                &&& r matches FollowupStep::Failed { error, status, trace }
                    && error@ == followup_overflow_trace_text(pre_c.max as nat, detail@)
                    && status@ == "failed"@
                    && is_failure_trace(trace@, post, error@, old_h)
            }
        },
        InvokeOutcome::Other(message) => {
            &&& post == (Worker { state: WorkerState::Failed, ..pre })
            &&& post_c == pre_c
            &&& new_h == old_h
            &&& r matches FollowupStep::Failed { error, status, trace }
                && error@ == followup_failed_trace_text(message@)
                && status@ == "failed"@
                && is_failure_trace(trace@, post, error@, old_h)
        },
    }
}

impl Worker {
    /// One segment of the initial task: given how the model layer classified
    /// the segment's outcome, update state, counter and history, and decide
    /// what the caller does next. `segments_run` is the number of the segment
    /// that just ended, and `estimated_tokens` / `context_window` are read
    /// freshly by the caller for the compaction decision.
    pub fn segment_step(
        &mut self,
        counter: &mut OverflowCounter,
        history: &mut Vec<Message>,
        segments_run: u64,
        outcome: InvokeOutcome,
        estimated_tokens: u64,
        context_window: u64,
        engine: &PromptEngine,
    ) -> (r: SegmentStep)
        ensures
            segment_step_post(
                *old(self),
                *final(self),
                *old(counter),
                *final(counter),
                old(history)@,
                final(history)@,
                segments_run as nat,
                outcome,
                estimated_tokens as int,
                context_window as int,
                r,
            ),
    {
        match outcome {
            InvokeOutcome::Success(text) => SegmentStep::Finished { text },
            InvokeOutcome::MaxTurnsReached => {
                counter.count = 0;
                let compaction = self.maybe_compact_history(
                    history,
                    estimated_tokens,
                    context_window,
                    engine,
                );
                let mut status = String::from_str("working (segment ");
                let segment_number = u64_to_string(segments_run);
                status.append(segment_number.as_str());
                status.append(")");
                proof {
                    assert(status@ =~= working_status(segments_run as nat));
                }
                SegmentStep::Continue {
                    prompt: String::from_str(
                        "Continue where you left off. Do not repeat completed work.",
                    ),
                    status,
                    compaction,
                }
            },
            InvokeOutcome::Cancelled(reason) => {
                self.state = WorkerState::Failed;
                let mut message = String::from_str("Worker cancelled: ");
                message.append(reason.as_str());
                let mut trace_error = String::from_str("cancelled: ");
                trace_error.append(reason.as_str());
                let trace = self.failure_trace_now(history, trace_error.as_str());
                SegmentStep::Cancelled { message, status: String::from_str("cancelled"), trace }
            },
            InvokeOutcome::Overflow(detail) => {
                if counter.count < counter.max {
                    counter.count = counter.count + 1;
                    let compaction = self.force_compact_history(
                        history,
                        estimated_tokens,
                        context_window,
                        engine,
                    );
                    SegmentStep::Retry {
                        prompt: String::from_str(
                            "Continue where you left off. Do not repeat completed work. Your previous attempt exceeded the context limit, so older history has been compacted.",
                        ),
                        status: String::from_str("compacting (overflow recovery)"),
                        compaction,
                    }
                } else {
                    self.state = WorkerState::Failed;
                    let mut trace_error = String::from_str("context overflow after ");
                    let bound = u64_to_string(counter.max);
                    trace_error.append(bound.as_str());
                    trace_error.append(" compaction attempts: ");
                    trace_error.append(detail.as_str());
                    proof {
                        assert(trace_error@ =~= overflow_trace_text(
                            counter.max as nat,
                            detail@,
                        ));
                    }
                    let trace = self.failure_trace_now(history, trace_error.as_str());
                    SegmentStep::Failed {
                        error: detail,
                        status: String::from_str("failed"),
                        trace,
                    }
                }
            },
            InvokeOutcome::Other(message) => {
                self.state = WorkerState::Failed;
                let trace = self.failure_trace_now(history, message.as_str());
                SegmentStep::Failed { error: message, status: String::from_str("failed"), trace }
            },
        }
    }

    /// Begin one follow-up phase: the worker leaves `WaitingForInput` for
    /// `Running`, a soft compaction check runs, and a fresh overflow counter
    /// is handed out. The counter starts at 0 regardless of how many overflow
    /// retries any earlier phase used.
    pub fn begin_followup(
        &mut self,
        history: &mut Vec<Message>,
        estimated_tokens: u64,
        context_window: u64,
        engine: &PromptEngine,
    ) -> (r: (OverflowCounter, CompactionOutcome))
        requires
            old(self).state is WaitingForInput,
        ensures
            *final(self) == (Worker { state: WorkerState::Running, ..*old(self) }),
            r.0.count == 0,
            r.0.max == MAX_OVERFLOW_RETRIES,
            soft_compaction_post(
                old(history)@,
                final(history)@,
                estimated_tokens as int,
                context_window as int,
                r.1,
            ),
    {
        self.state = WorkerState::Running;
        let compaction = self.maybe_compact_history(
            history,
            estimated_tokens,
            context_window,
            engine,
        );
        (OverflowCounter::new(MAX_OVERFLOW_RETRIES), compaction)
    }

    /// One invocation round for a follow-up prompt: given the classified
    /// outcome, update state, counter and history, and decide whether the
    /// follow-up loop keeps consuming, retries this follow-up, or stops.
    pub fn followup_step(
        &mut self,
        counter: &mut OverflowCounter,
        history: &mut Vec<Message>,
        follow_up: &str,
        outcome: InvokeOutcome,
        estimated_tokens: u64,
        context_window: u64,
        engine: &PromptEngine,
    ) -> (r: FollowupStep)
        ensures
            followup_step_post(
                *old(self),
                *final(self),
                *old(counter),
                *final(counter),
                old(history)@,
                final(history)@,
                follow_up@,
                outcome,
                estimated_tokens as int,
                context_window as int,
                r,
            ),
    {
        match outcome {
            InvokeOutcome::Success(_text) => {
                self.state = WorkerState::WaitingForInput;
                FollowupStep::Completed { status: String::from_str("waiting for input") }
            },
            InvokeOutcome::MaxTurnsReached => {
                self.state = WorkerState::Failed;
                let mut trace_error = String::from_str("follow-up failed: ");
                trace_error.append("max turns reached");
                proof {
                    assert(trace_error@ =~= followup_failed_trace_text(
                        followup_max_turns_detail(),
                    ));
                }
                let trace = self.failure_trace_now(history, trace_error.as_str());
                FollowupStep::Failed {
                    error: trace_error,
                    status: String::from_str("failed"),
                    trace,
                }
            },
            InvokeOutcome::Cancelled(reason) => {
                self.state = WorkerState::Failed;
                let mut trace_error = String::from_str("follow-up failed: ");
                trace_error.append("cancelled: ");
                trace_error.append(reason.as_str());
                proof {
                    assert(trace_error@ =~= followup_failed_trace_text(
                        cancelled_trace_text(reason@),
                    ));
                }
                let trace = self.failure_trace_now(history, trace_error.as_str());
                FollowupStep::Failed {
                    error: trace_error,
                    status: String::from_str("failed"),
                    trace,
                }
            },
            InvokeOutcome::Overflow(detail) => {
                if counter.count < counter.max {
                    counter.count = counter.count + 1;
                    let compaction = self.force_compact_history(
                        history,
                        estimated_tokens,
                        context_window,
                        engine,
                    );
                    let notice = match engine.render_system_worker_overflow() {
                        Ok(t) => t,
                        // never reached: the overflow notice always renders
                        Err(e) => e.detail,
                    };
                    let mut prompt = String::from_str(follow_up);
                    prompt.append("\n\n");
                    prompt.append(notice.as_str());
                    proof {
                        assert(prompt@ =~= follow_up@ + "\n\n"@ + overflow_notice_text());
                    }
                    FollowupStep::Retry {
                        prompt,
                        status: String::from_str("compacting (overflow recovery)"),
                        compaction,
                    }
                } else {
                    self.state = WorkerState::Failed;
                    let mut trace_error = String::from_str("follow-up context overflow after ");
                    let bound = u64_to_string(counter.max);
                    trace_error.append(bound.as_str());
                    trace_error.append(" compaction attempts: ");
                    trace_error.append(detail.as_str());
                    proof {
                        assert(trace_error@ =~= followup_overflow_trace_text(
                            counter.max as nat,
                            detail@,
                        ));
                    }
                    let trace = self.failure_trace_now(history, trace_error.as_str());
                    FollowupStep::Failed {
                        error: trace_error,
                        status: String::from_str("failed"),
                        trace,
                    }
                }
            },
            InvokeOutcome::Other(message) => {
                self.state = WorkerState::Failed;
                let mut trace_error = String::from_str("follow-up failed: ");
                trace_error.append(message.as_str());
                proof {
                    assert(trace_error@ =~= followup_failed_trace_text(message@));
                }
                let trace = self.failure_trace_now(history, trace_error.as_str());
                FollowupStep::Failed {
                    error: trace_error,
                    status: String::from_str("failed"),
                    trace,
                }
            },
        }
    }

    /// Close the worker after its work is over: a worker that has not failed
    /// becomes `Done` (the initial task finished for a fire-and-forget
    /// worker, or the follow-up queue closed with no pending failure); a
    /// failed worker stays `Failed`.
    pub fn complete(&mut self)
        ensures
            *final(self) == (Worker {
                state: if old(self).state is Failed {
                    WorkerState::Failed
                } else {
                    WorkerState::Done
                },
                ..*old(self)
            }),
    {
        if !matches!(self.state, WorkerState::Failed) {
            self.state = WorkerState::Done;
        }
    }
}

} // verus!
