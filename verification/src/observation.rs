//! Invocation-scoped, best-effort Local Observability state.
//!
//! A collector is attached only after the command has resolved a safe
//! workspace. Any collector failure is latched into one output warning and
//! never changes the core command result.
//!
//! The collector itself writes to the workspace's observability store; this
//! state decides what is handed to it and keeps what it reports back.
use vstd::prelude::*;
use crate::bundle::RecallBundleId;
use crate::envelope::OutputWarning;
use crate::error::{CliError, text};
use crate::codes::EXIT_INVALID_ARGS;
use crate::event::{ObservationEvent, CollectorInputError, EventType, EventOutcome};
use crate::outside::{instant_now, instant_elapsed, duration_millis};

verus! {

/// The code of the warning latched when a Local Observability write fails.
pub const OBSERVABILITY_WRITE_FAILED: &'static str = "OBSERVABILITY_WRITE_FAILED";

/// The message of that warning.
pub open spec fn write_failed_message() -> Seq<char> {
    "local observability write failed; core command result is unchanged"@
}

/// A feedback record could not be written.
#[derive(Debug, Clone, Copy, PartialEq, Eq, Structural)]
pub enum FeedbackWriteError {
    StoreUnavailable,
}

/// The observation state of one command invocation.
#[derive(Debug)]
pub struct CommandObservation {
    pub command_id: &'static str,
    pub started_at: std::time::Instant,
    pub terminal_duration_ms: Option<u64>,
    pub bundle_id: Option<RecallBundleId>,
    /// The correlation id of the attached collector; none while no collector is attached.
    pub correlation: Option<String>,
    pub attach_attempted: bool,
    pub warning: Option<OutputWarning>,
}

/// `e` is `event` as the collector receives it: stamped with the bundle, where
/// the command is bound to one.
pub open spec fn stamped(e: ObservationEvent, event: ObservationEvent, bundle_id: Option<RecallBundleId>) -> bool {
    &&& e.event_type == event.event_type
    &&& e.outcome == event.outcome
    &&& e.payload == event.payload
    &&& e.error_code == event.error_code
    &&& e.duration_ms == event.duration_ms
    &&& match bundle_id {
        Some(b) => e.bundle_id matches Some(s) && s@ == b@,
        None => e.bundle_id == event.bundle_id,
    }
}

/// Every event of a list is valid.
pub open spec fn all_valid(events: Seq<Result<ObservationEvent, CollectorInputError>>) -> bool {
    forall|i: int| 0 <= i < events.len() ==> (#[trigger] events[i]) is Ok
}

/// The latched warning after `w` is offered: the first one stays.
pub open spec fn latched(current: Option<OutputWarning>, w: OutputWarning) -> Option<OutputWarning> {
    match current {
        Some(c) => Some(c),
        None => Some(w),
    }
}

/// However many warnings are offered, the first one latched stays: offering a
/// second warning after a first changes nothing.
pub proof fn lemma_first_warning_stays(current: Option<OutputWarning>, first: OutputWarning, second: OutputWarning)
    ensures
        latched(latched(current, first), second) == latched(current, first),
        current is None ==> latched(latched(current, first), second) == Some(first),
{
}

impl CommandObservation {
    /// A collector is attached only once an attach was attempted.
    pub open spec fn inv(self) -> bool {
        self.correlation is Some ==> self.attach_attempted
    }

    /// `self` and `other` differ at most in the latched warning.
    pub open spec fn same_but_warning(self, other: Self) -> bool {
        &&& self.command_id == other.command_id
        &&& self.started_at == other.started_at
        &&& self.terminal_duration_ms == other.terminal_duration_ms
        &&& self.bundle_id == other.bundle_id
        &&& self.correlation == other.correlation
        &&& self.attach_attempted == other.attach_attempted
    }

    /// `self` is `old` with its terminal duration frozen: unchanged if `old` had
    /// frozen it already, otherwise now set.
    pub open spec fn froze(self, old: Self) -> bool {
        &&& self.terminal_duration_ms is Some
        &&& old.terminal_duration_ms is Some ==> self.terminal_duration_ms == old.terminal_duration_ms
        &&& self.command_id == old.command_id
        &&& self.started_at == old.started_at
        &&& self.bundle_id == old.bundle_id
        &&& self.correlation == old.correlation
        &&& self.attach_attempted == old.attach_attempted
        &&& self.warning == old.warning
    }

    /// `w` is what the collector receives for an event of this type, outcome and
    /// error code, recorded with `duration` while the command is in this state.
    pub open spec fn delivers(self, w: ObservationEvent, event_type: EventType, outcome: EventOutcome,
        error_code: Option<&'static str>, duration: Option<u64>) -> bool {
        &&& w.event_type == event_type
        &&& w.outcome == outcome
        &&& w.error_code == error_code
        &&& w.duration_ms == duration
        &&& match self.bundle_id {
            Some(b) => w.bundle_id matches Some(s) && s@ == b@,
            None => w.bundle_id is None,
        }
    }

    /// The write-failed warning is what is latched after `old`.
    pub open spec fn write_failure_latched(self, old: Self) -> bool {
        match old.warning {
            Some(w) => self.warning == Some(w),
            None => self.warning matches Some(w) && w.code == OBSERVABILITY_WRITE_FAILED
                && w.message@ == write_failed_message(),
        }
    }

    /// A new observation for `command_id`, started now, bound to `bundle_id` if given.
    pub fn new(command_id: &'static str, bundle_id: Option<RecallBundleId>) -> (r: Self)
        ensures
            r.inv(),
            r.command_id == command_id,
            r.terminal_duration_ms is None,
            r.bundle_id == bundle_id,
            r.correlation is None,
            !r.attach_attempted,
            r.warning is None,
    {
        CommandObservation {
            command_id,
            started_at: instant_now(),
            terminal_duration_ms: None,
            bundle_id,
            correlation: None,
            attach_attempted: false,
            warning: None,
        }
    }

    /// Starts attaching the workspace collector. Returns whether the caller must open
    /// the collector now and report the outcome to `collector_opened`: only the first
    /// attempt opens one, later calls change nothing.
    pub fn attach_workspace(&mut self) -> (open: bool)
        requires
            old(self).inv(),
        ensures
            final(self).inv(),
            open == !old(self).attach_attempted,
            final(self).attach_attempted,
            final(self).command_id == old(self).command_id,
            final(self).started_at == old(self).started_at,
            final(self).terminal_duration_ms == old(self).terminal_duration_ms,
            final(self).bundle_id == old(self).bundle_id,
            final(self).correlation == old(self).correlation,
            final(self).warning == old(self).warning,
    {
        if self.attach_attempted {
            return false;
        }
        self.attach_attempted = true;
        true
    }

    /// The outcome of opening the collector: its correlation id, or none when it could
    /// not be opened, which latches the write-failed warning.
    pub fn collector_opened(&mut self, correlation: Option<String>)
        requires
            old(self).inv(),
        ensures
            final(self).inv(),
            final(self).attach_attempted,
            final(self).command_id == old(self).command_id,
            final(self).started_at == old(self).started_at,
            final(self).terminal_duration_ms == old(self).terminal_duration_ms,
            final(self).bundle_id == old(self).bundle_id,
            match correlation {
                Some(c) => final(self).correlation == Some(c) && final(self).warning == old(self).warning,
                None => final(self).correlation == old(self).correlation && final(self).write_failure_latched(*old(self)),
            },
    {
        self.attach_attempted = true;
        match correlation {
            Some(c) => self.correlation = Some(c),
            None => self.latch_write_warning(),
        }
    }

    /// What to hand to the collector for `event`: the event stamped with the bound
    /// bundle, while a collector is attached; nothing otherwise. A warning the write
    /// reports goes to `latch_warning`.
    pub fn record(&mut self, event: ObservationEvent) -> (write: Option<ObservationEvent>)
        requires
            old(self).inv(),
        ensures
            *final(self) == *old(self),
            match write {
                Some(e) => old(self).correlation is Some && stamped(e, event, old(self).bundle_id),
                None => old(self).correlation is None,
            },
    {
        if self.correlation.is_none() {
            return None;
        }
        let mut event = event;
        match &self.bundle_id {
            Some(bundle_id) => event.bundle_id = Some(text(bundle_id.as_str())),
            None => {},
        }
        Some(event)
    }

    /// Checks what a recall bundle write needs: a valid record and valid events,
    /// handed to the collector together, events in order, while one is attached. An
    /// invalid record or an invalid event writes nothing and latches the write-failed
    /// warning instead.
    pub fn record_recall_bundle<R>(
        &mut self,
        record: Result<R, CollectorInputError>,
        events: Vec<Result<ObservationEvent, CollectorInputError>>,
    ) -> (write: Option<(R, Vec<ObservationEvent>)>)
        requires
            old(self).inv(),
        ensures
            final(self).inv(),
            (record is Err || !all_valid(events@)) ==> {
                &&& write is None
                &&& final(self).same_but_warning(*old(self))
                &&& final(self).write_failure_latched(*old(self))
            },
            (record is Ok && all_valid(events@)) ==> {
                &&& *final(self) == *old(self)
                &&& match write {
                    Some((r, es)) => {
                        &&& old(self).correlation is Some
                        &&& record == Ok::<R, CollectorInputError>(r)
                        &&& es@.len() == events@.len()
                        &&& forall|i: int| 0 <= i < es@.len()
                            ==> events@[i] == Ok::<ObservationEvent, CollectorInputError>(#[trigger] es@[i])
                    },
                    None => old(self).correlation is None,
                }
            },
    {
        let rec = match record {
            Ok(rec) => rec,
            Err(_) => {
                self.latch_write_warning();
                return None;
            },
        };
        let ghost all = events@;
        let n = events.len();
        let mut rest = events;
        let mut valid: Vec<ObservationEvent> = Vec::new();
        let mut k: usize = 0;
        while rest.len() > 0
            invariant
                rest@ == all.skip(k as int),
                all.len() == n,
                all == events@,
                record is Ok,
                k <= all.len(),
                valid@.len() == k,
                forall|i: int| 0 <= i < k ==> all[i] == Ok::<ObservationEvent, CollectorInputError>(#[trigger] valid@[i]),
                *self == *old(self),
                old(self).inv(),
            decreases rest@.len(),
        {
            let next = rest.remove(0);
            assert(next == all[k as int]);
            match next {
                Ok(event) => {
                    valid.push(event);
                    assert(all.skip(k as int).drop_first() =~= all.skip(k + 1));
                    k = k + 1;
                },
                Err(_) => {
                    assert(all[k as int] is Err);
                    assert(!all_valid(all));
                    self.latch_write_warning();
                    return None;
                },
            }
        }
        assert(k == all.len());
        assert(all_valid(all)) by {
            assert forall|i: int| 0 <= i < all.len() implies (#[trigger] all[i]) is Ok by {
                assert(all[i] == Ok::<ObservationEvent, CollectorInputError>(valid@[i]));
            }
        }
        if self.correlation.is_some() {
            Some((rec, valid))
        } else {
            None
        }
    }

    /// Checks a feedback write: it goes to the collector when one is attached, and is
    /// refused as `StoreUnavailable` otherwise.
    pub fn record_feedback<I>(&self, input: I) -> (r: Result<I, FeedbackWriteError>)
        ensures
            match r {
                Ok(i) => self.correlation is Some && i == input,
                Err(e) => self.correlation is None && e == FeedbackWriteError::StoreUnavailable,
            },
    {
        if self.correlation.is_some() {
            Ok(input)
        } else {
            Err(FeedbackWriteError::StoreUnavailable)
        }
    }

    /// Records a terminal event: the duration is frozen first and the event carries it.
    pub fn record_terminal(&mut self, event: ObservationEvent) -> (write: Option<ObservationEvent>)
        requires
            old(self).inv(),
        ensures
            final(self).inv(),
            final(self).terminal_duration_ms is Some,
            old(self).terminal_duration_ms is Some ==> *final(self) == *old(self),
            final(self).command_id == old(self).command_id,
            final(self).started_at == old(self).started_at,
            final(self).bundle_id == old(self).bundle_id,
            final(self).correlation == old(self).correlation,
            final(self).attach_attempted == old(self).attach_attempted,
            final(self).warning == old(self).warning,
            match write {
                Some(e) => old(self).correlation is Some
                    && e.event_type == event.event_type
                    && e.outcome == event.outcome
                    && e.payload == event.payload
                    && e.error_code == event.error_code
                    && e.duration_ms == final(self).terminal_duration_ms
                    && match old(self).bundle_id {
                        Some(b) => e.bundle_id matches Some(s) && s@ == b@,
                        None => e.bundle_id == event.bundle_id,
                    },
                None => old(self).correlation is None,
            },
    {
        let duration_ms = self.freeze_terminal_duration_ms();
        let mut event = event;
        event.duration_ms = Some(duration_ms);
        self.record(event)
    }

    /// The warnings of a result: the command's own, then the latched observation warning.
    pub fn warnings_after(&self, core_warnings: Vec<OutputWarning>) -> (r: Vec<OutputWarning>)
        ensures
            match self.warning {
                Some(w) => r@.len() == core_warnings@.len() + 1
                    && r@.take(core_warnings@.len() as int) == core_warnings@
                    && r@.last().code == w.code && r@.last().message@ == w.message@,
                None => r@ == core_warnings@,
            },
    {
        let mut warnings = core_warnings;
        match &self.warning {
            Some(w) => {
                let copy = OutputWarning { code: w.code, message: text(w.message.as_str()) };
                let ghost before = warnings@;
                warnings.push(copy);
                assert(warnings@.take(before.len() as int) =~= before);
            },
            None => {},
        }
        warnings
    }

    /// Latches the write-failed warning, unless a warning is already latched.
    pub fn latch_write_warning(&mut self)
        ensures
            final(self).same_but_warning(*old(self)),
            final(self).write_failure_latched(*old(self)),
    {
        self.latch_warning(OutputWarning {
            code: OBSERVABILITY_WRITE_FAILED,
            message: text("local observability write failed; core command result is unchanged"),
        });
    }

    /// Latches `warning` unless a warning is already latched: the first one stays.
    pub fn latch_warning(&mut self, warning: OutputWarning)
        ensures
            final(self).same_but_warning(*old(self)),
            final(self).warning == latched(old(self).warning, warning),
    {
        if self.warning.is_none() {
            self.warning = Some(warning);
        }
    }

    /// The duration of the command, measured once: the first call reads the clock and
    /// freezes the value, every later call returns the frozen value.
    pub fn freeze_terminal_duration_ms(&mut self) -> (duration_ms: u64)
        ensures
            final(self).terminal_duration_ms == Some(duration_ms),
            match old(self).terminal_duration_ms {
                Some(d) => duration_ms == d && *final(self) == *old(self),
                None => final(self).command_id == old(self).command_id
                    && final(self).started_at == old(self).started_at
                    && final(self).bundle_id == old(self).bundle_id
                    && final(self).correlation == old(self).correlation
                    && final(self).attach_attempted == old(self).attach_attempted
                    && final(self).warning == old(self).warning,
            },
    {
        if let Some(duration_ms) = self.terminal_duration_ms {
            return duration_ms;
        }
        let elapsed = instant_elapsed(&self.started_at);
        let millis = duration_millis(&elapsed);
        let duration_ms: u64 = if millis <= u64::MAX as u128 { millis as u64 } else { u64::MAX };
        self.terminal_duration_ms = Some(duration_ms);
        duration_ms
    }

    /// The correlation id of the attached collector.
    pub fn correlation_id(&self) -> (r: Option<&str>)
        ensures
            match self.correlation {
                Some(c) => r matches Some(s) && s@ == c@,
                None => r is None,
            },
    {
        match &self.correlation {
            Some(c) => Some(c.as_str()),
            None => None,
        }
    }

    /// Binds the command to a recall bundle. A command already bound to another
    /// bundle refuses the new one and stays as it was.
    pub fn bind_recall_bundle(&mut self, bundle_id: &RecallBundleId) -> (r: Result<(), CliError>)
        ensures
            final(self).command_id == old(self).command_id,
            final(self).started_at == old(self).started_at,
            final(self).terminal_duration_ms == old(self).terminal_duration_ms,
            final(self).correlation == old(self).correlation,
            final(self).attach_attempted == old(self).attach_attempted,
            final(self).warning == old(self).warning,
            match old(self).bundle_id {
                Some(current) if current@ != bundle_id@ => {
                    &&& final(self).bundle_id == old(self).bundle_id
                    &&& r matches Err(e)
                    &&& e.has(EXIT_INVALID_ARGS, "INVALID_ARGS"@,
                        "--bundle-id does not match the recall continuation cursor"@,
                        "pass the exact bundle_id returned by the recall page, or omit --bundle-id"@)
                },
                _ => {
                    &&& r is Ok
                    &&& final(self).bundle_id matches Some(b)
                    &&& b@ == bundle_id@
                    &&& b.wf() == bundle_id.wf()
                },
            },
    {
        let mismatch = match &self.bundle_id {
            Some(current) => !crate::text::same_text(current.as_str(), bundle_id.as_str()),
            None => false,
        };
        if mismatch {
            return Err(CliError::recall_bundle_mismatch());
        }
        self.bundle_id = Some(bundle_id.clone());
        Ok(())
    }
}

} // verus!
