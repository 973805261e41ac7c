//! The decisions of the background typing job.
//!
//! The job runs on its own thread: an initial countdown, then one character
//! at a time with a delay between keys, pausing when the focused window
//! changes (if asked to) until the UI says to resume or cancel. The thread
//! performs what [`JobRun::next`] asks for (count down, open the keyboard,
//! read the focused window, check for cancellation, send a character,
//! sleep, wait for resume) and hands back what happened; `next` decides
//! what comes next and which message the UI gets.
use vstd::prelude::*;

verus! {

/// Messages sent from the worker thread to the UI.
pub enum WorkerMsg {
    /// Counting down the initial delay; `remaining_ms` until typing starts.
    Waiting { remaining_ms: u64 },
    /// `typed` of `total` characters processed.
    Progress { typed: usize, total: usize },
    /// The focused window changed: typing is paused, awaiting resume/cancel.
    WindowChanged { typed: usize, total: usize },
    Finished,
    Cancelled,
    Error(String),
}

/// Parameters for a typing job.
pub struct JobConfig {
    pub text: String,
    pub delay_ms: u32,
    pub initial_delay_s: u32,
    pub detect_window_change: bool,
    pub physical_keys: bool,
}

/// What happened when the thread did what the job asked for.
pub enum JobEvent {
    /// The job starts.
    Begin,
    /// A countdown ended; `completed` is false when it was cancelled.
    CountdownEnded { completed: bool },
    /// Opening the keyboard backend succeeded, or failed with a message.
    TyperOpened(Result<(), String>),
    /// The window focused now (`None` when it cannot be told).
    Target(Option<u64>),
    /// Before a character: whether cancel was asked for, and which window
    /// is focused.
    Checked { cancelled: bool, window: Option<u64> },
    /// Sending the character succeeded, or failed with a message.
    Sent(Result<(), String>),
    /// The delay after a character ended; `completed` is false when it was
    /// cancelled.
    Slept { completed: bool },
    /// The pause ended: resumed, or cancelled.
    ResumeEnded { cancelled: bool },
}

/// What the thread has to do next.
#[derive(Debug, Clone, Copy, PartialEq, Eq, Structural)]
pub enum JobAction {
    /// Count down the initial delay (sending `Waiting` messages).
    Countdown,
    /// Open the keyboard backend.
    OpenTyper,
    /// Read which window is focused.
    ReadTarget,
    /// Check for cancellation and read the focused window.
    Check,
    /// Send the character at this index.
    Send(usize),
    /// Wait the delay between keys.
    Sleep,
    /// Wait until the UI resumes or cancels.
    WaitResume,
    /// The job is over.
    Stop,
}

/// Which event the job is waiting for.
#[derive(Debug, Clone, Copy, PartialEq, Eq, Structural)]
pub enum Awaiting {
    Begin,
    Countdown,
    Typer,
    Target,
    Check,
    Send,
    Sleep,
    Resume,
    Nothing,
}

/// How many characters pass between progress messages: a two-hundredth of
/// the text, at least one.
pub open spec fn step_of(total: nat) -> nat {
    if total / 200 >= 1 {
        total / 200
    } else {
        1
    }
}

/// The state of one typing job.
pub struct JobRun {
    pub total: usize,
    pub typed: usize,
    pub step: usize,
    pub detect: bool,
    pub target: Option<u64>,
    pub awaiting: Awaiting,
    /// The countdown under way follows a pause.
    pub resuming: bool,
}

/// What one transition gives: the new state, a message for the UI, and
/// what to do next.
pub struct Step {
    pub msg: Option<WorkerMsg>,
    pub action: JobAction,
}

impl JobRun {
    /// Well-formed: no more typed than there are characters, the progress
    /// step of the text, and a character is left whenever one is about to
    /// be checked for or sent.
    pub open spec fn wf(&self) -> bool {
        &&& self.typed <= self.total
        &&& self.step as nat == step_of(self.total as nat)
        &&& (self.awaiting == Awaiting::Check || self.awaiting == Awaiting::Send) ==> self.typed
            < self.total
    }

    /// Whether `e` is the event the job is waiting for.
    pub open spec fn accepts(&self, e: JobEvent) -> bool {
        match e {
            JobEvent::Begin => self.awaiting == Awaiting::Begin,
            JobEvent::CountdownEnded { .. } => self.awaiting == Awaiting::Countdown,
            JobEvent::TyperOpened(_) => self.awaiting == Awaiting::Typer,
            JobEvent::Target(_) => self.awaiting == Awaiting::Target,
            JobEvent::Checked { .. } => self.awaiting == Awaiting::Check,
            JobEvent::Sent(_) => self.awaiting == Awaiting::Send,
            JobEvent::Slept { .. } => self.awaiting == Awaiting::Sleep,
            JobEvent::ResumeEnded { .. } => self.awaiting == Awaiting::Resume,
        }
    }

    /// The event an action is answered by.
    pub open spec fn awaits_for(a: JobAction) -> Awaiting {
        match a {
            JobAction::Countdown => Awaiting::Countdown,
            JobAction::OpenTyper => Awaiting::Typer,
            JobAction::ReadTarget => Awaiting::Target,
            JobAction::Check => Awaiting::Check,
            JobAction::Send(_) => Awaiting::Send,
            JobAction::Sleep => Awaiting::Sleep,
            JobAction::WaitResume => Awaiting::Resume,
            JobAction::Stop => Awaiting::Nothing,
        }
    }

    /// Whether the focus guard sees the target window lost: both windows
    /// are known and differ.
    pub open spec fn focus_lost(&self, window: Option<u64>) -> bool {
        &&& self.detect
        &&& self.target is Some
        &&& window is Some
        &&& self.target->0 != window->0
    }

    /// After a character (or at the start), either check before the next
    /// one or, when all are typed, finish.
    pub open spec fn continue_or_finish(typed: usize, total: usize) -> (Option<WorkerMsg>, JobAction) {
        if typed < total {
            (None, JobAction::Check)
        } else {
            (Some(WorkerMsg::Finished), JobAction::Stop)
        }
    }

    /// One transition: the state after event `e`, the message for the UI,
    /// and what to do next.
    pub open spec fn transition(s: JobRun, e: JobEvent) -> (JobRun, Option<WorkerMsg>, JobAction) {
        let (s1, msg, action): (JobRun, Option<WorkerMsg>, JobAction) = match e {
            JobEvent::Begin => (JobRun { resuming: false, ..s }, None, JobAction::Countdown),
            JobEvent::CountdownEnded { completed } => if !completed {
                (s, Some(WorkerMsg::Cancelled), JobAction::Stop)
            } else if s.resuming {
                (s, None, JobAction::ReadTarget)
            } else {
                (s, None, JobAction::OpenTyper)
            },
            JobEvent::TyperOpened(res) => match res {
                Err(m) => (s, Some(WorkerMsg::Error(m)), JobAction::Stop),
                Ok(()) => if s.detect {
                    (s, None, JobAction::ReadTarget)
                } else {
                    let (m, a) = JobRun::continue_or_finish(s.typed, s.total);
                    (JobRun { target: None, ..s }, m, a)
                },
            },
            JobEvent::Target(w) => {
                let (m, a) = JobRun::continue_or_finish(s.typed, s.total);
                (JobRun { target: w, resuming: false, ..s }, m, a)
            },
            JobEvent::Checked { cancelled, window } => if cancelled {
                (s, Some(WorkerMsg::Cancelled), JobAction::Stop)
            } else if s.focus_lost(window) {
                (
                    s,
                    Some(WorkerMsg::WindowChanged { typed: s.typed, total: s.total }),
                    JobAction::WaitResume,
                )
            } else {
                (s, None, JobAction::Send(s.typed))
            },
            JobEvent::Sent(res) => match res {
                Err(m) => (s, Some(WorkerMsg::Error(m)), JobAction::Stop),
                Ok(()) => {
                    let t = (s.typed + 1) as usize;
                    let msg = if t % s.step == 0 || t == s.total {
                        Some(WorkerMsg::Progress { typed: t, total: s.total })
                    } else {
                        None
                    };
                    (JobRun { typed: t, ..s }, msg, JobAction::Sleep)
                },
            },
            JobEvent::Slept { completed } => if !completed {
                (s, Some(WorkerMsg::Cancelled), JobAction::Stop)
            } else {
                let (m, a) = JobRun::continue_or_finish(s.typed, s.total);
                (s, m, a)
            },
            JobEvent::ResumeEnded { cancelled } => if cancelled {
                (s, Some(WorkerMsg::Cancelled), JobAction::Stop)
            } else {
                (JobRun { resuming: true, ..s }, None, JobAction::Countdown)
            },
        };
        (JobRun { awaiting: JobRun::awaits_for(action), ..s1 }, msg, action)
    }

    /// A job over a text of `total` characters, guarding the focused window
    /// if `detect`.
    pub fn new(total: usize, detect: bool) -> (r: JobRun)
        ensures
            r == fresh_job(total, detect),
            r.wf(),
            r.step == (if total < 200 { 1 } else { total / 200 }),
    {
        let q = total / 200;
        let step = if q >= 1 {
            q
        } else {
            1
        };
        JobRun {
            total,
            typed: 0,
            step,
            detect,
            target: None,
            awaiting: Awaiting::Begin,
            resuming: false,
        }
    }

    /// Takes what happened and decides what comes next.
    ///
    /// * Begin: count down.
    /// * A cancelled countdown, check, delay or pause: `Cancelled`, stop.
    /// * The first countdown done: open the keyboard; after a pause: read
    ///   the focused window again as the new target.
    /// * The keyboard opened: read the target window if the guard is on;
    ///   a failure to open or to send: `Error` with its message, stop.
    /// * Before each character: if the target window was lost,
    ///   `WindowChanged` and wait; otherwise send the next character.
    /// * A character sent: one more is typed, with a `Progress` message
    ///   every `step` characters and for the last one; then the delay.
    /// * When no character is left: `Finished`, stop.
    pub fn next(&mut self, e: JobEvent) -> (r: Step)
        requires
            old(self).wf(),
            old(self).accepts(e),
        ensures
            (*final(self), r.msg, r.action) == JobRun::transition(*old(self), e),
            final(self).wf(),
            final(self).total == old(self).total,
            final(self).detect == old(self).detect,
            final(self).awaiting == JobRun::awaits_for(r.action),
            final(self).typed == old(self).typed + (if e is Sent && e->Sent_0 is Ok {
                1int
            } else {
                0int
            }),
            !(e is Target) && !(e is TyperOpened) ==> final(self).target == old(self).target,
            e is TyperOpened && (old(self).detect || e->TyperOpened_0 is Err) ==> final(self).target
                == old(self).target,
            !(e is Begin) && !(e is Target) && !(e is ResumeEnded) ==> final(self).resuming
                == old(self).resuming,
            e matches JobEvent::ResumeEnded { cancelled: true } ==> final(self).resuming
                == old(self).resuming,
            // characters go out in order, each once
            r.action matches JobAction::Send(i) ==> i == old(self).typed && i < old(self).total,
            // the job finishes only when every character is typed
            r.msg matches Some(WorkerMsg::Finished) ==> final(self).typed == final(self).total,
            // progress reports what is typed so far
            r.msg matches Some(WorkerMsg::Progress { typed, total }) ==> typed == final(self).typed
                && total == final(self).total && typed <= total,
            match e {
                JobEvent::Begin => r.msg is None && r.action == JobAction::Countdown
                    && !final(self).resuming,
                JobEvent::CountdownEnded { completed } => if !completed {
                    r.msg == Some(WorkerMsg::Cancelled) && r.action == JobAction::Stop
                } else if old(self).resuming {
                    r.msg is None && r.action == JobAction::ReadTarget
                } else {
                    r.msg is None && r.action == JobAction::OpenTyper
                },
                JobEvent::TyperOpened(res) => match res {
                    Err(m) => r.msg == Some(WorkerMsg::Error(m)) && r.action == JobAction::Stop,
                    Ok(()) => if old(self).detect {
                        r.msg is None && r.action == JobAction::ReadTarget
                    } else {
                        final(self).target is None && (r.msg, r.action)
                            == JobRun::continue_or_finish(old(self).typed, old(self).total)
                    },
                },
                JobEvent::Target(w) => final(self).target == w && (r.msg, r.action)
                    == JobRun::continue_or_finish(old(self).typed, old(self).total)
                    && !final(self).resuming,
                JobEvent::Checked { cancelled, window } => if cancelled {
                    r.msg == Some(WorkerMsg::Cancelled) && r.action == JobAction::Stop
                } else if old(self).focus_lost(window) {
                    r.msg == Some(
                        WorkerMsg::WindowChanged { typed: old(self).typed, total: old(self).total },
                    ) && r.action == JobAction::WaitResume
                } else {
                    r.msg is None && r.action == JobAction::Send(old(self).typed)
                        && old(self).typed < old(self).total
                },
                JobEvent::Sent(res) => match res {
                    Err(m) => r.msg == Some(WorkerMsg::Error(m)) && r.action == JobAction::Stop,
                    Ok(()) => r.action == JobAction::Sleep && ({
                        let t = final(self).typed;
                        if t % old(self).step == 0 || t == old(self).total {
                            r.msg == Some(
                                WorkerMsg::Progress { typed: t, total: old(self).total },
                            )
                        } else {
                            r.msg is None
                        }
                    }),
                },
                JobEvent::Slept { completed } => if !completed {
                    r.msg == Some(WorkerMsg::Cancelled) && r.action == JobAction::Stop
                } else {
                    (r.msg, r.action) == JobRun::continue_or_finish(
                        old(self).typed,
                        old(self).total,
                    )
                },
                JobEvent::ResumeEnded { cancelled } => if cancelled {
                    r.msg == Some(WorkerMsg::Cancelled) && r.action == JobAction::Stop
                } else {
                    r.msg is None && r.action == JobAction::Countdown && final(self).resuming
                },
            },
    {
        let step = match e {
            JobEvent::Begin => {
                self.resuming = false;
                Step { msg: None, action: JobAction::Countdown }
            },
            JobEvent::CountdownEnded { completed } => {
                if !completed {
                    Step { msg: Some(WorkerMsg::Cancelled), action: JobAction::Stop }
                } else if self.resuming {
                    Step { msg: None, action: JobAction::ReadTarget }
                } else {
                    Step { msg: None, action: JobAction::OpenTyper }
                }
            },
            JobEvent::TyperOpened(res) => {
                match res {
                    Err(m) => Step { msg: Some(WorkerMsg::Error(m)), action: JobAction::Stop },
                    Ok(()) => {
                        if self.detect {
                            Step { msg: None, action: JobAction::ReadTarget }
                        } else {
                            self.target = None;
                            self.continue_or_finish_now()
                        }
                    },
                }
            },
            JobEvent::Target(w) => {
                self.target = w;
                self.resuming = false;
                self.continue_or_finish_now()
            },
            JobEvent::Checked { cancelled, window } => {
                if cancelled {
                    Step { msg: Some(WorkerMsg::Cancelled), action: JobAction::Stop }
                } else if self.detect && self.target.is_some() && window.is_some()
                    && self.target.unwrap() != window.unwrap() {
                    Step {
                        msg: Some(WorkerMsg::WindowChanged { typed: self.typed, total: self.total }),
                        action: JobAction::WaitResume,
                    }
                } else {
                    Step { msg: None, action: JobAction::Send(self.typed) }
                }
            },
            JobEvent::Sent(res) => {
                match res {
                    Err(m) => Step { msg: Some(WorkerMsg::Error(m)), action: JobAction::Stop },
                    Ok(()) => {
                        self.typed = self.typed + 1;
                        let msg = if self.typed % self.step == 0 || self.typed == self.total {
                            Some(WorkerMsg::Progress { typed: self.typed, total: self.total })
                        } else {
                            None
                        };
                        Step { msg, action: JobAction::Sleep }
                    },
                }
            },
            JobEvent::Slept { completed } => {
                if !completed {
                    Step { msg: Some(WorkerMsg::Cancelled), action: JobAction::Stop }
                } else {
                    self.continue_or_finish_now()
                }
            },
            JobEvent::ResumeEnded { cancelled } => {
                if cancelled {
                    Step { msg: Some(WorkerMsg::Cancelled), action: JobAction::Stop }
                } else {
                    self.resuming = true;
                    Step { msg: None, action: JobAction::Countdown }
                }
            },
        };
        self.awaiting = Self::awaiting_for(step.action);
        step
    }

    fn continue_or_finish_now(&self) -> (r: Step)
        ensures
            (r.msg, r.action) == JobRun::continue_or_finish(self.typed, self.total),
    {
        if self.typed < self.total {
            Step { msg: None, action: JobAction::Check }
        } else {
            Step { msg: Some(WorkerMsg::Finished), action: JobAction::Stop }
        }
    }

    fn awaiting_for(a: JobAction) -> (w: Awaiting)
        ensures
            w == JobRun::awaits_for(a),
    {
        match a {
            JobAction::Countdown => Awaiting::Countdown,
            JobAction::OpenTyper => Awaiting::Typer,
            JobAction::ReadTarget => Awaiting::Target,
            JobAction::Check => Awaiting::Check,
            JobAction::Send(_) => Awaiting::Send,
            JobAction::Sleep => Awaiting::Sleep,
            JobAction::WaitResume => Awaiting::Resume,
            JobAction::Stop => Awaiting::Nothing,
        }
    }
}


/// The actions a job takes for a series of events, and its state after
/// them.
pub open spec fn run(s: JobRun, events: Seq<JobEvent>) -> (JobRun, Seq<JobAction>)
    decreases events.len(),
{
    if events.len() == 0 {
        (s, Seq::empty())
    } else {
        let (s1, _m, a) = JobRun::transition(s, events[0]);
        let (sf, acts) = run(s1, events.drop_first());
        (sf, seq![a] + acts)
    }
}

/// Each event of the series is the one the job waits for at that point.
pub open spec fn accepted_all(s: JobRun, events: Seq<JobEvent>) -> bool
    decreases events.len(),
{
    events.len() == 0 || (s.accepts(events[0]) && accepted_all(
        JobRun::transition(s, events[0]).0,
        events.drop_first(),
    ))
}

/// The indices of the characters that a series of actions sends, in order.
pub open spec fn sends(acts: Seq<JobAction>) -> Seq<usize>
    decreases acts.len(),
{
    if acts.len() == 0 {
        Seq::empty()
    } else {
        (match acts[0] {
            JobAction::Send(i) => seq![i],
            _ => Seq::empty(),
        }) + sends(acts.drop_first())
    }
}

/// The index of the next character to be sent: one past a send under way.
pub open spec fn next_index(s: JobRun) -> int {
    s.typed + if s.awaiting == Awaiting::Send {
        1int
    } else {
        0int
    }
}

/// The progress step is a two-hundredth of the text, at least one
/// character: every job over a text of fewer than 200 characters reports
/// each character, a longer one every `total / 200` characters.
pub proof fn lemma_progress_step(total: usize, detect: bool)
    ensures
        total < 200 ==> fresh_job(total, detect).step == 1,
        total >= 200 ==> fresh_job(total, detect).step == total / 200,
        fresh_job(total, detect).step >= 1,
{
}

/// A character sent reports progress when the count typed reaches a
/// multiple of `max(total / 200, 1)` or the end of the text; for a text of
/// fewer than 200 characters, that is after every character.
pub proof fn lemma_progress_after_a_character(s: JobRun, e: JobEvent)
    requires
        s.wf(),
        s.accepts(e),
        e matches JobEvent::Sent(res) && res is Ok,
    ensures
        ({
            let t = s.typed + 1;
            let step: int = if s.total < 200 { 1 } else { s.total as int / 200 };
            &&& JobRun::transition(s, e).1 == (if t % step == 0 || t == s.total {
                Some(WorkerMsg::Progress { typed: t as usize, total: s.total })
            } else {
                None
            })
            &&& s.total < 200 ==> JobRun::transition(s, e).1 == Some(
                WorkerMsg::Progress { typed: t as usize, total: s.total },
            )
        }),
{
}

/// A transition from an event the job waits for keeps the job well formed.
pub proof fn lemma_transition_keeps_wf(s: JobRun, e: JobEvent)
    requires
        s.wf(),
        s.accepts(e),
    ensures
        JobRun::transition(s, e).0.wf(),
        JobRun::transition(s, e).0.total == s.total,
{
}

/// Characters are sent in order, each once: whatever happens (pauses,
/// resumes, failures), the characters a well-formed job sends are the next
/// ones of the text, one after the other, and all exist.
pub proof fn lemma_sends_in_order(s: JobRun, events: Seq<JobEvent>)
    requires
        s.wf(),
        accepted_all(s, events),
    ensures
        ({
            let sent = sends(run(s, events).1);
            &&& forall|i: int| 0 <= i < sent.len() ==> #[trigger] sent[i] == next_index(s) + i
            &&& forall|i: int| 0 <= i < sent.len() ==> #[trigger] sent[i] < s.total
        }),
    decreases events.len(),
{
    if events.len() > 0 {
        let e = events[0];
        let (s1, _m, a) = JobRun::transition(s, e);
        lemma_transition_keeps_wf(s, e);
        let rest = events.drop_first();
        assert(accepted_all(s1, rest));
        lemma_sends_in_order(s1, rest);
        let acts = run(s, events).1;
        assert(acts == seq![a] + run(s1, rest).1);
        assert(acts.drop_first() == run(s1, rest).1);
        let tail = sends(run(s1, rest).1);
        if a is Send {
            // a send only answers a check, and points at the next character
            assert(s.awaiting == Awaiting::Check);
            assert(sends(acts) == seq![a->Send_0] + tail);
            assert(next_index(s1) == next_index(s) + 1);
        } else {
            assert(sends(acts) == Seq::<usize>::empty() + tail);
            assert(Seq::<usize>::empty() + tail == tail);
            if rest.len() > 0 {
                // a failed send ends the job; otherwise the next index stays
                assert(s1.accepts(rest[0]));
                assert(next_index(s1) == next_index(s));
            } else {
                assert(tail.len() == 0);
            }
        }
    }
}

/// A job never counts more characters typed than it has sent: what is
/// typed at the end is at most the next index at the start plus the sends
/// in between.
pub proof fn lemma_typed_only_what_was_sent(s: JobRun, events: Seq<JobEvent>)
    requires
        s.wf(),
        accepted_all(s, events),
    ensures
        run(s, events).0.typed <= next_index(s) + sends(run(s, events).1).len(),
    decreases events.len(),
{
    if events.len() > 0 {
        let e = events[0];
        let (s1, _m, a) = JobRun::transition(s, e);
        lemma_transition_keeps_wf(s, e);
        let rest = events.drop_first();
        assert(accepted_all(s1, rest));
        lemma_typed_only_what_was_sent(s1, rest);
        let acts = run(s, events).1;
        assert(acts == seq![a] + run(s1, rest).1);
        assert(acts.drop_first() == run(s1, rest).1);
        let tail = sends(run(s1, rest).1);
        if a is Send {
            assert(sends(acts) == seq![a->Send_0] + tail);
        } else {
            assert(sends(acts) == Seq::<usize>::empty() + tail);
            assert(Seq::<usize>::empty() + tail == tail);
        }
    } else {
        assert(run(s, events).0 == s);
    }
}

/// A job that gets through its text (as it has whenever it reports
/// `Finished`) has sent every character exactly once, in order: the sends
/// are 0, 1, …, total − 1.
pub proof fn lemma_finished_job_sent_each_character_once(
    total: usize,
    detect: bool,
    events: Seq<JobEvent>,
)
    requires
        accepted_all(fresh_job(total, detect), events),
        run(fresh_job(total, detect), events).0.typed == total,
    ensures
        sends(run(fresh_job(total, detect), events).1) == Seq::new(total as nat, |i: int| i as usize),
{
    let s = fresh_job(total, detect);
    lemma_sends_in_order(s, events);
    lemma_typed_only_what_was_sent(s, events);
    let sent = sends(run(s, events).1);
    if sent.len() > total {
        assert(sent[total as int] == total);
    }
    assert(sent =~= Seq::new(total as nat, |i: int| i as usize));
}

/// The state of a job that has not begun.
pub open spec fn fresh_job(total: usize, detect: bool) -> JobRun {
    JobRun {
        total,
        typed: 0,
        step: step_of(total as nat) as usize,
        detect,
        target: None,
        awaiting: Awaiting::Begin,
        resuming: false,
    }
}

/// One step of a countdown that has run `elapsed_ns` of `duration_ns`.
#[derive(Debug, Clone, Copy, PartialEq, Eq, Structural)]
pub enum CountdownStep {
    /// Cancel was asked for: stop counting.
    Cancelled,
    /// Report the time left, in whole milliseconds, and wait a little.
    Wait { remaining_ms: u64 },
    /// The time is up.
    Done,
}

/// Decides one step of a countdown: a cancel request wins; otherwise wait
/// while time is left, and be done when none is.
pub fn countdown_step(duration_ns: u64, elapsed_ns: u64, cancelled: bool) -> (r: CountdownStep)
    ensures
        cancelled ==> r == CountdownStep::Cancelled,
        !cancelled && elapsed_ns < duration_ns ==> r == (CountdownStep::Wait {
            remaining_ms: ((duration_ns - elapsed_ns) / 1_000_000) as u64,
        }),
        !cancelled && elapsed_ns >= duration_ns ==> r == CountdownStep::Done,
{
    if cancelled {
        CountdownStep::Cancelled
    } else if elapsed_ns < duration_ns {
        CountdownStep::Wait { remaining_ms: (duration_ns - elapsed_ns) / 1_000_000 }
    } else {
        CountdownStep::Done
    }
}

/// The longest single sleep of the delay between keys, so that a cancel
/// request is noticed quickly even with long delays: 10 ms.
pub const SLEEP_SLICE_NS: u64 = 10_000_000;

/// One step of the delay between keys with `remaining_ns` left.
#[derive(Debug, Clone, Copy, PartialEq, Eq, Structural)]
pub enum SleepStep {
    /// Cancel was asked for: stop waiting.
    Cancelled,
    /// Sleep this long, then take another step.
    Sleep { ns: u64 },
    /// The delay is over.
    Done,
}

/// Decides one step of the delay between keys: a cancel request wins;
/// otherwise sleep at most [`SLEEP_SLICE_NS`] of what is left, and be done
/// when nothing is.
pub fn sleep_step(remaining_ns: u64, cancelled: bool) -> (r: SleepStep)
    ensures
        cancelled ==> r == SleepStep::Cancelled,
        !cancelled && remaining_ns == 0 ==> r == SleepStep::Done,
        !cancelled && remaining_ns > 0 ==> r == (SleepStep::Sleep {
            ns: if remaining_ns < SLEEP_SLICE_NS {
                remaining_ns
            } else {
                SLEEP_SLICE_NS
            },
        }),
{
    if cancelled {
        SleepStep::Cancelled
    } else if remaining_ns == 0 {
        SleepStep::Done
    } else if remaining_ns < SLEEP_SLICE_NS {
        SleepStep::Sleep { ns: remaining_ns }
    } else {
        SleepStep::Sleep { ns: SLEEP_SLICE_NS }
    }
}

} // verus!
