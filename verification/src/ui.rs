//! The state of the application window, apart from drawing it: settings
//! the user edits, the phase of the typing job, and what the job's messages
//! do to them.
use vstd::prelude::*;

use crate::cli::CliArgs;
use crate::i18n::{table_of, Lang};
use crate::text::{blank, chars_of, is_blank};
use crate::worker::{JobConfig, WorkerMsg};

verus! {

broadcast use vstd::string::group_string_axioms;

/// The phase shown in the status line.
#[derive(Debug, Clone, Copy, PartialEq, Eq, Structural)]
pub enum Phase {
    Idle,
    Waiting,
    Typing,
    Paused,
    Finished,
    Cancelled,
    Error,
}

/// The persisted settings that the window reads.
#[derive(Debug, Clone, Copy, PartialEq, Eq, Structural)]
pub struct Settings {
    pub delay_ms: u32,
    pub initial_delay_s: u32,
    pub minimize_before_typing: bool,
    pub detect_window_change: bool,
    /// Type printable characters as physical key presses rather than by
    /// Unicode injection.
    pub physical_keys: bool,
    pub language: Lang,
}

impl Default for Settings {
    /// A 20 ms per-key delay, a 3 s initial delay, no minimizing, no focus
    /// guard, physical keys, English.
    fn default() -> (s: Settings)
        ensures
            s == (Settings {
                delay_ms: 20,
                initial_delay_s: 3,
                minimize_before_typing: false,
                detect_window_change: false,
                physical_keys: true,
                language: Lang::En,
            }),
    {
        Settings {
            delay_ms: 20,
            initial_delay_s: 3,
            minimize_before_typing: false,
            detect_window_change: false,
            physical_keys: true,
            language: Lang::En,
        }
    }
}

/// The per-key delays of the speed presets, from "very fast" to "very
/// slow", in milliseconds.
pub const PRESET_DELAYS_MS: [u32; 5] = [2, 8, 20, 60, 150];

/// The smallest and largest per-key delay, in milliseconds.
pub const MIN_DELAY_MS: u32 = 1;

pub const MAX_DELAY_MS: u32 = 2000;

/// The largest initial delay, in seconds.
pub const MAX_INITIAL_DELAY_S: u32 = 60;

/// A per-key delay brought into range.
pub open spec fn clamp_delay(d: u32) -> u32 {
    if d < MIN_DELAY_MS {
        MIN_DELAY_MS
    } else if d > MAX_DELAY_MS {
        MAX_DELAY_MS
    } else {
        d
    }
}

/// An initial delay brought into range.
pub open spec fn clamp_initial(s: u32) -> u32 {
    if s > MAX_INITIAL_DELAY_S {
        MAX_INITIAL_DELAY_S
    } else {
        s
    }
}

/// The initial delay kept is the smaller of the one asked for and 60 s: a
/// delay of 0 to 60 s is kept as it is, a longer one becomes 60 s.
pub proof fn lemma_initial_delay_is_at_most_a_minute(s: u32)
    ensures
        clamp_initial(s) <= s,
        clamp_initial(s) <= 60,
        clamp_initial(s) == s || clamp_initial(s) == 60,
        s <= 60 ==> clamp_initial(s) == s,
{
}

/// The per-key delay kept is the one asked for brought into 1 to 2000 ms:
/// kept as it is inside that range, the nearest bound outside it.
pub proof fn lemma_key_delay_in_range(d: u32)
    ensures
        1 <= clamp_delay(d) <= 2000,
        1 <= d <= 2000 ==> clamp_delay(d) == d,
        d < 1 ==> clamp_delay(d) == 1,
        d > 2000 ==> clamp_delay(d) == 2000,
{
}

fn clamp_delay_ms(d: u32) -> (r: u32)
    ensures
        r == clamp_delay(d),
{
    if d < MIN_DELAY_MS {
        MIN_DELAY_MS
    } else if d > MAX_DELAY_MS {
        MAX_DELAY_MS
    } else {
        d
    }
}

fn clamp_initial_s(s: u32) -> (r: u32)
    ensures
        r == clamp_initial(s),
{
    if s > MAX_INITIAL_DELAY_S {
        MAX_INITIAL_DELAY_S
    } else {
        s
    }
}

/// The window's state.
pub struct AppModel {
    // user inputs / settings
    pub text: String,
    pub delay_ms: u32,
    pub initial_delay_s: u32,
    pub minimize: bool,
    pub detect_window_change: bool,
    pub physical_keys: bool,
    pub lang: Lang,
    // runtime state
    pub phase: Phase,
    pub error_msg: Option<String>,
    pub typed: usize,
    pub total: usize,
    pub wait_remaining_ms: u64,
    /// A typing job is running.
    pub running: bool,
    pub minimized_for_job: bool,
    pub autostart_pending: bool,
}

/// What the messages drained in one frame add up to.
pub struct Drain {
    /// The phase the job ended in, if it ended.
    pub terminal: Option<Phase>,
    /// The job reported a focus change in this frame.
    pub just_paused: bool,
}

/// What the window has to do after draining the job's messages.
#[derive(Debug, Clone, Copy, PartialEq, Eq, Structural)]
pub enum PollOutcome {
    /// The job is over; restore and focus the window if it was minimized
    /// for the job.
    Ended { restore_window: bool },
    /// The job goes on; bring the window forward (with an attention
    /// request) if it just paused.
    Running { bring_forward: bool },
}

/// The message shown when the clipboard could not be read.
pub open spec fn clipboard_error_message(lang: Lang, detail: Seq<char>) -> Seq<char> {
    table_of(lang).clipboard_error@ + " ("@ + detail + ")"@
}

impl AppModel {
    /// The user's inputs and settings are the same in both states.
    pub open spec fn same_inputs(&self, o: &AppModel) -> bool {
        &&& self.text == o.text
        &&& self.delay_ms == o.delay_ms
        &&& self.initial_delay_s == o.initial_delay_s
        &&& self.minimize == o.minimize
        &&& self.detect_window_change == o.detect_window_change
        &&& self.physical_keys == o.physical_keys
        &&& self.lang == o.lang
    }

    /// The progress shown is the same in both states.
    pub open spec fn same_progress(&self, o: &AppModel) -> bool {
        &&& self.typed == o.typed
        &&& self.total == o.total
        &&& self.wait_remaining_ms == o.wait_remaining_ms
    }

    /// The job bookkeeping is the same in both states.
    pub open spec fn same_job(&self, o: &AppModel) -> bool {
        &&& self.running == o.running
        &&& self.minimized_for_job == o.minimized_for_job
        &&& self.autostart_pending == o.autostart_pending
    }

    /// The window's first state: settings brought into range (delay 1–2000
    /// ms, initial delay at most 60 s), then the command line's overrides,
    /// also brought into range. Autostart is pending only when it was asked
    /// for and there is text to type.
    pub fn new(cfg: Settings, cli: CliArgs) -> (m: AppModel)
        ensures
            m.delay_ms == clamp_delay(
                match cli.delay_ms {
                    Some(d) => d,
                    None => cfg.delay_ms,
                },
            ),
            m.initial_delay_s == clamp_initial(
                match cli.wait_s {
                    Some(w) => w,
                    None => cfg.initial_delay_s,
                },
            ),
            m.minimize == match cli.minimize {
                Some(b) => b,
                None => cfg.minimize_before_typing,
            },
            m.text@ == match cli.text {
                Some(t) => t@,
                None => Seq::<char>::empty(),
            },
            m.detect_window_change == cfg.detect_window_change,
            m.physical_keys == cfg.physical_keys,
            m.lang == cfg.language,
            m.phase == Phase::Idle,
            m.error_msg is None,
            m.typed == 0 && m.total == 0 && m.wait_remaining_ms == 0,
            !m.running && !m.minimized_for_job,
            m.autostart_pending == (cli.autostart && !is_blank(m.text@)),
            MIN_DELAY_MS <= m.delay_ms <= MAX_DELAY_MS,
            m.initial_delay_s <= MAX_INITIAL_DELAY_S,
            ({
                let w = match cli.wait_s {
                    Some(w) => w,
                    None => cfg.initial_delay_s,
                };
                &&& w <= 60 ==> m.initial_delay_s == w
                &&& w > 60 ==> m.initial_delay_s == 60
            }),
            ({
                let d = match cli.delay_ms {
                    Some(d) => d,
                    None => cfg.delay_ms,
                };
                &&& 1 <= d <= 2000 ==> m.delay_ms == d
                &&& d < 1 ==> m.delay_ms == 1
                &&& d > 2000 ==> m.delay_ms == 2000
            }),
    {
        let mut m = AppModel {
            text: String::new(),
            delay_ms: clamp_delay_ms(cfg.delay_ms),
            initial_delay_s: clamp_initial_s(cfg.initial_delay_s),
            minimize: cfg.minimize_before_typing,
            detect_window_change: cfg.detect_window_change,
            physical_keys: cfg.physical_keys,
            lang: cfg.language,
            phase: Phase::Idle,
            error_msg: None,
            typed: 0,
            total: 0,
            wait_remaining_ms: 0,
            running: false,
            minimized_for_job: false,
            autostart_pending: false,
        };
        if let Some(d) = cli.delay_ms {
            m.delay_ms = clamp_delay_ms(d);
        }
        if let Some(w) = cli.wait_s {
            m.initial_delay_s = clamp_initial_s(w);
        }
        if let Some(b) = cli.minimize {
            m.minimize = b;
        }
        if let Some(t) = cli.text {
            m.text = t;
        }
        m.autostart_pending = cli.autostart && !blank(m.text.as_str());
        m
    }

    /// Starts typing, unless there is nothing but white space to type: then
    /// the "no text" error shows and no job starts. A started job counts
    /// the text's characters, waits the initial delay, and remembers
    /// whether the window is minimized for it.
    pub fn start_typing(&mut self) -> (job: Option<JobConfig>)
        ensures
            final(self).same_inputs(&*old(self)),
            final(self).autostart_pending == old(self).autostart_pending,
            is_blank(old(self).text@) ==> {
                &&& job is None
                &&& final(self).phase == Phase::Error
                &&& final(self).error_msg matches Some(e) && e@ == table_of(old(self).lang).no_text@
                &&& final(self).same_progress(&*old(self))
                &&& final(self).running == old(self).running
                &&& final(self).minimized_for_job == old(self).minimized_for_job
            },
            !is_blank(old(self).text@) ==> {
                &&& job matches Some(j) && j.text@ == old(self).text@ && j.delay_ms
                    == old(self).delay_ms && j.initial_delay_s == old(self).initial_delay_s
                    && j.detect_window_change == old(self).detect_window_change && j.physical_keys
                    == old(self).physical_keys
                &&& final(self).phase == Phase::Waiting
                &&& final(self).error_msg is None
                &&& final(self).typed == 0
                &&& final(self).total == old(self).text@.len()
                &&& final(self).wait_remaining_ms == old(self).initial_delay_s as u64 * 1000
                &&& final(self).minimized_for_job == old(self).minimize
                &&& final(self).running
            },
    {
        if blank(self.text.as_str()) {
            let s = self.lang.s();
            self.error_msg = Some(String::from_str(s.no_text));
            self.phase = Phase::Error;
            return None;
        }
        let chars = chars_of(self.text.as_str());
        self.error_msg = None;
        self.typed = 0;
        self.total = chars.len();
        self.phase = Phase::Waiting;
        self.wait_remaining_ms = self.initial_delay_s as u64 * 1000;
        self.minimized_for_job = self.minimize;
        self.running = true;
        Some(
            JobConfig {
                text: self.text.clone(),
                delay_ms: self.delay_ms,
                initial_delay_s: self.initial_delay_s,
                detect_window_change: self.detect_window_change,
                physical_keys: self.physical_keys,
            },
        )
    }

    /// Resumes after a focus-change pause (the job counts down again so
    /// the user can refocus the target window). Returns whether the job is
    /// signalled, which happens only while one runs; the window is then
    /// minimized again if so set.
    pub fn resume(&mut self) -> (signal: bool)
        ensures
            signal == old(self).running,
            final(self).phase == Phase::Waiting,
            final(self).error_msg == old(self).error_msg,
            final(self).same_inputs(&*old(self)),
            final(self).same_progress(&*old(self)),
            final(self).same_job(&*old(self)),
    {
        self.phase = Phase::Waiting;
        self.running
    }

    /// Takes a pending autostart when the window is idle and no job runs.
    pub fn take_autostart(&mut self) -> (go: bool)
        ensures
            go == (old(self).autostart_pending && !old(self).running && old(self).phase
                == Phase::Idle),
            final(self).autostart_pending == (old(self).autostart_pending && !go),
            final(self).phase == old(self).phase,
            final(self).error_msg == old(self).error_msg,
            final(self).same_inputs(&*old(self)),
            final(self).same_progress(&*old(self)),
            final(self).running == old(self).running,
            final(self).minimized_for_job == old(self).minimized_for_job,
    {
        if self.autostart_pending && !self.running && self.phase == Phase::Idle {
            self.autostart_pending = false;
            true
        } else {
            false
        }
    }

    /// Applies one message of the job.
    pub fn absorb(&mut self, drain: &mut Drain, msg: WorkerMsg)
        ensures
            match msg {
                WorkerMsg::Waiting { remaining_ms } => {
                    &&& final(self).phase == Phase::Waiting
                    &&& final(self).wait_remaining_ms == remaining_ms
                    &&& final(self).typed == old(self).typed
                    &&& final(self).total == old(self).total
                    &&& final(self).error_msg == old(self).error_msg
                    &&& final(drain).terminal == old(drain).terminal
                },
                WorkerMsg::Progress { typed, total } => {
                    &&& final(self).phase == Phase::Typing
                    &&& final(self).typed == typed
                    &&& final(self).total == total
                    &&& final(self).wait_remaining_ms == old(self).wait_remaining_ms
                    &&& final(self).error_msg == old(self).error_msg
                    &&& final(drain).terminal == old(drain).terminal
                },
                WorkerMsg::WindowChanged { typed, total } => {
                    &&& final(self).phase == Phase::Paused
                    &&& final(self).typed == typed
                    &&& final(self).total == total
                    &&& final(self).wait_remaining_ms == old(self).wait_remaining_ms
                    &&& final(self).error_msg == old(self).error_msg
                    &&& final(drain).just_paused
                    &&& final(drain).terminal == old(drain).terminal
                },
                WorkerMsg::Finished => {
                    &&& final(drain).terminal == Some(Phase::Finished)
                    &&& final(self).phase == old(self).phase
                    &&& final(self).error_msg == old(self).error_msg
                    &&& final(self).same_progress(&*old(self))
                },
                WorkerMsg::Cancelled => {
                    &&& final(drain).terminal == Some(Phase::Cancelled)
                    &&& final(self).phase == old(self).phase
                    &&& final(self).error_msg == old(self).error_msg
                    &&& final(self).same_progress(&*old(self))
                },
                WorkerMsg::Error(e) => {
                    &&& final(drain).terminal == Some(Phase::Error)
                    &&& final(self).error_msg == Some(e)
                    &&& final(self).phase == old(self).phase
                    &&& final(self).same_progress(&*old(self))
                },
            },
            !(msg is WindowChanged) ==> final(drain).just_paused == old(drain).just_paused,
            final(self).same_inputs(&*old(self)),
            final(self).same_job(&*old(self)),
    {
        match msg {
            WorkerMsg::Waiting { remaining_ms } => {
                self.phase = Phase::Waiting;
                self.wait_remaining_ms = remaining_ms;
            },
            WorkerMsg::Progress { typed, total } => {
                self.phase = Phase::Typing;
                self.typed = typed;
                self.total = total;
            },
            WorkerMsg::WindowChanged { typed, total } => {
                self.phase = Phase::Paused;
                self.typed = typed;
                self.total = total;
                drain.just_paused = true;
            },
            WorkerMsg::Finished => {
                drain.terminal = Some(Phase::Finished);
            },
            WorkerMsg::Cancelled => {
                drain.terminal = Some(Phase::Cancelled);
            },
            WorkerMsg::Error(e) => {
                self.error_msg = Some(e);
                drain.terminal = Some(Phase::Error);
            },
        }
    }

    /// Ends a frame's drain: a job that ended takes its final phase and is
    /// no longer running; otherwise it goes on.
    pub fn finish_drain(&mut self, drain: Drain, disconnected: bool) -> (r: PollOutcome)
        ensures
            ({
                let end = if drain.terminal is None && disconnected {
                    Some(Phase::Finished)
                } else {
                    drain.terminal
                };
                match end {
                    Some(p) => {
                        &&& final(self).phase == p
                        &&& !final(self).running
                        &&& !final(self).minimized_for_job
                        &&& r == PollOutcome::Ended { restore_window: old(self).minimized_for_job }
                    },
                    None => {
                        &&& final(self).phase == old(self).phase
                        &&& final(self).running == old(self).running
                        &&& final(self).minimized_for_job == old(self).minimized_for_job
                        &&& r == PollOutcome::Running { bring_forward: drain.just_paused }
                    },
                }
            }),
            final(self).error_msg == old(self).error_msg,
            final(self).autostart_pending == old(self).autostart_pending,
            final(self).same_inputs(&*old(self)),
            final(self).same_progress(&*old(self)),
    {
        let end = if drain.terminal.is_none() && disconnected {
            Some(Phase::Finished)
        } else {
            drain.terminal
        };
        match end {
            Some(p) => {
                self.phase = p;
                self.running = false;
                let restore = self.minimized_for_job;
                self.minimized_for_job = false;
                PollOutcome::Ended { restore_window: restore }
            },
            None => PollOutcome::Running { bring_forward: drain.just_paused },
        }
    }

    /// Puts clipboard text into the editor, or shows why it could not be
    /// read.
    pub fn paste(&mut self, clip: Result<String, String>)
        ensures
            match clip {
                Ok(t) => final(self).text == t && final(self).error_msg is None && final(self).phase
                    == (if old(self).running {
                    old(self).phase
                } else {
                    Phase::Idle
                }),
                Err(detail) => final(self).text == old(self).text && final(self).phase
                    == Phase::Error && (final(self).error_msg matches Some(e) && e@
                    == clipboard_error_message(old(self).lang, detail@)),
            },
            final(self).delay_ms == old(self).delay_ms,
            final(self).initial_delay_s == old(self).initial_delay_s,
            final(self).minimize == old(self).minimize,
            final(self).detect_window_change == old(self).detect_window_change,
            final(self).physical_keys == old(self).physical_keys,
            final(self).lang == old(self).lang,
            final(self).same_progress(&*old(self)),
            final(self).same_job(&*old(self)),
    {
        match clip {
            Ok(t) => {
                self.text = t;
                self.error_msg = None;
                if !self.running {
                    self.phase = Phase::Idle;
                }
            },
            Err(detail) => {
                let s = self.lang.s();
                let mut m = String::from_str(s.clipboard_error);
                m.append(" (");
                m.append(detail.as_str());
                m.append(")");
                self.error_msg = Some(m);
                self.phase = Phase::Error;
            },
        }
    }

    /// Empties the editor and returns to idle.
    pub fn clear(&mut self)
        ensures
            final(self).text@ == Seq::<char>::empty(),
            final(self).phase == Phase::Idle,
            final(self).error_msg is None,
            final(self).delay_ms == old(self).delay_ms,
            final(self).initial_delay_s == old(self).initial_delay_s,
            final(self).minimize == old(self).minimize,
            final(self).detect_window_change == old(self).detect_window_change,
            final(self).physical_keys == old(self).physical_keys,
            final(self).lang == old(self).lang,
            final(self).same_progress(&*old(self)),
            final(self).same_job(&*old(self)),
    {
        self.text = String::new();
        self.phase = Phase::Idle;
        self.error_msg = None;
    }

    /// Whether the status shows a progress bar: while typing or paused, for
    /// a non-empty text.
    pub fn shows_progress(&self) -> (b: bool)
        ensures
            b == ((self.phase == Phase::Typing || self.phase == Phase::Paused) && self.total > 0),
    {
        (self.phase == Phase::Typing || self.phase == Phase::Paused) && self.total > 0
    }
}

} // verus!
