//! The capture supervisor: the decision core of one recording run.
//!
//! A recording is driven by events — the tool's version probe, the output
//! directory's creation, the subprocess spawn, each diagnostic line, a
//! silence timer firing, the diagnostic stream ending, and the process exit.
//! The unverified shell performs the outside work (spawning, reading,
//! sleeping, killing) and feeds each outcome into the supervisor, which holds
//! every rule: when a timer is armed or cancelled, which timer may kill, and
//! how an exit status is classified.
//!
//! The silence countdown is modelled with generation numbers.  Arming hands
//! out a fresh generation and invalidates the previous one, so at most one
//! generation is ever live; a timer that fires with a stale generation — or
//! after a disarm — kills nothing, however the shell schedules its tasks.

use vstd::prelude::*;

use crate::audio::devices::AudioInputDevice;
use crate::text::contains_seq;
use crate::text::str_contains;

verus! {

/// The diagnostic marker that opens a silence window.
pub open spec fn silence_start_marker() -> Seq<char> {
    "silence_start"@
}

/// The diagnostic marker that closes a silence window.
pub open spec fn silence_end_marker() -> Seq<char> {
    "silence_end"@
}

/// The marker that confirms the recorder tool's version probe.
pub open spec fn version_marker() -> Seq<char> {
    "ffmpeg version"@
}

/// A typed capture failure.
#[derive(Clone, Copy, Debug, PartialEq, Eq, Structural)]
pub enum CaptureError {
    /// The recorder tool is missing, unreachable, or would not start.
    BackendUnavailable,
    /// The output directory could not be created.
    StorageUnavailable,
    /// The recorder subprocess exited abnormally.
    BackendExecutionFailed,
    /// The subprocess's diagnostic output could not be attached.
    DiagnosticStreamUnavailable,
}

/// The tri-state termination flag: a countdown is running, no countdown is
/// running, or the process has already been asked to exit.
#[derive(Clone, Copy, Debug, PartialEq, Eq, Structural)]
pub enum TerminationState {
    Disarmed,
    Armed,
    Terminated,
}

/// The silence countdown, modelled with timer generations.  A timer task is
/// *live* exactly when the monitor is armed with that task's generation;
/// every arm hands out a fresh generation, so earlier timers can never kill.
pub struct SilenceMonitor {
    pub state: TerminationState,
    pub armed_generation: u64,
    pub timers_started: u64,
}

/// A timer of generation `g` may still kill.
pub open spec fn live(m: SilenceMonitor, g: u64) -> bool {
    m.state is Armed && m.armed_generation == g
}

/// Arming: the next generation becomes the one live timer.
pub open spec fn spec_arm(m: SilenceMonitor) -> (SilenceMonitor, u64) {
    (
        SilenceMonitor {
            state: TerminationState::Armed,
            armed_generation: m.timers_started,
            timers_started: (m.timers_started + 1) as u64,
        },
        m.timers_started,
    )
}

/// Disarming: the countdown is abandoned; a process already asked to exit
/// stays terminated.
pub open spec fn spec_disarm(m: SilenceMonitor) -> SilenceMonitor {
    if m.state is Terminated {
        m
    } else {
        SilenceMonitor { state: TerminationState::Disarmed, ..m }
    }
}

/// Firing of timer `g`: the kill is granted only to the live generation, and
/// granting it marks the process terminated.
pub open spec fn spec_fire(m: SilenceMonitor, g: u64) -> (SilenceMonitor, bool) {
    if live(m, g) {
        (SilenceMonitor { state: TerminationState::Terminated, ..m }, true)
    } else {
        (m, false)
    }
}

/// What one diagnostic line does to the countdown: a silence-start marker
/// arms a fresh timer, a silence-end marker disarms; nothing else changes
/// state.  A line carrying both markers arms and then disarms, leaving the
/// fresh timer dead.
pub open spec fn spec_line_step(m: SilenceMonitor, line: Seq<char>) -> (SilenceMonitor, Option<
    u64,
>) {
    let (armed, timer) = if contains_seq(line, silence_start_marker()) {
        let (m1, g) = spec_arm(m);
        (m1, Some(g))
    } else {
        (m, None::<u64>)
    };
    if contains_seq(line, silence_end_marker()) {
        (spec_disarm(armed), timer)
    } else {
        (armed, timer)
    }
}

impl SilenceMonitor {
    /// An armed monitor always holds the most recently issued generation.
    pub open spec fn wf(self) -> bool {
        self.state is Armed ==> self.armed_generation < self.timers_started
    }

    /// A fresh monitor: no countdown, no timers issued.
    pub fn new() -> (m: Self)
        ensures
            m.wf(),
            m.state is Disarmed,
            m.timers_started == 0,
    {
        SilenceMonitor {
            state: TerminationState::Disarmed,
            armed_generation: 0,
            timers_started: 0,
        }
    }

    /// Arms a fresh countdown, invalidating any outstanding one; returns the
    /// generation the new timer task must present when it fires.
    pub fn arm(&mut self) -> (g: u64)
        requires
            old(self).wf(),
            old(self).timers_started < u64::MAX,
        ensures
            final(self).wf(),
            (*final(self), g) == spec_arm(*old(self)),
            live(*final(self), g),
            forall|h: u64| h != g ==> !live(*final(self), h),
    {
        let g = self.timers_started;
        self.timers_started = g + 1;
        self.armed_generation = g;
        self.state = TerminationState::Armed;
        g
    }

    /// Cancels any outstanding countdown; afterwards no timer is live.
    pub fn disarm(&mut self)
        requires
            old(self).wf(),
        ensures
            final(self).wf(),
            *final(self) == spec_disarm(*old(self)),
            forall|h: u64| !live(*final(self), h),
    {
        match self.state {
            TerminationState::Terminated => {},
            _ => {
                self.state = TerminationState::Disarmed;
            },
        }
    }

    /// A timer of generation `g` fired; the kill is granted exactly when
    /// that generation is still live.
    pub fn on_timer_fired(&mut self, g: u64) -> (kill: bool)
        requires
            old(self).wf(),
        ensures
            final(self).wf(),
            (*final(self), kill) == spec_fire(*old(self), g),
            kill == live(*old(self), g),
            kill ==> final(self).state is Terminated,
            !kill ==> *final(self) == *old(self),
    {
        match self.state {
            TerminationState::Armed => {
                if self.armed_generation == g {
                    self.state = TerminationState::Terminated;
                    true
                } else {
                    false
                }
            },
            _ => false,
        }
    }
}

/// Law: at most one timer is live at any instant.
pub proof fn lemma_at_most_one_live_timer(m: SilenceMonitor, g1: u64, g2: u64)
    requires
        live(m, g1),
        live(m, g2),
    ensures
        g1 == g2,
{
}

/// Law: arming while a previous timer is outstanding leaves exactly one live
/// timer — the new one; the previous timer can no longer kill.
pub proof fn lemma_rearm_single_live_timer(m: SilenceMonitor, g_old: u64)
    requires
        m.wf(),
        live(m, g_old),
    ensures
        ({
            let (m2, g_new) = spec_arm(m);
            &&& live(m2, g_new)
            &&& !live(m2, g_old)
            &&& !spec_fire(m2, g_old).1
            &&& forall|h: u64| live(m2, h) ==> h == g_new
        }),
{
}

/// Law: a disarm with no re-arm in between prevents every later firing from
/// killing, whichever timer generation fires.
pub proof fn lemma_disarm_prevents_kill(m: SilenceMonitor, g: u64)
    ensures
        !spec_fire(spec_disarm(m), g).1,
{
}

/// Law: after a line that closes a silence window, no timer of any
/// generation may kill until a new one is armed — even when the same line
/// also opened a window, since the close comes after the open.
pub proof fn lemma_silence_end_line_prevents_kill(m: SilenceMonitor, line: Seq<char>, g: u64)
    requires
        contains_seq(line, silence_end_marker()),
    ensures
        !spec_fire(spec_line_step(m, line).0, g).1,
{
}

/// Law: a line that opens a silence window, and does not close it again,
/// leaves exactly one live timer: the one whose generation the step hands
/// out.
pub proof fn lemma_silence_start_line_single_timer(m: SilenceMonitor, line: Seq<char>)
    requires
        m.wf(),
        contains_seq(line, silence_start_marker()),
        !contains_seq(line, silence_end_marker()),
    ensures
        ({
            let (m2, timer) = spec_line_step(m, line);
            &&& timer == Some(spec_arm(m).1)
            &&& live(m2, spec_arm(m).1)
            &&& forall|h: u64| h != spec_arm(m).1 ==> !live(m2, h)
        }),
{
}

/// One immutable recording request.
pub struct RecordingRequest {
    pub device: AudioInputDevice,
    pub silence_limit_seconds: i32,
    pub noise_floor_db: i32,
    pub max_duration_seconds: i32,
    pub output_path: String,
}

impl RecordingRequest {
    /// The bounds the configuration guarantees.
    pub open spec fn wf(self) -> bool {
        self.silence_limit_seconds > 0 && self.noise_floor_db > 0 && self.max_duration_seconds
            >= 0
    }
}

/// The supervisor's progress through one capture.
#[derive(Clone, Copy, Debug, PartialEq, Eq, Structural)]
pub enum CapturePhase {
    Idle,
    Preparing,
    Recording,
    Stopping,
    Done,
    Failed,
}

/// The exit-status policy: ordinary success, the supervisor's own kill
/// signal, and the tool's immediate-stop exit code all count as success.
pub open spec fn spec_exit_success(success: bool, code: Option<i32>, signal: Option<i32>) -> bool {
    success || code == Some(255i32) || signal == Some(9i32)
}

/// The capture supervisor: owns the lifecycle of one recording subprocess
/// from version probe to exit classification.
pub struct CaptureSupervisor {
    pub request: RecordingRequest,
    pub phase: CapturePhase,
    pub monitor: SilenceMonitor,
    /// Whether the supervisor itself granted a kill, as opposed to the
    /// process exiting on its own.
    pub supervisor_killed: bool,
    pub failure: Option<CaptureError>,
}

impl CaptureSupervisor {
    /// The supervisor's invariant: a failure is recorded exactly in the
    /// failed phase, and the countdown model is well formed.
    pub open spec fn wf(self) -> bool {
        &&& self.monitor.wf()
        &&& self.request.wf()
        &&& (self.phase is Failed <==> self.failure is Some)
    }

    /// A supervisor for one request, not yet started.
    pub fn new(request: RecordingRequest) -> (s: Self)
        requires
            request.wf(),
        ensures
            s.wf(),
            s.phase is Idle,
            s.request == request,
            s.monitor.timers_started == 0,
            !s.supervisor_killed,
    {
        CaptureSupervisor {
            request,
            phase: CapturePhase::Idle,
            monitor: SilenceMonitor::new(),
            supervisor_killed: false,
            failure: None,
        }
    }

    /// Inspects the version probe's output.  The capture proceeds exactly
    /// when some line of it carries the version marker; a missing or silent
    /// tool fails the capture before any subprocess is spawned.
    pub fn on_version_probe(&mut self, probe_output: &str) -> (ok: bool)
        requires
            old(self).wf(),
            old(self).phase is Idle,
        ensures
            final(self).wf(),
            ok == contains_seq(probe_output@, version_marker()),
            ok ==> final(self).phase is Preparing,
            !ok ==> final(self).phase is Failed && final(self).failure == Some(
                CaptureError::BackendUnavailable,
            ),
            final(self).request == old(self).request,
            final(self).monitor == old(self).monitor,
    {
        if str_contains(probe_output, "ffmpeg version") {
            self.phase = CapturePhase::Preparing;
            true
        } else {
            self.phase = CapturePhase::Failed;
            self.failure = Some(CaptureError::BackendUnavailable);
            false
        }
    }

    /// Records whether the output directory could be created; failure to
    /// create it fails the capture with a storage error, before any
    /// subprocess is spawned.
    pub fn on_directory_ready(&mut self, created: bool)
        requires
            old(self).wf(),
            old(self).phase is Preparing,
        ensures
            final(self).wf(),
            created ==> final(self).phase is Preparing,
            !created ==> final(self).phase is Failed && final(self).failure == Some(
                CaptureError::StorageUnavailable,
            ),
            final(self).request == old(self).request,
            final(self).monitor == old(self).monitor,
    {
        if !created {
            self.phase = CapturePhase::Failed;
            self.failure = Some(CaptureError::StorageUnavailable);
        }
    }

    /// Records the outcome of spawning the recorder subprocess with its
    /// diagnostic stream piped: recording begins only when both succeeded.
    pub fn on_spawned(&mut self, spawned: bool, stream_attached: bool)
        requires
            old(self).wf(),
            old(self).phase is Preparing,
        ensures
            final(self).wf(),
            spawned && stream_attached ==> final(self).phase is Recording,
            !spawned ==> final(self).phase is Failed && final(self).failure == Some(
                CaptureError::BackendUnavailable,
            ),
            spawned && !stream_attached ==> final(self).phase is Failed && final(self).failure
                == Some(CaptureError::DiagnosticStreamUnavailable),
            final(self).request == old(self).request,
            final(self).monitor == old(self).monitor,
    {
        if !spawned {
            self.phase = CapturePhase::Failed;
            self.failure = Some(CaptureError::BackendUnavailable);
        } else if !stream_attached {
            self.phase = CapturePhase::Failed;
            self.failure = Some(CaptureError::DiagnosticStreamUnavailable);
        } else {
            self.phase = CapturePhase::Recording;
        }
    }

    /// Consumes one diagnostic line.  A silence-start marker arms a fresh
    /// countdown — the returned generation is the token the shell's timer
    /// task must present when it fires; a silence-end marker disarms; any
    /// other line leaves the monitor untouched.
    pub fn on_line(&mut self, line: &str) -> (timer: Option<u64>)
        requires
            old(self).wf(),
            old(self).phase is Recording,
            old(self).monitor.timers_started < u64::MAX,
        ensures
            final(self).wf(),
            (final(self).monitor, timer) == spec_line_step(old(self).monitor, line@),
            timer is Some ==> timer == Some(old(self).monitor.timers_started),
            final(self).phase == old(self).phase,
            final(self).request == old(self).request,
            final(self).supervisor_killed == old(self).supervisor_killed,
            final(self).failure == old(self).failure,
    {
        let mut timer: Option<u64> = None;
        if str_contains(line, "silence_start") {
            let g = self.monitor.arm();
            timer = Some(g);
        }
        if str_contains(line, "silence_end") {
            self.monitor.disarm();
        }
        timer
    }

    /// A timer task of generation `g` reached its deadline.  The kill is
    /// granted exactly when that generation is still live: not disarmed, not
    /// superseded by a newer countdown, and the process not already asked to
    /// exit.  The shell must kill the subprocess exactly when this returns
    /// true.
    pub fn on_timer_fired(&mut self, g: u64) -> (kill: bool)
        requires
            old(self).wf(),
            old(self).phase is Recording || old(self).phase is Stopping,
        ensures
            final(self).wf(),
            (final(self).monitor, kill) == spec_fire(old(self).monitor, g),
            kill == live(old(self).monitor, g),
            kill ==> final(self).supervisor_killed,
            !kill ==> final(self).supervisor_killed == old(self).supervisor_killed,
            final(self).phase == old(self).phase,
            final(self).request == old(self).request,
            final(self).failure == old(self).failure,
    {
        let kill = self.monitor.on_timer_fired(g);
        if kill {
            self.supervisor_killed = true;
        }
        kill
    }

    /// The diagnostic stream reached end of input: the process closed it,
    /// typically because it exited or was killed; the supervisor moves on to
    /// awaiting the exit status.
    pub fn on_stream_end(&mut self)
        requires
            old(self).wf(),
            old(self).phase is Recording,
        ensures
            final(self).wf(),
            final(self).phase is Stopping,
            final(self).monitor == old(self).monitor,
            final(self).request == old(self).request,
            final(self).supervisor_killed == old(self).supervisor_killed,
            final(self).failure == old(self).failure,
    {
        self.phase = CapturePhase::Stopping;
    }

    /// Classifies the process exit.  `exited` says whether an exit status
    /// could be obtained at all; `success`, `code` and `signal` describe it.
    /// Ordinary success, the supervisor's kill signal, and the tool's
    /// immediate-stop code are success and yield the output path; any other
    /// exit is a backend execution failure.  The partially written output
    /// file is left in place either way.
    pub fn on_exit(&mut self, exited: bool, success: bool, code: Option<i32>, signal: Option<
        i32,
    >) -> (r: Result<String, CaptureError>)
        requires
            old(self).wf(),
            old(self).phase is Stopping,
        ensures
            final(self).wf(),
            final(self).request == old(self).request,
            exited && spec_exit_success(success, code, signal) ==> final(self).phase is Done && r
                == Ok::<String, CaptureError>(old(self).request.output_path),
            exited && !spec_exit_success(success, code, signal) ==> final(self).phase is Failed
                && final(self).failure == Some(CaptureError::BackendExecutionFailed) && r == Err::<
                String,
                CaptureError,
            >(CaptureError::BackendExecutionFailed),
            !exited ==> final(self).phase is Failed && final(self).failure == Some(
                CaptureError::BackendExecutionFailed,
            ) && r == Err::<String, CaptureError>(CaptureError::BackendExecutionFailed),
    {
        if !exited {
            self.phase = CapturePhase::Failed;
            self.failure = Some(CaptureError::BackendExecutionFailed);
            return Err(CaptureError::BackendExecutionFailed);
        }
        let code_is_stop = match code {
            Some(c) => c == 255,
            None => false,
        };
        let signal_is_kill = match signal {
            Some(s) => s == 9,
            None => false,
        };
        if success || code_is_stop || signal_is_kill {
            self.phase = CapturePhase::Done;
            Ok(self.request.output_path.clone())
        } else {
            self.phase = CapturePhase::Failed;
            self.failure = Some(CaptureError::BackendExecutionFailed);
            Err(CaptureError::BackendExecutionFailed)
        }
    }
}

/// The timestamped output path for one capture under the recordings
/// directory.
pub fn recording_file_path(directory: &str, timestamp: &str) -> (p: String)
    ensures
        p@ == directory@ + "/audiocapture_"@ + timestamp@ + ".wav"@,
{
    let mut p = String::from_str(directory);
    p.append("/audiocapture_");
    p.append(timestamp);
    p.append(".wav");
    p
}

} // verus!
