//! The control of a capturer: starting, stopping, and the loop that runs in between.
use vstd::prelude::*;

verus! {

/// What a capturer has been told to do.
#[derive(Clone, Copy, Debug, PartialEq, Eq, Structural)]
pub enum CapturerState {
    /// Nothing yet.
    Ready,
    /// To capture.
    Started,
    /// To end.
    Stopped,
}

/// The state of a stream.
#[derive(Debug)]
pub enum StreamState {
    Error(String),
    Unconnected,
    Connecting,
    Paused,
    Streaming,
}

/// How far the loop of a capturer has come.
#[derive(Clone, Copy, Debug, PartialEq, Eq, Structural)]
pub enum LoopPhase {
    /// It waits to be told something.
    Waiting,
    /// It runs the stream.
    Running,
    /// It has ended.
    Ended,
}

/// What the loop of a capturer does next.
#[derive(Clone, Copy, Debug, PartialEq, Eq, Structural)]
pub enum LoopAction {
    /// Sleep for this many milliseconds.
    Sleep { millis: u64 },
    /// Run the stream for at most this many milliseconds.
    Iterate { millis: u64 },
    /// End.
    Exit,
}

/// What the user and the stream have told the loop of a capturer.
#[derive(Clone, Copy, Debug, PartialEq, Eq, Structural)]
pub struct CaptureControl {
    pub state: CapturerState,
    /// Whether the stream has failed.
    pub stream_error: bool,
}

impl CaptureControl {
    /// Nothing told yet.
    pub open spec fn initial() -> CaptureControl {
        CaptureControl { state: CapturerState::Ready, stream_error: false }
    }

    /// The user has told the capturer to start.
    pub open spec fn started(self) -> CaptureControl {
        CaptureControl { state: CapturerState::Started, stream_error: self.stream_error }
    }

    /// The user has told the capturer to stop.
    pub open spec fn stopped(self) -> CaptureControl {
        CaptureControl { state: CapturerState::Stopped, stream_error: self.stream_error }
    }

    /// The stream has gone to the state `new`.
    pub open spec fn told(self, new: StreamState) -> CaptureControl {
        CaptureControl { state: self.state, stream_error: self.stream_error || new is Error }
    }

    /// The loop ends unless the capturer was started and the stream has not failed.
    pub open spec fn runs(self) -> bool {
        self.state == CapturerState::Started && !self.stream_error
    }

    /// What the loop does next, and the phase that this leads to.
    pub open spec fn step(self, phase: LoopPhase) -> (LoopPhase, LoopAction) {
        if phase == LoopPhase::Waiting && self.state == CapturerState::Ready {
            (LoopPhase::Waiting, LoopAction::Sleep { millis: 10 })
        } else if phase != LoopPhase::Ended && self.runs() {
            (LoopPhase::Running, LoopAction::Iterate { millis: 100 })
        } else {
            (LoopPhase::Ended, LoopAction::Exit)
        }
    }

    /// The control of a capturer that has been told nothing.
    pub fn new() -> (control: CaptureControl)
        ensures
            control == CaptureControl::initial(),
            control.state is Ready,
            !control.stream_error,
    {
        CaptureControl { state: CapturerState::Ready, stream_error: false }
    }

    /// Tells the capturer to start.
    pub fn start_capture(&mut self)
        ensures
            *final(self) == old(self).started(),
            final(self).state is Started,
            final(self).stream_error == old(self).stream_error,
    {
        self.state = CapturerState::Started;
    }

    /// Tells the capturer to stop. Its loop is to be awaited next, and
    /// [`CaptureControl::stop_finished`] follows.
    pub fn stop_capture(&mut self)
        ensures
            *final(self) == old(self).stopped(),
            final(self).state is Stopped,
            final(self).stream_error == old(self).stream_error,
    {
        self.state = CapturerState::Stopped;
    }

    /// Makes way for the next capture, once the loop has ended.
    pub fn stop_finished(&mut self)
        ensures
            *final(self) == CaptureControl::initial(),
            final(self).state is Ready,
            !final(self).stream_error,
    {
        self.state = CapturerState::Ready;
        self.stream_error = false;
    }

    /// Takes a change of the stream's state in. What is returned is to be reported.
    pub fn state_changed(&mut self, new: StreamState) -> (report: Option<String>)
        ensures
            *final(self) == old(self).told(new),
            final(self).state == old(self).state,
            final(self).stream_error <==> old(self).stream_error || new is Error,
            match new {
                StreamState::Error(message) => report == Some(message),
                _ => report is None,
            },
    {
        match new {
            StreamState::Error(message) => {
                self.stream_error = true;
                Some(message)
            },
            _ => None,
        }
    }

    /// Decides what the loop does next in `phase`.
    pub fn next_action(&self, phase: LoopPhase) -> (next: (LoopPhase, LoopAction))
        ensures
            next == self.step(phase),
            next.1 is Sleep <==> phase is Waiting && self.state is Ready,
            next.1 is Iterate <==> phase !is Ended && self.state is Started && !self.stream_error,
    {
        match phase {
            LoopPhase::Waiting => {
                if self.state == CapturerState::Ready {
                    return (LoopPhase::Waiting, LoopAction::Sleep { millis: 10 });
                }
            },
            LoopPhase::Running => {},
            LoopPhase::Ended => {
                return (LoopPhase::Ended, LoopAction::Exit);
            },
        }
        if self.state == CapturerState::Started && !self.stream_error {
            (LoopPhase::Running, LoopAction::Iterate { millis: 100 })
        } else {
            (LoopPhase::Ended, LoopAction::Exit)
        }
    }
}

/// The phase of the loop after it has seen each of `controls` in turn.
pub open spec fn phase_after(phase: LoopPhase, controls: Seq<CaptureControl>) -> LoopPhase
    decreases controls.len(),
{
    if controls.len() == 0 {
        phase
    } else {
        phase_after(controls[0].step(phase).0, controls.drop_first())
    }
}

/// A capturer that was told to stop ends its loop at the next step, whether it had been
/// started or not.
pub proof fn law_stop_ends_loop(control: CaptureControl, phase: LoopPhase)
    ensures
        control.stopped().step(phase) == (LoopPhase::Ended, LoopAction::Exit),
{
}

/// A failed stream ends the loop of a capturer that is running.
pub proof fn law_error_ends_loop(control: CaptureControl, message: String)
    ensures
        control.told(StreamState::Error(message)).step(LoopPhase::Running) == (
            LoopPhase::Ended,
            LoopAction::Exit,
        ),
{
}

/// The stream is run only for a capturer that was started and whose stream has not
/// failed.
pub proof fn law_iterates_only_when_started(control: CaptureControl, phase: LoopPhase)
    ensures
        control.step(phase).1 is Iterate ==> control.runs(),
        control.step(phase).1 is Iterate <==> control.step(phase).0 is Running,
{
}

/// A capturer waits for as long as it is told nothing, and runs once it is started.
pub proof fn law_waits_until_started(control: CaptureControl)
    requires
        control.state == CapturerState::Ready,
    ensures
        control.step(LoopPhase::Waiting) == (
            LoopPhase::Waiting,
            LoopAction::Sleep { millis: 10 },
        ),
        !control.stream_error ==> control.started().step(LoopPhase::Waiting) == (
            LoopPhase::Running,
            LoopAction::Iterate { millis: 100 },
        ),
{
}

/// A loop that has stopped waiting never waits again, and one that has ended stays so,
/// whatever it is told.
pub proof fn law_phases_advance(phase: LoopPhase, controls: Seq<CaptureControl>)
    ensures
        phase != LoopPhase::Waiting ==> phase_after(phase, controls) != LoopPhase::Waiting,
        phase == LoopPhase::Ended ==> phase_after(phase, controls) == LoopPhase::Ended,
    decreases controls.len(),
{
    if controls.len() > 0 {
        law_phases_advance(controls[0].step(phase).0, controls.drop_first());
    }
}

/// What the loop does is told by the phase, what the user has told and whether the stream
/// has failed: it sleeps ten milliseconds as long as it waits and is told nothing, it runs
/// the stream for a hundred in a capture that was started and has not failed, and in all
/// other cases it ends. The phase follows what is done.
pub proof fn law_loop_course(control: CaptureControl, phase: LoopPhase)
    ensures
        ({
            let (next, action) = control.step(phase);
            &&& action is Sleep <==> phase is Waiting && control.state is Ready
            &&& action is Iterate <==> phase !is Ended && control.state is Started
                && !control.stream_error
            &&& action is Sleep ==> action->Sleep_millis == 10
            &&& action is Iterate ==> action->Iterate_millis == 100
            &&& action is Sleep <==> next is Waiting
            &&& action is Iterate <==> next is Running
            &&& action is Exit <==> next is Ended
        }),
{
}

/// A change of the stream's state never changes what the user has told the capturer, and
/// one to anything but an error changes nothing at all: the loop goes on as before.
pub proof fn law_stream_state_is_no_order(
    control: CaptureControl,
    new: StreamState,
    phase: LoopPhase,
)
    ensures
        control.told(new).state == control.state,
        new !is Error ==> control.told(new) == control,
        new !is Error ==> control.told(new).step(phase) == control.step(phase),
        new is Error ==> control.told(new).stream_error,
        control.stream_error ==> control.told(new).stream_error,
{
}

/// A capturer that was started and whose stream has not failed goes on to run the stream
/// after any change of the stream's state but an error.
pub proof fn law_capture_outlives_stream_states(
    control: CaptureControl,
    new: StreamState,
    phase: LoopPhase,
)
    requires
        !control.stream_error,
        new !is Error,
        phase !is Ended,
    ensures
        control.started().told(new).step(phase) == (
            LoopPhase::Running,
            LoopAction::Iterate { millis: 100 },
        ),
{
}

/// What the user tells the capturer is taken as it is told, the last order counts, and
/// neither starting nor stopping forgets or feigns a failure of the stream.
pub proof fn law_orders(control: CaptureControl)
    ensures
        CaptureControl::initial().state is Ready,
        !CaptureControl::initial().stream_error,
        control.started().state is Started,
        control.stopped().state is Stopped,
        control.started().stream_error == control.stream_error,
        control.stopped().stream_error == control.stream_error,
        control.stopped().started() == control.started(),
        control.started().stopped() == control.stopped(),
{
}

/// The two failures of a setup are told apart by these words.
pub proof fn law_setup_error_text()
    ensures
        SetupError::NoAnswer.text() == "Failed to receive"@,
        SetupError::Failed.text() == "Failed to setup capturer"@,
{
}

/// How the thread of a capturer failed to come up.
#[derive(Clone, Copy, Debug, PartialEq, Eq, Structural)]
pub enum SetupError {
    /// It ended without a word.
    NoAnswer,
    /// It said that it failed.
    Failed,
}

impl SetupError {
    /// What to tell the user.
    pub open spec fn text(self) -> Seq<char> {
        match self {
            SetupError::NoAnswer => "Failed to receive"@,
            SetupError::Failed => "Failed to setup capturer"@,
        }
    }

    /// What to tell the user.
    pub fn message(&self) -> (message: &'static str)
        ensures
            message@ == self.text(),
    {
        match self {
            SetupError::NoAnswer => "Failed to receive",
            SetupError::Failed => "Failed to setup capturer",
        }
    }
}

/// Judges the first answer of a capturer's thread, `None` where none came: only `true`
/// says that the stream is set up.
pub fn setup_outcome(answer: Option<bool>) -> (outcome: Result<(), SetupError>)
    ensures
        outcome == (match answer {
            Some(true) => Ok(()),
            Some(false) => Err(SetupError::Failed),
            None => Err(SetupError::NoAnswer),
        }),
{
    match answer {
        Some(ready) => {
            if ready {
                Ok(())
            } else {
                Err(SetupError::Failed)
            }
        },
        None => Err(SetupError::NoAnswer),
    }
}

} // verus!
