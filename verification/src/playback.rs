use vstd::prelude::*;

use crate::error::PlayerError;

verus! {

/// What a caller can observe of the controller.
#[derive(Clone, Copy, Debug, PartialEq, Eq, Structural)]
pub enum PlaybackState {
    /// No session exists.
    Idle,
    /// The session's audio is being rendered.
    Playing,
    /// The session exists and its audio is held.
    Paused,
}

/// How an attempt to open a file for playback ended.
#[derive(Clone, Copy, Debug, PartialEq, Eq, Structural)]
pub enum OpenOutcome {
    /// The file is decoded and its sink is rendering.
    Opened,
    /// The file is missing or could not be read.
    FileUnreadable,
    /// The file's audio could not be decoded.
    DecodeFailed,
    /// The output device could not be set up.
    DeviceUnavailable,
}

/// What is to be done to the sink of a session after a toggle.
#[derive(Clone, Copy, Debug, PartialEq, Eq, Structural)]
pub enum SinkCommand {
    /// Hold the audio of this session.
    Pause(u64),
    /// Go on rendering the audio of this session.
    Resume(u64),
}

/// What is to be done for a request to play: first stop the session `stop`,
/// where there is one, then try to open the file as the session `session`.
#[derive(Clone, Copy, Debug, PartialEq, Eq, Structural)]
pub struct PlayPlan {
    /// The session to tear down before anything is opened.
    pub stop: Option<u64>,
    /// The number of the session that the file is opened as.
    pub session: u64,
}

/// Where the controller stands between two operations.
#[derive(Clone, Copy, Debug, PartialEq, Eq, Structural)]
enum Stage {
    Idle,
    Opening,
    Playing,
    Paused,
}

/// The one slot for a playback session, and the rules by which it changes.
///
/// The controller decides; its owner carries the decisions out on the audio
/// device and reports back how they went. At most one session exists at any
/// time: to play a file is to tear down the session before it first.
#[derive(Debug)]
pub struct PlaybackController {
    stage: Stage,
    session: u64,
    path: String,
}

/// The slot of a controller, as a mathematical value.
pub enum SlotView {
    /// No session exists and none is being opened.
    Idle,
    /// The old session is torn down and the file at `path` is being opened.
    Opening { path: Seq<char> },
    /// The session plays the file at `path`.
    Playing { path: Seq<char> },
    /// The session holds the file at `path`.
    Paused { path: Seq<char> },
}

/// The mathematical value of a `PlaybackController`: its slot, and the number
/// given to the latest request to play (0 before the first), which is the
/// number of the session in the slot. An idle controller holds no path.
pub struct ControllerView {
    pub slot: SlotView,
    pub session: u64,
}

impl ControllerView {
    /// The controller before any request.
    pub open spec fn initial() -> ControllerView {
        ControllerView { slot: SlotView::Idle, session: 0 }
    }

    /// What a caller observes: while a file is being opened no session exists yet.
    pub open spec fn state(self) -> PlaybackState {
        match self.slot {
            SlotView::Idle => PlaybackState::Idle,
            SlotView::Opening { .. } => PlaybackState::Idle,
            SlotView::Playing { .. } => PlaybackState::Playing,
            SlotView::Paused { .. } => PlaybackState::Paused,
        }
    }

    /// The number of the session that exists, if one does.
    pub open spec fn active_session(self) -> Option<u64> {
        match self.slot {
            SlotView::Playing { .. } => Some(self.session),
            SlotView::Paused { .. } => Some(self.session),
            _ => None,
        }
    }

    /// The file of the session that exists, if one does.
    pub open spec fn active_path(self) -> Option<Seq<char>> {
        match self.slot {
            SlotView::Playing { path } => Some(path),
            SlotView::Paused { path } => Some(path),
            _ => None,
        }
    }

    /// The number that the next request to play gives its session. It
    /// differs from the latest one; after `u64::MAX` the count starts again at 0.
    pub open spec fn next_session(self) -> u64 {
        if self.session == u64::MAX {
            0
        } else {
            (self.session + 1) as u64
        }
    }

    /// What a request to play asks of the owner.
    pub open spec fn play_plan(self) -> PlayPlan {
        PlayPlan { stop: self.active_session(), session: self.next_session() }
    }

    /// The controller after a request to play the file at `path`.
    pub open spec fn after_play_file(self, path: Seq<char>) -> ControllerView {
        ControllerView { slot: SlotView::Opening { path }, session: self.next_session() }
    }

    /// What the caller of `play` is told once the attempt to open has ended.
    pub open spec fn open_result(self, outcome: OpenOutcome) -> Result<u64, PlayerError> {
        match outcome {
            OpenOutcome::Opened => Ok(self.session),
            OpenOutcome::FileUnreadable => Err(PlayerError::MediaOpen),
            OpenOutcome::DecodeFailed => Err(PlayerError::PlaybackOpen),
            OpenOutcome::DeviceUnavailable => Err(PlayerError::PlaybackOpen),
        }
    }

    /// The controller after the attempt to open has ended.
    pub open spec fn after_open(self, outcome: OpenOutcome) -> ControllerView {
        match self.slot {
            SlotView::Opening { path } => if outcome == OpenOutcome::Opened {
                ControllerView { slot: SlotView::Playing { path }, session: self.session }
            } else {
                ControllerView { slot: SlotView::Idle, session: self.session }
            },
            _ => self,
        }
    }

    /// What a toggle returns.
    pub open spec fn pause_result(self) -> Result<SinkCommand, PlayerError> {
        match self.slot {
            SlotView::Playing { .. } => Ok(SinkCommand::Pause(self.session)),
            SlotView::Paused { .. } => Ok(SinkCommand::Resume(self.session)),
            _ => Err(PlayerError::NoActiveSession),
        }
    }

    /// The controller after a toggle.
    pub open spec fn after_pause_play(self) -> ControllerView {
        match self.slot {
            SlotView::Playing { path } => ControllerView {
                slot: SlotView::Paused { path },
                session: self.session,
            },
            SlotView::Paused { path } => ControllerView {
                slot: SlotView::Playing { path },
                session: self.session,
            },
            _ => self,
        }
    }

    /// Whether the end of the audio of `session` releases the slot: it does
    /// where `session` is the session that exists.
    pub open spec fn releases(self, session: u64) -> bool {
        self.active_session() == Some(session)
    }

    /// The controller after the audio of `session` has come to its end.
    pub open spec fn after_finished(self, session: u64) -> ControllerView {
        if self.releases(session) {
            ControllerView { slot: SlotView::Idle, session: self.session }
        } else {
            self
        }
    }
}

impl View for PlaybackController {
    type V = ControllerView;

    closed spec fn view(&self) -> ControllerView {
        ControllerView {
            slot: match self.stage {
                Stage::Idle => SlotView::Idle,
                Stage::Opening => SlotView::Opening { path: self.path@ },
                Stage::Playing => SlotView::Playing { path: self.path@ },
                Stage::Paused => SlotView::Paused { path: self.path@ },
            },
            session: self.session,
        }
    }
}

impl PlaybackController {
    #[verifier::type_invariant]
    spec fn idle_holds_no_path(&self) -> bool {
        self.stage == Stage::Idle ==> self.path@.len() == 0
    }

    /// A controller without a session.
    pub fn new() -> (controller: PlaybackController)
        ensures
            controller@ == ControllerView::initial(),
    {
        PlaybackController { stage: Stage::Idle, session: 0, path: String::new() }
    }

    /// What a caller observes: idle, playing or paused.
    pub fn state(&self) -> (state: PlaybackState)
        ensures
            state == self@.state(),
    {
        match self.stage {
            Stage::Idle => PlaybackState::Idle,
            Stage::Opening => PlaybackState::Idle,
            Stage::Playing => PlaybackState::Playing,
            Stage::Paused => PlaybackState::Paused,
        }
    }

    /// Whether a request to play waits for the outcome of its attempt to open.
    pub fn is_opening(&self) -> (opening: bool)
        ensures
            opening == (self@.slot is Opening),
    {
        match self.stage {
            Stage::Opening => true,
            _ => false,
        }
    }

    /// The number of the session that exists, if one does.
    pub fn current_session(&self) -> (session: Option<u64>)
        ensures
            session == self@.active_session(),
    {
        match self.stage {
            Stage::Playing => Some(self.session),
            Stage::Paused => Some(self.session),
            _ => None,
        }
    }

    /// The file of the session that exists, if one does.
    pub fn current_path(&self) -> (path: Option<&String>)
        ensures
            match path {
                Some(p) => self@.active_path() == Some(p@),
                None => self@.active_path() is None,
            },
    {
        match self.stage {
            Stage::Playing => Some(&self.path),
            Stage::Paused => Some(&self.path),
            _ => None,
        }
    }

    /// Takes a request to play the file at `path`.
    ///
    /// Whatever the state, the session that exists is given up: the plan
    /// names it, to be stopped before the file is opened, and the controller
    /// holds no session until `play_opened` reports that the new one renders.
    pub fn play_file(&mut self, path: String) -> (plan: PlayPlan)
        ensures
            plan == old(self)@.play_plan(),
            final(self)@ == old(self)@.after_play_file(path@),
    {
        let stop = self.current_session();
        let session: u64 = if self.session == u64::MAX {
            0
        } else {
            self.session + 1
        };
        self.stage = Stage::Opening;
        self.session = session;
        self.path = path;
        PlayPlan { stop, session }
    }

    /// Takes the outcome of the attempt to open that `play_file` asked for.
    ///
    /// Where the file was opened the session plays, and its number is
    /// returned. Where it was not the controller is idle: a file that could
    /// not be read is a `MediaOpen` error, audio that could not be decoded or
    /// a device that could not be set up a `PlaybackOpen` error.
    pub fn play_opened(&mut self, outcome: OpenOutcome) -> (started: Result<u64, PlayerError>)
        requires
            old(self)@.slot is Opening,
        ensures
            started == old(self)@.open_result(outcome),
            final(self)@ == old(self)@.after_open(outcome),
    {
        match outcome {
            OpenOutcome::Opened => {
                self.stage = Stage::Playing;
                Ok(self.session)
            },
            OpenOutcome::FileUnreadable => {
                self.release();
                Err(PlayerError::MediaOpen)
            },
            OpenOutcome::DecodeFailed => {
                self.release();
                Err(PlayerError::PlaybackOpen)
            },
            OpenOutcome::DeviceUnavailable => {
                self.release();
                Err(PlayerError::PlaybackOpen)
            },
        }
    }

    /// Toggles between playing and paused.
    ///
    /// With a session the controller goes over to the other of the two
    /// states and says what to do to the sink. Without one nothing changes
    /// and the toggle fails.
    pub fn pause_play(&mut self) -> (command: Result<SinkCommand, PlayerError>)
        ensures
            command == old(self)@.pause_result(),
            final(self)@ == old(self)@.after_pause_play(),
    {
        match self.stage {
            Stage::Playing => {
                self.stage = Stage::Paused;
                Ok(SinkCommand::Pause(self.session))
            },
            Stage::Paused => {
                self.stage = Stage::Playing;
                Ok(SinkCommand::Resume(self.session))
            },
            _ => Err(PlayerError::NoActiveSession),
        }
    }

    /// Takes the news that the audio of `session` has come to its end.
    ///
    /// Where that is the session in the slot, it is released and the
    /// controller is idle. News of a session that was given up before
    /// changes nothing. Returns whether the slot was released.
    pub fn playback_finished(&mut self, session: u64) -> (released: bool)
        ensures
            released == old(self)@.releases(session),
            final(self)@ == old(self)@.after_finished(session),
    {
        if self.current_session() == Some(session) {
            self.release();
            true
        } else {
            false
        }
    }

    /// Empties the slot.
    fn release(&mut self)
        ensures
            final(self)@ == (ControllerView { slot: SlotView::Idle, session: old(self)@.session }),
    {
        self.path = String::new();
        self.stage = Stage::Idle;
    }
}

/// Two toggles in a row change nothing. From playing, the first one pauses
/// the session and the second one resumes it.
pub proof fn lemma_toggle_twice_restores(controller: ControllerView)
    ensures
        controller.after_pause_play().after_pause_play() == controller,
        controller.state() == PlaybackState::Playing ==> {
            &&& controller.after_pause_play().state() == PlaybackState::Paused
            &&& controller.after_pause_play().after_pause_play().state() == PlaybackState::Playing
            &&& controller.pause_result() == Ok::<SinkCommand, PlayerError>(
                SinkCommand::Pause(controller.session),
            )
            &&& controller.after_pause_play().pause_result() == Ok::<SinkCommand, PlayerError>(
                SinkCommand::Resume(controller.session),
            )
        },
{
}

/// A toggle fails with `NoActiveSession` whenever no session exists, and so
/// before the first request to play; the controller stays as it is.
pub proof fn lemma_toggle_without_session_fails(controller: ControllerView)
    requires
        controller.state() == PlaybackState::Idle,
    ensures
        controller.pause_result() == Err::<SinkCommand, PlayerError>(PlayerError::NoActiveSession),
        controller.after_pause_play() == controller,
        ControllerView::initial().state() == PlaybackState::Idle,
        ControllerView::initial().pause_result() == Err::<SinkCommand, PlayerError>(
            PlayerError::NoActiveSession,
        ),
{
}

/// A request to play gives up the session before it, whatever its state and
/// however the new attempt to open ends: the plan stops that session before
/// anything is opened, the controller holds no session while the file is
/// being opened, and the session it holds afterwards, if any, is the new one
/// for the new file.
pub proof fn lemma_play_supersedes(controller: ControllerView, path: Seq<char>, outcome: OpenOutcome)
    ensures
        controller.play_plan().stop == controller.active_session(),
        controller.play_plan().session != controller.session,
        controller.after_play_file(path).active_session() is None,
        controller.after_play_file(path).state() == PlaybackState::Idle,
        ({
            let settled = controller.after_play_file(path).after_open(outcome);
            if outcome == OpenOutcome::Opened {
                &&& settled.state() == PlaybackState::Playing
                &&& settled.active_session() == Some(controller.play_plan().session)
                &&& settled.active_session() != controller.active_session()
                &&& settled.active_path() == Some(path)
            } else {
                &&& settled.state() == PlaybackState::Idle
                &&& settled.active_session() is None
                &&& controller.after_play_file(path).open_result(outcome) is Err
            }
        }),
{
}

/// Of two requests to play in a row, the second one stops the session of the
/// first before its own file is opened, and afterwards no session of the
/// first request is left: the slot holds the session of the second request,
/// or none where its file could not be opened.
pub proof fn lemma_second_play_replaces_first(
    controller: ControllerView,
    first: Seq<char>,
    second: Seq<char>,
    outcome: OpenOutcome,
)
    ensures
        ({
            let played = controller.after_play_file(first).after_open(OpenOutcome::Opened);
            let replaced = played.after_play_file(second).after_open(outcome);
            &&& played.state() == PlaybackState::Playing
            &&& played.active_path() == Some(first)
            &&& played.play_plan().stop == played.active_session()
            &&& played.play_plan().stop is Some
            &&& replaced.active_session() != played.active_session()
            &&& replaced.active_session() is Some ==> replaced.active_path() == Some(second)
            &&& replaced.after_finished(played.session) == replaced
        }),
{
}

/// A request to play whose file cannot be opened fails and leaves the
/// controller idle: with `MediaOpen` where the file could not be read, with
/// `PlaybackOpen` where its audio could not be decoded or the device could
/// not be set up. The session before it is stopped all the same.
pub proof fn lemma_failed_open_leaves_idle(
    controller: ControllerView,
    path: Seq<char>,
    outcome: OpenOutcome,
)
    requires
        outcome != OpenOutcome::Opened,
    ensures
        controller.play_plan().stop == controller.active_session(),
        controller.after_play_file(path).after_open(outcome).state() == PlaybackState::Idle,
        controller.after_play_file(path).after_open(outcome).slot is Idle,
        controller.after_play_file(path).open_result(outcome) == Err::<u64, PlayerError>(
            if outcome == OpenOutcome::FileUnreadable {
                PlayerError::MediaOpen
            } else {
                PlayerError::PlaybackOpen
            },
        ),
{
}

/// Once the audio of the session in the slot has come to its end the
/// controller is idle, and a toggle fails with `NoActiveSession`. News of any
/// other session leaves the controller as it is.
pub proof fn lemma_finished_session_is_released(controller: ControllerView, session: u64)
    ensures
        controller.active_session() == Some(session) ==> {
            &&& controller.after_finished(session).state() == PlaybackState::Idle
            &&& controller.after_finished(session).pause_result() == Err::<
                SinkCommand,
                PlayerError,
            >(PlayerError::NoActiveSession)
        },
        controller.active_session() != Some(session) ==> controller.after_finished(session)
            == controller,
{
}

} // verus!
