//! The recording session and the slot that holds at most one of them.
//!
//! Stopping takes two steps, because the caller must not hold the slot's lock
//! while it waits for the background unit: `stop_recording` requests the stop,
//! the caller joins the unit, and `stop_capture_session` clears the slot.

use crate::error::RecordingError;
use crate::recorder::RecordingConfig;
use crate::types::Region;
use vstd::prelude::*;

verus! {

/// Where the slot stands.
#[derive(Debug, Clone, Copy, PartialEq, Eq, Structural)]
pub enum SessionState {
    /// No session.
    Idle,
    /// A session runs and has not been asked to stop.
    Recording,
    /// The session was asked to stop and its background unit is being joined.
    Stopping,
}

/// One recording, as far as the slot has to know it: its cancellation signal.
/// The signal is set once and never taken back.
#[derive(Debug, Clone, PartialEq, Eq)]
pub struct RecordingSession {
    stop_requested: bool,
}

impl RecordingSession {
    /// The session was asked to stop.
    pub closed spec fn signalled(&self) -> bool {
        self.stop_requested
    }

    /// A session that runs.
    pub fn new() -> (s: RecordingSession)
        ensures
            !s.signalled(),
    {
        RecordingSession { stop_requested: false }
    }

    /// Asks the session to stop. The answer tells whether the caller now has
    /// to join the background unit: it has on the first request only.
    pub fn stop(&mut self) -> (join: bool)
        ensures
            final(self).signalled(),
            join == !old(self).signalled(),
    {
        let first = !self.stop_requested;
        self.stop_requested = true;
        first
    }

    /// Tells whether the session runs and has not been asked to stop.
    pub fn is_active(&self) -> (b: bool)
        ensures
            b == !self.signalled(),
    {
        !self.stop_requested
    }
}

/// The slot: the one place where a session lives. The caller keeps it behind
/// a lock and hands it to every operation.
#[derive(Debug, Clone, PartialEq, Eq)]
pub struct CaptureManager {
    session: Option<RecordingSession>,
}

impl View for CaptureManager {
    type V = SessionState;

    closed spec fn view(&self) -> SessionState {
        match self.session {
            None => SessionState::Idle,
            Some(s) => if s.signalled() {
                SessionState::Stopping
            } else {
                SessionState::Recording
            },
        }
    }
}

/// The state after a start is asked for in state `s`, and whether the start
/// succeeds.
pub open spec fn start_step(s: SessionState) -> (SessionState, bool) {
    match s {
        SessionState::Idle => (SessionState::Recording, true),
        _ => (s, false),
    }
}

/// The state after a stop is requested in state `s`.
pub open spec fn stop_step(s: SessionState) -> SessionState {
    match s {
        SessionState::Idle => SessionState::Idle,
        _ => SessionState::Stopping,
    }
}

/// The state after the slot is cleared in state `s`. Only a session that was
/// asked to stop is cleared: one that records stays.
pub open spec fn clear_step(s: SessionState) -> SessionState {
    match s {
        SessionState::Recording => SessionState::Recording,
        _ => SessionState::Idle,
    }
}

/// The state after `n` starts are asked for in a row, beginning in state `s`.
pub open spec fn after_starts(s: SessionState, n: nat) -> SessionState
    decreases n,
{
    if n == 0 {
        s
    } else {
        start_step(after_starts(s, (n - 1) as nat)).0
    }
}

/// While a session exists no second one starts: once the slot is taken,
/// every further start fails and leaves the session as it is, however many
/// are tried.
pub proof fn lemma_one_session_at_a_time(s: SessionState, n: nat)
    requires
        s != SessionState::Idle,
    ensures
        after_starts(s, n) == s,
        !start_step(after_starts(s, n)).1,
    decreases n,
{
    if n > 0 {
        lemma_one_session_at_a_time(s, (n - 1) as nat);
    }
}

/// A start succeeds exactly in the idle state, and the slot is taken after it.
pub proof fn lemma_start_takes_the_slot(s: SessionState)
    ensures
        start_step(s).1 <==> s == SessionState::Idle,
        start_step(s).1 ==> start_step(s).0 == SessionState::Recording,
        !start_step(s).1 ==> start_step(s).0 == s,
{
}

/// A stop without a session changes nothing, and no stop ever leads from
/// idle to stopping.
pub proof fn lemma_stop_when_idle(s: SessionState)
    ensures
        stop_step(SessionState::Idle) == SessionState::Idle,
        clear_step(SessionState::Idle) == SessionState::Idle,
        stop_step(s) == SessionState::Stopping ==> s != SessionState::Idle,
{
}

/// A session ends by way of stopping only: no single step leads from
/// recording to idle, and a request to stop followed by the clearing of the
/// slot does.
pub proof fn lemma_session_ends_by_stopping(s: SessionState)
    requires
        s == SessionState::Recording,
    ensures
        start_step(s).0 != SessionState::Idle,
        stop_step(s) != SessionState::Idle,
        clear_step(s) != SessionState::Idle,
        stop_step(s) == SessionState::Stopping,
        clear_step(stop_step(s)) == SessionState::Idle,
{
}

impl CaptureManager {
    /// An empty slot.
    pub fn new() -> (m: CaptureManager)
        ensures
            m@ == SessionState::Idle,
    {
        CaptureManager { session: None }
    }

    /// Where the slot stands.
    pub fn state(&self) -> (s: SessionState)
        ensures
            s == self@,
    {
        match &self.session {
            None => SessionState::Idle,
            Some(s) => if s.is_active() {
                SessionState::Recording
            } else {
                SessionState::Stopping
            },
        }
    }

    /// The cancellation signal as the frame pipeline reads it: set once the
    /// session has been asked to stop.
    pub fn stop_requested(&self) -> (b: bool)
        ensures
            b == (self@ == SessionState::Stopping),
    {
        match &self.session {
            None => false,
            Some(s) => !s.is_active(),
        }
    }

    /// Puts a new session into the slot.
    ///
    /// Fails with `AlreadyRecording` exactly when the slot is taken, by a
    /// session that runs or by one that is being stopped; that session is
    /// then left as it is.
    pub fn start_capture_session(&mut self) -> (res: Result<String, RecordingError>)
        ensures
            final(self)@ == start_step(old(self)@).0,
            res is Ok == start_step(old(self)@).1,
            res is Ok ==> res->Ok_0@ == "Recording started"@,
            res is Err ==> res->Err_0 == RecordingError::AlreadyRecording && *final(self) == *old(
                self,
            ),
    {
        if self.session.is_some() {
            return Err(RecordingError::AlreadyRecording);
        }
        self.session = Some(RecordingSession::new());
        Ok(String::from_str("Recording started"))
    }

    /// Clears the slot once the background unit has been joined, or has
    /// failed to be: `joined` says which.
    ///
    /// This is the second step of a stop, so it is not for a session that
    /// still records: such a session is first asked to stop by
    /// `stop_recording`. Fails with `NotRecording` exactly when the slot is
    /// empty. Otherwise the slot is empty afterwards, whatever `joined` says,
    /// and the call fails with `JoinFailed` exactly when `joined` is false.
    pub fn stop_capture_session(&mut self, joined: bool) -> (res: Result<String, RecordingError>)
        requires
            old(self)@ != SessionState::Recording,
        ensures
            final(self)@ == clear_step(old(self)@),
            final(self)@ == SessionState::Idle,
            old(self)@ == SessionState::Idle ==> res == Err::<String, RecordingError>(
                RecordingError::NotRecording,
            ) && *final(self) == *old(self),
            old(self)@ == SessionState::Stopping && !joined ==> res == Err::<
                String,
                RecordingError,
            >(RecordingError::JoinFailed),
            old(self)@ == SessionState::Stopping && joined ==> res is Ok && res->Ok_0@
                == "Recording stopped"@,
    {
        if self.session.is_none() {
            return Err(RecordingError::NotRecording);
        }
        self.session = None;
        if joined {
            Ok(String::from_str("Recording stopped"))
        } else {
            Err(RecordingError::JoinFailed)
        }
    }
}

/// Starts a recording.
///
/// `source_size` is the outcome of resolving the chosen source to a capture
/// item: the item's width and height, or the backend's account of why the
/// source cannot be captured. With a free slot and a resolved source the
/// session is entered into the slot and the result is the configuration to
/// run the frame pipeline with; the caller then spawns the background unit
/// and returns without waiting for a first frame.
///
/// Fails with `AlreadyRecording` exactly when the slot is taken, and otherwise
/// with `SourceResolutionFailed` exactly when the source was not resolved. A
/// failed start leaves the slot as it was.
pub fn start_recording(
    manager: &mut CaptureManager,
    source_size: Result<(u32, u32), String>,
    output_path: String,
    region: Option<Region>,
) -> (res: Result<RecordingConfig, RecordingError>)
    ensures
        old(manager)@ != SessionState::Idle ==> res == Err::<RecordingConfig, RecordingError>(
            RecordingError::AlreadyRecording,
        ),
        old(manager)@ == SessionState::Idle ==> match source_size {
            Err(e) => res == Err::<RecordingConfig, RecordingError>(
                RecordingError::SourceResolutionFailed(e),
            ),
            Ok((width, height)) => res == Ok::<RecordingConfig, RecordingError>(
                (RecordingConfig { width, height, output_path, region }),
            ),
        },
        res is Err ==> *final(manager) == *old(manager),
        res is Ok ==> final(manager)@ == SessionState::Recording,
{
    if manager.session.is_some() {
        return Err(RecordingError::AlreadyRecording);
    }
    match source_size {
        Err(e) => Err(RecordingError::SourceResolutionFailed(e)),
        Ok((width, height)) => {
            manager.session = Some(RecordingSession::new());
            Ok(RecordingConfig { width, height, output_path, region })
        },
    }
}

/// Requests the stop of the current recording.
///
/// Fails with `NotRecording` exactly when the slot is empty, and then leaves
/// it empty. Otherwise the cancellation signal is set, and the answer tells
/// whether the caller has to join the background unit (the first request) or
/// another caller is already doing so. The slot stays taken until
/// `stop_capture_session` clears it.
pub fn stop_recording(manager: &mut CaptureManager) -> (res: Result<bool, RecordingError>)
    ensures
        final(manager)@ == stop_step(old(manager)@),
        old(manager)@ == SessionState::Idle ==> res == Err::<bool, RecordingError>(
            RecordingError::NotRecording,
        ) && *final(manager) == *old(manager),
        old(manager)@ != SessionState::Idle ==> res == Ok::<bool, RecordingError>(
            old(manager)@ == SessionState::Recording,
        ),
{
    match &mut manager.session {
        None => Err(RecordingError::NotRecording),
        Some(session) => Ok(session.stop()),
    }
}

} // verus!
