//! The capture controller: an edge-triggered state machine that opens one
//! streaming request when the button goes down, feeds it one encoded chunk of
//! audio per tick while the button is held, and closes it when the button
//! comes up.
//!
//! The controller performs no I/O. Its surroundings hand it an [`Event`], it
//! answers with an [`Action`], and the surroundings report how that action
//! went with the next event. One tick of the scheduler starts with
//! [`Event::ButtonSampled`] and is over when the controller answers
//! [`Action::EndTick`].

use crate::base64::{base64_text, encoded_len};
use crate::encoder::encode_base64;
use vstd::prelude::*;

verus! {

/// The size of the buffer that one read of the microphone fills, in bytes:
/// about 27 ms of 16-bit mono audio at 44.1 kHz, and a multiple of three.
pub const CHUNK_CAPACITY: usize = 4800;

/// How long one read of the microphone may wait for data, in ticks.
pub const READ_TIMEOUT_TICKS: u32 = 2;

/// The pause at the end of every tick, in milliseconds.
pub const TICK_PERIOD_MS: u32 = 1;

/// The additional pause after a chunk was written, in milliseconds. It keeps
/// the writes in step with the rate at which the microphone produces samples.
pub const WRITE_PACING_MS: u32 = 20;

/// The name of the one header that every request carries.
pub const CONTENT_TYPE_HEADER: &'static str = "content-type";

/// The value of that header: the body is base64 text.
pub const CONTENT_TYPE: &'static str = "text/plain";

/// The operation of the surroundings that went wrong.
#[derive(Clone, Copy, Debug, PartialEq, Eq, Structural)]
pub enum Failure {
    /// The request could not be opened.
    Connect,
    /// The microphone could not be read.
    Read,
    /// A chunk could not be written, or was written only in part.
    Write,
    /// The buffered body could not be flushed.
    Flush,
    /// The request could not be finalized.
    Finalize,
}

/// What the controller waits to be told next.
#[derive(Clone, Copy, Debug, PartialEq, Eq, Structural)]
pub enum Awaiting {
    /// The level of the button at the start of the next tick.
    ButtonSample,
    /// Whether the request was opened.
    OpenResult,
    /// The chunk that the microphone gave.
    ReadResult,
    /// How much of the text of a chunk of `chunk_len` raw bytes the request
    /// took.
    WriteResult { chunk_len: usize },
    /// Whether the body was flushed.
    FlushResult,
    /// The status that the request ended with.
    FinalizeResult,
}

/// What the surroundings report to the controller.
#[derive(Clone, Copy, Debug, PartialEq, Eq)]
pub enum Event<'a> {
    /// A tick begins, and the button is pressed (`true`) or not.
    ButtonSampled { level_active: bool },
    /// The request is open.
    SessionOpened,
    /// The request could not be opened.
    SessionOpenFailed,
    /// The microphone was read; `bytes` is what it gave within the timeout,
    /// which may be nothing.
    ChunkRead { bytes: &'a [u8] },
    /// The microphone could not be read.
    ChunkReadFailed,
    /// The request took `bytes_written` bytes of the text.
    ChunkWritten { bytes_written: usize },
    /// The text could not be written.
    ChunkWriteFailed,
    /// The buffered body was handed to the transport.
    SessionFlushed,
    /// The buffered body could not be flushed.
    SessionFlushFailed,
    /// The request was submitted and answered with `status`.
    SessionFinalized { status: u16 },
    /// The request could not be finalized.
    SessionFinalizeFailed,
}

/// What there is to tell about a tick once it is over.
#[derive(Clone, Copy, Debug, PartialEq, Eq, Structural)]
pub enum Report {
    /// Nothing.
    Nothing,
    /// An operation failed. After [`Failure::Read`] the session goes on; after
    /// any other failure no session is open, and the surroundings drop what
    /// they hold of it.
    Failed(Failure),
    /// A session was finalized: the status of the response, and the number of
    /// raw bytes that were read and passed on while the session was open.
    Completed { status: u16, total_bytes_written: u64 },
}

/// What the controller asks of its surroundings.
#[derive(Debug, PartialEq, Eq)]
pub enum Action {
    /// Open the streaming request, a POST to the configured endpoint with the
    /// header [`CONTENT_TYPE_HEADER`] set to [`CONTENT_TYPE`] and a body of no
    /// stated length, and report [`Event::SessionOpened`] or
    /// [`Event::SessionOpenFailed`].
    OpenSession,
    /// Read the microphone into a buffer of `capacity` bytes, waiting at most
    /// `timeout_ticks`, and report [`Event::ChunkRead`] or
    /// [`Event::ChunkReadFailed`].
    ReadChunk { capacity: usize, timeout_ticks: u32 },
    /// Append the bytes of `text` to the body of the request, and report
    /// [`Event::ChunkWritten`] or [`Event::ChunkWriteFailed`].
    WriteChunk { text: String },
    /// Flush the body of the request, and report [`Event::SessionFlushed`] or
    /// [`Event::SessionFlushFailed`].
    FlushSession,
    /// Submit the request, wait for the status of the response, and report
    /// [`Event::SessionFinalized`] or [`Event::SessionFinalizeFailed`].
    FinalizeSession,
    /// The tick is over: pause for `pause_ms`, then sample the button and
    /// report [`Event::ButtonSampled`].
    EndTick { pause_ms: u32, report: Report },
}

/// The event did not answer what the controller was waiting for.
#[derive(Clone, Copy, Debug, PartialEq, Eq, Structural)]
pub struct UnexpectedEvent {
    /// What the controller was, and still is, waiting for.
    pub awaited: Awaiting,
}

/// The two states of the controller as its surroundings see them.
#[derive(Clone, Copy, Debug, PartialEq, Eq, Structural)]
pub enum ControllerState {
    /// No session is open.
    Idle,
    /// A session is open.
    Capturing,
}

/// The one capture session that may be live.
#[derive(Clone, Copy, Debug, PartialEq, Eq, Structural)]
pub struct CaptureSession {
    /// The raw bytes read from the microphone and passed on, as text, since
    /// the session was opened. The count stops at `u64::MAX`.
    pub total_bytes_written: u64,
}

/// An [`Event`] as a mathematical value.
pub enum EventView {
    ButtonSampled { level_active: bool },
    SessionOpened,
    SessionOpenFailed,
    ChunkRead { bytes: Seq<u8> },
    ChunkReadFailed,
    ChunkWritten { bytes_written: usize },
    ChunkWriteFailed,
    SessionFlushed,
    SessionFlushFailed,
    SessionFinalized { status: u16 },
    SessionFinalizeFailed,
}

/// An [`Action`] as a mathematical value.
pub enum ActionView {
    OpenSession,
    ReadChunk { capacity: usize, timeout_ticks: u32 },
    WriteChunk { text: Seq<char> },
    FlushSession,
    FinalizeSession,
    EndTick { pause_ms: u32, report: Report },
}

impl<'a> View for Event<'a> {
    type V = EventView;

    open spec fn view(&self) -> EventView {
        match *self {
            Event::ButtonSampled { level_active } => EventView::ButtonSampled { level_active },
            Event::SessionOpened => EventView::SessionOpened,
            Event::SessionOpenFailed => EventView::SessionOpenFailed,
            Event::ChunkRead { bytes } => EventView::ChunkRead { bytes: bytes@ },
            Event::ChunkReadFailed => EventView::ChunkReadFailed,
            Event::ChunkWritten { bytes_written } => EventView::ChunkWritten { bytes_written },
            Event::ChunkWriteFailed => EventView::ChunkWriteFailed,
            Event::SessionFlushed => EventView::SessionFlushed,
            Event::SessionFlushFailed => EventView::SessionFlushFailed,
            Event::SessionFinalized { status } => EventView::SessionFinalized { status },
            Event::SessionFinalizeFailed => EventView::SessionFinalizeFailed,
        }
    }
}

impl View for Action {
    type V = ActionView;

    open spec fn view(&self) -> ActionView {
        match *self {
            Action::OpenSession => ActionView::OpenSession,
            Action::ReadChunk { capacity, timeout_ticks } => ActionView::ReadChunk {
                capacity,
                timeout_ticks,
            },
            Action::WriteChunk { text } => ActionView::WriteChunk { text: text@ },
            Action::FlushSession => ActionView::FlushSession,
            Action::FinalizeSession => ActionView::FinalizeSession,
            Action::EndTick { pause_ms, report } => ActionView::EndTick { pause_ms, report },
        }
    }
}

/// The controller as a mathematical value.
pub struct ControllerModel {
    /// The raw bytes counted in the open session, or `None` where no session
    /// is open.
    pub session: Option<nat>,
    /// The level of the button at the last sample: the one piece of state
    /// that makes the controller react to edges and not to levels.
    pub previous_level_was_active: bool,
    /// What the controller waits to be told next.
    pub awaiting: Awaiting,
    /// The status of the last session that was finalized.
    pub last_status: Option<u16>,
}

impl ControllerModel {
    /// The controller before the first tick: idle, the button taken as
    /// released.
    pub open spec fn initial() -> ControllerModel {
        ControllerModel {
            session: None,
            previous_level_was_active: false,
            awaiting: Awaiting::ButtonSample,
            last_status: None,
        }
    }

    /// What holds of every controller. A session is open only while the
    /// button was last seen pressed, or while that session is being closed;
    /// it is being opened, read for or written to only with the button
    /// pressed, and being closed only with the button released; and its count
    /// fits the counter.
    pub open spec fn wf(self) -> bool {
        &&& match self.awaiting {
            Awaiting::ButtonSample => self.session is Some ==> self.previous_level_was_active,
            Awaiting::OpenResult => self.session is None && self.previous_level_was_active,
            Awaiting::ReadResult => self.session is Some && self.previous_level_was_active,
            Awaiting::WriteResult { .. } => self.session is Some && self.previous_level_was_active,
            Awaiting::FlushResult => self.session is Some && !self.previous_level_was_active,
            Awaiting::FinalizeResult => self.session is Some && !self.previous_level_was_active,
        }
        &&& self.session matches Some(total) ==> total <= u64::MAX
    }

    /// The state that the surroundings see.
    pub open spec fn state(self) -> ControllerState {
        if self.session is Some {
            ControllerState::Capturing
        } else {
            ControllerState::Idle
        }
    }
}

/// Whether `event` answers what is awaited.
pub open spec fn answers(awaiting: Awaiting, event: EventView) -> bool {
    match awaiting {
        Awaiting::ButtonSample => event is ButtonSampled,
        Awaiting::OpenResult => event is SessionOpened || event is SessionOpenFailed,
        Awaiting::ReadResult => event is ChunkRead || event is ChunkReadFailed,
        Awaiting::WriteResult { .. } => event is ChunkWritten || event is ChunkWriteFailed,
        Awaiting::FlushResult => event is SessionFlushed || event is SessionFlushFailed,
        Awaiting::FinalizeResult => event is SessionFinalized || event is SessionFinalizeFailed,
    }
}

/// `total + more`, stopping at the largest value of the counter.
pub open spec fn counted(total: nat, more: nat) -> nat {
    if total + more > u64::MAX {
        u64::MAX as nat
    } else {
        total + more
    }
}

/// The action that ends a tick in which nothing is to be reported.
pub open spec fn quiet_end() -> ActionView {
    ActionView::EndTick { pause_ms: TICK_PERIOD_MS, report: Report::Nothing }
}

/// The action that ends a tick in which `failure` occurred.
pub open spec fn failed_end(failure: Failure) -> ActionView {
    ActionView::EndTick { pause_ms: TICK_PERIOD_MS, report: Report::Failed(failure) }
}

/// The action that asks for one chunk of audio.
pub open spec fn read_chunk() -> ActionView {
    ActionView::ReadChunk { capacity: CHUNK_CAPACITY, timeout_ticks: READ_TIMEOUT_TICKS }
}

/// `m` with the session gone and the next tick awaited.
pub open spec fn without_session(m: ControllerModel) -> ControllerModel {
    ControllerModel { session: None, awaiting: Awaiting::ButtonSample, ..m }
}

/// `m` with the next tick awaited.
pub open spec fn at_rest(m: ControllerModel) -> ControllerModel {
    ControllerModel { awaiting: Awaiting::ButtonSample, ..m }
}

/// The transition of the controller: the controller after `event`, and the
/// action that it answers with. It is meant for an event that answers what
/// `m` awaits.
///
/// * A button sample is remembered in any case. With no session open, a
///   press, that is an active level after an inactive one, asks for a session
///   to be opened; any other sample ends the tick. With a session open, an
///   active level asks for a chunk of audio, and a release, an inactive level
///   after an active one, asks for the body to be flushed.
/// * A session that was opened starts counting at zero and asks for its first
///   chunk within the same tick. One that could not be opened leaves the
///   controller idle; the button has to go up and down again for another try.
/// * A chunk that holds bytes is counted and passed on as base64 text. An
///   empty chunk, or a read that failed, adds nothing and ends the tick; the
///   session stays open.
/// * A write that took the whole text ends the tick after the pacing pause.
///   One that failed or took only a part of the text ends the session.
/// * A flush that succeeded asks for the request to be finalized. One that
///   failed ends the session.
/// * Finalizing ends the session, however it went; the status of a response
///   is remembered and reported with the count.
pub open spec fn step_model(m: ControllerModel, event: EventView) -> (ControllerModel, ActionView)
    recommends
        m.wf(),
        answers(m.awaiting, event),
{
    match event {
        EventView::ButtonSampled { level_active } => {
            let sampled = ControllerModel { previous_level_was_active: level_active, ..m };
            if m.session is Some {
                if level_active {
                    (ControllerModel { awaiting: Awaiting::ReadResult, ..sampled }, read_chunk())
                } else if m.previous_level_was_active {
                    (
                        ControllerModel { awaiting: Awaiting::FlushResult, ..sampled },
                        ActionView::FlushSession,
                    )
                } else {
                    (sampled, quiet_end())
                }
            } else if level_active && !m.previous_level_was_active {
                (
                    ControllerModel { awaiting: Awaiting::OpenResult, ..sampled },
                    ActionView::OpenSession,
                )
            } else {
                (sampled, quiet_end())
            }
        },
        EventView::SessionOpened => (
            ControllerModel { session: Some(0nat), awaiting: Awaiting::ReadResult, ..m },
            read_chunk(),
        ),
        EventView::SessionOpenFailed => (without_session(m), failed_end(Failure::Connect)),
        EventView::ChunkRead { bytes } => if bytes.len() == 0 {
            (at_rest(m), quiet_end())
        } else {
            (
                ControllerModel {
                    session: Some(counted(m.session.unwrap(), bytes.len())),
                    awaiting: Awaiting::WriteResult { chunk_len: bytes.len() as usize },
                    ..m
                },
                ActionView::WriteChunk { text: base64_text(bytes) },
            )
        },
        EventView::ChunkReadFailed => (at_rest(m), failed_end(Failure::Read)),
        EventView::ChunkWritten { bytes_written } => if m.awaiting matches Awaiting::WriteResult {
            chunk_len,
        } && bytes_written == encoded_len(chunk_len as nat) {
            (
                at_rest(m),
                ActionView::EndTick {
                    pause_ms: (WRITE_PACING_MS + TICK_PERIOD_MS) as u32,
                    report: Report::Nothing,
                },
            )
        } else {
            (without_session(m), failed_end(Failure::Write))
        },
        EventView::ChunkWriteFailed => (without_session(m), failed_end(Failure::Write)),
        EventView::SessionFlushed => (
            ControllerModel { awaiting: Awaiting::FinalizeResult, ..m },
            ActionView::FinalizeSession,
        ),
        EventView::SessionFlushFailed => (without_session(m), failed_end(Failure::Flush)),
        EventView::SessionFinalized { status } => (
            ControllerModel { last_status: Some(status), ..without_session(m) },
            ActionView::EndTick {
                pause_ms: TICK_PERIOD_MS,
                report: Report::Completed {
                    status,
                    total_bytes_written: m.session.unwrap() as u64,
                },
            },
        ),
        EventView::SessionFinalizeFailed => (without_session(m), failed_end(Failure::Finalize)),
    }
}

/// Every transition on an event that answers what is awaited leads from a
/// well-formed controller to a well-formed one.
pub proof fn lemma_step_preserves_wf(m: ControllerModel, event: EventView)
    requires
        m.wf(),
        answers(m.awaiting, event),
    ensures
        step_model(m, event).0.wf(),
{
}

/// The edge-triggered capture controller.
pub struct CaptureController {
    session: Option<CaptureSession>,
    previous_level_was_active: bool,
    awaiting: Awaiting,
    last_status: Option<u16>,
}

impl View for CaptureController {
    type V = ControllerModel;

    closed spec fn view(&self) -> ControllerModel {
        ControllerModel {
            session: match self.session {
                Some(session) => Some(session.total_bytes_written as nat),
                None => None,
            },
            previous_level_was_active: self.previous_level_was_active,
            awaiting: self.awaiting,
            last_status: self.last_status,
        }
    }
}

impl CaptureController {
    #[verifier::type_invariant]
    closed spec fn well_formed(self) -> bool {
        self@.wf()
    }

    /// A controller before its first tick: idle, with the button taken as
    /// released, waiting for the first sample.
    pub fn new() -> (controller: CaptureController)
        ensures
            controller@ == ControllerModel::initial(),
            controller@.wf(),
    {
        CaptureController {
            session: None,
            previous_level_was_active: false,
            awaiting: Awaiting::ButtonSample,
            last_status: None,
        }
    }

    /// Takes one event and answers with the next action.
    ///
    /// An event that answers what the controller awaits is handled as
    /// [`step_model`] says. Any other event is refused and changes nothing.
    pub fn step(&mut self, event: Event<'_>) -> (result: Result<Action, UnexpectedEvent>)
        ensures
            old(self)@.wf(),
            final(self)@.wf(),
            answers(old(self)@.awaiting, event@) ==> result is Ok && (final(self)@, result->Ok_0@)
                == step_model(old(self)@, event@),
            !answers(old(self)@.awaiting, event@) ==> result == Err::<Action, UnexpectedEvent>(
                UnexpectedEvent { awaited: old(self)@.awaiting },
            ) && final(self)@ == old(self)@,
    {
        proof {
            use_type_invariant(&*self);
        }
        let session = self.session;
        let previous = self.previous_level_was_active;
        let awaiting = self.awaiting;
        let last_status = self.last_status;
        let quiet = Action::EndTick { pause_ms: TICK_PERIOD_MS, report: Report::Nothing };
        let read = Action::ReadChunk {
            capacity: CHUNK_CAPACITY,
            timeout_ticks: READ_TIMEOUT_TICKS,
        };
        let (next, action) = match (awaiting, event, session) {
            (Awaiting::ButtonSample, Event::ButtonSampled { level_active }, Some(_)) => {
                if level_active {
                    (
                        CaptureController {
                            session,
                            previous_level_was_active: level_active,
                            awaiting: Awaiting::ReadResult,
                            last_status,
                        },
                        read,
                    )
                } else {
                    (
                        CaptureController {
                            session,
                            previous_level_was_active: level_active,
                            awaiting: Awaiting::FlushResult,
                            last_status,
                        },
                        Action::FlushSession,
                    )
                }
            },
            (Awaiting::ButtonSample, Event::ButtonSampled { level_active }, None) => {
                if level_active && !previous {
                    (
                        CaptureController {
                            session,
                            previous_level_was_active: level_active,
                            awaiting: Awaiting::OpenResult,
                            last_status,
                        },
                        Action::OpenSession,
                    )
                } else {
                    (
                        CaptureController {
                            session,
                            previous_level_was_active: level_active,
                            awaiting,
                            last_status,
                        },
                        quiet,
                    )
                }
            },
            (Awaiting::OpenResult, Event::SessionOpened, _) => (
                CaptureController {
                    session: Some(CaptureSession { total_bytes_written: 0 }),
                    previous_level_was_active: previous,
                    awaiting: Awaiting::ReadResult,
                    last_status,
                },
                read,
            ),
            (Awaiting::OpenResult, Event::SessionOpenFailed, _) => (
                Self::idle(previous, last_status),
                Self::failed(Failure::Connect),
            ),
            (Awaiting::ReadResult, Event::ChunkRead { bytes }, Some(open)) => {
                if bytes.len() == 0 {
                    (
                        CaptureController {
                            session,
                            previous_level_was_active: previous,
                            awaiting: Awaiting::ButtonSample,
                            last_status,
                        },
                        quiet,
                    )
                } else {
                    let total = open.total_bytes_written.saturating_add(bytes.len() as u64);
                    (
                        CaptureController {
                            session: Some(CaptureSession { total_bytes_written: total }),
                            previous_level_was_active: previous,
                            awaiting: Awaiting::WriteResult { chunk_len: bytes.len() },
                            last_status,
                        },
                        Action::WriteChunk { text: encode_base64(bytes) },
                    )
                }
            },
            (Awaiting::ReadResult, Event::ChunkReadFailed, _) => (
                CaptureController {
                    session,
                    previous_level_was_active: previous,
                    awaiting: Awaiting::ButtonSample,
                    last_status,
                },
                Self::failed(Failure::Read),
            ),
            (Awaiting::WriteResult { chunk_len }, Event::ChunkWritten { bytes_written }, _) => {
                if bytes_written as u128 == (chunk_len as u128 + 2) / 3 * 4 {
                    (
                        CaptureController {
                            session,
                            previous_level_was_active: previous,
                            awaiting: Awaiting::ButtonSample,
                            last_status,
                        },
                        Action::EndTick {
                            pause_ms: WRITE_PACING_MS + TICK_PERIOD_MS,
                            report: Report::Nothing,
                        },
                    )
                } else {
                    (Self::idle(previous, last_status), Self::failed(Failure::Write))
                }
            },
            (Awaiting::WriteResult { .. }, Event::ChunkWriteFailed, _) => (
                Self::idle(previous, last_status),
                Self::failed(Failure::Write),
            ),
            (Awaiting::FlushResult, Event::SessionFlushed, _) => (
                CaptureController {
                    session,
                    previous_level_was_active: previous,
                    awaiting: Awaiting::FinalizeResult,
                    last_status,
                },
                Action::FinalizeSession,
            ),
            (Awaiting::FlushResult, Event::SessionFlushFailed, _) => (
                Self::idle(previous, last_status),
                Self::failed(Failure::Flush),
            ),
            (Awaiting::FinalizeResult, Event::SessionFinalized { status }, Some(open)) => (
                Self::idle(previous, Some(status)),
                Action::EndTick {
                    pause_ms: TICK_PERIOD_MS,
                    report: Report::Completed {
                        status,
                        total_bytes_written: open.total_bytes_written,
                    },
                },
            ),
            (Awaiting::FinalizeResult, Event::SessionFinalizeFailed, _) => (
                Self::idle(previous, last_status),
                Self::failed(Failure::Finalize),
            ),
            _ => {
                return Err(UnexpectedEvent { awaited: awaiting });
            },
        };
        *self = next;
        Ok(action)
    }

    /// An idle controller that awaits the next tick.
    fn idle(previous_level_was_active: bool, last_status: Option<u16>) -> (controller:
        CaptureController)
        ensures
            controller@ == (ControllerModel {
                session: None,
                previous_level_was_active,
                awaiting: Awaiting::ButtonSample,
                last_status,
            }),
    {
        CaptureController {
            session: None,
            previous_level_was_active,
            awaiting: Awaiting::ButtonSample,
            last_status,
        }
    }

    /// The action that ends a tick in which `failure` occurred.
    fn failed(failure: Failure) -> (action: Action)
        ensures
            action@ == failed_end(failure),
    {
        Action::EndTick { pause_ms: TICK_PERIOD_MS, report: Report::Failed(failure) }
    }

    /// Whether a session is open.
    pub fn state(&self) -> (state: ControllerState)
        ensures
            state == self@.state(),
    {
        match self.session {
            Some(_) => ControllerState::Capturing,
            None => ControllerState::Idle,
        }
    }

    /// The open session with its count, if there is one.
    pub fn session(&self) -> (session: Option<CaptureSession>)
        ensures
            session is Some <==> self@.session is Some,
            session matches Some(open) ==> self@.session == Some(open.total_bytes_written as nat),
    {
        self.session
    }

    /// The level of the button at the last sample; `false` before the first.
    pub fn previous_level_was_active(&self) -> (level: bool)
        ensures
            level == self@.previous_level_was_active,
    {
        self.previous_level_was_active
    }

    /// What the controller waits to be told next.
    pub fn awaiting(&self) -> (awaiting: Awaiting)
        ensures
            awaiting == self@.awaiting,
    {
        self.awaiting
    }

    /// The status of the last session that was finalized, if any was.
    pub fn last_status(&self) -> (status: Option<u16>)
        ensures
            status == self@.last_status,
    {
        self.last_status
    }
}

} // verus!
