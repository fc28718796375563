//! Whole runs of the controller: what it does over any sequence of ticks,
//! whatever its surroundings answer.
//!
//! A [`Tick`] holds the level of the button at one tick together with the
//! answers that the surroundings would give during that tick. [`run`] plays
//! a sequence of ticks against the controller and keeps a [`Ledger`] of what
//! was asked and done. The laws at the end of this module are stated of that
//! ledger.

use crate::base64::{
    base64_bytes, base64_text, cut_at_groups, encoded_len, joined_bytes, joined_text,
    law_chunked_text_decodes_to_whole,
};
use crate::controller::{
    answers, counted, quiet_end, step_model, ActionView, Awaiting, ControllerModel, EventView,
    Failure, Report,
};
use vstd::prelude::*;

verus! {

/// One tick as the surroundings determine it: the level of the button, and
/// how each operation would go if the controller asked for it in this tick.
pub struct Tick {
    /// Whether the button is pressed.
    pub level_active: bool,
    /// Whether a request can be opened.
    pub open_ok: bool,
    /// The chunk that the microphone gives, or `None` where reading fails.
    pub read: Option<Seq<u8>>,
    /// The number of bytes that the request takes of a text, or `None` where
    /// writing fails.
    pub write: Option<usize>,
    /// Whether the body can be flushed.
    pub flush_ok: bool,
    /// The status that the request ends with, or `None` where finalizing
    /// fails.
    pub finalize: Option<u16>,
}

impl Tick {
    /// Whether nothing fails in this tick: a request opens, the microphone
    /// gives a chunk, the request takes the whole text of it, flushes, and
    /// ends with a status.
    pub open spec fn faultless(self) -> bool {
        &&& self.open_ok
        &&& self.read matches Some(bytes)
        &&& bytes.len() <= usize::MAX
        &&& self.write matches Some(taken)
        &&& taken == encoded_len(bytes.len())
        &&& self.flush_ok
        &&& self.finalize is Some
    }
}

/// The event with which the surroundings answer `action` during `tick`. The
/// end of a tick is answered with the sample that starts the next one; `tick`
/// is then that next tick.
pub open spec fn answer(action: ActionView, tick: Tick) -> EventView {
    match action {
        ActionView::OpenSession => if tick.open_ok {
            EventView::SessionOpened
        } else {
            EventView::SessionOpenFailed
        },
        ActionView::ReadChunk { .. } => match tick.read {
            Some(bytes) => EventView::ChunkRead { bytes },
            None => EventView::ChunkReadFailed,
        },
        ActionView::WriteChunk { .. } => match tick.write {
            Some(bytes_written) => EventView::ChunkWritten { bytes_written },
            None => EventView::ChunkWriteFailed,
        },
        ActionView::FlushSession => if tick.flush_ok {
            EventView::SessionFlushed
        } else {
            EventView::SessionFlushFailed
        },
        ActionView::FinalizeSession => match tick.finalize {
            Some(status) => EventView::SessionFinalized { status },
            None => EventView::SessionFinalizeFailed,
        },
        ActionView::EndTick { .. } => EventView::ButtonSampled { level_active: tick.level_active },
    }
}

/// What an observer between the controller and its surroundings has counted
/// and seen.
pub struct Ledger {
    /// How often the controller asked for a session to be opened.
    pub opens: nat,
    /// How many sessions were opened.
    pub opened: nat,
    /// How often the controller asked for a chunk of audio.
    pub reads: nat,
    /// How often the controller handed over a text to be written.
    pub writes: nat,
    /// How often the controller asked for a session to be closed, which
    /// starts with flushing its body.
    pub closes: nat,
    /// How often the controller asked for a session to be finalized.
    pub finalizes: nat,
    /// How many sessions were finalized with a status.
    pub completed: nat,
    /// How many sessions were ended by a failure.
    pub abandoned: nat,
    /// The chunks that were read since the last session was opened, empty
    /// ones included.
    pub chunks: Seq<Seq<u8>>,
    /// The texts that were handed over since the last session was opened, one
    /// after the other: the body of the request.
    pub body: Seq<char>,
    /// What the last tick reported at its end.
    pub last_report: Report,
}

impl Ledger {
    /// The ledger before anything happened.
    pub open spec fn blank() -> Ledger {
        Ledger {
            opens: 0,
            opened: 0,
            reads: 0,
            writes: 0,
            closes: 0,
            finalizes: 0,
            completed: 0,
            abandoned: 0,
            chunks: Seq::empty(),
            body: Seq::empty(),
            last_report: Report::Nothing,
        }
    }

    /// The number of raw bytes that were read since the last session was
    /// opened: the lengths of the chunks, added up.
    pub open spec fn bytes_read(self) -> nat {
        total_len(self.chunks)
    }
}

/// The lengths of `chunks`, added up.
pub open spec fn total_len(chunks: Seq<Seq<u8>>) -> nat
    decreases chunks.len(),
{
    if chunks.len() == 0 {
        0
    } else {
        total_len(chunks.drop_last()) + chunks.last().len()
    }
}

/// Whether `report` tells that a session was ended by a failure.
pub open spec fn tells_abandoned(report: Report) -> bool {
    report == Report::Failed(Failure::Write) || report == Report::Failed(Failure::Flush) || report
        == Report::Failed(Failure::Finalize)
}

/// The ledger after the controller took `event` and answered with `action`.
pub open spec fn record(ledger: Ledger, event: EventView, action: ActionView) -> Ledger {
    let heard = match event {
        EventView::SessionOpened => Ledger {
            opened: ledger.opened + 1,
            chunks: Seq::empty(),
            body: Seq::empty(),
            ..ledger
        },
        EventView::ChunkRead { bytes } => Ledger { chunks: ledger.chunks.push(bytes), ..ledger },
        _ => ledger,
    };
    match action {
        ActionView::OpenSession => Ledger { opens: heard.opens + 1, ..heard },
        ActionView::ReadChunk { .. } => Ledger { reads: heard.reads + 1, ..heard },
        ActionView::WriteChunk { text } => Ledger {
            writes: heard.writes + 1,
            body: heard.body + text,
            ..heard
        },
        ActionView::FlushSession => Ledger { closes: heard.closes + 1, ..heard },
        ActionView::FinalizeSession => Ledger { finalizes: heard.finalizes + 1, ..heard },
        ActionView::EndTick { report, .. } => Ledger {
            completed: if report is Completed {
                heard.completed + 1
            } else {
                heard.completed
            },
            abandoned: if tells_abandoned(report) {
                heard.abandoned + 1
            } else {
                heard.abandoned
            },
            last_report: report,
            ..heard
        },
    }
}

/// Where a run stands: the controller, the ledger, and the action that the
/// controller answered with last.
pub struct Progress {
    pub controller: ControllerModel,
    pub ledger: Ledger,
    pub action: ActionView,
}

impl Progress {
    /// Where a run stands before its first tick.
    pub open spec fn start() -> Progress {
        Progress {
            controller: ControllerModel::initial(),
            ledger: Ledger::blank(),
            action: quiet_end(),
        }
    }

    /// The controller takes `event`.
    pub open spec fn take(self, event: EventView) -> Progress {
        let (controller, action) = step_model(self.controller, event);
        Progress { controller, ledger: record(self.ledger, event, action), action }
    }

    /// The surroundings answer the last action, unless the tick has ended.
    pub open spec fn go_on(self, tick: Tick) -> Progress {
        if self.action is EndTick {
            self
        } else {
            self.take(answer(self.action, tick))
        }
    }

    /// One whole tick: the button is sampled, and every action is answered
    /// until the controller ends the tick. No tick takes more than four
    /// events: the sample, and the answers to opening, reading and writing.
    pub open spec fn tick(self, tick: Tick) -> Progress {
        self.take(EventView::ButtonSampled { level_active: tick.level_active }).go_on(tick).go_on(
            tick,
        ).go_on(tick)
    }
}

/// Where a run stands after `ticks`, from a fresh controller.
pub open spec fn run(ticks: Seq<Tick>) -> Progress
    decreases ticks.len(),
{
    if ticks.len() == 0 {
        Progress::start()
    } else {
        run(ticks.drop_last()).tick(ticks.last())
    }
}

/// Whether the button is pressed at tick `i` and was not at the tick before:
/// tick `i` is the first of a maximal run of ticks with the button pressed.
pub open spec fn press_at(ticks: Seq<Tick>, i: int) -> bool {
    &&& 0 <= i < ticks.len()
    &&& ticks[i].level_active
    &&& (i == 0 || !ticks[i - 1].level_active)
}

/// Whether the button is released at tick `i` and was pressed at the tick
/// before: tick `i` is the first after a maximal run of ticks with the button
/// pressed.
pub open spec fn release_at(ticks: Seq<Tick>, i: int) -> bool {
    &&& 0 < i < ticks.len()
    &&& !ticks[i].level_active
    &&& ticks[i - 1].level_active
}

/// The number of maximal runs of ticks with the button pressed that begin
/// within `ticks`.
pub open spec fn presses(ticks: Seq<Tick>) -> nat
    decreases ticks.len(),
{
    if ticks.len() == 0 {
        0
    } else {
        presses(ticks.drop_last()) + if press_at(ticks, ticks.len() - 1) {
            1nat
        } else {
            0nat
        }
    }
}

/// The number of maximal runs of ticks with the button pressed that end
/// within `ticks`.
pub open spec fn releases(ticks: Seq<Tick>) -> nat
    decreases ticks.len(),
{
    if ticks.len() == 0 {
        0
    } else {
        releases(ticks.drop_last()) + if release_at(ticks, ticks.len() - 1) {
            1nat
        } else {
            0nat
        }
    }
}

/// Whether nothing fails in any of `ticks`.
pub open spec fn faultless(ticks: Seq<Tick>) -> bool {
    forall|i: int| 0 <= i < ticks.len() ==> (#[trigger] ticks[i]).faultless()
}

/// `1` where a session is open, `0` where none is.
pub open spec fn live(controller: ControllerModel) -> nat {
    if controller.session is Some {
        1
    } else {
        0
    }
}

/// The number of answers that the controller may still ask for before it
/// ends the tick.
spec fn answers_left(awaiting: Awaiting) -> nat {
    match awaiting {
        Awaiting::ButtonSample => 0,
        Awaiting::OpenResult => 3,
        Awaiting::ReadResult => 2,
        Awaiting::WriteResult { .. } => 1,
        Awaiting::FlushResult => 2,
        Awaiting::FinalizeResult => 1,
    }
}

/// Whether `action` asks for what `awaiting` waits for.
spec fn asks_for(action: ActionView, awaiting: Awaiting) -> bool {
    match awaiting {
        Awaiting::ButtonSample => action is EndTick,
        Awaiting::OpenResult => action is OpenSession,
        Awaiting::ReadResult => action is ReadChunk,
        Awaiting::WriteResult { .. } => action is WriteChunk,
        Awaiting::FlushResult => action is FlushSession,
        Awaiting::FinalizeResult => action is FinalizeSession,
    }
}

/// `1` while a session is being opened, `0` otherwise.
spec fn opening(awaiting: Awaiting) -> nat {
    if awaiting == Awaiting::OpenResult {
        1
    } else {
        0
    }
}

/// `1` while a session is being closed, `0` otherwise.
spec fn closing(awaiting: Awaiting) -> nat {
    if awaiting == Awaiting::FlushResult || awaiting == Awaiting::FinalizeResult {
        1
    } else {
        0
    }
}

/// `1` while a session is being finalized, `0` otherwise.
spec fn finalizing(awaiting: Awaiting) -> nat {
    if awaiting == Awaiting::FinalizeResult {
        1
    } else {
        0
    }
}

/// What holds of every run at every step. `ticks` are the ticks that have
/// begun.
spec fn sound(ticks: Seq<Tick>, at: Progress) -> bool {
    let m = at.controller;
    let l = at.ledger;
    &&& m.wf()
    &&& asks_for(at.action, m.awaiting)
    &&& m.previous_level_was_active == (ticks.len() > 0 && ticks.last().level_active)
    &&& l.opens == presses(ticks)
    &&& l.opened + opening(m.awaiting) <= l.opens
    &&& l.opened == l.completed + l.abandoned + live(m)
    &&& l.closes <= l.completed + l.abandoned + closing(m.awaiting)
    &&& l.finalizes + closing(m.awaiting) <= l.closes + finalizing(m.awaiting)
    &&& l.completed + finalizing(m.awaiting) <= l.finalizes
    &&& l.closes <= releases(ticks)
    &&& l.writes + (if m.awaiting == Awaiting::ReadResult {
        1nat
    } else {
        0nat
    }) <= l.reads
    &&& m.awaiting matches Awaiting::WriteResult { chunk_len } ==> l.chunks.len() > 0 && chunk_len
        == l.chunks.last().len() as usize
    &&& l.body == joined_text(l.chunks)
    &&& m.session matches Some(total) ==> total == counted(0, l.bytes_read())
    &&& at.action matches ActionView::EndTick { report, .. } ==> {
        &&& l.last_report == report
        &&& report matches Report::Completed { status, total_bytes_written } ==> {
            &&& total_bytes_written == counted(0, l.bytes_read())
            &&& m.last_status == Some(status)
            &&& m.session is None
        }
    }
}

/// What holds in addition at every step of a run in which nothing fails.
spec fn sound_faultless(ticks: Seq<Tick>, at: Progress) -> bool {
    let m = at.controller;
    let l = at.ledger;
    &&& m.session is Some || m.awaiting == Awaiting::OpenResult <==> m.previous_level_was_active
        || closing(m.awaiting) == 1
    &&& l.opened + opening(m.awaiting) == l.opens
    &&& m.awaiting is WriteResult ==> l.chunks.len() > 0 && ticks.len() > 0 && ticks.last().read
        == Some(l.chunks.last())
    &&& l.abandoned == 0
    &&& l.closes == releases(ticks)
    &&& l.completed + closing(m.awaiting) == l.closes
}

/// Appending a chunk appends its bytes and its text.
proof fn lemma_joined_push(chunks: Seq<Seq<u8>>, bytes: Seq<u8>)
    ensures
        joined_bytes(chunks.push(bytes)) == joined_bytes(chunks) + bytes,
        joined_text(chunks.push(bytes)) == joined_text(chunks) + base64_text(bytes),
        total_len(chunks.push(bytes)) == total_len(chunks) + bytes.len(),
{
    assert(chunks.push(bytes).drop_last() =~= chunks);
}

/// Sampling the button at the start of a tick keeps a run sound.
proof fn lemma_sample_is_sound(ticks: Seq<Tick>)
    requires
        ticks.len() > 0,
        sound(ticks.drop_last(), run(ticks.drop_last())),
        run(ticks.drop_last()).action is EndTick,
    ensures
        sound(
            ticks,
            run(ticks.drop_last()).take(
                EventView::ButtonSampled { level_active: ticks.last().level_active },
            ),
        ),
        faultless(ticks) && sound_faultless(ticks.drop_last(), run(ticks.drop_last()))
            ==> sound_faultless(
            ticks,
            run(ticks.drop_last()).take(
                EventView::ButtonSampled { level_active: ticks.last().level_active },
            ),
        ),
{
    let earlier = ticks.drop_last();
    assert(earlier.len() > 0 ==> earlier.last() == ticks[ticks.len() - 2]);
}

/// Answering an action within a tick keeps a run sound, and brings the end of
/// the tick nearer.
proof fn lemma_answer_is_sound(ticks: Seq<Tick>, at: Progress)
    requires
        ticks.len() > 0,
        sound(ticks, at),
    ensures
        sound(ticks, at.go_on(ticks.last())),
        answers_left(at.go_on(ticks.last()).controller.awaiting) == 0 || answers_left(
            at.go_on(ticks.last()).controller.awaiting,
        ) < answers_left(at.controller.awaiting),
        ticks.last().faultless() && sound_faultless(ticks, at) ==> sound_faultless(
            ticks,
            at.go_on(ticks.last()),
        ),
{
    let tick = ticks.last();
    if !(at.action is EndTick) {
        let event = answer(at.action, tick);
        assert(answers(at.controller.awaiting, event));
        assert(joined_bytes(Seq::<Seq<u8>>::empty()) =~= Seq::<u8>::empty());
        assert(joined_text(Seq::<Seq<u8>>::empty()) =~= Seq::<char>::empty());
        if let EventView::ChunkRead { bytes } = event {
            lemma_joined_push(at.ledger.chunks, bytes);
            if bytes.len() == 0 {
                assert(base64_text(bytes) =~= Seq::<char>::empty());
                assert(at.ledger.body + Seq::<char>::empty() =~= at.ledger.body);
            }
        }
    }
}

/// Every run is sound between its ticks, and every tick ends: the
/// controller then awaits the next sample.
proof fn lemma_run_is_sound(ticks: Seq<Tick>)
    ensures
        sound(ticks, run(ticks)),
        run(ticks).action is EndTick,
        run(ticks).controller.awaiting == Awaiting::ButtonSample,
        faultless(ticks) ==> sound_faultless(ticks, run(ticks)),
    decreases ticks.len(),
{
    if ticks.len() == 0 {
        assert(joined_text(Seq::<Seq<u8>>::empty()) =~= Seq::<char>::empty());
        assert(joined_bytes(Seq::<Seq<u8>>::empty()) =~= Seq::<u8>::empty());
    } else {
        let earlier = ticks.drop_last();
        let tick = ticks.last();
        lemma_run_is_sound(earlier);
        assert(faultless(ticks) ==> faultless(earlier)) by {
            if faultless(ticks) {
                assert forall|i: int| 0 <= i < earlier.len() implies (#[trigger] earlier[i]).faultless() by {
                    assert(earlier[i] == ticks[i]);
                }
            }
        }
        assert(faultless(ticks) ==> tick.faultless());
        lemma_sample_is_sound(ticks);
        let first = run(earlier).take(EventView::ButtonSampled { level_active: tick.level_active });
        lemma_answer_is_sound(ticks, first);
        let second = first.go_on(tick);
        lemma_answer_is_sound(ticks, second);
        let third = second.go_on(tick);
        lemma_answer_is_sound(ticks, third);
        assert(run(ticks) == third.go_on(tick));
    }
}

/// The bytes of `chunks` put together are as many as their lengths added up.
pub proof fn lemma_joined_len(chunks: Seq<Seq<u8>>)
    ensures
        joined_bytes(chunks).len() == total_len(chunks),
    decreases chunks.len(),
{
    if chunks.len() > 0 {
        lemma_joined_len(chunks.drop_last());
    }
}

/// Every tick ends. Whatever the surroundings answer, the controller ends
/// each tick after at most three answers and then awaits the next sample,
/// well-formed, with the level of the last sample remembered.
pub proof fn law_every_tick_ends(ticks: Seq<Tick>)
    ensures
        run(ticks).action is EndTick,
        run(ticks).controller.awaiting == Awaiting::ButtonSample,
        run(ticks).controller.wf(),
        run(ticks).controller.previous_level_was_active == (ticks.len() > 0
            && ticks.last().level_active),
{
    lemma_run_is_sound(ticks);
}

/// One session per press. For every sequence of button samples, and whatever
/// the surroundings answer, the controller asks for a session to be opened
/// exactly once for each maximal run of ticks with the button pressed: at the
/// first tick of the run, and at no other tick.
pub proof fn law_one_open_per_press(ticks: Seq<Tick>, i: int)
    requires
        0 <= i < ticks.len(),
    ensures
        run(ticks).ledger.opens == presses(ticks),
        run(ticks.take(i + 1)).ledger.opens == run(ticks.take(i)).ledger.opens + if press_at(
            ticks,
            i,
        ) {
            1nat
        } else {
            0nat
        },
{
    lemma_run_is_sound(ticks);
    lemma_run_is_sound(ticks.take(i));
    lemma_run_is_sound(ticks.take(i + 1));
    assert(ticks.take(i + 1).drop_last() =~= ticks.take(i));
    assert(press_at(ticks.take(i + 1), i) == press_at(ticks, i));
}

/// Opening and closing match. Whatever the surroundings answer: no more
/// sessions are opened than were asked for; every session that was opened
/// was finalized, or ended by a failure, or is the one that is open now, and
/// only one is ever open; a session is asked to be closed at most once, and
/// only where one is open; and no session is closed but at a release of the
/// button.
pub proof fn law_sessions_balance(ticks: Seq<Tick>)
    ensures
        run(ticks).ledger.opened <= run(ticks).ledger.opens,
        run(ticks).ledger.opened == run(ticks).ledger.completed + run(ticks).ledger.abandoned
            + live(run(ticks).controller),
        run(ticks).ledger.completed <= run(ticks).ledger.finalizes,
        run(ticks).ledger.finalizes <= run(ticks).ledger.closes,
        run(ticks).ledger.closes <= run(ticks).ledger.completed + run(ticks).ledger.abandoned,
        run(ticks).ledger.closes <= releases(ticks),
        run(ticks).ledger.writes <= run(ticks).ledger.reads,
{
    lemma_run_is_sound(ticks);
}

/// One close per release. In a run in which nothing fails, every session
/// that is asked for is opened, none is abandoned, and a session is closed
/// exactly once for each maximal run of ticks with the button pressed that
/// has ended: at the first tick after the run, and at no other tick. A
/// session is open between two ticks exactly where the button was pressed at
/// the last one.
pub proof fn law_one_close_per_release(ticks: Seq<Tick>, i: int)
    requires
        faultless(ticks),
        0 <= i < ticks.len(),
    ensures
        run(ticks).ledger.opened == presses(ticks),
        run(ticks).ledger.abandoned == 0,
        run(ticks).ledger.closes == releases(ticks),
        run(ticks).ledger.finalizes == releases(ticks),
        run(ticks).ledger.completed == releases(ticks),
        run(ticks).controller.session is Some <==> ticks.last().level_active,
        run(ticks.take(i + 1)).ledger.completed == run(ticks.take(i)).ledger.completed
            + if release_at(ticks, i) {
            1nat
        } else {
            0nat
        },
{
    lemma_run_is_sound(ticks);
    let shorter = ticks.take(i);
    let longer = ticks.take(i + 1);
    assert(faultless(shorter));
    assert(faultless(longer));
    lemma_run_is_sound(shorter);
    lemma_run_is_sound(longer);
    assert(longer.drop_last() =~= shorter);
    assert(release_at(longer, i) == release_at(ticks, i));
}

/// The count is the bytes read. Whatever the surroundings answer, the count
/// of an open session is the number of raw bytes that were read since it was
/// opened, and the count that is reported when a session was finalized is
/// the number of raw bytes that were read while it was open: the lengths of
/// all the chunks of that session added up, failed and empty reads adding
/// nothing. Encoded bytes are not counted. The counter stops at `u64::MAX`.
pub proof fn law_count_is_bytes_read(ticks: Seq<Tick>)
    ensures
        run(ticks).controller.session matches Some(total) ==> total == counted(
            0,
            run(ticks).ledger.bytes_read(),
        ),
        run(ticks).ledger.last_report matches Report::Completed { status, total_bytes_written }
            ==> {
            &&& total_bytes_written == counted(0, run(ticks).ledger.bytes_read())
            &&& run(ticks).ledger.bytes_read() <= u64::MAX ==> total_bytes_written == run(
                ticks,
            ).ledger.bytes_read()
            &&& run(ticks).controller.last_status == Some(status)
            &&& run(ticks).controller.session is None
        },
{
    lemma_run_is_sound(ticks);
}

/// The body is the audio. Whatever the surroundings answer, the texts handed
/// over for one session, put together, are the base64 texts of the chunks
/// read in that session, each encoded by itself. Where every chunk but the
/// last holds a multiple of three bytes, as every full chunk does, that body
/// is the base64 text of the audio as a whole, and decoding it as one text
/// gives the audio back.
pub proof fn law_body_is_text_of_audio(ticks: Seq<Tick>)
    ensures
        run(ticks).ledger.body == joined_text(run(ticks).ledger.chunks),
        cut_at_groups(run(ticks).ledger.chunks) ==> {
            &&& run(ticks).ledger.body == base64_text(joined_bytes(run(ticks).ledger.chunks))
            &&& base64_bytes(run(ticks).ledger.body) == Some(
                joined_bytes(run(ticks).ledger.chunks),
            )
            &&& run(ticks).ledger.body.len() == encoded_len(run(ticks).ledger.bytes_read())
        },
{
    lemma_run_is_sound(ticks);
    let chunks = run(ticks).ledger.chunks;
    if cut_at_groups(chunks) {
        law_chunked_text_decodes_to_whole(chunks);
        lemma_joined_len(chunks);
    }
}

} // verus!
