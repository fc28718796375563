use base64_stream::FromBase64Reader;
use capture_stream::controller::{
    Action, Awaiting, CaptureController, CaptureSession, ControllerState, Event, Failure, Report,
    UnexpectedEvent, CHUNK_CAPACITY, CONTENT_TYPE, CONTENT_TYPE_HEADER, READ_TIMEOUT_TICKS,
    TICK_PERIOD_MS, WRITE_PACING_MS,
};
use capture_stream::encoder::encode_base64;
use std::io::Cursor;
use std::io::Read;

/// How the surroundings answer during one tick.
#[derive(Clone)]
struct Answers {
    level_active: bool,
    open_ok: bool,
    read: Option<Vec<u8>>,
    write: Option<Option<usize>>,
    flush_ok: bool,
    finalize: Option<u16>,
}

fn pressed(chunk: &[u8]) -> Answers {
    Answers {
        level_active: true,
        open_ok: true,
        read: Some(chunk.to_vec()),
        write: Some(None),
        flush_ok: true,
        finalize: Some(200),
    }
}

fn released() -> Answers {
    Answers { level_active: false, ..pressed(&[]) }
}

/// What was asked of the surroundings.
#[derive(Default)]
struct Seen {
    opens: usize,
    reads: usize,
    writes: usize,
    flushes: usize,
    finalizes: usize,
    body: String,
    reports: Vec<Report>,
    pauses: Vec<u32>,
}

fn tick(controller: &mut CaptureController, seen: &mut Seen, answers: &Answers) -> Report {
    let mut action = controller
        .step(Event::ButtonSampled { level_active: answers.level_active })
        .unwrap();
    loop {
        let event = match &action {
            Action::OpenSession => {
                seen.opens += 1;
                if answers.open_ok { Event::SessionOpened } else { Event::SessionOpenFailed }
            }
            Action::ReadChunk { capacity, timeout_ticks } => {
                assert_eq!(*capacity, 4800);
                assert_eq!(*timeout_ticks, 2);
                seen.reads += 1;
                match &answers.read {
                    Some(bytes) => Event::ChunkRead { bytes },
                    None => Event::ChunkReadFailed,
                }
            }
            Action::WriteChunk { text } => {
                seen.writes += 1;
                seen.body.push_str(text);
                match answers.write {
                    Some(None) => Event::ChunkWritten { bytes_written: text.len() },
                    Some(Some(bytes_written)) => Event::ChunkWritten { bytes_written },
                    None => Event::ChunkWriteFailed,
                }
            }
            Action::FlushSession => {
                seen.flushes += 1;
                if answers.flush_ok { Event::SessionFlushed } else { Event::SessionFlushFailed }
            }
            Action::FinalizeSession => {
                seen.finalizes += 1;
                match answers.finalize {
                    Some(status) => Event::SessionFinalized { status },
                    None => Event::SessionFinalizeFailed,
                }
            }
            Action::EndTick { pause_ms, report } => {
                seen.pauses.push(*pause_ms);
                seen.reports.push(*report);
                assert_eq!(controller.awaiting(), Awaiting::ButtonSample);
                assert_eq!(controller.previous_level_was_active(), answers.level_active);
                return *report;
            }
        };
        action = controller.step(event).unwrap();
    }
}

fn decode(text: &str) -> Vec<u8> {
    let mut reader = FromBase64Reader::new(Cursor::new(text.as_bytes()));
    let mut bytes = Vec::new();
    reader.read_to_end(&mut bytes).unwrap();
    bytes
}

#[test]
fn the_cadence_is_as_documented() {
    assert_eq!(CHUNK_CAPACITY, 4800);
    assert_eq!(CHUNK_CAPACITY % 3, 0);
    assert_eq!(READ_TIMEOUT_TICKS, 2);
    assert_eq!(TICK_PERIOD_MS, 1);
    assert_eq!(WRITE_PACING_MS, 20);
}

#[test]
fn the_body_is_announced_as_plain_text() {
    assert_eq!(CONTENT_TYPE_HEADER, "content-type");
    assert_eq!(CONTENT_TYPE, "text/plain");
}

#[test]
fn a_new_controller_is_idle() {
    let controller = CaptureController::new();
    assert_eq!(controller.state(), ControllerState::Idle);
    assert_eq!(controller.session(), None);
    assert_eq!(controller.awaiting(), Awaiting::ButtonSample);
    assert!(!controller.previous_level_was_active());
    assert_eq!(controller.last_status(), None);
}

#[test]
fn press_for_one_tick_then_release() {
    let mut controller = CaptureController::new();
    let mut seen = Seen::default();
    let chunk = [7u8; 4800];
    assert_eq!(tick(&mut controller, &mut seen, &pressed(&chunk)), Report::Nothing);
    assert_eq!(controller.state(), ControllerState::Capturing);
    assert_eq!(controller.session(), Some(CaptureSession { total_bytes_written: 4800 }));
    assert_eq!(
        tick(&mut controller, &mut seen, &released()),
        Report::Completed { status: 200, total_bytes_written: 4800 }
    );
    assert_eq!(controller.state(), ControllerState::Idle);
    assert_eq!(controller.last_status(), Some(200));
    assert_eq!(seen.opens, 1);
    assert_eq!(seen.reads, 1);
    assert_eq!(seen.writes, 1);
    assert_eq!(seen.flushes, 1);
    assert_eq!(seen.finalizes, 1);
    assert_eq!(seen.body, encode_base64(&chunk));
}

#[test]
fn press_for_one_tick_without_audio_then_release() {
    let mut controller = CaptureController::new();
    let mut seen = Seen::default();
    tick(&mut controller, &mut seen, &pressed(&[]));
    assert_eq!(
        tick(&mut controller, &mut seen, &released()),
        Report::Completed { status: 200, total_bytes_written: 0 }
    );
    assert_eq!(
        (seen.opens, seen.reads, seen.writes, seen.flushes, seen.finalizes),
        (1, 1, 0, 1, 1)
    );
}

#[test]
fn a_button_never_pressed_opens_nothing() {
    let mut controller = CaptureController::new();
    let mut seen = Seen::default();
    for _ in 0..1000 {
        assert_eq!(tick(&mut controller, &mut seen, &released()), Report::Nothing);
        assert_eq!(controller.state(), ControllerState::Idle);
    }
    assert_eq!(
        (seen.opens, seen.reads, seen.writes, seen.flushes, seen.finalizes),
        (0, 0, 0, 0, 0)
    );
    assert!(seen.pauses.iter().all(|&pause| pause == 1));
    assert_eq!(seen.pauses.len(), 1000);
    assert_eq!(controller.last_status(), None);
}

#[test]
fn ten_ticks_of_silence_still_open_and_finalize() {
    let mut controller = CaptureController::new();
    let mut seen = Seen::default();
    for _ in 0..10 {
        assert_eq!(tick(&mut controller, &mut seen, &pressed(&[])), Report::Nothing);
        assert_eq!(controller.session(), Some(CaptureSession { total_bytes_written: 0 }));
    }
    assert_eq!(
        tick(&mut controller, &mut seen, &released()),
        Report::Completed { status: 200, total_bytes_written: 0 }
    );
    assert_eq!(seen.opens, 1);
    assert_eq!(seen.reads, 10);
    assert_eq!(seen.writes, 0);
    assert_eq!(seen.flushes, 1);
    assert_eq!(seen.finalizes, 1);
    assert_eq!(seen.body, "");
}

#[test]
fn a_failed_finalize_leaves_the_controller_idle() {
    let mut controller = CaptureController::new();
    let mut seen = Seen::default();
    tick(&mut controller, &mut seen, &pressed(&[1, 2, 3]));
    let failing = Answers { finalize: None, ..released() };
    assert_eq!(tick(&mut controller, &mut seen, &failing), Report::Failed(Failure::Finalize));
    assert_eq!(controller.state(), ControllerState::Idle);
    assert_eq!(controller.session(), None);
    assert_eq!(controller.last_status(), None);
    for _ in 0..5 {
        assert_eq!(tick(&mut controller, &mut seen, &released()), Report::Nothing);
    }
    assert_eq!(seen.flushes, 1);
    assert_eq!(seen.finalizes, 1);
    assert_eq!(seen.opens, 1);
}

#[test]
fn a_failed_flush_ends_the_session_without_finalizing() {
    let mut controller = CaptureController::new();
    let mut seen = Seen::default();
    tick(&mut controller, &mut seen, &pressed(&[1, 2, 3]));
    let failing = Answers { flush_ok: false, ..released() };
    assert_eq!(tick(&mut controller, &mut seen, &failing), Report::Failed(Failure::Flush));
    assert_eq!(controller.state(), ControllerState::Idle);
    assert_eq!(seen.flushes, 1);
    assert_eq!(seen.finalizes, 0);
}

#[test]
fn a_failed_open_waits_for_the_next_press() {
    let mut controller = CaptureController::new();
    let mut seen = Seen::default();
    let failing = Answers { open_ok: false, ..pressed(&[1, 2, 3]) };
    assert_eq!(tick(&mut controller, &mut seen, &failing), Report::Failed(Failure::Connect));
    assert_eq!(controller.state(), ControllerState::Idle);
    assert!(controller.previous_level_was_active());
    for _ in 0..3 {
        assert_eq!(tick(&mut controller, &mut seen, &pressed(&[1, 2, 3])), Report::Nothing);
        assert_eq!(controller.state(), ControllerState::Idle);
    }
    assert_eq!(seen.opens, 1);
    assert_eq!(seen.reads, 0);
    assert_eq!(tick(&mut controller, &mut seen, &released()), Report::Nothing);
    assert_eq!(seen.flushes, 0);
    tick(&mut controller, &mut seen, &pressed(&[1, 2, 3]));
    assert_eq!(seen.opens, 2);
    assert_eq!(controller.state(), ControllerState::Capturing);
}

#[test]
fn a_failed_write_ends_the_session() {
    let mut controller = CaptureController::new();
    let mut seen = Seen::default();
    tick(&mut controller, &mut seen, &pressed(&[1, 2, 3]));
    let failing = Answers { write: None, ..pressed(&[4, 5, 6]) };
    assert_eq!(tick(&mut controller, &mut seen, &failing), Report::Failed(Failure::Write));
    assert_eq!(controller.state(), ControllerState::Idle);
    assert_eq!(seen.pauses, vec![21, 1]);
    assert_eq!(tick(&mut controller, &mut seen, &pressed(&[7, 8, 9])), Report::Nothing);
    assert_eq!(tick(&mut controller, &mut seen, &released()), Report::Nothing);
    assert_eq!(
        (seen.opens, seen.reads, seen.writes, seen.flushes, seen.finalizes),
        (1, 2, 2, 0, 0)
    );
}

#[test]
fn a_short_write_is_no_success() {
    let mut controller = CaptureController::new();
    let mut seen = Seen::default();
    let short = Answers { write: Some(Some(3)), ..pressed(&[1, 2, 3]) };
    assert_eq!(tick(&mut controller, &mut seen, &short), Report::Failed(Failure::Write));
    assert_eq!(controller.state(), ControllerState::Idle);
    assert_eq!(seen.writes, 1);
    let mut controller = CaptureController::new();
    let long = Answers { write: Some(Some(5)), ..pressed(&[1, 2, 3]) };
    assert_eq!(tick(&mut controller, &mut seen, &long), Report::Failed(Failure::Write));
    let mut controller = CaptureController::new();
    let whole = Answers { write: Some(Some(4)), ..pressed(&[1, 2, 3]) };
    assert_eq!(tick(&mut controller, &mut seen, &whole), Report::Nothing);
    assert_eq!(controller.state(), ControllerState::Capturing);
}

#[test]
fn a_failed_read_counts_as_an_empty_read() {
    let mut controller = CaptureController::new();
    let mut seen = Seen::default();
    tick(&mut controller, &mut seen, &pressed(&[1, 2, 3, 4]));
    let failing = Answers { read: None, ..pressed(&[]) };
    assert_eq!(tick(&mut controller, &mut seen, &failing), Report::Failed(Failure::Read));
    assert_eq!(controller.state(), ControllerState::Capturing);
    assert_eq!(controller.session(), Some(CaptureSession { total_bytes_written: 4 }));
    assert_eq!(seen.writes, 1);
    assert_eq!(
        tick(&mut controller, &mut seen, &released()),
        Report::Completed { status: 200, total_bytes_written: 4 }
    );
}

#[test]
fn the_count_is_the_raw_bytes_read() {
    let mut controller = CaptureController::new();
    let mut seen = Seen::default();
    let lengths = [4800usize, 100, 0, 7, 4800];
    let mut expected = 0u64;
    for length in lengths {
        tick(&mut controller, &mut seen, &pressed(&vec![0x5a; length]));
        expected += length as u64;
        assert_eq!(controller.session(), Some(CaptureSession { total_bytes_written: expected }));
    }
    assert_eq!(
        tick(&mut controller, &mut seen, &Answers { finalize: Some(404), ..released() }),
        Report::Completed { status: 404, total_bytes_written: 9707 }
    );
    assert_eq!(controller.last_status(), Some(404));
    assert_eq!(seen.writes, 4);
    assert_eq!(seen.body.len(), 6400 + 136 + 12 + 6400);
}

#[test]
fn a_write_is_followed_by_the_pacing_pause() {
    let mut controller = CaptureController::new();
    let mut seen = Seen::default();
    tick(&mut controller, &mut seen, &released());
    tick(&mut controller, &mut seen, &pressed(&[1]));
    tick(&mut controller, &mut seen, &pressed(&[]));
    tick(&mut controller, &mut seen, &pressed(&[2, 3]));
    tick(&mut controller, &mut seen, &released());
    tick(&mut controller, &mut seen, &released());
    assert_eq!(seen.pauses, vec![1, 21, 1, 21, 1, 1]);
}

#[test]
fn one_session_for_each_run_of_pressed_ticks() {
    let levels = [
        false, true, true, true, false, false, true, false, true, true, false, true,
    ];
    let mut controller = CaptureController::new();
    let mut seen = Seen::default();
    let mut previous = false;
    for (i, &level) in levels.iter().enumerate() {
        let opens = seen.opens;
        let finalizes = seen.finalizes;
        let answers = if level { pressed(&[i as u8; 6]) } else { released() };
        tick(&mut controller, &mut seen, &answers);
        assert_eq!(seen.opens - opens, usize::from(level && !previous));
        assert_eq!(seen.finalizes - finalizes, usize::from(!level && previous));
        assert_eq!(controller.state() == ControllerState::Capturing, level);
        previous = level;
    }
    assert_eq!(seen.opens, 4);
    assert_eq!(seen.flushes, 3);
    assert_eq!(seen.finalizes, 3);
    assert_eq!(controller.state(), ControllerState::Capturing);
    let completed = seen.reports.iter().filter(|r| matches!(r, Report::Completed { .. })).count();
    assert_eq!(completed, 3);
}

#[test]
fn the_count_starts_at_zero_for_every_session() {
    let mut controller = CaptureController::new();
    let mut seen = Seen::default();
    tick(&mut controller, &mut seen, &pressed(&[0; 30]));
    tick(&mut controller, &mut seen, &pressed(&[0; 30]));
    assert_eq!(
        tick(&mut controller, &mut seen, &released()),
        Report::Completed { status: 200, total_bytes_written: 60 }
    );
    tick(&mut controller, &mut seen, &pressed(&[0; 9]));
    assert_eq!(controller.session(), Some(CaptureSession { total_bytes_written: 9 }));
    assert_eq!(
        tick(&mut controller, &mut seen, &Answers { finalize: Some(500), ..released() }),
        Report::Completed { status: 500, total_bytes_written: 9 }
    );
    assert_eq!(controller.last_status(), Some(500));
}

#[test]
fn the_body_of_a_session_decodes_to_its_audio() {
    let mut controller = CaptureController::new();
    let mut seen = Seen::default();
    let mut audio = Vec::new();
    for i in 0..5u32 {
        let chunk: Vec<u8> = (0..4800u32).map(|j| ((i * 4800 + j) * 17 % 253) as u8).collect();
        tick(&mut controller, &mut seen, &pressed(&chunk));
        audio.extend_from_slice(&chunk);
    }
    tick(&mut controller, &mut seen, &pressed(&[9, 8, 7, 6, 5]));
    audio.extend_from_slice(&[9, 8, 7, 6, 5]);
    assert_eq!(
        tick(&mut controller, &mut seen, &released()),
        Report::Completed { status: 200, total_bytes_written: 24005 }
    );
    assert_eq!(seen.body.len(), 5 * 6400 + 8);
    assert_eq!(seen.body, encode_base64(&audio));
    assert_eq!(decode(&seen.body), audio);
}

#[test]
fn the_first_chunk_is_read_in_the_tick_of_the_press() {
    let mut controller = CaptureController::new();
    assert_eq!(
        controller.step(Event::ButtonSampled { level_active: true }),
        Ok(Action::OpenSession)
    );
    assert_eq!(controller.awaiting(), Awaiting::OpenResult);
    assert_eq!(controller.state(), ControllerState::Idle);
    assert_eq!(
        controller.step(Event::SessionOpened),
        Ok(Action::ReadChunk { capacity: 4800, timeout_ticks: 2 })
    );
    assert_eq!(controller.session(), Some(CaptureSession { total_bytes_written: 0 }));
    assert_eq!(
        controller.step(Event::ChunkRead { bytes: b"foobar" }),
        Ok(Action::WriteChunk { text: String::from("Zm9vYmFy") })
    );
    assert_eq!(controller.awaiting(), Awaiting::WriteResult { chunk_len: 6 });
    assert_eq!(
        controller.step(Event::ChunkWritten { bytes_written: 8 }),
        Ok(Action::EndTick { pause_ms: 21, report: Report::Nothing })
    );
    assert_eq!(
        controller.step(Event::ButtonSampled { level_active: false }),
        Ok(Action::FlushSession)
    );
    assert_eq!(controller.step(Event::SessionFlushed), Ok(Action::FinalizeSession));
    assert_eq!(controller.state(), ControllerState::Capturing);
    assert_eq!(
        controller.step(Event::SessionFinalized { status: 201 }),
        Ok(Action::EndTick {
            pause_ms: 1,
            report: Report::Completed { status: 201, total_bytes_written: 6 }
        })
    );
    assert_eq!(controller.state(), ControllerState::Idle);
}

#[test]
fn an_event_that_was_not_awaited_is_refused() {
    let mut controller = CaptureController::new();
    for event in [
        Event::SessionOpened,
        Event::SessionOpenFailed,
        Event::ChunkRead { bytes: &[1, 2, 3] },
        Event::ChunkReadFailed,
        Event::ChunkWritten { bytes_written: 4 },
        Event::ChunkWriteFailed,
        Event::SessionFlushed,
        Event::SessionFlushFailed,
        Event::SessionFinalized { status: 200 },
        Event::SessionFinalizeFailed,
    ] {
        assert_eq!(
            controller.step(event),
            Err(UnexpectedEvent { awaited: Awaiting::ButtonSample })
        );
        assert_eq!(controller.state(), ControllerState::Idle);
        assert!(!controller.previous_level_was_active());
    }
    controller.step(Event::ButtonSampled { level_active: true }).unwrap();
    assert_eq!(
        controller.step(Event::ButtonSampled { level_active: false }),
        Err(UnexpectedEvent { awaited: Awaiting::OpenResult })
    );
    assert!(controller.previous_level_was_active());
    controller.step(Event::SessionOpened).unwrap();
    assert_eq!(
        controller.step(Event::SessionFlushed),
        Err(UnexpectedEvent { awaited: Awaiting::ReadResult })
    );
    controller.step(Event::ChunkRead { bytes: &[1] }).unwrap();
    assert_eq!(
        controller.step(Event::SessionFinalized { status: 200 }),
        Err(UnexpectedEvent { awaited: Awaiting::WriteResult { chunk_len: 1 } })
    );
    assert_eq!(controller.session(), Some(CaptureSession { total_bytes_written: 1 }));
}
