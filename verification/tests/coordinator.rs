//! The session coordinator on concrete schedules: independent stop
//! signaling, the writer observing the reader's stop within one
//! iteration, and the single teardown.

use vgp_server::codec::{
    Button, ButtonData, ForceFeedback, Input, InputData, Output, RumbleForceFeedback, WireInput,
    WireOutput,
};
use vgp_server::device::DeviceIoError;
use vgp_server::session::{
    Coordinator, ReaderAction, ReaderInbound, SessionPhase, WriterOutcome,
};

fn press_a() -> InputData {
    InputData { input: Some(WireInput::Button(ButtonData { button_type: 0, button_state: 0 })) }
}

fn garbled() -> InputData {
    InputData { input: Some(WireInput::Button(ButtonData { button_type: 99, button_state: 0 })) }
}

#[test]
fn message_decodes_to_an_apply_and_keeps_the_session_active() {
    let mut coordinator = Coordinator::new();
    assert_eq!(coordinator.phase(), SessionPhase::Active);
    let action = coordinator.reader_step(ReaderInbound::Message(press_a()));
    assert_eq!(action, ReaderAction::Apply(Input::Press(Button::South)));
    assert_eq!(coordinator.phase(), SessionPhase::Active);
}

#[test]
fn transport_failure_stops_reader_then_writer_then_releases_once() {
    let mut coordinator = Coordinator::new();

    // The reader loop hits a transport failure and exits.
    let action = coordinator.reader_step(ReaderInbound::Failed);
    assert_eq!(action, ReaderAction::Stop);
    assert_eq!(coordinator.phase(), SessionPhase::ReaderClosing);

    // Within one writer iteration the flag is observed: no further
    // event is fetched and the writer exits.
    assert!(!coordinator.writer_poll());
    assert_eq!(coordinator.phase(), SessionPhase::Terminated);

    // The teardown happens exactly once.
    assert!(coordinator.try_release());
    assert!(!coordinator.try_release());
}

#[test]
fn clean_end_of_stream_stops_the_reader() {
    let mut coordinator = Coordinator::new();
    assert_eq!(coordinator.reader_step(ReaderInbound::Closed), ReaderAction::Stop);
    assert_eq!(coordinator.phase(), SessionPhase::ReaderClosing);
    // A stopped reader applies nothing further, whatever arrives.
    assert_eq!(
        coordinator.reader_step(ReaderInbound::Message(press_a())),
        ReaderAction::Stop
    );
}

#[test]
fn decode_failure_is_fatal_to_the_reader() {
    let mut coordinator = Coordinator::new();
    assert_eq!(
        coordinator.reader_step(ReaderInbound::Message(garbled())),
        ReaderAction::Stop
    );
    assert_eq!(coordinator.phase(), SessionPhase::ReaderClosing);
}

#[test]
fn refused_apply_stops_the_reader() {
    let mut coordinator = Coordinator::new();
    assert!(coordinator.on_apply_result(true));
    assert_eq!(coordinator.phase(), SessionPhase::Active);
    assert!(!coordinator.on_apply_result(false));
    assert_eq!(coordinator.phase(), SessionPhase::ReaderClosing);
}

#[test]
fn writer_emits_encoded_events_and_stays_running() {
    let mut coordinator = Coordinator::new();
    assert!(coordinator.writer_poll());
    let event = Output::ForceFeedbackUploaded {
        id: 1,
        direction: 2,
        replay_length: 3,
        replay_delay: 4,
        effect: ForceFeedback::Rumble { strong_magnitude: 5, weak_magnitude: 6 },
    };
    let outcome = coordinator.writer_handle(Ok(event));
    assert_eq!(
        outcome,
        WriterOutcome::Emit(WireOutput::ForceFeedbackUploaded {
            id: 1,
            direction: 2,
            replay_length: 3,
            replay_delay: 4,
            effect: Some(RumbleForceFeedback { strong_magnitude: 5, weak_magnitude: 6 }),
        })
    );
    // Empty events keep the loop running and emit nothing.
    assert_eq!(coordinator.writer_handle(Ok(Output::Nothing)), WriterOutcome::Silent);
    assert_eq!(coordinator.phase(), SessionPhase::Active);
}

#[test]
fn driver_error_stops_the_writer_independently() {
    let mut coordinator = Coordinator::new();
    assert_eq!(coordinator.writer_handle(Err(DeviceIoError)), WriterOutcome::Stop);
    assert_eq!(coordinator.phase(), SessionPhase::WriterClosing);
    // No output is emitted after the writer has stopped.
    assert_eq!(coordinator.writer_handle(Ok(Output::Nothing)), WriterOutcome::Stop);
    assert!(!coordinator.writer_poll());
    // The reader is unaffected and may stop later; only then is the
    // device torn down.
    assert!(!coordinator.try_release());
    assert_eq!(coordinator.reader_step(ReaderInbound::Closed), ReaderAction::Stop);
    assert_eq!(coordinator.phase(), SessionPhase::Terminated);
    assert!(coordinator.try_release());
    assert!(!coordinator.try_release());
}

#[test]
fn release_waits_for_both_loops() {
    let mut coordinator = Coordinator::new();
    assert!(!coordinator.try_release());
    coordinator.reader_step(ReaderInbound::Closed);
    assert!(!coordinator.try_release());
    assert!(!coordinator.writer_poll());
    assert!(coordinator.try_release());
    assert!(!coordinator.try_release());
}
