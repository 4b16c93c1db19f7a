//! The end-to-end scenario: a short inbound sequence driven through
//! the coordinator, the translator and the planner yields exactly the
//! expected driver calls, in order, each with its barrier.

use vgp_server::codec::{Button, ButtonData, InputData, ThumbStickData, WireInput};
use vgp_server::device::{plan_input, Axis, Command};
use vgp_server::session::{Coordinator, ReaderAction, ReaderInbound};

/// What the boundary layer does with a wire thumb-stick message: the
/// normalized coordinates are scaled and rounded before the message
/// reaches the library.
fn stick_message(stick_type: i32, x: f32, y: f32, scale: f32) -> InputData {
    InputData {
        input: Some(WireInput::ThumbStick(ThumbStickData {
            stick_type,
            x: (x * scale).round() as i64,
            y: (y * scale).round() as i64,
        })),
    }
}

fn button_message(button_type: i32, button_state: i32) -> InputData {
    InputData { input: Some(WireInput::Button(ButtonData { button_type, button_state })) }
}

#[test]
fn inbound_sequence_yields_driver_calls_in_order() {
    let scale = 512.0f32;
    let inbound = [
        button_message(0, 0),                               // Button A, pressed
        stick_message(0, 0.5, -1.0, scale),                 // left stick
        button_message(0, 1),                               // Button A, released
    ];

    let mut coordinator = Coordinator::new();
    let mut stream: Vec<Command> = Vec::new();
    for message in inbound {
        match coordinator.reader_step(ReaderInbound::Message(message)) {
            ReaderAction::Apply(input) => {
                stream.extend(plan_input(&input));
            },
            ReaderAction::Stop => panic!("the reader stopped on a valid message"),
        }
    }

    assert_eq!(
        stream,
        vec![
            Command::Key { button: Button::South, pressed: true },
            Command::Sync,
            Command::Position { axis: Axis::LeftX, value: 256 },
            Command::Sync,
            Command::Position { axis: Axis::LeftY, value: -512 },
            Command::Sync,
            Command::Key { button: Button::South, pressed: false },
            Command::Sync,
        ]
    );

    // The stream ends cleanly afterwards and the device is torn down
    // exactly once.
    assert_eq!(coordinator.reader_step(ReaderInbound::Closed), ReaderAction::Stop);
    assert!(!coordinator.writer_poll());
    assert!(coordinator.try_release());
    assert!(!coordinator.try_release());
}
