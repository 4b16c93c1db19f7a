//! Command planning on concrete inputs: axis scaling and clamping,
//! the barrier after every write, and the release that is always a
//! single write.

use vgp_server::codec::{Button, Input, ThumbStick};
use vgp_server::device::{
    clamp_axis, plan_input, Axis, Command, AXIS_RANGE_MAX, AXIS_RANGE_MIN,
};

/// What the boundary layer does with a normalized stick value: scale
/// and round it; the library clamps it when planning the axis write.
fn scaled(value: f32, scale: f32) -> i64 {
    (value * scale).round() as i64
}

#[test]
fn axis_write_is_round_of_scaled_value_clamped() {
    let scale = 512.0f32;
    for (value, expected) in [
        (-1.0f32, -512i32),
        (-0.5, -256),
        (0.0, 0),
        (0.25, 128),
        (0.5, 256),
        (1.0, 512),
    ] {
        assert_eq!(clamp_axis(scaled(value, scale)), expected);
    }
    // Values outside the normalized range are accepted and clamped,
    // not rejected.
    assert_eq!(clamp_axis(scaled(2.0, scale)), AXIS_RANGE_MAX);
    assert_eq!(clamp_axis(scaled(-2.0, scale)), AXIS_RANGE_MIN);
    // A larger scale factor clamps at the fixed device range.
    assert_eq!(clamp_axis(scaled(1.0, 1024.0)), 512);
    assert_eq!(clamp_axis(scaled(-1.0, 1024.0)), -512);
}

#[test]
fn press_plans_one_write_and_one_barrier() {
    assert_eq!(
        plan_input(&Input::Press(Button::South)),
        vec![Command::Key { button: Button::South, pressed: true }, Command::Sync]
    );
}

#[test]
fn release_when_already_released_is_one_release_write() {
    let first = plan_input(&Input::Release(Button::East));
    let second = plan_input(&Input::Release(Button::East));
    let expected = vec![Command::Key { button: Button::East, pressed: false }, Command::Sync];
    assert_eq!(first, expected);
    // The translator is stateless: releasing an already released
    // button is accepted and plans exactly the same single write.
    assert_eq!(second, expected);
    let release_writes = second
        .iter()
        .filter(|c| matches!(c, Command::Key { pressed: false, .. }))
        .count();
    assert_eq!(release_writes, 1);
}

#[test]
fn move_plans_two_clamped_writes_each_with_a_barrier() {
    assert_eq!(
        plan_input(&Input::Move { thumb_stick: ThumbStick::Right, x: 700, y: -700 }),
        vec![
            Command::Position { axis: Axis::RightX, value: 512 },
            Command::Sync,
            Command::Position { axis: Axis::RightY, value: -512 },
            Command::Sync,
        ]
    );
}

#[test]
fn planned_sequence_keeps_order_and_barrier_discipline() {
    let inputs = [
        Input::Press(Button::South),
        Input::Move { thumb_stick: ThumbStick::Left, x: 256, y: -512 },
        Input::Release(Button::South),
        Input::Press(Button::Start),
    ];
    let mut stream: Vec<Command> = Vec::new();
    for input in &inputs {
        stream.extend(plan_input(input));
    }
    // Each write is immediately followed by exactly one barrier.
    let mut i = 0;
    while i < stream.len() {
        assert!(!matches!(stream[i], Command::Sync));
        assert!(matches!(stream[i + 1], Command::Sync));
        i += 2;
    }
    // One write per press or release, two per move, in receipt order.
    let writes: Vec<&Command> =
        stream.iter().filter(|c| !matches!(c, Command::Sync)).collect();
    assert_eq!(writes.len(), 5);
    assert_eq!(*writes[0], Command::Key { button: Button::South, pressed: true });
    assert_eq!(*writes[1], Command::Position { axis: Axis::LeftX, value: 256 });
    assert_eq!(*writes[2], Command::Position { axis: Axis::LeftY, value: -512 });
    assert_eq!(*writes[3], Command::Key { button: Button::South, pressed: false });
    assert_eq!(*writes[4], Command::Key { button: Button::Start, pressed: true });
}
