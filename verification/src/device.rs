//! The device session: translating decoded commands into the driver's
//! event writes.
//!
//! The driver understands three primitive events — a key change, an
//! absolute axis position, and a synchronization barrier — each written
//! as an event kind, an event code and a value. A decoded [`Input`] is
//! planned as a short sequence of such commands in which every key or
//! axis write is immediately followed by exactly one barrier, so the
//! device presents each update atomically. Axis values are clamped to
//! the device's registered range before they are written.

use vstd::prelude::*;
use crate::codec::{Button, Input, ProtocolError, ThumbStick, WireInput};
use crate::codec::{decode_selector, spec_decode_selector};
use crate::driver::device_write;

verus! {

/// The registered lower bound of every stick axis.
pub const AXIS_RANGE_MIN: i32 = -512;

/// The registered upper bound of every stick axis.
pub const AXIS_RANGE_MAX: i32 = 512;

/// The registered fuzz of every stick axis.
pub const AXIS_FUZZ: i32 = 0;

/// The registered flat (dead-zone) region of every stick axis.
pub const AXIS_FLAT: i32 = 15;

/// The event kind of a synchronization barrier.
pub const KIND_SYNC: i32 = 0;

/// The event kind of a key change.
pub const KIND_KEY: i32 = 1;

/// The event kind of an absolute axis position.
pub const KIND_ABSOLUTE: i32 = 3;

/// A continuous axis of the virtual controller.
#[derive(Clone, Copy, PartialEq, Eq, Structural, Debug)]
pub enum Axis {
    LeftX,
    LeftY,
    RightX,
    RightY,
}

/// One primitive command written to the driver.
#[derive(Clone, Copy, PartialEq, Eq, Structural, Debug)]
pub enum Command {
    /// Press (`pressed`) or release a button.
    Key { button: Button, pressed: bool },
    /// Write an absolute stick axis position, already clamped.
    Position { axis: Axis, value: i32 },
    /// The synchronization barrier that ends every update.
    Sync,
}

/// An event write was refused by the driver.
#[derive(Clone, Copy, PartialEq, Eq, Structural, Debug)]
pub struct DeviceIoError;

/// Why a wire selector could not be carried out: it was malformed, or
/// the driver refused a write.
#[derive(Clone, Copy, PartialEq, Eq, Structural, Debug)]
pub enum ControlError {
    Protocol(ProtocolError),
    Io(DeviceIoError),
}

/// An axis value clamped to the device's registered range.
pub open spec fn spec_clamp_axis(v: i64) -> i32 {
    if v < AXIS_RANGE_MIN as i64 {
        AXIS_RANGE_MIN
    } else if v > AXIS_RANGE_MAX as i64 {
        AXIS_RANGE_MAX
    } else {
        v as i32
    }
}

/// Clamp an axis value to the device's registered range.
pub fn clamp_axis(v: i64) -> (r: i32)
    ensures
        r == spec_clamp_axis(v),
        AXIS_RANGE_MIN <= r <= AXIS_RANGE_MAX,
{
    if v < AXIS_RANGE_MIN as i64 {
        AXIS_RANGE_MIN
    } else if v > AXIS_RANGE_MAX as i64 {
        AXIS_RANGE_MAX
    } else {
        v as i32
    }
}

/// The horizontal axis of a stick.
pub open spec fn spec_x_axis(stick: ThumbStick) -> Axis {
    match stick {
        ThumbStick::Left => Axis::LeftX,
        ThumbStick::Right => Axis::RightX,
    }
}

/// The vertical axis of a stick.
pub open spec fn spec_y_axis(stick: ThumbStick) -> Axis {
    match stick {
        ThumbStick::Left => Axis::LeftY,
        ThumbStick::Right => Axis::RightY,
    }
}

/// The horizontal axis of a stick.
pub fn x_axis(stick: ThumbStick) -> (r: Axis)
    ensures
        r == spec_x_axis(stick),
{
    match stick {
        ThumbStick::Left => Axis::LeftX,
        ThumbStick::Right => Axis::RightX,
    }
}

/// The vertical axis of a stick.
pub fn y_axis(stick: ThumbStick) -> (r: Axis)
    ensures
        r == spec_y_axis(stick),
{
    match stick {
        ThumbStick::Left => Axis::LeftY,
        ThumbStick::Right => Axis::RightY,
    }
}

/// The driver's key code for a button.
pub open spec fn spec_button_code(button: Button) -> i32 {
    match button {
        Button::South => 0x130,
        Button::East => 0x131,
        Button::North => 0x133,
        Button::West => 0x134,
        Button::TriggerLeft => 0x136,
        Button::TriggerRight => 0x137,
        Button::TriggerLeft2 => 0x138,
        Button::TriggerRight2 => 0x139,
        Button::Select => 0x13a,
        Button::Start => 0x13b,
        Button::ThumbStickLeft => 0x13d,
        Button::ThumbStickRight => 0x13e,
        Button::DpadUp => 0x220,
        Button::DpadDown => 0x221,
        Button::DpadLeft => 0x222,
        Button::DpadRight => 0x223,
    }
}

/// The driver's key code for a button.
pub fn button_code(button: Button) -> (r: i32)
    ensures
        r == spec_button_code(button),
{
    match button {
        Button::South => 0x130,
        Button::East => 0x131,
        Button::North => 0x133,
        Button::West => 0x134,
        Button::TriggerLeft => 0x136,
        Button::TriggerRight => 0x137,
        Button::TriggerLeft2 => 0x138,
        Button::TriggerRight2 => 0x139,
        Button::Select => 0x13a,
        Button::Start => 0x13b,
        Button::ThumbStickLeft => 0x13d,
        Button::ThumbStickRight => 0x13e,
        Button::DpadUp => 0x220,
        Button::DpadDown => 0x221,
        Button::DpadLeft => 0x222,
        Button::DpadRight => 0x223,
    }
}

/// The driver's axis code for a continuous axis.
pub open spec fn spec_axis_code(axis: Axis) -> i32 {
    match axis {
        Axis::LeftX => 0,
        Axis::LeftY => 1,
        Axis::RightX => 3,
        Axis::RightY => 4,
    }
}

/// The driver's axis code for a continuous axis.
pub fn axis_code(axis: Axis) -> (r: i32)
    ensures
        r == spec_axis_code(axis),
{
    match axis {
        Axis::LeftX => 0,
        Axis::LeftY => 1,
        Axis::RightX => 3,
        Axis::RightY => 4,
    }
}

/// The event kind a command is written under.
pub open spec fn spec_command_kind(command: Command) -> i32 {
    match command {
        Command::Key { .. } => KIND_KEY,
        Command::Position { .. } => KIND_ABSOLUTE,
        Command::Sync => KIND_SYNC,
    }
}

/// The event code a command is written under.
pub open spec fn spec_command_code(command: Command) -> i32 {
    match command {
        Command::Key { button, .. } => spec_button_code(button),
        Command::Position { axis, .. } => spec_axis_code(axis),
        Command::Sync => 0,
    }
}

/// The event value a command is written with.
pub open spec fn spec_command_value(command: Command) -> i32 {
    match command {
        Command::Key { pressed, .. } => if pressed { 1 } else { 0 },
        Command::Position { value, .. } => value,
        Command::Sync => 0,
    }
}

/// The event kind a command is written under.
pub fn command_kind(command: &Command) -> (r: i32)
    ensures
        r == spec_command_kind(*command),
{
    match command {
        Command::Key { .. } => KIND_KEY,
        Command::Position { .. } => KIND_ABSOLUTE,
        Command::Sync => KIND_SYNC,
    }
}

/// The event code a command is written under.
pub fn command_code(command: &Command) -> (r: i32)
    ensures
        r == spec_command_code(*command),
{
    match command {
        Command::Key { button, .. } => button_code(*button),
        Command::Position { axis, .. } => axis_code(*axis),
        Command::Sync => 0,
    }
}

/// The event value a command is written with.
pub fn command_value(command: &Command) -> (r: i32)
    ensures
        r == spec_command_value(*command),
{
    match command {
        Command::Key { pressed, .. } => if *pressed { 1 } else { 0 },
        Command::Position { value, .. } => *value,
        Command::Sync => 0,
    }
}

/// The driver commands one decoded input is carried out as: the key
/// change or the two clamped axis writes, each immediately followed by
/// its synchronization barrier.
pub open spec fn spec_plan_input(input: Input) -> Seq<Command> {
    match input {
        Input::Press(button) => seq![Command::Key { button, pressed: true }, Command::Sync],
        Input::Release(button) => seq![Command::Key { button, pressed: false }, Command::Sync],
        Input::Move { thumb_stick, x, y } => seq![
            Command::Position { axis: spec_x_axis(thumb_stick), value: spec_clamp_axis(x) },
            Command::Sync,
            Command::Position { axis: spec_y_axis(thumb_stick), value: spec_clamp_axis(y) },
            Command::Sync,
        ],
    }
}

/// Plan the driver commands for one decoded input.
pub fn plan_input(input: &Input) -> (cmds: Vec<Command>)
    ensures
        cmds@ == spec_plan_input(*input),
{
    let mut cmds: Vec<Command> = Vec::new();
    match input {
        Input::Press(button) => {
            cmds.push(Command::Key { button: *button, pressed: true });
            cmds.push(Command::Sync);
        },
        Input::Release(button) => {
            cmds.push(Command::Key { button: *button, pressed: false });
            cmds.push(Command::Sync);
        },
        Input::Move { thumb_stick, x, y } => {
            cmds.push(Command::Position { axis: x_axis(*thumb_stick), value: clamp_axis(*x) });
            cmds.push(Command::Sync);
            cmds.push(Command::Position { axis: y_axis(*thumb_stick), value: clamp_axis(*y) });
            cmds.push(Command::Sync);
        },
    }
    proof {
        assert(cmds@ =~= spec_plan_input(*input));
    }
    cmds
}

/// The command streams of a sequence of inputs, concatenated in receipt
/// order.
pub open spec fn spec_plan_inputs(inputs: Seq<Input>) -> Seq<Command>
    decreases inputs.len(),
{
    if inputs.len() == 0 {
        Seq::empty()
    } else {
        spec_plan_input(inputs[0]) + spec_plan_inputs(inputs.subrange(1, inputs.len() as int))
    }
}

/// A command stream in which every key or axis write is immediately
/// followed by exactly one synchronization barrier, and barriers stand
/// nowhere else.
pub open spec fn barrier_disciplined(cmds: Seq<Command>) -> bool
    decreases cmds.len(),
{
    if cmds.len() == 0 {
        true
    } else if cmds.len() == 1 {
        false
    } else {
        &&& !(cmds[0] is Sync)
        &&& cmds[1] is Sync
        &&& barrier_disciplined(cmds.subrange(2, cmds.len() as int))
    }
}

/// The new log extends the old one by a proper prefix of the plan:
/// what was confirmed before the driver refused a write.
pub open spec fn log_extended_by_prefix(
    old_log: Seq<Command>,
    new_log: Seq<Command>,
    plan: Seq<Command>,
) -> bool {
    exists|k: int| 0 <= k < plan.len() && new_log == old_log + #[trigger] plan.subrange(0, k)
}

/// Two barrier-disciplined streams concatenate to a barrier-disciplined
/// stream.
pub proof fn lemma_barrier_concat(a: Seq<Command>, b: Seq<Command>)
    requires
        barrier_disciplined(a),
        barrier_disciplined(b),
    ensures
        barrier_disciplined(a + b),
    decreases a.len(),
{
    if a.len() == 0 {
        assert(a + b =~= b);
    } else {
        lemma_barrier_concat(a.subrange(2, a.len() as int), b);
        assert((a + b).subrange(2, (a + b).len() as int) =~= a.subrange(2, a.len() as int) + b);
    }
}

/// The plan of a single input is barrier-disciplined.
pub proof fn lemma_plan_input_disciplined(input: Input)
    ensures
        barrier_disciplined(spec_plan_input(input)),
{
    reveal_with_fuel(barrier_disciplined, 4);
    let plan = spec_plan_input(input);
    match input {
        Input::Press(_) | Input::Release(_) => {
            assert(plan.subrange(2, 2) =~= Seq::<Command>::empty());
            assert(barrier_disciplined(Seq::<Command>::empty()));
        },
        Input::Move { .. } => {
            assert(plan.subrange(2, 4).subrange(2, 2) =~= Seq::<Command>::empty());
            assert(barrier_disciplined(Seq::<Command>::empty()));
            assert(plan.subrange(2, 4)[0] == plan[2]);
            assert(plan.subrange(2, 4)[1] == plan[3]);
            assert(barrier_disciplined(plan.subrange(2, 4)));
        },
    }
}

/// Planning one more input appends exactly that input's commands to
/// the stream: the driver receives inputs' commands in receipt order.
pub proof fn lemma_plan_inputs_push(inputs: Seq<Input>, input: Input)
    ensures
        spec_plan_inputs(inputs.push(input)) == spec_plan_inputs(inputs) + spec_plan_input(input),
    decreases inputs.len(),
{
    reveal_with_fuel(spec_plan_inputs, 2);
    let all = inputs.push(input);
    if inputs.len() == 0 {
        assert(all[0] == input);
        assert(all.subrange(1, all.len() as int) =~= Seq::<Input>::empty());
        assert(spec_plan_inputs(all.subrange(1, all.len() as int)) == Seq::<Command>::empty());
        assert(spec_plan_inputs(inputs) == Seq::<Command>::empty());
        assert(spec_plan_inputs(all) =~= spec_plan_inputs(inputs) + spec_plan_input(input));
    } else {
        let rest = inputs.subrange(1, inputs.len() as int);
        assert(all[0] == inputs[0]);
        assert(all.subrange(1, all.len() as int) =~= rest.push(input));
        lemma_plan_inputs_push(rest, input);
        assert(spec_plan_inputs(all) == spec_plan_input(inputs[0]) + (spec_plan_inputs(rest)
            + spec_plan_input(input)));
        assert(spec_plan_inputs(all) =~= spec_plan_inputs(inputs) + spec_plan_input(input));
    }
}

/// Releasing a button is accepted whatever state the button is in:
/// the plan of a release is always exactly one release write and its
/// barrier, and depends on no previously issued command.
pub proof fn lemma_release_always_single_write(button: Button)
    ensures
        spec_plan_input(Input::Release(button)) == seq![
            Command::Key { button, pressed: false },
            Command::Sync,
        ],
{
}

/// The command stream of any sequence of inputs keeps the barrier
/// discipline: each driver write is followed by exactly one barrier.
pub proof fn lemma_plan_inputs_disciplined(inputs: Seq<Input>)
    ensures
        barrier_disciplined(spec_plan_inputs(inputs)),
    decreases inputs.len(),
{
    if inputs.len() > 0 {
        lemma_plan_input_disciplined(inputs[0]);
        lemma_plan_inputs_disciplined(inputs.subrange(1, inputs.len() as int));
        lemma_barrier_concat(
            spec_plan_input(inputs[0]),
            spec_plan_inputs(inputs.subrange(1, inputs.len() as int)),
        );
    }
}

/// One virtual game pad: the owned driver device, and the log of every
/// command confirmed written to it, oldest first.
pub struct GamePad {
    device: uinput::Device,
    history: Ghost<Seq<Command>>,
}

impl GamePad {
    /// The commands confirmed written to the driver so far.
    pub closed spec fn log(self) -> Seq<Command> {
        self.history@
    }

    /// Take ownership of a freshly created driver device.
    pub fn new(device: uinput::Device) -> (pad: GamePad)
        ensures
            pad.log() == Seq::<Command>::empty(),
    {
        GamePad { device, history: Ghost(Seq::empty()) }
    }

    /// Write one primitive command to the driver.
    fn issue(&mut self, command: &Command) -> (r: Result<(), DeviceIoError>)
        ensures
            r is Ok ==> final(self).log() == old(self).log().push(*command),
            r is Err ==> final(self).log() == old(self).log(),
    {
        let kind = command_kind(command);
        let code = command_code(command);
        let value = command_value(command);
        match device_write(&mut self.device, kind, code, value) {
            Ok(()) => {
                self.history = Ghost(self.history@.push(*command));
                Ok(())
            },
            Err(e) => Err(e),
        }
    }

    /// Apply one decoded input: issue its planned commands in order.
    ///
    /// On success the log grows by exactly the input's plan; if the
    /// driver refuses a write, the log grows by the proper prefix that
    /// was confirmed before the refusal.
    #[verifier::loop_isolation(false)]
    pub fn apply(&mut self, input: &Input) -> (r: Result<(), DeviceIoError>)
        ensures
            r is Ok ==> final(self).log() == old(self).log() + spec_plan_input(*input),
            r is Err ==> log_extended_by_prefix(
                old(self).log(),
                final(self).log(),
                spec_plan_input(*input),
            ),
    {
        let ghost log0 = self.log();
        let cmds = plan_input(input);
        let mut i: usize = 0;
        while i < cmds.len()
            invariant
                cmds@ == spec_plan_input(*input),
                0 <= i <= cmds@.len(),
                self.log() == log0 + cmds@.subrange(0, i as int),
            decreases cmds@.len() - i,
        {
            let command = cmds[i];
            match self.issue(&command) {
                Ok(()) => {},
                Err(e) => {
                    proof {
                        assert((i as int) < spec_plan_input(*input).len());
                        assert(self.log() == log0 + spec_plan_input(*input).subrange(0, i as int));
                        assert(log_extended_by_prefix(log0, self.log(), spec_plan_input(*input)));
                    }
                    return Err(e);
                },
            }
            proof {
                assert(cmds@.subrange(0, i as int + 1) =~= cmds@.subrange(0, i as int).push(
                    cmds@[i as int],
                ));
            }
            i += 1;
        }
        proof {
            assert(cmds@.subrange(0, cmds@.len() as int) =~= cmds@);
        }
        Ok(())
    }

    /// Carry out one wire selector: decode it and apply the decoded
    /// input, as one step of the reader loop.
    pub fn control(&mut self, data: WireInput) -> (r: Result<(), ControlError>)
        ensures
            spec_decode_selector(data) matches Err(e) ==> r == Err::<(), ControlError>(
                ControlError::Protocol(e),
            ) && final(self).log() == old(self).log(),
            spec_decode_selector(data) matches Ok(input) ==> {
                &&& r is Ok ==> final(self).log() == old(self).log() + spec_plan_input(input)
                &&& r is Err ==> r == Err::<(), ControlError>(ControlError::Io(DeviceIoError))
                    && log_extended_by_prefix(
                    old(self).log(),
                    final(self).log(),
                    spec_plan_input(input),
                )
            },
    {
        let input = match decode_selector(&data) {
            Err(e) => {
                return Err(ControlError::Protocol(e));
            },
            Ok(input) => input,
        };
        match self.apply(&input) {
            Ok(()) => Ok(()),
            Err(e) => Err(ControlError::Io(e)),
        }
    }
}

/// Every button the device registers, in registration order.
pub open spec fn spec_all_buttons() -> Seq<Button> {
    seq![
        Button::DpadUp,
        Button::DpadDown,
        Button::DpadLeft,
        Button::DpadRight,
        Button::South,
        Button::East,
        Button::West,
        Button::North,
        Button::TriggerLeft,
        Button::TriggerRight,
        Button::TriggerLeft2,
        Button::TriggerRight2,
        Button::ThumbStickLeft,
        Button::ThumbStickRight,
        Button::Select,
        Button::Start,
    ]
}

/// Every button the device registers, in registration order; the
/// boundary layer registers exactly these when it creates the device.
pub fn capability_buttons() -> (r: Vec<Button>)
    ensures
        r@ == spec_all_buttons(),
{
    let mut r: Vec<Button> = Vec::new();
    r.push(Button::DpadUp);
    r.push(Button::DpadDown);
    r.push(Button::DpadLeft);
    r.push(Button::DpadRight);
    r.push(Button::South);
    r.push(Button::East);
    r.push(Button::West);
    r.push(Button::North);
    r.push(Button::TriggerLeft);
    r.push(Button::TriggerRight);
    r.push(Button::TriggerLeft2);
    r.push(Button::TriggerRight2);
    r.push(Button::ThumbStickLeft);
    r.push(Button::ThumbStickRight);
    r.push(Button::Select);
    r.push(Button::Start);
    proof {
        assert(r@ =~= spec_all_buttons());
    }
    r
}

/// Every continuous axis the device registers, in registration order.
pub open spec fn spec_all_axes() -> Seq<Axis> {
    seq![Axis::LeftX, Axis::LeftY, Axis::RightX, Axis::RightY]
}

/// Every continuous axis the device registers, each ranged
/// [`AXIS_RANGE_MIN`]..[`AXIS_RANGE_MAX`] with fuzz [`AXIS_FUZZ`] and
/// flat region [`AXIS_FLAT`].
pub fn capability_axes() -> (r: Vec<Axis>)
    ensures
        r@ == spec_all_axes(),
{
    let mut r: Vec<Axis> = Vec::new();
    r.push(Axis::LeftX);
    r.push(Axis::LeftY);
    r.push(Axis::RightX);
    r.push(Axis::RightY);
    proof {
        assert(r@ =~= spec_all_axes());
    }
    r
}

} // verus!
