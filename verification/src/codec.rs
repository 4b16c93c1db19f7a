//! The protocol translator: a pure, stateless mapping between wire
//! messages and device commands/events.
//!
//! Inbound, a wire message selects either a button change or a
//! thumb-stick move, with the button, its state and the stick given as
//! numeric codes; `decode_input` rejects a missing selector and every
//! code outside the known enumerations. Outbound, force-feedback events
//! map field for field onto wire messages (widening the integer types),
//! while empty and unsupported device events are suppressed.

use vstd::prelude::*;

verus! {

/// A button of the virtual controller, named by its position on the pad.
#[derive(Clone, Copy, PartialEq, Eq, Structural, Debug)]
pub enum Button {
    South,
    East,
    West,
    North,
    DpadUp,
    DpadDown,
    DpadLeft,
    DpadRight,
    TriggerLeft,
    TriggerRight,
    TriggerLeft2,
    TriggerRight2,
    ThumbStickLeft,
    ThumbStickRight,
    Start,
    Select,
}

/// One of the two analog sticks.
#[derive(Clone, Copy, PartialEq, Eq, Structural, Debug)]
pub enum ThumbStick {
    Left,
    Right,
}

/// The state a button is put into.
#[derive(Clone, Copy, PartialEq, Eq, Structural, Debug)]
pub enum ButtonState {
    Pressed,
    Released,
}

/// A command to the device, decoded from one wire message.
///
/// Stick coordinates are carried in device axis units: the boundary
/// layer multiplies the normalized wire value by the session's axis
/// scale factor and rounds, before the message reaches the translator.
/// The values are not yet clamped to the device's axis range.
#[derive(Clone, Copy, PartialEq, Eq, Structural, Debug)]
pub enum Input {
    Press(Button),
    Release(Button),
    Move { thumb_stick: ThumbStick, x: i64, y: i64 },
}

/// The button half of a wire message: two numeric codes.
#[derive(Clone, Copy, PartialEq, Eq, Structural, Debug)]
pub struct ButtonData {
    pub button_type: i32,
    pub button_state: i32,
}

/// The thumb-stick half of a wire message: a numeric stick code and the
/// stick position in device axis units (see [`Input`]).
#[derive(Clone, Copy, PartialEq, Eq, Structural, Debug)]
pub struct ThumbStickData {
    pub stick_type: i32,
    pub x: i64,
    pub y: i64,
}

/// The selector of an inbound wire message.
#[derive(Clone, Copy, PartialEq, Eq, Structural, Debug)]
pub enum WireInput {
    Button(ButtonData),
    ThumbStick(ThumbStickData),
}

/// One inbound wire message; the selector may be absent.
#[derive(Clone, Copy, PartialEq, Eq, Structural, Debug)]
pub struct InputData {
    pub input: Option<WireInput>,
}

/// Why an inbound wire message was rejected.
#[derive(Clone, Copy, PartialEq, Eq, Structural, Debug)]
pub enum ProtocolError {
    /// The message carried neither a button nor a thumb-stick selector.
    MissingSelector,
    /// The button code matches no known button.
    UnknownButtonType,
    /// The button state code is neither pressed nor released.
    UnknownButtonState,
    /// The stick code matches no known thumb stick.
    UnknownThumbStickType,
}

/// The button denoted by a wire code, if any.
pub open spec fn button_of_code(code: i32) -> Option<Button> {
    if code == 0 {
        Some(Button::South)
    } else if code == 1 {
        Some(Button::East)
    } else if code == 2 {
        Some(Button::West)
    } else if code == 3 {
        Some(Button::North)
    } else if code == 4 {
        Some(Button::DpadUp)
    } else if code == 5 {
        Some(Button::DpadDown)
    } else if code == 6 {
        Some(Button::DpadLeft)
    } else if code == 7 {
        Some(Button::DpadRight)
    } else if code == 8 {
        Some(Button::TriggerLeft)
    } else if code == 9 {
        Some(Button::TriggerRight)
    } else if code == 10 {
        Some(Button::TriggerLeft2)
    } else if code == 11 {
        Some(Button::TriggerRight2)
    } else if code == 12 {
        Some(Button::ThumbStickLeft)
    } else if code == 13 {
        Some(Button::ThumbStickRight)
    } else if code == 14 {
        Some(Button::Start)
    } else if code == 15 {
        Some(Button::Select)
    } else {
        None
    }
}

/// The button state denoted by a wire code, if any.
pub open spec fn state_of_code(code: i32) -> Option<ButtonState> {
    if code == 0 {
        Some(ButtonState::Pressed)
    } else if code == 1 {
        Some(ButtonState::Released)
    } else {
        None
    }
}

/// The thumb stick denoted by a wire code, if any.
pub open spec fn stick_of_code(code: i32) -> Option<ThumbStick> {
    if code == 0 {
        Some(ThumbStick::Left)
    } else if code == 1 {
        Some(ThumbStick::Right)
    } else {
        None
    }
}

/// The device command denoted by a present selector, or the error that
/// names the first invalid code (button, then state).
pub open spec fn spec_decode_selector(selector: WireInput) -> Result<Input, ProtocolError> {
    match selector {
        WireInput::Button(b) => match button_of_code(b.button_type) {
            None => Err(ProtocolError::UnknownButtonType),
            Some(button) => match state_of_code(b.button_state) {
                None => Err(ProtocolError::UnknownButtonState),
                Some(ButtonState::Pressed) => Ok(Input::Press(button)),
                Some(ButtonState::Released) => Ok(Input::Release(button)),
            },
        },
        WireInput::ThumbStick(t) => match stick_of_code(t.stick_type) {
            None => Err(ProtocolError::UnknownThumbStickType),
            Some(stick) => Ok(Input::Move { thumb_stick: stick, x: t.x, y: t.y }),
        },
    }
}

/// What `decode_input` returns for each wire message: the unique device
/// command the message denotes, or the error that names the first
/// invalid part (selector, then button, then state).
pub open spec fn spec_decode_input(data: InputData) -> Result<Input, ProtocolError> {
    match data.input {
        None => Err(ProtocolError::MissingSelector),
        Some(selector) => spec_decode_selector(selector),
    }
}

/// Decode a wire button code.
pub fn decode_button_type(code: i32) -> (r: Option<Button>)
    ensures
        r == button_of_code(code),
{
    match code {
        0 => Some(Button::South),
        1 => Some(Button::East),
        2 => Some(Button::West),
        3 => Some(Button::North),
        4 => Some(Button::DpadUp),
        5 => Some(Button::DpadDown),
        6 => Some(Button::DpadLeft),
        7 => Some(Button::DpadRight),
        8 => Some(Button::TriggerLeft),
        9 => Some(Button::TriggerRight),
        10 => Some(Button::TriggerLeft2),
        11 => Some(Button::TriggerRight2),
        12 => Some(Button::ThumbStickLeft),
        13 => Some(Button::ThumbStickRight),
        14 => Some(Button::Start),
        15 => Some(Button::Select),
        _ => None,
    }
}

/// Decode a wire button state code.
pub fn decode_button_state(code: i32) -> (r: Option<ButtonState>)
    ensures
        r == state_of_code(code),
{
    match code {
        0 => Some(ButtonState::Pressed),
        1 => Some(ButtonState::Released),
        _ => None,
    }
}

/// Decode a wire thumb-stick code.
pub fn decode_thumb_stick_type(code: i32) -> (r: Option<ThumbStick>)
    ensures
        r == stick_of_code(code),
{
    match code {
        0 => Some(ThumbStick::Left),
        1 => Some(ThumbStick::Right),
        _ => None,
    }
}

/// Translate one inbound wire message into the device command it
/// denotes, or reject it.
///
/// The translation is deterministic and total: every message either
/// denotes exactly one command or yields exactly one error, as
/// [`spec_decode_input`] states.
pub fn decode_input(data: &InputData) -> (r: Result<Input, ProtocolError>)
    ensures
        r == spec_decode_input(*data),
{
    match &data.input {
        None => Err(ProtocolError::MissingSelector),
        Some(selector) => decode_selector(selector),
    }
}

/// Translate one present selector into the device command it denotes,
/// or reject it.
pub fn decode_selector(selector: &WireInput) -> (r: Result<Input, ProtocolError>)
    ensures
        r == spec_decode_selector(*selector),
{
    match selector {
        WireInput::Button(b) => {
            let button = match decode_button_type(b.button_type) {
                None => {
                    return Err(ProtocolError::UnknownButtonType);
                },
                Some(button) => button,
            };
            match decode_button_state(b.button_state) {
                None => Err(ProtocolError::UnknownButtonState),
                Some(ButtonState::Pressed) => Ok(Input::Press(button)),
                Some(ButtonState::Released) => Ok(Input::Release(button)),
            }
        },
        WireInput::ThumbStick(t) => match decode_thumb_stick_type(t.stick_type) {
            None => Err(ProtocolError::UnknownThumbStickType),
            Some(stick) => Ok(Input::Move { thumb_stick: stick, x: t.x, y: t.y }),
        },
    }
}

/// A force-feedback effect carried by an uploaded-effect event, in the
/// driver's native unsigned magnitude range.
#[derive(Clone, Copy, PartialEq, Eq, Structural, Debug)]
pub enum ForceFeedback {
    Rumble { strong_magnitude: u16, weak_magnitude: u16 },
    Unsupported,
}

/// An event originating from the virtual device driver.
#[derive(Clone, Copy, PartialEq, Eq, Structural, Debug)]
pub enum Output {
    /// The driver produced nothing.
    Nothing,
    /// The driver produced an event the bridge does not handle.
    Unsupported,
    /// A force-feedback effect was uploaded to the device.
    ForceFeedbackUploaded {
        id: i16,
        direction: u16,
        replay_length: u16,
        replay_delay: u16,
        effect: ForceFeedback,
    },
    /// A previously uploaded effect was erased.
    ForceFeedbackErased { id: i16 },
}

/// A rumble effect as it appears on the wire.
#[derive(Clone, Copy, PartialEq, Eq, Structural, Debug)]
pub struct RumbleForceFeedback {
    pub strong_magnitude: u32,
    pub weak_magnitude: u32,
}

/// One outbound wire message. The effect is absent when the uploaded
/// effect is of a kind the wire format does not carry.
#[derive(Clone, Copy, PartialEq, Eq, Structural, Debug)]
pub enum WireOutput {
    ForceFeedbackUploaded {
        id: i32,
        direction: u32,
        replay_length: u32,
        replay_delay: u32,
        effect: Option<RumbleForceFeedback>,
    },
    ForceFeedbackErased { id: i32 },
}

/// The wire form of a force-feedback effect: the rumble magnitudes
/// copied with widening, or nothing for an unsupported effect kind.
pub open spec fn spec_encode_effect(effect: ForceFeedback) -> Option<RumbleForceFeedback> {
    match effect {
        ForceFeedback::Rumble { strong_magnitude, weak_magnitude } => Some(
            RumbleForceFeedback {
                strong_magnitude: strong_magnitude as u32,
                weak_magnitude: weak_magnitude as u32,
            },
        ),
        ForceFeedback::Unsupported => None,
    }
}

/// What `encode_output` emits for each device event: force-feedback
/// events copied field for field with widening, everything else
/// suppressed.
pub open spec fn spec_encode_output(output: Output) -> Option<WireOutput> {
    match output {
        Output::Nothing => None,
        Output::Unsupported => None,
        Output::ForceFeedbackUploaded { id, direction, replay_length, replay_delay, effect } => Some(
            WireOutput::ForceFeedbackUploaded {
                id: id as i32,
                direction: direction as u32,
                replay_length: replay_length as u32,
                replay_delay: replay_delay as u32,
                effect: spec_encode_effect(effect),
            },
        ),
        Output::ForceFeedbackErased { id } => Some(WireOutput::ForceFeedbackErased { id: id as i32 }),
    }
}

/// Translate one device event into the wire message to emit, if any.
///
/// Empty and unsupported events produce no message; the two
/// force-feedback events map one to one onto wire messages, each field
/// copied unchanged into the wider wire integer type.
pub fn encode_output(output: Output) -> (r: Option<WireOutput>)
    ensures
        r == spec_encode_output(output),
{
    match output {
        Output::Nothing => None,
        Output::Unsupported => None,
        Output::ForceFeedbackUploaded { id, direction, replay_length, replay_delay, effect } => {
            let wire_effect: Option<RumbleForceFeedback> = match effect {
                ForceFeedback::Rumble { strong_magnitude, weak_magnitude } => Some(
                    RumbleForceFeedback {
                        strong_magnitude: strong_magnitude as u32,
                        weak_magnitude: weak_magnitude as u32,
                    },
                ),
                ForceFeedback::Unsupported => None,
            };
            Some(WireOutput::ForceFeedbackUploaded {
                id: id as i32,
                direction: direction as u32,
                replay_length: replay_length as u32,
                replay_delay: replay_delay as u32,
                effect: wire_effect,
            })
        },
        Output::ForceFeedbackErased { id } => Some(WireOutput::ForceFeedbackErased { id: id as i32 }),
    }
}

/// Decoding a wire message, seen from the message itself.
pub trait ToVgpDeviceInputExt: Sized {
    /// The device command this wire message denotes, or why it is rejected.
    fn to_vgp_device_input(self) -> Result<Input, ProtocolError>;
}

impl ToVgpDeviceInputExt for InputData {
    fn to_vgp_device_input(self) -> (r: Result<Input, ProtocolError>)
        ensures
            r == spec_decode_input(self),
    {
        decode_input(&self)
    }
}

/// Encoding a device event, seen from the event itself.
pub trait ToProtoOutputDataExt: Sized {
    /// The wire message this device event produces, if any.
    fn to_proto_output_data(self) -> Option<WireOutput>;
}

impl ToProtoOutputDataExt for Output {
    fn to_proto_output_data(self) -> (r: Option<WireOutput>)
        ensures
            r == spec_encode_output(self),
    {
        encode_output(self)
    }
}

} // verus!
