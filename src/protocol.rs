use vstd::prelude::*;

use crate::error::Error;

verus! {

/// The commands of the wire protocol. Each has a fixed one-byte code, written
/// at offset 0 of a frame.
#[derive(Debug, Clone, Copy, PartialEq, Eq, Structural)]
pub enum Command {
    SetPollRate,
    GetPollRate,
    SetReportMode,
    GetReportMode,
    SetThreshold,
    GetThreshold,
    SetAction,
    GetAction,
    ManualTrigger,
    ReportRaw,
    ReportSummary,
}

/// The wire code of a command.
pub open spec fn command_code(c: Command) -> u8 {
    match c {
        Command::SetPollRate => 0x01,
        Command::GetPollRate => 0x21,
        Command::SetReportMode => 0x02,
        Command::GetReportMode => 0x22,
        Command::SetThreshold => 0x03,
        Command::GetThreshold => 0x23,
        Command::SetAction => 0x04,
        Command::GetAction => 0x24,
        Command::ManualTrigger => 0x1F,
        Command::ReportRaw => 0x41,
        Command::ReportSummary => 0x42,
    }
}

/// The command whose wire code is `b`, if there is one.
pub open spec fn command_of_code(b: u8) -> Option<Command> {
    if b == 0x01 {
        Some(Command::SetPollRate)
    } else if b == 0x21 {
        Some(Command::GetPollRate)
    } else if b == 0x02 {
        Some(Command::SetReportMode)
    } else if b == 0x22 {
        Some(Command::GetReportMode)
    } else if b == 0x03 {
        Some(Command::SetThreshold)
    } else if b == 0x23 {
        Some(Command::GetThreshold)
    } else if b == 0x04 {
        Some(Command::SetAction)
    } else if b == 0x24 {
        Some(Command::GetAction)
    } else if b == 0x1F {
        Some(Command::ManualTrigger)
    } else if b == 0x41 {
        Some(Command::ReportRaw)
    } else if b == 0x42 {
        Some(Command::ReportSummary)
    } else {
        None
    }
}

/// Codes and commands correspond one to one.
pub proof fn lemma_command_code_round_trip(c: Command)
    ensures
        command_of_code(command_code(c)) == Some(c),
{
}

impl Command {
    /// The wire code of this command.
    pub fn code(self) -> (r: u8)
        ensures
            r == command_code(self),
    {
        match self {
            Command::SetPollRate => 0x01,
            Command::GetPollRate => 0x21,
            Command::SetReportMode => 0x02,
            Command::GetReportMode => 0x22,
            Command::SetThreshold => 0x03,
            Command::GetThreshold => 0x23,
            Command::SetAction => 0x04,
            Command::GetAction => 0x24,
            Command::ManualTrigger => 0x1F,
            Command::ReportRaw => 0x41,
            Command::ReportSummary => 0x42,
        }
    }

    /// The command with wire code `v`; any other byte is refused.
    pub fn try_from(v: u8) -> (r: Result<Command, Error>)
        ensures
            match command_of_code(v) {
                Some(c) => r == Ok::<Command, Error>(c),
                None => r == Err::<Command, Error>(Error::InvalidEnumConversion),
            },
    {
        match v {
            0x01 => Ok(Command::SetPollRate),
            0x21 => Ok(Command::GetPollRate),
            0x02 => Ok(Command::SetReportMode),
            0x22 => Ok(Command::GetReportMode),
            0x03 => Ok(Command::SetThreshold),
            0x23 => Ok(Command::GetThreshold),
            0x04 => Ok(Command::SetAction),
            0x24 => Ok(Command::GetAction),
            0x1F => Ok(Command::ManualTrigger),
            0x41 => Ok(Command::ReportRaw),
            0x42 => Ok(Command::ReportSummary),
            _ => Err(Error::InvalidEnumConversion),
        }
    }

    /// The name of this command, as shown to a user.
    pub fn label(self) -> (r: &'static str)
        ensures
            r@ == command_label(self),
    {
        match self {
            Command::SetPollRate => "Set poll rate",
            Command::GetPollRate => "Get poll rate",
            Command::SetReportMode => "Set report mode",
            Command::GetReportMode => "Get report mode",
            Command::SetThreshold => "Set threshold",
            Command::GetThreshold => "Get threshold",
            Command::SetAction => "Set action",
            Command::GetAction => "Get action",
            Command::ManualTrigger => "Manual trigger",
            Command::ReportRaw => "Raw",
            Command::ReportSummary => "Summary",
        }
    }
}

/// The name of a command, as shown to a user.
pub open spec fn command_label(c: Command) -> Seq<char> {
    match c {
        Command::SetPollRate => "Set poll rate"@,
        Command::GetPollRate => "Get poll rate"@,
        Command::SetReportMode => "Set report mode"@,
        Command::GetReportMode => "Get report mode"@,
        Command::SetThreshold => "Set threshold"@,
        Command::GetThreshold => "Get threshold"@,
        Command::SetAction => "Set action"@,
        Command::GetAction => "Get action"@,
        Command::ManualTrigger => "Manual trigger"@,
        Command::ReportRaw => "Raw"@,
        Command::ReportSummary => "Summary"@,
    }
}

/// Which kind of asynchronous report the device streams.
#[derive(Debug, Clone, Copy, PartialEq, Eq, Structural)]
pub enum ReportMode {
    Raw,
    Summary,
    Combined,
}

/// The wire byte of a report mode.
pub open spec fn report_mode_code(m: ReportMode) -> u8 {
    match m {
        ReportMode::Raw => 0,
        ReportMode::Summary => 1,
        ReportMode::Combined => 2,
    }
}

/// The report mode whose wire byte is `b`, if there is one.
pub open spec fn report_mode_of_code(b: u8) -> Option<ReportMode> {
    if b == 0 {
        Some(ReportMode::Raw)
    } else if b == 1 {
        Some(ReportMode::Summary)
    } else if b == 2 {
        Some(ReportMode::Combined)
    } else {
        None
    }
}

impl ReportMode {
    /// The wire byte of this report mode.
    pub fn code(self) -> (r: u8)
        ensures
            r == report_mode_code(self),
    {
        match self {
            ReportMode::Raw => 0,
            ReportMode::Summary => 1,
            ReportMode::Combined => 2,
        }
    }

    /// The report mode with wire byte `v`; any other byte is refused.
    pub fn try_from(v: u8) -> (r: Result<ReportMode, Error>)
        ensures
            match report_mode_of_code(v) {
                Some(m) => r == Ok::<ReportMode, Error>(m),
                None => r == Err::<ReportMode, Error>(Error::InvalidEnumConversion),
            },
    {
        match v {
            0 => Ok(ReportMode::Raw),
            1 => Ok(ReportMode::Summary),
            2 => Ok(ReportMode::Combined),
            _ => Err(Error::InvalidEnumConversion),
        }
    }

    /// The name of this report mode, as shown to a user.
    pub fn label(self) -> (r: &'static str)
        ensures
            r@ == report_mode_label(self),
    {
        match self {
            ReportMode::Raw => "Raw",
            ReportMode::Summary => "Summary",
            ReportMode::Combined => "Combined",
        }
    }
}

/// The name of a report mode, as shown to a user.
pub open spec fn report_mode_label(m: ReportMode) -> Seq<char> {
    match m {
        ReportMode::Raw => "Raw"@,
        ReportMode::Summary => "Summary"@,
        ReportMode::Combined => "Combined"@,
    }
}

/// A mouse button that the device can press.
#[derive(Debug, Clone, Copy, PartialEq, Eq, Structural)]
pub enum MouseButton {
    Left,
    Right,
    Middle,
}

/// The wire byte of a mouse button.
pub open spec fn mouse_button_code(b: MouseButton) -> u8 {
    match b {
        MouseButton::Left => 1,
        MouseButton::Right => 2,
        MouseButton::Middle => 4,
    }
}

/// The mouse button whose wire byte is `v`, if there is one.
pub open spec fn mouse_button_of_code(v: u8) -> Option<MouseButton> {
    if v == 1 {
        Some(MouseButton::Left)
    } else if v == 2 {
        Some(MouseButton::Right)
    } else if v == 4 {
        Some(MouseButton::Middle)
    } else {
        None
    }
}

/// The name of a mouse button, as shown to a user.
pub open spec fn mouse_button_label(b: MouseButton) -> Seq<char> {
    match b {
        MouseButton::Left => "Left"@,
        MouseButton::Right => "Right"@,
        MouseButton::Middle => "Middle"@,
    }
}

impl MouseButton {
    /// The wire byte of this button.
    pub fn code(self) -> (r: u8)
        ensures
            r == mouse_button_code(self),
    {
        match self {
            MouseButton::Left => 1,
            MouseButton::Right => 2,
            MouseButton::Middle => 4,
        }
    }

    /// The button with wire byte `v`; any other byte is refused.
    pub fn try_from(v: u8) -> (r: Result<MouseButton, Error>)
        ensures
            match mouse_button_of_code(v) {
                Some(b) => r == Ok::<MouseButton, Error>(b),
                None => r == Err::<MouseButton, Error>(Error::InvalidEnumConversion),
            },
    {
        match v {
            1 => Ok(MouseButton::Left),
            2 => Ok(MouseButton::Right),
            4 => Ok(MouseButton::Middle),
            _ => Err(Error::InvalidEnumConversion),
        }
    }

    /// The name of this button, as shown to a user.
    pub fn label(self) -> (r: &'static str)
        ensures
            r@ == mouse_button_label(self),
    {
        match self {
            MouseButton::Left => "Left",
            MouseButton::Right => "Right",
            MouseButton::Middle => "Middle",
        }
    }
}

/// A keyboard key that the device can press: a lowercase ASCII letter on the
/// wire.
#[derive(Debug, Clone, Copy, PartialEq, Eq, Structural)]
pub enum KeyboardKey {
    A,
    B,
    C,
    D,
    E,
    F,
    G,
    H,
    I,
    J,
    K,
    L,
    M,
    N,
    O,
    P,
    Q,
    R,
    S,
    T,
    U,
    V,
    W,
    X,
    Y,
    Z,
}

/// The wire byte of a keyboard key: its lowercase ASCII letter.
pub open spec fn keyboard_key_code(k: KeyboardKey) -> u8 {
    match k {
        KeyboardKey::A => 0x61,
        KeyboardKey::B => 0x62,
        KeyboardKey::C => 0x63,
        KeyboardKey::D => 0x64,
        KeyboardKey::E => 0x65,
        KeyboardKey::F => 0x66,
        KeyboardKey::G => 0x67,
        KeyboardKey::H => 0x68,
        KeyboardKey::I => 0x69,
        KeyboardKey::J => 0x6a,
        KeyboardKey::K => 0x6b,
        KeyboardKey::L => 0x6c,
        KeyboardKey::M => 0x6d,
        KeyboardKey::N => 0x6e,
        KeyboardKey::O => 0x6f,
        KeyboardKey::P => 0x70,
        KeyboardKey::Q => 0x71,
        KeyboardKey::R => 0x72,
        KeyboardKey::S => 0x73,
        KeyboardKey::T => 0x74,
        KeyboardKey::U => 0x75,
        KeyboardKey::V => 0x76,
        KeyboardKey::W => 0x77,
        KeyboardKey::X => 0x78,
        KeyboardKey::Y => 0x79,
        KeyboardKey::Z => 0x7a,
    }
}

/// The keyboard key whose wire byte is `v`, if there is one.
pub open spec fn keyboard_key_of_code(v: u8) -> Option<KeyboardKey> {
    if v == 0x61 {
        Some(KeyboardKey::A)
    } else if v == 0x62 {
        Some(KeyboardKey::B)
    } else if v == 0x63 {
        Some(KeyboardKey::C)
    } else if v == 0x64 {
        Some(KeyboardKey::D)
    } else if v == 0x65 {
        Some(KeyboardKey::E)
    } else if v == 0x66 {
        Some(KeyboardKey::F)
    } else if v == 0x67 {
        Some(KeyboardKey::G)
    } else if v == 0x68 {
        Some(KeyboardKey::H)
    } else if v == 0x69 {
        Some(KeyboardKey::I)
    } else if v == 0x6a {
        Some(KeyboardKey::J)
    } else if v == 0x6b {
        Some(KeyboardKey::K)
    } else if v == 0x6c {
        Some(KeyboardKey::L)
    } else if v == 0x6d {
        Some(KeyboardKey::M)
    } else if v == 0x6e {
        Some(KeyboardKey::N)
    } else if v == 0x6f {
        Some(KeyboardKey::O)
    } else if v == 0x70 {
        Some(KeyboardKey::P)
    } else if v == 0x71 {
        Some(KeyboardKey::Q)
    } else if v == 0x72 {
        Some(KeyboardKey::R)
    } else if v == 0x73 {
        Some(KeyboardKey::S)
    } else if v == 0x74 {
        Some(KeyboardKey::T)
    } else if v == 0x75 {
        Some(KeyboardKey::U)
    } else if v == 0x76 {
        Some(KeyboardKey::V)
    } else if v == 0x77 {
        Some(KeyboardKey::W)
    } else if v == 0x78 {
        Some(KeyboardKey::X)
    } else if v == 0x79 {
        Some(KeyboardKey::Y)
    } else if v == 0x7a {
        Some(KeyboardKey::Z)
    } else {
        None
    }
}

impl KeyboardKey {
    /// The wire byte of this key.
    pub fn code(self) -> (r: u8)
        ensures
            r == keyboard_key_code(self),
    {
        match self {
            KeyboardKey::A => 0x61,
            KeyboardKey::B => 0x62,
            KeyboardKey::C => 0x63,
            KeyboardKey::D => 0x64,
            KeyboardKey::E => 0x65,
            KeyboardKey::F => 0x66,
            KeyboardKey::G => 0x67,
            KeyboardKey::H => 0x68,
            KeyboardKey::I => 0x69,
            KeyboardKey::J => 0x6a,
            KeyboardKey::K => 0x6b,
            KeyboardKey::L => 0x6c,
            KeyboardKey::M => 0x6d,
            KeyboardKey::N => 0x6e,
            KeyboardKey::O => 0x6f,
            KeyboardKey::P => 0x70,
            KeyboardKey::Q => 0x71,
            KeyboardKey::R => 0x72,
            KeyboardKey::S => 0x73,
            KeyboardKey::T => 0x74,
            KeyboardKey::U => 0x75,
            KeyboardKey::V => 0x76,
            KeyboardKey::W => 0x77,
            KeyboardKey::X => 0x78,
            KeyboardKey::Y => 0x79,
            KeyboardKey::Z => 0x7a,
        }
    }

    /// The key with wire byte `v`; any other byte is refused.
    pub fn try_from(v: u8) -> (r: Result<KeyboardKey, Error>)
        ensures
            match keyboard_key_of_code(v) {
                Some(k) => r == Ok::<KeyboardKey, Error>(k),
                None => r == Err::<KeyboardKey, Error>(Error::InvalidEnumConversion),
            },
    {
        match v {
            0x61 => Ok(KeyboardKey::A),
            0x62 => Ok(KeyboardKey::B),
            0x63 => Ok(KeyboardKey::C),
            0x64 => Ok(KeyboardKey::D),
            0x65 => Ok(KeyboardKey::E),
            0x66 => Ok(KeyboardKey::F),
            0x67 => Ok(KeyboardKey::G),
            0x68 => Ok(KeyboardKey::H),
            0x69 => Ok(KeyboardKey::I),
            0x6a => Ok(KeyboardKey::J),
            0x6b => Ok(KeyboardKey::K),
            0x6c => Ok(KeyboardKey::L),
            0x6d => Ok(KeyboardKey::M),
            0x6e => Ok(KeyboardKey::N),
            0x6f => Ok(KeyboardKey::O),
            0x70 => Ok(KeyboardKey::P),
            0x71 => Ok(KeyboardKey::Q),
            0x72 => Ok(KeyboardKey::R),
            0x73 => Ok(KeyboardKey::S),
            0x74 => Ok(KeyboardKey::T),
            0x75 => Ok(KeyboardKey::U),
            0x76 => Ok(KeyboardKey::V),
            0x77 => Ok(KeyboardKey::W),
            0x78 => Ok(KeyboardKey::X),
            0x79 => Ok(KeyboardKey::Y),
            0x7a => Ok(KeyboardKey::Z),
            _ => Err(Error::InvalidEnumConversion),
        }
    }

    /// The letter of this key in upper case, as shown to a user.
    pub fn letter(self) -> (r: char)
        ensures
            r as u32 == keyboard_key_code(self) as u32 - 32,
    {
        ((self.code() - 32) as char)
    }
}

/// What the device does when it triggers: press a mouse button or a key.
#[derive(Debug, Clone, Copy, PartialEq, Eq, Structural)]
pub enum ActionMode {
    Mouse(MouseButton),
    Keyboard(KeyboardKey),
}

/// The mode selector byte of an action: 0 for the mouse, 1 for the keyboard.
pub open spec fn action_selector(a: ActionMode) -> u8 {
    match a {
        ActionMode::Mouse(_) => 0,
        ActionMode::Keyboard(_) => 1,
    }
}

/// The key byte of an action: the button's or the key's wire byte.
pub open spec fn action_key(a: ActionMode) -> u8 {
    match a {
        ActionMode::Mouse(b) => mouse_button_code(b),
        ActionMode::Keyboard(k) => keyboard_key_code(k),
    }
}

/// The action described by a selector byte and a key byte: a selector other
/// than 0 or 1 is an invalid setting, a key outside the selected family is an
/// invalid enumeration value.
pub open spec fn action_of_bytes(mode: u8, key: u8) -> Result<ActionMode, Error> {
    if mode == 0 {
        match mouse_button_of_code(key) {
            Some(b) => Ok(ActionMode::Mouse(b)),
            None => Err(Error::InvalidEnumConversion),
        }
    } else if mode == 1 {
        match keyboard_key_of_code(key) {
            Some(k) => Ok(ActionMode::Keyboard(k)),
            None => Err(Error::InvalidEnumConversion),
        }
    } else {
        Err(Error::InvalidSetting(Command::SetAction, [mode, key]))
    }
}

impl ActionMode {
    /// The key byte of this action.
    pub fn get_key(self) -> (r: u8)
        ensures
            r == action_key(self),
    {
        match self {
            ActionMode::Mouse(button) => button.code(),
            ActionMode::Keyboard(key) => key.code(),
        }
    }

    /// The action described by a selector byte and a key byte.
    pub fn try_from(mode: u8, key: u8) -> (r: Result<ActionMode, Error>)
        ensures
            r == action_of_bytes(mode, key),
    {
        match mode {
            0 => match MouseButton::try_from(key) {
                Ok(b) => Ok(ActionMode::Mouse(b)),
                Err(e) => Err(e),
            },
            1 => match KeyboardKey::try_from(key) {
                Ok(k) => Ok(ActionMode::Keyboard(k)),
                Err(e) => Err(e),
            },
            _ => Err(Error::InvalidSetting(Command::SetAction, [mode, key])),
        }
    }
}

impl From<ActionMode> for u8 {
    /// The mode selector byte of an action.
    fn from(value: ActionMode) -> (r: u8)
        ensures
            r == action_selector(value),
    {
        match value {
            ActionMode::Mouse(_) => 0,
            ActionMode::Keyboard(_) => 1,
        }
    }
}

impl vstd::std_specs::convert::FromSpecImpl<ActionMode> for u8 {
    open spec fn obeys_from_spec() -> bool {
        true
    }

    open spec fn from_spec(v: ActionMode) -> u8 {
        action_selector(v)
    }
}

/// Decoding an action's two bytes gives the action back.
pub proof fn lemma_action_bytes_round_trip(a: ActionMode)
    ensures
        action_of_bytes(action_selector(a), action_key(a)) == Ok::<ActionMode, Error>(a),
{
}

} // verus!
