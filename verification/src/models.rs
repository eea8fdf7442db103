//! The plain values of the protocol: lighting modes, speeds, brightness
//! levels and keymap entries.

use crate::color::OwnRGB8;
use vstd::prelude::*;

verus! {

/// LED animation mode; the notes say which options a mode honours.
#[derive(Clone, Copy, Debug, PartialEq, Eq, Structural)]
pub enum LightingMode {
    /// colors, speed
    Wave,
    /// speed
    Spectrum,
    /// colors, speed
    Breathing,
    /// colors
    Static,
    /// unofficial
    Radar,
    /// unofficial
    Vortex,
    /// unofficial
    Fire,
    /// unofficial
    Stars,
    /// unofficial
    Rain,
    /// per-key colors
    Custom,
    /// speed
    Rolling,
    /// colors, speed
    Curve,
    /// unofficial
    WaveMid,
    /// colors
    Scan,
    /// colors, speed
    Radiation,
    /// colors, speed
    Ripples,
    /// colors, speed
    SingleKey,
}

impl LightingMode {
    /// The byte that stands for this value on the wire.
    pub open spec fn byte(self) -> u8 {
        match self {
            LightingMode::Wave => 0x00,
            LightingMode::Spectrum => 0x01,
            LightingMode::Breathing => 0x02,
            LightingMode::Static => 0x03,
            LightingMode::Radar => 0x04,
            LightingMode::Vortex => 0x05,
            LightingMode::Fire => 0x06,
            LightingMode::Stars => 0x07,
            LightingMode::Rain => 0x0b,
            LightingMode::Custom => 0x08,
            LightingMode::Rolling => 0x0a,
            LightingMode::Curve => 0x0c,
            LightingMode::WaveMid => 0x0e,
            LightingMode::Scan => 0x0f,
            LightingMode::Radiation => 0x12,
            LightingMode::Ripples => 0x13,
            LightingMode::SingleKey => 0x15,
        }
    }

    /// The value that a wire byte stands for, if any.
    pub open spec fn of_byte(byte: u8) -> Option<Self> {
        if byte == 0x00 {
            Some(LightingMode::Wave)
        } else if byte == 0x01 {
            Some(LightingMode::Spectrum)
        } else if byte == 0x02 {
            Some(LightingMode::Breathing)
        } else if byte == 0x03 {
            Some(LightingMode::Static)
        } else if byte == 0x04 {
            Some(LightingMode::Radar)
        } else if byte == 0x05 {
            Some(LightingMode::Vortex)
        } else if byte == 0x06 {
            Some(LightingMode::Fire)
        } else if byte == 0x07 {
            Some(LightingMode::Stars)
        } else if byte == 0x0b {
            Some(LightingMode::Rain)
        } else if byte == 0x08 {
            Some(LightingMode::Custom)
        } else if byte == 0x0a {
            Some(LightingMode::Rolling)
        } else if byte == 0x0c {
            Some(LightingMode::Curve)
        } else if byte == 0x0e {
            Some(LightingMode::WaveMid)
        } else if byte == 0x0f {
            Some(LightingMode::Scan)
        } else if byte == 0x12 {
            Some(LightingMode::Radiation)
        } else if byte == 0x13 {
            Some(LightingMode::Ripples)
        } else if byte == 0x15 {
            Some(LightingMode::SingleKey)
        } else {
            None
        }
    }

    pub fn to_byte(&self) -> (byte: u8)
        ensures
            byte == self.byte(),
    {
        match self {
            LightingMode::Wave => 0x00,
            LightingMode::Spectrum => 0x01,
            LightingMode::Breathing => 0x02,
            LightingMode::Static => 0x03,
            LightingMode::Radar => 0x04,
            LightingMode::Vortex => 0x05,
            LightingMode::Fire => 0x06,
            LightingMode::Stars => 0x07,
            LightingMode::Rain => 0x0b,
            LightingMode::Custom => 0x08,
            LightingMode::Rolling => 0x0a,
            LightingMode::Curve => 0x0c,
            LightingMode::WaveMid => 0x0e,
            LightingMode::Scan => 0x0f,
            LightingMode::Radiation => 0x12,
            LightingMode::Ripples => 0x13,
            LightingMode::SingleKey => 0x15,
        }
    }

    pub fn from_byte(byte: u8) -> (value: Option<Self>)
        ensures
            value == Self::of_byte(byte),
    {
        match byte {
            0x00 => Some(LightingMode::Wave),
            0x01 => Some(LightingMode::Spectrum),
            0x02 => Some(LightingMode::Breathing),
            0x03 => Some(LightingMode::Static),
            0x04 => Some(LightingMode::Radar),
            0x05 => Some(LightingMode::Vortex),
            0x06 => Some(LightingMode::Fire),
            0x07 => Some(LightingMode::Stars),
            0x0b => Some(LightingMode::Rain),
            0x08 => Some(LightingMode::Custom),
            0x0a => Some(LightingMode::Rolling),
            0x0c => Some(LightingMode::Curve),
            0x0e => Some(LightingMode::WaveMid),
            0x0f => Some(LightingMode::Scan),
            0x12 => Some(LightingMode::Radiation),
            0x13 => Some(LightingMode::Ripples),
            0x15 => Some(LightingMode::SingleKey),
            _ => None,
        }
    }

    /// A value is read back from its own byte, and a byte that stands for a
    /// value is the byte of that value.
    pub proof fn lemma_byte_round_trip(value: Self, byte: u8)
        ensures
            Self::of_byte(value.byte()) == Some(value),
            Self::of_byte(byte) == Some(value) ==> value.byte() == byte,
    {
    }
}

/// USB polling rate, from 125 Hz (`Low`) to 1000 Hz (`Full`).
#[derive(Clone, Copy, Debug, PartialEq, Eq, Structural)]
pub enum UsbPollingRate {
    Low,
    Medium,
    High,
    Full,
}

impl UsbPollingRate {
    /// The byte that stands for this value on the wire.
    pub open spec fn byte(self) -> u8 {
        match self {
            UsbPollingRate::Low => 0x00,
            UsbPollingRate::Medium => 0x01,
            UsbPollingRate::High => 0x02,
            UsbPollingRate::Full => 0x03,
        }
    }

    /// The value that a wire byte stands for, if any.
    pub open spec fn of_byte(byte: u8) -> Option<Self> {
        if byte == 0x00 {
            Some(UsbPollingRate::Low)
        } else if byte == 0x01 {
            Some(UsbPollingRate::Medium)
        } else if byte == 0x02 {
            Some(UsbPollingRate::High)
        } else if byte == 0x03 {
            Some(UsbPollingRate::Full)
        } else {
            None
        }
    }

    pub fn to_byte(&self) -> (byte: u8)
        ensures
            byte == self.byte(),
    {
        match self {
            UsbPollingRate::Low => 0x00,
            UsbPollingRate::Medium => 0x01,
            UsbPollingRate::High => 0x02,
            UsbPollingRate::Full => 0x03,
        }
    }

    pub fn from_byte(byte: u8) -> (value: Option<Self>)
        ensures
            value == Self::of_byte(byte),
    {
        match byte {
            0x00 => Some(UsbPollingRate::Low),
            0x01 => Some(UsbPollingRate::Medium),
            0x02 => Some(UsbPollingRate::High),
            0x03 => Some(UsbPollingRate::Full),
            _ => None,
        }
    }

    /// A value is read back from its own byte, and a byte that stands for a
    /// value is the byte of that value.
    pub proof fn lemma_byte_round_trip(value: Self, byte: u8)
        ensures
            Self::of_byte(value.byte()) == Some(value),
            Self::of_byte(byte) == Some(value) ==> value.byte() == byte,
    {
    }
}

/// LED animation speed.
#[derive(Clone, Copy, Debug, PartialEq, Eq, Structural)]
pub enum Speed {
    VeryFast,
    Fast,
    Medium,
    Slow,
    VerySlow,
}

impl Speed {
    /// The byte that stands for this value on the wire.
    pub open spec fn byte(self) -> u8 {
        match self {
            Speed::VeryFast => 0x00,
            Speed::Fast => 0x01,
            Speed::Medium => 0x02,
            Speed::Slow => 0x03,
            Speed::VerySlow => 0x04,
        }
    }

    /// The value that a wire byte stands for, if any.
    pub open spec fn of_byte(byte: u8) -> Option<Self> {
        if byte == 0x00 {
            Some(Speed::VeryFast)
        } else if byte == 0x01 {
            Some(Speed::Fast)
        } else if byte == 0x02 {
            Some(Speed::Medium)
        } else if byte == 0x03 {
            Some(Speed::Slow)
        } else if byte == 0x04 {
            Some(Speed::VerySlow)
        } else {
            None
        }
    }

    pub fn to_byte(&self) -> (byte: u8)
        ensures
            byte == self.byte(),
    {
        match self {
            Speed::VeryFast => 0x00,
            Speed::Fast => 0x01,
            Speed::Medium => 0x02,
            Speed::Slow => 0x03,
            Speed::VerySlow => 0x04,
        }
    }

    pub fn from_byte(byte: u8) -> (value: Option<Self>)
        ensures
            value == Self::of_byte(byte),
    {
        match byte {
            0x00 => Some(Speed::VeryFast),
            0x01 => Some(Speed::Fast),
            0x02 => Some(Speed::Medium),
            0x03 => Some(Speed::Slow),
            0x04 => Some(Speed::VerySlow),
            _ => None,
        }
    }

    /// A value is read back from its own byte, and a byte that stands for a
    /// value is the byte of that value.
    pub proof fn lemma_byte_round_trip(value: Self, byte: u8)
        ensures
            Self::of_byte(value.byte()) == Some(value),
            Self::of_byte(byte) == Some(value) ==> value.byte() == byte,
    {
    }
}

/// LED brightness.
#[derive(Clone, Copy, Debug, PartialEq, Eq, Structural)]
pub enum Brightness {
    Off,
    Low,
    Medium,
    High,
    Full,
}

impl Brightness {
    /// The byte that stands for this value on the wire.
    pub open spec fn byte(self) -> u8 {
        match self {
            Brightness::Off => 0x00,
            Brightness::Low => 0x01,
            Brightness::Medium => 0x02,
            Brightness::High => 0x03,
            Brightness::Full => 0x04,
        }
    }

    /// The value that a wire byte stands for, if any.
    pub open spec fn of_byte(byte: u8) -> Option<Self> {
        if byte == 0x00 {
            Some(Brightness::Off)
        } else if byte == 0x01 {
            Some(Brightness::Low)
        } else if byte == 0x02 {
            Some(Brightness::Medium)
        } else if byte == 0x03 {
            Some(Brightness::High)
        } else if byte == 0x04 {
            Some(Brightness::Full)
        } else {
            None
        }
    }

    pub fn to_byte(&self) -> (byte: u8)
        ensures
            byte == self.byte(),
    {
        match self {
            Brightness::Off => 0x00,
            Brightness::Low => 0x01,
            Brightness::Medium => 0x02,
            Brightness::High => 0x03,
            Brightness::Full => 0x04,
        }
    }

    pub fn from_byte(byte: u8) -> (value: Option<Self>)
        ensures
            value == Self::of_byte(byte),
    {
        match byte {
            0x00 => Some(Brightness::Off),
            0x01 => Some(Brightness::Low),
            0x02 => Some(Brightness::Medium),
            0x03 => Some(Brightness::High),
            0x04 => Some(Brightness::Full),
            _ => None,
        }
    }

    /// A value is read back from its own byte, and a byte that stands for a
    /// value is the byte of that value.
    pub proof fn lemma_byte_round_trip(value: Self, byte: u8)
        ensures
            Self::of_byte(value.byte()) == Some(value),
            Self::of_byte(byte) == Some(value) ==> value.byte() == byte,
    {
    }
}

/// The mapping of one key slot to a function: modifier, an undeciphered byte
/// and the keycode.
#[derive(Clone, Copy, Debug, PartialEq, Eq, Structural)]
pub struct Keymap {
    pub modifier: u8,
    pub unk: u8,
    pub keycode: u8,
}

/// Parameters of a request to set the LED animation.
#[derive(Clone, Copy, Debug, PartialEq, Eq, Structural)]
pub struct RpcAnimation {
    pub mode: LightingMode,
    pub brightness: Brightness,
    pub speed: Speed,
    pub color: Option<OwnRGB8>,
    pub rainbow: bool,
}

impl RpcAnimation {
    /// The accent color of the request: the one given, else white.
    pub open spec fn accent(self) -> OwnRGB8 {
        match self.color {
            Some(color) => color,
            None => OwnRGB8 { r: 255, g: 255, b: 255 },
        }
    }

    /// The accent color to send: the one given, else white.
    pub fn accent_color(&self) -> (color: OwnRGB8)
        ensures
            color == self.accent(),
    {
        match self.color {
            Some(color) => color,
            None => OwnRGB8::new(255, 255, 255),
        }
    }
}

} // verus!
