//! Protocol engine for Cherry RGB keyboards: packet framing, checksums, the
//! payload codec, chunked transfers and the device session state machine.

pub mod bytes;
pub mod checksum;
pub mod color;
pub mod command;
pub mod devices;
pub mod error;
pub mod events;
pub mod hexcode;
pub mod leds;
pub mod models;
pub mod packet;
pub mod payload;
pub mod profile;
pub mod session;
pub mod text;
pub mod transfer;

pub use checksum::calc_checksum;
pub use color::OwnRGB8;
pub use error::{CherryRgbError, UsbErrorKind};
pub use leds::{chunk_payloads, CustomKeyLeds, ProfileKey, CHUNK_SIZE, TOTAL_KEYS};
pub use models::{Brightness, Keymap, LightingMode, RpcAnimation, Speed, UsbPollingRate};
pub use packet::{parse_response, DecodeError, Packet};
pub use payload::{Payload, PayloadReadWrite, PayloadType, PayloadView, ToVec};
pub use profile::{profile_keys, read_color_profile};
pub use session::{DeviceState, Progress, Session, TransferOutcome, CHERRY_USB_VID};
