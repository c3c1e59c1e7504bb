//! Control of Luxafor indicator lights, over USB HID or the cloud webhook API.
//!
//! The domain values ([`SolidColor`], [`Pattern`], [`Wave`], [`SpecificLED`]) parse from and
//! format to the tokens that the command line and the webhook API use. The two backends,
//! [`usb_hid::USBDevice`] and [`webhook::WebhookDevice`], turn one command into the exact bytes
//! of a HID report or the exact JSON body and endpoint of a webhook call, and hand it to an
//! injected transport.
pub mod error;
pub mod text;
pub mod color;
pub mod device;
pub mod led;
pub mod pattern;
pub mod usb_hid;
pub mod webhook;

pub use color::SolidColor;
pub use device::{connection_for, set_lights, Command, Connection, Device, TargetedDevice};
pub use error::ErrorKind;
pub use led::SpecificLED;
pub use pattern::{Pattern, Wave};
