//! The operations every backend offers, the LED-targeting extension, and the dispatch of one
//! command line request to a device.
use vstd::prelude::*;

use crate::color::SolidColor;
use crate::error::ErrorKind;
use crate::led::SpecificLED;
use crate::pattern::{Pattern, Wave};

verus! {

/// A light that can be controlled, whatever the connection to it.
///
/// Each operation performs at most one write or one request. What it may return is given,
/// per backend, by the outcome predicate that goes with it.
pub trait Device {
    /// The identifier of the device.
    spec fn identifier(&self) -> Seq<char>;

    /// What `turn_off` may return.
    spec fn off_outcome(&self, r: Result<(), ErrorKind>) -> bool;

    /// What `set_solid_color` may return.
    spec fn solid_outcome(&self, color: SolidColor, blink: bool, r: Result<(), ErrorKind>) -> bool;

    /// What `set_fade_to_color` may return.
    spec fn fade_outcome(&self, color: SolidColor, fade_duration: u8, r: Result<(), ErrorKind>) -> bool;

    /// What `set_color_strobe` may return.
    spec fn strobe_outcome(
        &self,
        color: SolidColor,
        strobe_speed: u8,
        repeat_count: u8,
        r: Result<(), ErrorKind>,
    ) -> bool;

    /// What `set_color_wave` may return.
    spec fn wave_outcome(
        &self,
        color: SolidColor,
        wave_pattern: Wave,
        wave_speed: u8,
        repeat_count: u8,
        r: Result<(), ErrorKind>,
    ) -> bool;

    /// What `set_pattern` may return.
    spec fn pattern_outcome(&self, pattern: Pattern, repeat_count: u8, r: Result<(), ErrorKind>) -> bool;

    /// Return the identifier for the device.
    fn id(&self) -> (r: String)
        ensures
            r@ == self.identifier(),
    ;

    /// Turn the light off.
    fn turn_off(&self) -> (r: Result<(), ErrorKind>)
        ensures
            self.off_outcome(r),
    ;

    /// Set the light to a continuous solid color, or to blink that color.
    fn set_solid_color(&self, color: SolidColor, blink: bool) -> (r: Result<(), ErrorKind>)
        ensures
            self.solid_outcome(color, blink, r),
    ;

    /// Set the light to fade from its current color to a new one.
    fn set_fade_to_color(&self, color: SolidColor, fade_duration: u8) -> (r: Result<(), ErrorKind>)
        ensures
            self.fade_outcome(color, fade_duration, r),
    ;

    /// Strobe the light: dim and brighten the same color.
    fn set_color_strobe(&self, color: SolidColor, strobe_speed: u8, repeat_count: u8) -> (r:
        Result<(), ErrorKind>)
        ensures
            self.strobe_outcome(color, strobe_speed, repeat_count, r),
    ;

    /// Set the light to repeat one of the wave styles.
    fn set_color_wave(
        &self,
        color: SolidColor,
        wave_pattern: Wave,
        wave_speed: u8,
        repeat_count: u8,
    ) -> (r: Result<(), ErrorKind>)
        ensures
            self.wave_outcome(color, wave_pattern, wave_speed, repeat_count, r),
    ;

    /// Set the light to repeat one of the preset patterns.
    fn set_pattern(&self, pattern: Pattern, repeat_count: u8) -> (r: Result<(), ErrorKind>)
        ensures
            self.pattern_outcome(pattern, repeat_count, r),
    ;
}

/// A device whose operations can be aimed at specific LEDs.
pub trait TargetedDevice: Device {
    /// The LED target that later operations address.
    spec fn target(&self) -> SpecificLED;

    /// Set the LED to be used for future operations; an LED number outside 1..=6 is refused
    /// and leaves the target as it was.
    fn set_specific_led(&mut self, led: SpecificLED) -> (r: Result<(), ErrorKind>)
        ensures
            r is Ok <==> crate::led::is_valid_led(led),
            r is Err ==> r == Err::<(), ErrorKind>(ErrorKind::InvalidLED),
            r is Ok ==> final(self).target() == led,
            r is Err ==> final(self).target() == old(self).target(),
            final(self).identifier() == old(self).identifier(),
    ;
}

/// One request of the command line tool.
#[derive(Clone, Copy, Debug, PartialEq, Eq, Structural)]
pub enum Command {
    /// Set the light to a solid color.
    Solid { color: SolidColor },
    /// Strobe a color.
    Strobe { color: SolidColor, speed: u8, repeat: u8 },
    /// Fade from the current color to a new one.
    Fade { color: SolidColor, fade_duration: u8 },
    /// Show a wave of a color.
    Wave { color: SolidColor, style: Wave, speed: u8, repeat: u8 },
    /// Show a preset pattern.
    Pattern { pattern: Pattern, repeat: u8 },
    /// Turn the light off.
    Off,
}

/// What a device may return for a command: the outcome of the one operation it maps to.
pub open spec fn command_outcome<D: Device>(device: &D, command: Command, r: Result<(), ErrorKind>) -> bool {
    match command {
        Command::Solid { color } => device.solid_outcome(color, false, r),
        Command::Strobe { color, speed, repeat } => device.strobe_outcome(color, speed, repeat, r),
        Command::Fade { color, fade_duration } => device.fade_outcome(color, fade_duration, r),
        Command::Wave { color, style, speed, repeat } => device.wave_outcome(
            color,
            style,
            speed,
            repeat,
            r,
        ),
        Command::Pattern { pattern, repeat } => device.pattern_outcome(pattern, repeat, r),
        Command::Off => device.off_outcome(r),
    }
}

/// Carries out one command on a device: a solid color does not blink.
pub fn set_lights<D: Device>(command: Command, device: &D) -> (r: Result<(), ErrorKind>)
    ensures
        command_outcome(device, command, r),
{
    match command {
        Command::Solid { color } => device.set_solid_color(color, false),
        Command::Strobe { color, speed, repeat } => device.set_color_strobe(color, speed, repeat),
        Command::Fade { color, fade_duration } => device.set_fade_to_color(color, fade_duration),
        Command::Wave { color, style, speed, repeat } => device.set_color_wave(
            color,
            style,
            speed,
            repeat,
        ),
        Command::Pattern { pattern, repeat } => device.set_pattern(pattern, repeat),
        Command::Off => device.turn_off(),
    }
}

/// Which backend a device argument selects.
#[derive(Clone, Copy, Debug, PartialEq, Eq, Structural)]
pub enum Connection {
    /// The light attached over USB.
    Usb,
    /// A light reached through the webhook API, by its device identifier.
    Webhook,
}

/// The backend that a device argument selects: exactly `usb` selects USB, anything else is
/// a webhook device identifier.
pub fn connection_for(device: &str) -> (r: Connection)
    ensures
        r == (if device@ == "usb"@ {
            Connection::Usb
        } else {
            Connection::Webhook
        }),
{
    let d = String::from_str(device);
    if crate::text::is_token(&d, "usb") {
        Connection::Usb
    } else {
        Connection::Webhook
    }
}

} // verus!
