//! The USB HID backend: each command becomes one HID report.
//!
//! Byte 0 of every report is the report id `0x00`; byte 1 is the mode.
//!
//! | Command | 1      | 2      | 3   | 4     | 5    | 6      | 7      | 8      |
//! |---------|--------|--------|-----|-------|------|--------|--------|--------|
//! | Off     | `0x00` | `'O'`  |     |       |      |        |        |        |
//! | Solid   | `0x01` | LED    | RED | GREEN | BLUE |        |        |        |
//! | Fade    | `0x02` | LED    | RED | GREEN | BLUE | TIME   |        |        |
//! | Strobe  | `0x03` | LED    | RED | GREEN | BLUE | SPEED  | `0x00` | REPEAT |
//! | Wave    | `0x04` | WTYPE  | RED | GREEN | BLUE | `0x00` | REPEAT | SPEED  |
//! | Pattern | `0x06` | PTYPE  | REPEAT |    |      |        |        |        |
//!
//! The light is found by vendor id `0x04D8` and product id `0xF372`.
use vstd::prelude::*;

use crate::color::{rgb, SolidColor};
use crate::device::{Device, TargetedDevice};
use crate::error::ErrorKind;
use crate::led::{is_valid_led, SpecificLED};
use crate::pattern::{is_valid_pattern, Pattern, Wave};

verus! {

/// The USB vendor id of Luxafor lights.
pub const LUXAFOR_VENDOR_ID: u16 = 0x04d8;

/// The USB product id of Luxafor lights.
pub const LUXAFOR_PRODUCT_ID: u16 = 0xf372;

const HID_REPORT_ID: u8 = 0;

const MODE_SIMPLE: u8 = 0;

const MODE_SOLID: u8 = 1;

const MODE_FADE: u8 = 2;

const MODE_STROBE: u8 = 3;

const MODE_WAVE: u8 = 4;

const MODE_PATTERN: u8 = 6;

const SIMPLE_COLOR_OFF: u8 = 0x4f;

const LED_ALL: u8 = 0xff;

const LED_FRONT_ALL: u8 = 0x42;

const LED_BACK_ALL: u8 = 0x41;

/// The transport a USB light is written through.
pub trait ReportWriter {
    /// Writes one HID report to the device; returns how many bytes the device took, or `None`
    /// when the write failed.
    fn write_report(&self, report: &[u8]) -> Option<usize>;
}

/// The wire code that addresses an LED target. Single LEDs follow the physical layout: the
/// front column counts down from 3 at the bottom, the back column up to 6 at the top.
pub open spec fn led_code(led: SpecificLED) -> u8 {
    match led {
        SpecificLED::All => 0xff,
        SpecificLED::AllFront => 0x42,
        SpecificLED::AllBack => 0x41,
        SpecificLED::Number(n) => if n == 1 {
            3
        } else if n == 2 {
            2
        } else if n == 3 {
            1
        } else {
            n
        },
    }
}

/// The wire code of a wave style.
pub open spec fn wave_code(w: Wave) -> u8 {
    match w {
        Wave::Short => 1,
        Wave::Long => 2,
        Wave::OverlappingShort => 3,
        Wave::OverlappingLong => 4,
    }
}

/// The wire code of a (valid) pattern.
pub open spec fn pattern_code(p: Pattern) -> u8 {
    match p {
        Pattern::Police => 5,
        Pattern::TrafficLights => 1,
        Pattern::Random(n) => if n == 1 {
            2
        } else if n == 2 {
            3
        } else if n == 3 {
            4
        } else if n == 4 {
            6
        } else {
            7
        },
        Pattern::Rainbow => 8,
        Pattern::Sea => 9,
        Pattern::WhiteWave => 10,
        Pattern::Synthetic => 11,
    }
}

/// The report that turns the light off.
pub open spec fn off_report() -> Seq<u8> {
    seq![0u8, 0u8, 0x4fu8]
}

/// The report that sets LEDs `led` to a solid color.
pub open spec fn solid_report(led: u8, color: SolidColor) -> Seq<u8> {
    seq![0u8, 1u8, led, rgb(color).0, rgb(color).1, rgb(color).2]
}

/// The report that fades LEDs `led` to a color over `duration`.
pub open spec fn fade_report(led: u8, color: SolidColor, duration: u8) -> Seq<u8> {
    seq![0u8, 2u8, led, rgb(color).0, rgb(color).1, rgb(color).2, duration]
}

/// The report that strobes LEDs `led` in a color.
pub open spec fn strobe_report(led: u8, color: SolidColor, speed: u8, repeat: u8) -> Seq<u8> {
    seq![0u8, 3u8, led, rgb(color).0, rgb(color).1, rgb(color).2, speed, 0u8, repeat]
}

/// The report that shows a wave of a color.
pub open spec fn wave_report(color: SolidColor, wave: Wave, speed: u8, repeat: u8) -> Seq<u8> {
    seq![0u8, 4u8, wave_code(wave), rgb(color).0, rgb(color).1, rgb(color).2, 0u8, repeat, speed]
}

/// The report that shows a preset pattern.
pub open spec fn pattern_report(pattern: Pattern, repeat: u8) -> Seq<u8> {
    seq![0u8, 6u8, pattern_code(pattern), repeat]
}

/// The result of a write that should have taken `expected` bytes and took `reported`.
pub open spec fn write_result(expected: usize, reported: Option<usize>) -> Result<(), ErrorKind> {
    if reported == Some(expected) {
        Ok(())
    } else {
        Err(ErrorKind::InvalidRequest)
    }
}

/// What a USB operation that reached the device may return.
pub open spec fn written(r: Result<(), ErrorKind>) -> bool {
    r is Ok || r == Err::<(), ErrorKind>(ErrorKind::InvalidRequest)
}

/// A device string as it stands in an identifier: `<error>` when it could not be read,
/// `<unknown>` when the device has none.
pub open spec fn id_part(part: Result<Option<String>, ()>) -> Seq<char> {
    match part {
        Ok(Some(s)) => s@,
        Ok(None) => "<unknown>"@,
        Err(()) => "<error>"@,
    }
}

/// The identifier of a USB light: manufacturer, product and serial number, joined by `::`.
pub open spec fn usb_identifier(
    manufacturer: Result<Option<String>, ()>,
    product: Result<Option<String>, ()>,
    serial: Result<Option<String>, ()>,
) -> Seq<char> {
    id_part(manufacturer) + "::"@ + id_part(product) + "::"@ + id_part(serial)
}

/// Judges a write: it succeeded only if the device took every byte of the report.
pub fn write_outcome(expected: usize, reported: Option<usize>) -> (r: Result<(), ErrorKind>)
    ensures
        r == write_result(expected, reported),
{
    match reported {
        Some(n) if n == expected => Ok(()),
        _ => Err(ErrorKind::InvalidRequest),
    }
}

fn push_id_part(s: &mut String, part: &Result<Option<String>, ()>)
    ensures
        final(s)@ == old(s)@ + id_part(*part),
{
    match part {
        Ok(Some(p)) => s.append(p.as_str()),
        Ok(None) => s.append("<unknown>"),
        Err(()) => s.append("<error>"),
    }
}

/// The identifier of a USB light from the strings it reports.
pub fn device_identifier(
    manufacturer: &Result<Option<String>, ()>,
    product: &Result<Option<String>, ()>,
    serial: &Result<Option<String>, ()>,
) -> (r: String)
    ensures
        r@ == usb_identifier(*manufacturer, *product, *serial),
{
    let mut s = String::new();
    push_id_part(&mut s, manufacturer);
    s.append("::");
    push_id_part(&mut s, product);
    s.append("::");
    push_id_part(&mut s, serial);
    assert(s@ =~= usb_identifier(*manufacturer, *product, *serial));
    s
}

/// The report that turns the light off.
pub fn encode_off() -> (r: Vec<u8>)
    ensures
        r@ == off_report(),
{
    let r = vec![HID_REPORT_ID, MODE_SIMPLE, SIMPLE_COLOR_OFF];
    assert(r@ =~= off_report());
    r
}

/// The wire code of an LED target, or `None` for an LED number outside 1..=6.
pub fn encode_led(led: SpecificLED) -> (r: Option<u8>)
    ensures
        r == (if is_valid_led(led) {
            Some(led_code(led))
        } else {
            None
        }),
{
    match led {
        SpecificLED::All => Some(LED_ALL),
        SpecificLED::AllFront => Some(LED_FRONT_ALL),
        SpecificLED::AllBack => Some(LED_BACK_ALL),
        SpecificLED::Number(n) => {
            if n == 1 {
                Some(3)
            } else if n == 2 {
                Some(2)
            } else if n == 3 {
                Some(1)
            } else if 4 <= n && n <= 6 {
                Some(n)
            } else {
                None
            }
        },
    }
}

/// The wire code of a wave style.
pub fn encode_wave_style(w: Wave) -> (r: u8)
    ensures
        r == wave_code(w),
{
    match w {
        Wave::Short => 1,
        Wave::Long => 2,
        Wave::OverlappingShort => 3,
        Wave::OverlappingLong => 4,
    }
}

/// The wire code of a pattern, or `None` for a random pattern outside 1..=5.
pub fn encode_pattern_code(p: Pattern) -> (r: Option<u8>)
    ensures
        r == (if is_valid_pattern(p) {
            Some(pattern_code(p))
        } else {
            None
        }),
{
    match p {
        Pattern::Police => Some(5),
        Pattern::TrafficLights => Some(1),
        Pattern::Random(n) => {
            if n == 1 {
                Some(2)
            } else if n == 2 {
                Some(3)
            } else if n == 3 {
                Some(4)
            } else if n == 4 {
                Some(6)
            } else if n == 5 {
                Some(7)
            } else {
                None
            }
        },
        Pattern::Rainbow => Some(8),
        Pattern::Sea => Some(9),
        Pattern::WhiteWave => Some(10),
        Pattern::Synthetic => Some(11),
    }
}

/// The report that sets LEDs `led` to a solid color.
pub fn encode_solid(led: u8, color: SolidColor) -> (r: Vec<u8>)
    ensures
        r@ == solid_report(led, color),
{
    let (red, green, blue) = color.to_rgb();
    let r = vec![HID_REPORT_ID, MODE_SOLID, led, red, green, blue];
    assert(r@ =~= solid_report(led, color));
    r
}

/// The report that fades LEDs `led` to a color over `duration`.
pub fn encode_fade(led: u8, color: SolidColor, duration: u8) -> (r: Vec<u8>)
    ensures
        r@ == fade_report(led, color, duration),
{
    let (red, green, blue) = color.to_rgb();
    let r = vec![HID_REPORT_ID, MODE_FADE, led, red, green, blue, duration];
    assert(r@ =~= fade_report(led, color, duration));
    r
}

/// The report that strobes LEDs `led` in a color.
pub fn encode_strobe(led: u8, color: SolidColor, speed: u8, repeat: u8) -> (r: Vec<u8>)
    ensures
        r@ == strobe_report(led, color, speed, repeat),
{
    let (red, green, blue) = color.to_rgb();
    let r = vec![HID_REPORT_ID, MODE_STROBE, led, red, green, blue, speed, 0x00, repeat];
    assert(r@ =~= strobe_report(led, color, speed, repeat));
    r
}

/// The report that shows a wave of a color.
pub fn encode_wave(color: SolidColor, wave: Wave, speed: u8, repeat: u8) -> (r: Vec<u8>)
    ensures
        r@ == wave_report(color, wave, speed, repeat),
{
    let (red, green, blue) = color.to_rgb();
    let style = encode_wave_style(wave);
    let r = vec![HID_REPORT_ID, MODE_WAVE, style, red, green, blue, 0x00, repeat, speed];
    assert(r@ =~= wave_report(color, wave, speed, repeat));
    r
}

/// The report that shows a preset pattern, or `InvalidPattern` for a random pattern outside
/// 1..=5.
pub fn encode_pattern(pattern: Pattern, repeat: u8) -> (r: Result<Vec<u8>, ErrorKind>)
    ensures
        is_valid_pattern(pattern) ==> (r matches Ok(v) && v@ == pattern_report(pattern, repeat)),
        !is_valid_pattern(pattern) ==> r == Err::<Vec<u8>, ErrorKind>(ErrorKind::InvalidPattern),
{
    match encode_pattern_code(pattern) {
        Some(code) => {
            let r = vec![HID_REPORT_ID, MODE_PATTERN, code, repeat];
            assert(r@ =~= pattern_report(pattern, repeat));
            Ok(r)
        },
        None => Err(ErrorKind::InvalidPattern),
    }
}

/// A USB connected light, written through `W`.
pub struct USBDevice<W: ReportWriter> {
    writer: W,
    id: String,
    target: SpecificLED,
}

impl<W: ReportWriter> USBDevice<W> {
    /// The LED target is always one the device can address.
    #[verifier::type_invariant]
    spec fn wf(self) -> bool {
        is_valid_led(self.target)
    }

    /// A light written through `writer`, named by the strings it reports; it starts by
    /// addressing all of its LEDs.
    pub fn new(
        writer: W,
        manufacturer: Result<Option<String>, ()>,
        product: Result<Option<String>, ()>,
        serial: Result<Option<String>, ()>,
    ) -> (r: USBDevice<W>)
        ensures
            r.identifier() == usb_identifier(manufacturer, product, serial),
            r.target() == SpecificLED::All,
    {
        let id = device_identifier(&manufacturer, &product, &serial);
        USBDevice { writer, id, target: SpecificLED::All }
    }

    /// The wire code of the current LED target.
    pub fn target_code(&self) -> (r: u8)
        ensures
            r == led_code(self.target()),
    {
        proof {
            use_type_invariant(self);
        }
        match encode_led(self.target) {
            Some(code) => code,
            None => LED_ALL,
        }
    }

    /// Hands a report to the device; it succeeded only if every byte was taken.
    fn write(&self, report: &Vec<u8>) -> (r: Result<(), ErrorKind>)
        ensures
            written(r),
    {
        let reported = self.writer.write_report(report.as_slice());
        write_outcome(report.len(), reported)
    }
}

impl<W: ReportWriter> Device for USBDevice<W> {
    closed spec fn identifier(&self) -> Seq<char> {
        self.id@
    }

    open spec fn off_outcome(&self, r: Result<(), ErrorKind>) -> bool {
        written(r)
    }

    /// The report has no blinking solid color: blinking is refused.
    open spec fn solid_outcome(&self, color: SolidColor, blink: bool, r: Result<(), ErrorKind>) -> bool {
        if blink {
            r == Err::<(), ErrorKind>(ErrorKind::UnsupportedCommand)
        } else {
            written(r)
        }
    }

    open spec fn fade_outcome(&self, color: SolidColor, fade_duration: u8, r: Result<(), ErrorKind>) -> bool {
        written(r)
    }

    open spec fn strobe_outcome(
        &self,
        color: SolidColor,
        strobe_speed: u8,
        repeat_count: u8,
        r: Result<(), ErrorKind>,
    ) -> bool {
        written(r)
    }

    open spec fn wave_outcome(
        &self,
        color: SolidColor,
        wave_pattern: Wave,
        wave_speed: u8,
        repeat_count: u8,
        r: Result<(), ErrorKind>,
    ) -> bool {
        written(r)
    }

    open spec fn pattern_outcome(&self, pattern: Pattern, repeat_count: u8, r: Result<(), ErrorKind>) -> bool {
        if is_valid_pattern(pattern) {
            written(r)
        } else {
            r == Err::<(), ErrorKind>(ErrorKind::InvalidPattern)
        }
    }

    fn id(&self) -> (r: String) {
        self.id.clone()
    }

    /// Writes the off report.
    fn turn_off(&self) -> (r: Result<(), ErrorKind>) {
        let report = encode_off();
        self.write(&report)
    }

    /// Writes the solid report for the current LED target.
    fn set_solid_color(&self, color: SolidColor, blink: bool) -> (r: Result<(), ErrorKind>) {
        if blink {
            return Err(ErrorKind::UnsupportedCommand);
        }
        let report = encode_solid(self.target_code(), color);
        self.write(&report)
    }

    /// Writes the fade report for the current LED target.
    fn set_fade_to_color(&self, color: SolidColor, fade_duration: u8) -> (r: Result<(), ErrorKind>) {
        let report = encode_fade(self.target_code(), color, fade_duration);
        self.write(&report)
    }

    /// Writes the strobe report for the current LED target.
    fn set_color_strobe(&self, color: SolidColor, strobe_speed: u8, repeat_count: u8) -> (r:
        Result<(), ErrorKind>) {
        let report = encode_strobe(self.target_code(), color, strobe_speed, repeat_count);
        self.write(&report)
    }

    /// Writes the wave report; waves address the whole light.
    fn set_color_wave(
        &self,
        color: SolidColor,
        wave_pattern: Wave,
        wave_speed: u8,
        repeat_count: u8,
    ) -> (r: Result<(), ErrorKind>) {
        let report = encode_wave(color, wave_pattern, wave_speed, repeat_count);
        self.write(&report)
    }

    /// Writes the pattern report; nothing is written for an invalid pattern.
    fn set_pattern(&self, pattern: Pattern, repeat_count: u8) -> (r: Result<(), ErrorKind>) {
        match encode_pattern(pattern, repeat_count) {
            Ok(report) => self.write(&report),
            Err(e) => Err(e),
        }
    }
}

impl<W: ReportWriter> TargetedDevice for USBDevice<W> {
    closed spec fn target(&self) -> SpecificLED {
        self.target
    }

    fn set_specific_led(&mut self, led: SpecificLED) -> (r: Result<(), ErrorKind>) {
        match encode_led(led) {
            Some(_) => {
                self.target = led;
                Ok(())
            },
            None => Err(ErrorKind::InvalidLED),
        }
    }
}

} // verus!
