use std::cell::RefCell;
use std::rc::Rc;

use luxafor::usb_hid::{
    device_identifier, encode_fade, encode_led, encode_off, encode_pattern, encode_solid,
    encode_strobe, encode_wave, write_outcome, ReportWriter, USBDevice,
};
use luxafor::{
    set_lights, Command, Device, ErrorKind, Pattern, SolidColor, SpecificLED, TargetedDevice,
    Wave,
};

/// Records every report into a shared log and answers with a fixed byte count, or with the
/// full length.
struct Recorder {
    log: Rc<RefCell<Vec<Vec<u8>>>>,
    answer: Option<Option<usize>>,
}

impl ReportWriter for Recorder {
    fn write_report(&self, report: &[u8]) -> Option<usize> {
        self.log.borrow_mut().push(report.to_vec());
        match self.answer {
            None => Some(report.len()),
            Some(a) => a,
        }
    }
}

fn device(answer: Option<Option<usize>>) -> (USBDevice<Recorder>, Rc<RefCell<Vec<Vec<u8>>>>) {
    let log = Rc::new(RefCell::new(Vec::new()));
    let writer = Recorder { log: log.clone(), answer };
    let d = USBDevice::new(
        writer,
        Ok(Some("Microchip Technology Inc.".to_string())),
        Ok(Some("LUXAFOR FLAG".to_string())),
        Ok(None),
    );
    (d, log)
}

fn last(log: &Rc<RefCell<Vec<Vec<u8>>>>) -> Vec<u8> {
    log.borrow().last().cloned().unwrap()
}

#[test]
fn solid_red_all_report() {
    assert_eq!(encode_solid(0xff, SolidColor::Red), vec![0x00, 0x01, 0xFF, 0xFF, 0x00, 0x00]);
}

#[test]
fn police_pattern_report() {
    assert_eq!(encode_pattern(Pattern::Police, 255), Ok(vec![0x00, 0x06, 0x05, 0xFF]));
}

#[test]
fn pattern_codes() {
    let expected: [(Pattern, u8); 11] = [
        (Pattern::TrafficLights, 1),
        (Pattern::Random(1), 2),
        (Pattern::Random(2), 3),
        (Pattern::Random(3), 4),
        (Pattern::Police, 5),
        (Pattern::Random(4), 6),
        (Pattern::Random(5), 7),
        (Pattern::Rainbow, 8),
        (Pattern::Sea, 9),
        (Pattern::WhiteWave, 10),
        (Pattern::Synthetic, 11),
    ];
    for (p, code) in expected {
        assert_eq!(encode_pattern(p, 3), Ok(vec![0x00, 0x06, code, 3]));
    }
    assert_eq!(encode_pattern(Pattern::Random(6), 3), Err(ErrorKind::InvalidPattern));
    assert_eq!(encode_pattern(Pattern::Random(0), 3), Err(ErrorKind::InvalidPattern));
}

#[test]
fn other_reports() {
    assert_eq!(encode_off(), vec![0x00, 0x00, b'O']);
    let c = SolidColor::Custom { red: 1, green: 2, blue: 3 };
    assert_eq!(encode_fade(0x42, c, 60), vec![0x00, 0x02, 0x42, 1, 2, 3, 60]);
    assert_eq!(
        encode_strobe(0x03, SolidColor::Blue, 10, 255),
        vec![0x00, 0x03, 0x03, 0, 0, 255, 10, 0x00, 255]
    );
    assert_eq!(
        encode_wave(SolidColor::Cyan, Wave::OverlappingShort, 30, 5),
        vec![0x00, 0x04, 0x03, 0, 255, 255, 0x00, 5, 30]
    );
    assert_eq!(encode_wave(SolidColor::Red, Wave::Short, 1, 2)[2], 1);
    assert_eq!(encode_wave(SolidColor::Red, Wave::Long, 1, 2)[2], 2);
    assert_eq!(encode_wave(SolidColor::Red, Wave::OverlappingLong, 1, 2)[2], 4);
}

#[test]
fn led_codes() {
    assert_eq!(encode_led(SpecificLED::All), Some(0xFF));
    assert_eq!(encode_led(SpecificLED::AllFront), Some(0x42));
    assert_eq!(encode_led(SpecificLED::AllBack), Some(0x41));
    let expected: [u8; 6] = [0x03, 0x02, 0x01, 0x04, 0x05, 0x06];
    for (i, code) in expected.iter().enumerate() {
        assert_eq!(encode_led(SpecificLED::Number(i as u8 + 1)), Some(*code));
    }
    assert_eq!(encode_led(SpecificLED::Number(0)), None);
    assert_eq!(encode_led(SpecificLED::Number(7)), None);
}

#[test]
fn write_must_take_every_byte() {
    assert_eq!(write_outcome(6, Some(6)), Ok(()));
    assert_eq!(write_outcome(6, Some(5)), Err(ErrorKind::InvalidRequest));
    assert_eq!(write_outcome(6, Some(7)), Err(ErrorKind::InvalidRequest));
    assert_eq!(write_outcome(6, None), Err(ErrorKind::InvalidRequest));
}

#[test]
fn short_write_is_invalid_request() {
    let (d, log) = device(Some(Some(3)));
    assert_eq!(d.set_solid_color(SolidColor::Red, false), Err(ErrorKind::InvalidRequest));
    assert_eq!(log.borrow().len(), 1);
    let (d, _) = device(Some(None));
    assert_eq!(d.turn_off(), Err(ErrorKind::InvalidRequest));
    let (d, _) = device(Some(Some(100)));
    assert_eq!(d.set_pattern(Pattern::Police, 1), Err(ErrorKind::InvalidRequest));
}

#[test]
fn device_writes_exact_reports() {
    let (d, log) = device(None);
    assert_eq!(d.set_solid_color(SolidColor::Red, false), Ok(()));
    assert_eq!(last(&log), vec![0x00, 0x01, 0xFF, 0xFF, 0x00, 0x00]);
    assert_eq!(d.set_pattern(Pattern::Police, 255), Ok(()));
    assert_eq!(last(&log), vec![0x00, 0x06, 0x05, 0xFF]);
    assert_eq!(d.turn_off(), Ok(()));
    assert_eq!(last(&log), vec![0x00, 0x00, 0x4F]);
    assert_eq!(d.set_fade_to_color(SolidColor::Green, 60), Ok(()));
    assert_eq!(last(&log), vec![0x00, 0x02, 0xFF, 0, 255, 0, 60]);
    assert_eq!(d.set_color_strobe(SolidColor::White, 10, 255), Ok(()));
    assert_eq!(last(&log), vec![0x00, 0x03, 0xFF, 255, 255, 255, 10, 0x00, 255]);
    assert_eq!(d.set_color_wave(SolidColor::Magenta, Wave::Long, 30, 255), Ok(()));
    assert_eq!(last(&log), vec![0x00, 0x04, 0x02, 255, 0, 255, 0x00, 255, 30]);
}

#[test]
fn usb_refuses_without_writing() {
    let (d, log) = device(None);
    assert_eq!(d.set_solid_color(SolidColor::Red, true), Err(ErrorKind::UnsupportedCommand));
    assert_eq!(d.set_pattern(Pattern::Random(9), 1), Err(ErrorKind::InvalidPattern));
    assert!(log.borrow().is_empty());
}

#[test]
fn target_led_applies_to_later_operations() {
    let (mut d, log) = device(None);
    assert_eq!(d.target_code(), 0xFF);
    assert_eq!(d.set_specific_led(SpecificLED::AllFront), Ok(()));
    assert_eq!(d.set_solid_color(SolidColor::Blue, false), Ok(()));
    assert_eq!(last(&log), vec![0x00, 0x01, 0x42, 0, 0, 255]);
    assert_eq!(d.set_specific_led(SpecificLED::Number(1)), Ok(()));
    assert_eq!(d.set_color_strobe(SolidColor::Red, 5, 6), Ok(()));
    assert_eq!(last(&log), vec![0x00, 0x03, 0x03, 255, 0, 0, 5, 0x00, 6]);
    assert_eq!(d.set_specific_led(SpecificLED::Number(7)), Err(ErrorKind::InvalidLED));
    assert_eq!(d.target_code(), 0x03);
    assert_eq!(d.set_specific_led(SpecificLED::AllBack), Ok(()));
    assert_eq!(d.set_fade_to_color(SolidColor::Yellow, 9), Ok(()));
    assert_eq!(last(&log), vec![0x00, 0x02, 0x41, 255, 255, 0, 9]);
}

#[test]
fn usb_identifier_parts() {
    let (d, _) = device(None);
    assert_eq!(d.id(), "Microchip Technology Inc.::LUXAFOR FLAG::<unknown>");
    let id = device_identifier(&Err(()), &Ok(Some("P".to_string())), &Ok(Some("S1".to_string())));
    assert_eq!(id, "<error>::P::S1");
}

#[test]
fn commands_dispatch_to_operations() {
    let (d, log) = device(None);
    let red = SolidColor::Red;
    assert_eq!(set_lights(Command::Solid { color: red }, &d), Ok(()));
    assert_eq!(last(&log), vec![0x00, 0x01, 0xFF, 255, 0, 0]);
    assert_eq!(set_lights(Command::Strobe { color: red, speed: 10, repeat: 255 }, &d), Ok(()));
    assert_eq!(last(&log), vec![0x00, 0x03, 0xFF, 255, 0, 0, 10, 0, 255]);
    assert_eq!(set_lights(Command::Fade { color: red, fade_duration: 60 }, &d), Ok(()));
    assert_eq!(last(&log), vec![0x00, 0x02, 0xFF, 255, 0, 0, 60]);
    let wave = Command::Wave { color: red, style: Wave::Short, speed: 30, repeat: 255 };
    assert_eq!(set_lights(wave, &d), Ok(()));
    assert_eq!(last(&log), vec![0x00, 0x04, 0x01, 255, 0, 0, 0, 255, 30]);
    let pattern = Command::Pattern { pattern: Pattern::TrafficLights, repeat: 255 };
    assert_eq!(set_lights(pattern, &d), Ok(()));
    assert_eq!(last(&log), vec![0x00, 0x06, 0x01, 255]);
    assert_eq!(set_lights(Command::Off, &d), Ok(()));
    assert_eq!(last(&log), vec![0x00, 0x00, 0x4F]);
}
