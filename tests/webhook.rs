use std::cell::RefCell;
use std::rc::Rc;

use luxafor::webhook::{is_valid_device_id, new_device_for, response_outcome, WebhookClient, WebhookDevice};
use luxafor::{set_lights, Command, Device, ErrorKind, Pattern, SolidColor, Wave};

type Calls = Rc<RefCell<Vec<(String, String)>>>;

/// Records every call into a shared log and answers with a fixed status.
struct FakeApi {
    calls: Calls,
    status: Option<u16>,
}

impl WebhookClient for FakeApi {
    fn post_json(&self, url: &str, body: &str) -> Option<u16> {
        self.calls.borrow_mut().push((url.to_string(), body.to_string()));
        self.status
    }
}

const ID: &str = "2a0f2c73b72";

fn device(status: Option<u16>) -> (WebhookDevice<FakeApi>, Calls) {
    let calls: Calls = Rc::new(RefCell::new(Vec::new()));
    let client = FakeApi { calls: calls.clone(), status };
    (new_device_for(ID, client).unwrap(), calls)
}

fn last(calls: &Calls) -> (String, String) {
    calls.borrow().last().cloned().unwrap()
}

fn fake(status: Option<u16>) -> FakeApi {
    FakeApi { calls: Rc::new(RefCell::new(Vec::new())), status }
}

#[test]
fn device_identifiers() {
    assert_eq!(new_device_for("", fake(Some(200))).err(), Some(ErrorKind::InvalidDeviceID));
    assert_eq!(new_device_for("12g4", fake(Some(200))).err(), Some(ErrorKind::InvalidDeviceID));
    let d = new_device_for("2a0f2c73b72", fake(Some(200))).unwrap();
    assert_eq!(d.id(), "2a0f2c73b72");
    assert!(is_valid_device_id("ABCdef0123"));
    assert!(!is_valid_device_id(" 12"));
}

#[test]
fn custom_solid_request() {
    let (d, _) = device(Some(200));
    let request = d.solid_request(SolidColor::Custom { red: 1, green: 2, blue: 3 }, false);
    assert!(request.url.ends_with("/solid_color"));
    assert!(request.body.contains("\"color\":\"custom\""));
    assert!(request.body.contains("\"custom_color\":\"010203\""));
    assert_eq!(
        request.url,
        "https://api.luxafor.com/webhook/v1/actions/solid_color"
    );
    assert_eq!(
        request.body,
        "{\"userId\":\"2a0f2c73b72\",\"actionFields\":{\"color\":\"custom\",\"custom_color\":\"010203\"}}"
    );
}

#[test]
fn named_solid_and_blink_requests() {
    let (d, calls) = device(Some(200));
    assert_eq!(d.set_solid_color(SolidColor::Red, false), Ok(()));
    assert_eq!(
        last(&calls),
        (
            "https://api.luxafor.com/webhook/v1/actions/solid_color".to_string(),
            "{\"userId\":\"2a0f2c73b72\",\"actionFields\":{\"color\":\"red\"}}".to_string()
        )
    );
    assert_eq!(d.set_solid_color(SolidColor::Green, true), Ok(()));
    assert_eq!(
        last(&calls),
        (
            "https://api.luxafor.com/webhook/v1/actions/blink".to_string(),
            "{\"userId\":\"2a0f2c73b72\",\"actionFields\":{\"color\":\"green\"}}".to_string()
        )
    );
}

#[test]
fn turn_off_sets_black() {
    let (d, calls) = device(Some(204));
    assert_eq!(d.turn_off(), Ok(()));
    assert_eq!(
        last(&calls).1,
        "{\"userId\":\"2a0f2c73b72\",\"actionFields\":{\"color\":\"custom\",\"custom_color\":\"000000\"}}"
    );
}

#[test]
fn strobe_and_pattern_requests() {
    let (d, calls) = device(Some(200));
    assert_eq!(d.set_color_strobe(SolidColor::Blue, 10, 255), Ok(()));
    assert_eq!(
        last(&calls),
        (
            "https://api.luxafor.com/webhook/v1/actions/blink".to_string(),
            "{\"userId\":\"2a0f2c73b72\",\"actionFields\":{\"repeat\":255,\"color\":\"blue\"}}"
                .to_string()
        )
    );
    assert_eq!(d.set_pattern(Pattern::Random(3), 9), Ok(()));
    assert_eq!(
        last(&calls),
        (
            "https://api.luxafor.com/webhook/v1/actions/pattern".to_string(),
            "{\"userId\":\"2a0f2c73b72\",\"actionFields\":{\"pattern\":\"random 3\"}}".to_string()
        )
    );
    assert_eq!(d.set_pattern(Pattern::Random(0), 9), Err(ErrorKind::InvalidPattern));
    assert_eq!(calls.borrow().len(), 2);
}

#[test]
fn fade_and_wave_unsupported_without_call() {
    let (d, calls) = device(Some(200));
    assert_eq!(d.set_fade_to_color(SolidColor::Red, 60), Err(ErrorKind::UnsupportedCommand));
    assert_eq!(
        d.set_color_wave(SolidColor::Red, Wave::Short, 30, 255),
        Err(ErrorKind::UnsupportedCommand)
    );
    let wave = Command::Wave { color: SolidColor::Red, style: Wave::Long, speed: 1, repeat: 1 };
    assert_eq!(set_lights(wave, &d), Err(ErrorKind::UnsupportedCommand));
    assert!(calls.borrow().is_empty());
}

#[test]
fn server_error_status() {
    let (d, calls) = device(Some(500));
    assert_eq!(d.set_solid_color(SolidColor::Red, false), Err(ErrorKind::UnexpectedError(500)));
    assert_eq!(calls.borrow().len(), 1);
    let (d, _) = device(None);
    assert_eq!(d.turn_off(), Err(ErrorKind::InvalidRequest));
}

#[test]
fn response_statuses() {
    assert_eq!(response_outcome(Some(200)), Ok(()));
    assert_eq!(response_outcome(Some(299)), Ok(()));
    assert_eq!(response_outcome(Some(199)), Err(ErrorKind::UnexpectedError(199)));
    assert_eq!(response_outcome(Some(300)), Err(ErrorKind::UnexpectedError(300)));
    assert_eq!(response_outcome(Some(500)), Err(ErrorKind::UnexpectedError(500)));
    assert_eq!(response_outcome(None), Err(ErrorKind::InvalidRequest));
}
