//! The webhook backend: each command becomes one JSON POST to the Luxafor webhook API.
//!
//! Requests go to `https://api.luxafor.com/webhook/v1/actions/<action>`, where the action is
//! `solid_color`, `blink` or `pattern`. The API has no fade, wave, or LED targeting, and no
//! repeat count for patterns.
use vstd::prelude::*;

use crate::color::{color_text, SolidColor};
use crate::device::Device;
use crate::error::ErrorKind;
use crate::pattern::{is_valid_pattern, pattern_text, Pattern, Wave};
use crate::text::{all_hex_digits, decimal, is_hex_digit, is_hex_digit_char, push_decimal};

verus! {

/// The transport a webhook light is reached through.
pub trait WebhookClient {
    /// POSTs `body` to `url` with content type `application/json`; returns the HTTP status of
    /// the response, or `None` when no response came back.
    fn post_json(&self, url: &str, body: &str) -> Option<u16>;
}

/// One call of the webhook API.
#[derive(Debug)]
pub struct WebhookRequest {
    /// The endpoint.
    pub url: String,
    /// The JSON body.
    pub body: String,
}

/// A webhook device identifier: a non-empty string of hexadecimal digits.
pub open spec fn is_device_id(s: Seq<char>) -> bool {
    s.len() > 0 && all_hex_digits(s)
}

/// The endpoint of an action.
pub open spec fn action_url(action: Seq<char>) -> Seq<char> {
    "https://api.luxafor.com/webhook/v1/actions/"@ + action
}

/// The JSON body of a request from device `id` with the given action fields.
pub open spec fn request_body(id: Seq<char>, fields: Seq<char>) -> Seq<char> {
    "{\"userId\":\""@ + id + "\",\"actionFields\":{"@ + fields + "}}"@
}

/// The action fields that name a color: a custom color is sent as `custom` with its digits.
pub open spec fn color_fields(color: SolidColor) -> Seq<char> {
    match color {
        SolidColor::Custom { .. } => "\"color\":\"custom\",\"custom_color\":\""@ + color_text(color)
            + "\""@,
        _ => "\"color\":\""@ + color_text(color) + "\""@,
    }
}

/// The body that sets a solid or blinking color.
pub open spec fn solid_body(id: Seq<char>, color: SolidColor) -> Seq<char> {
    request_body(id, color_fields(color))
}

/// The body that blinks a color `repeat` times.
pub open spec fn strobe_body(id: Seq<char>, color: SolidColor, repeat: u8) -> Seq<char> {
    request_body(id, "\"repeat\":"@ + decimal(repeat as nat) + ","@ + color_fields(color))
}

/// The body that shows a pattern.
pub open spec fn pattern_body(id: Seq<char>, pattern: Pattern) -> Seq<char> {
    request_body(id, "\"pattern\":\""@ + pattern_text(pattern) + "\""@)
}

/// The result of a call that got `status` back (`None`: no response).
pub open spec fn response_result(status: Option<u16>) -> Result<(), ErrorKind> {
    match status {
        Some(s) => if 200 <= s <= 299 {
            Ok(())
        } else {
            Err(ErrorKind::UnexpectedError(s))
        },
        None => Err(ErrorKind::InvalidRequest),
    }
}

/// What a webhook operation that made its call may return: success, no response, or an
/// unexpected status outside 2xx.
pub open spec fn posted(r: Result<(), ErrorKind>) -> bool {
    ||| r is Ok
    ||| r == Err::<(), ErrorKind>(ErrorKind::InvalidRequest)
    ||| r matches Err(ErrorKind::UnexpectedError(s)) && !(200 <= s <= 299)
}

/// Judges a response: any 2xx status is success, any other is an unexpected error carrying
/// the status; no response at all is an invalid request.
pub fn response_outcome(status: Option<u16>) -> (r: Result<(), ErrorKind>)
    ensures
        r == response_result(status),
{
    match status {
        Some(s) => {
            if 200 <= s && s <= 299 {
                Ok(())
            } else {
                Err(ErrorKind::UnexpectedError(s))
            }
        },
        None => Err(ErrorKind::InvalidRequest),
    }
}

/// Whether `s` is a webhook device identifier.
pub fn is_valid_device_id(s: &str) -> (r: bool)
    ensures
        r == is_device_id(s@),
{
    let n = s.unicode_len();
    if n == 0 {
        return false;
    }
    let mut i: usize = 0;
    while i < n
        invariant
            i <= n,
            n == s@.len(),
            forall|j: int| 0 <= j < i ==> is_hex_digit(#[trigger] s@[j]),
        decreases n - i,
    {
        if !is_hex_digit_char(s.get_char(i)) {
            return false;
        }
        i = i + 1;
    }
    true
}

fn action_url_for(action: &str) -> (r: String)
    ensures
        r@ == action_url(action@),
{
    let mut url = String::from_str("https://api.luxafor.com/webhook/v1/actions/");
    url.append(action);
    url
}

fn build_body(id: &String, fields: &String) -> (r: String)
    ensures
        r@ == request_body(id@, fields@),
{
    let mut body = String::from_str("{\"userId\":\"");
    body.append(id.as_str());
    body.append("\",\"actionFields\":{");
    body.append(fields.as_str());
    body.append("}}");
    assert(body@ =~= request_body(id@, fields@));
    body
}

fn push_color_fields(s: &mut String, color: SolidColor)
    ensures
        final(s)@ == old(s)@ + color_fields(color),
{
    let text = color.to_string();
    match color {
        SolidColor::Custom { .. } => {
            s.append("\"color\":\"custom\",\"custom_color\":\"");
        },
        _ => {
            s.append("\"color\":\"");
        },
    }
    s.append(text.as_str());
    s.append("\"");
    assert(final(s)@ =~= old(s)@ + color_fields(color));
}

/// A light reached through the webhook API by its device identifier.
pub struct WebhookDevice<C: WebhookClient> {
    id: String,
    client: C,
}

/// Returns a device for a webhook connected light, or `InvalidDeviceID` if `device_id` is not
/// a non-empty string of hexadecimal digits.
pub fn new_device_for<C: WebhookClient>(device_id: &str, client: C) -> (r: Result<
    WebhookDevice<C>,
    ErrorKind,
>)
    ensures
        r is Ok <==> is_device_id(device_id@),
        r matches Ok(d) ==> d.identifier() == device_id@,
        r matches Err(e) ==> e == ErrorKind::InvalidDeviceID,
{
    if is_valid_device_id(device_id) {
        Ok(WebhookDevice { id: String::from_str(device_id), client })
    } else {
        Err(ErrorKind::InvalidDeviceID)
    }
}

impl<C: WebhookClient> WebhookDevice<C> {
    /// The identifier is always a valid device identifier.
    #[verifier::type_invariant]
    spec fn wf(self) -> bool {
        is_device_id(self.id@)
    }

    /// The request that sets a solid color, or blinks it.
    pub fn solid_request(&self, color: SolidColor, blink: bool) -> (r: WebhookRequest)
        ensures
            r.url@ == action_url(
                if blink {
                    "blink"@
                } else {
                    "solid_color"@
                },
            ),
            r.body@ == solid_body(self.identifier(), color),
    {
        let url = if blink {
            action_url_for("blink")
        } else {
            action_url_for("solid_color")
        };
        let mut fields = String::new();
        push_color_fields(&mut fields, color);
        assert(fields@ =~= color_fields(color));
        let body = build_body(&self.id, &fields);
        WebhookRequest { url, body }
    }

    /// The request that blinks a color `repeat_count` times.
    pub fn strobe_request(&self, color: SolidColor, repeat_count: u8) -> (r: WebhookRequest)
        ensures
            r.url@ == action_url("blink"@),
            r.body@ == strobe_body(self.identifier(), color, repeat_count),
    {
        let url = action_url_for("blink");
        let mut fields = String::from_str("\"repeat\":");
        push_decimal(&mut fields, repeat_count as u16);
        fields.append(",");
        push_color_fields(&mut fields, color);
        assert(fields@ =~= "\"repeat\":"@ + decimal(repeat_count as nat) + ","@ + color_fields(
            color,
        ));
        let body = build_body(&self.id, &fields);
        WebhookRequest { url, body }
    }

    /// The request that shows a pattern.
    pub fn pattern_request(&self, pattern: Pattern) -> (r: WebhookRequest)
        ensures
            r.url@ == action_url("pattern"@),
            r.body@ == pattern_body(self.identifier(), pattern),
    {
        let url = action_url_for("pattern");
        let mut fields = String::from_str("\"pattern\":\"");
        let text = pattern.to_string();
        fields.append(text.as_str());
        fields.append("\"");
        let body = build_body(&self.id, &fields);
        WebhookRequest { url, body }
    }

    /// Makes the call; any status outside 2xx is an error carrying it.
    fn send(&self, request: &WebhookRequest) -> (r: Result<(), ErrorKind>)
        ensures
            posted(r),
    {
        let status = self.client.post_json(request.url.as_str(), request.body.as_str());
        response_outcome(status)
    }
}

impl<C: WebhookClient> Device for WebhookDevice<C> {
    closed spec fn identifier(&self) -> Seq<char> {
        self.id@
    }

    open spec fn off_outcome(&self, r: Result<(), ErrorKind>) -> bool {
        posted(r)
    }

    open spec fn solid_outcome(&self, color: SolidColor, blink: bool, r: Result<(), ErrorKind>) -> bool {
        posted(r)
    }

    /// The API has no fade.
    open spec fn fade_outcome(&self, color: SolidColor, fade_duration: u8, r: Result<(), ErrorKind>) -> bool {
        r == Err::<(), ErrorKind>(ErrorKind::UnsupportedCommand)
    }

    open spec fn strobe_outcome(
        &self,
        color: SolidColor,
        strobe_speed: u8,
        repeat_count: u8,
        r: Result<(), ErrorKind>,
    ) -> bool {
        posted(r)
    }

    /// The API has no wave.
    open spec fn wave_outcome(
        &self,
        color: SolidColor,
        wave_pattern: Wave,
        wave_speed: u8,
        repeat_count: u8,
        r: Result<(), ErrorKind>,
    ) -> bool {
        r == Err::<(), ErrorKind>(ErrorKind::UnsupportedCommand)
    }

    open spec fn pattern_outcome(&self, pattern: Pattern, repeat_count: u8, r: Result<(), ErrorKind>) -> bool {
        if is_valid_pattern(pattern) {
            posted(r)
        } else {
            r == Err::<(), ErrorKind>(ErrorKind::InvalidPattern)
        }
    }

    fn id(&self) -> (r: String) {
        self.id.clone()
    }

    /// Sets the solid color `000000`.
    fn turn_off(&self) -> (r: Result<(), ErrorKind>) {
        self.set_solid_color(SolidColor::Custom { red: 0, green: 0, blue: 0 }, false)
    }

    /// Calls `solid_color`, or `blink` when `blink` holds.
    fn set_solid_color(&self, color: SolidColor, blink: bool) -> (r: Result<(), ErrorKind>) {
        let request = self.solid_request(color, blink);
        self.send(&request)
    }

    /// Refused without a call.
    fn set_fade_to_color(&self, color: SolidColor, fade_duration: u8) -> (r: Result<(), ErrorKind>) {
        Err(ErrorKind::UnsupportedCommand)
    }

    /// Calls `blink` with the repeat count; the API has no speed.
    fn set_color_strobe(&self, color: SolidColor, strobe_speed: u8, repeat_count: u8) -> (r:
        Result<(), ErrorKind>) {
        let request = self.strobe_request(color, repeat_count);
        self.send(&request)
    }

    /// Refused without a call.
    fn set_color_wave(
        &self,
        color: SolidColor,
        wave_pattern: Wave,
        wave_speed: u8,
        repeat_count: u8,
    ) -> (r: Result<(), ErrorKind>) {
        Err(ErrorKind::UnsupportedCommand)
    }

    /// Calls `pattern`. The API has no repeat count: `repeat_count` is accepted and ignored.
    /// Nothing is sent for an invalid pattern.
    fn set_pattern(&self, pattern: Pattern, repeat_count: u8) -> (r: Result<(), ErrorKind>) {
        if !pattern.is_valid() {
            return Err(ErrorKind::InvalidPattern);
        }
        let request = self.pattern_request(pattern);
        self.send(&request)
    }
}

} // verus!
