//! Browser selection and driver-endpoint configuration: which driver binary
//! serves a browser, the IPv4 endpoint the driver listens on, and parsing of
//! user-entered endpoint text.

use vstd::prelude::*;
use crate::text::{dec_spec, format_u64, parse_u64, parse_u64_spec, split_spec, split_char, str_eq};

verus! {

/// The browsers a session can drive.
#[derive(Clone, Copy, Debug, PartialEq, Eq, Structural)]
pub enum Browser {
    Chrome,
    Chromium,
    Edge,
    Firefox,
    InternetExplorer,
    Opera,
    Safari,
}

/// The name of the driver binary that serves each browser.
pub open spec fn driver_name_spec(b: Browser) -> Seq<char> {
    match b {
        Browser::Chrome => "chromedriver"@,
        Browser::Chromium => "chromedriver"@,
        Browser::Edge => "msedgedriver"@,
        Browser::Firefox => "geckodriver"@,
        Browser::InternetExplorer => "IEDriverServer"@,
        Browser::Opera => "operadriver"@,
        Browser::Safari => "safaridriver"@,
    }
}

/// The display name of each browser, as a settings screen lists them.
pub open spec fn browser_label_spec(b: Browser) -> Seq<char> {
    match b {
        Browser::Chrome => "Chrome"@,
        Browser::Chromium => "Chromium"@,
        Browser::Edge => "Edge"@,
        Browser::Firefox => "Firefox"@,
        Browser::InternetExplorer => "Internet Explorer"@,
        Browser::Opera => "Opera"@,
        Browser::Safari => "Safari"@,
    }
}

impl Browser {
    /// The browser's display name.
    pub fn label(&self) -> (r: String)
        ensures
            r@ == browser_label_spec(*self),
    {
        match self {
            Browser::Chrome => "Chrome".to_owned(),
            Browser::Chromium => "Chromium".to_owned(),
            Browser::Edge => "Edge".to_owned(),
            Browser::Firefox => "Firefox".to_owned(),
            Browser::InternetExplorer => "Internet Explorer".to_owned(),
            Browser::Opera => "Opera".to_owned(),
            Browser::Safari => "Safari".to_owned(),
        }
    }

    /// The browser a display name denotes, if any.
    pub fn from_label(s: &str) -> (r: Option<Browser>)
        ensures
            match r {
                Some(b) => browser_label_spec(b) == s@,
                None => forall|b: Browser| browser_label_spec(b) != s@,
            },
    {
        if str_eq(s, "Chrome") {
            Some(Browser::Chrome)
        } else if str_eq(s, "Chromium") {
            Some(Browser::Chromium)
        } else if str_eq(s, "Edge") {
            Some(Browser::Edge)
        } else if str_eq(s, "Firefox") {
            Some(Browser::Firefox)
        } else if str_eq(s, "Internet Explorer") {
            Some(Browser::InternetExplorer)
        } else if str_eq(s, "Opera") {
            Some(Browser::Opera)
        } else if str_eq(s, "Safari") {
            Some(Browser::Safari)
        } else {
            None
        }
    }

    /// Name of the WebDriver executable for this browser.
    pub fn driver(&self) -> (r: String)
        ensures
            r@ == driver_name_spec(*self),
    {
        match self {
            Browser::Chrome => "chromedriver".to_owned(),
            Browser::Chromium => "chromedriver".to_owned(),
            Browser::Edge => "msedgedriver".to_owned(),
            Browser::Firefox => "geckodriver".to_owned(),
            Browser::InternetExplorer => "IEDriverServer".to_owned(),
            Browser::Opera => "operadriver".to_owned(),
            Browser::Safari => "safaridriver".to_owned(),
        }
    }
}

/// An IPv4 address and port, the endpoint a WebDriver process listens on.
#[derive(Clone, Copy, Debug, PartialEq, Eq, Structural)]
pub struct EndpointAddress {
    pub a: u8,
    pub b: u8,
    pub c: u8,
    pub d: u8,
    pub port: u16,
}

/// Textual form of an endpoint: `a.b.c.d:port`.
pub open spec fn endpoint_text_spec(e: EndpointAddress) -> Seq<char> {
    dec_spec(e.a as nat) + "."@ + dec_spec(e.b as nat) + "."@ + dec_spec(e.c as nat) + "."@
        + dec_spec(e.d as nat) + ":"@ + dec_spec(e.port as nat)
}

/// A decimal octet with no leading zeros, in range, as `Ipv4Addr` parsing
/// accepts it.
pub open spec fn valid_octet(part: Seq<char>) -> bool {
    &&& parse_u64_spec(part) is Some
    &&& parse_u64_spec(part).unwrap() <= 255
    &&& (part.len() == 1 || part[0] != '0')
}

/// What `parse_ipv4` accepts: four valid octets separated by dots.
pub open spec fn parse_ipv4_spec(s: Seq<char>) -> Option<(u8, u8, u8, u8)> {
    let parts = split_spec(s, '.');
    if parts.len() == 4 && valid_octet(parts[0]) && valid_octet(parts[1]) && valid_octet(parts[2])
        && valid_octet(parts[3]) {
        Some(
            (
                parse_u64_spec(parts[0]).unwrap() as u8,
                parse_u64_spec(parts[1]).unwrap() as u8,
                parse_u64_spec(parts[2]).unwrap() as u8,
                parse_u64_spec(parts[3]).unwrap() as u8,
            ),
        )
    } else {
        None
    }
}

fn parse_octet(part: &String) -> (r: Option<u8>)
    ensures
        r is Some <==> valid_octet(part@),
        r is Some ==> r.unwrap() == parse_u64_spec(part@).unwrap() as u8,
{
    let v = match parse_u64(part.as_str()) {
        Some(v) => v,
        None => {
            return None;
        },
    };
    if v > 255 {
        return None;
    }
    if part.as_str().unicode_len() > 1 && part.as_str().get_char(0) == '0' {
        return None;
    }
    Some(v as u8)
}

/// Parse dotted-quad IPv4 text; `None` on anything `Ipv4Addr` would reject.
pub fn parse_ipv4(s: &str) -> (r: Option<(u8, u8, u8, u8)>)
    ensures
        r == parse_ipv4_spec(s@),
{
    let parts = split_char(s, '.');
    if parts.len() != 4 {
        return None;
    }
    proof {
        assert(parts.deep_view()[0] == parts[0]@);
        assert(parts.deep_view()[1] == parts[1]@);
        assert(parts.deep_view()[2] == parts[2]@);
        assert(parts.deep_view()[3] == parts[3]@);
    }
    let a = match parse_octet(&parts[0]) {
        Some(v) => v,
        None => {
            return None;
        },
    };
    let b = match parse_octet(&parts[1]) {
        Some(v) => v,
        None => {
            return None;
        },
    };
    let c = match parse_octet(&parts[2]) {
        Some(v) => v,
        None => {
            return None;
        },
    };
    let d = match parse_octet(&parts[3]) {
        Some(v) => v,
        None => {
            return None;
        },
    };
    Some((a, b, c, d))
}

/// Parse a decimal port number; `None` when empty, non-numeric or above
/// `u16::MAX`.
pub open spec fn parse_port_spec(s: Seq<char>) -> Option<u16> {
    match parse_u64_spec(s) {
        Some(v) => if v <= u16::MAX {
            Some(v as u16)
        } else {
            None
        },
        None => None,
    }
}

pub fn parse_port(s: &str) -> (r: Option<u16>)
    ensures
        r == parse_port_spec(s@),
{
    match parse_u64(s) {
        Some(v) => if v <= 65535 {
            Some(v as u16)
        } else {
            None
        },
        None => None,
    }
}

impl EndpointAddress {
    pub fn new(a: u8, b: u8, c: u8, d: u8, port: u16) -> (r: Self)
        ensures
            r == (EndpointAddress { a, b, c, d, port }),
    {
        EndpointAddress { a, b, c, d, port }
    }

    /// `a.b.c.d:port`, as a driver command line and URL want it.
    pub fn text(&self) -> (r: String)
        ensures
            r@ == endpoint_text_spec(*self),
    {
        let mut s = format_u64(self.a as u64);
        s.append(".");
        s.append(format_u64(self.b as u64).as_str());
        s.append(".");
        s.append(format_u64(self.c as u64).as_str());
        s.append(".");
        s.append(format_u64(self.d as u64).as_str());
        s.append(":");
        s.append(format_u64(self.port as u64).as_str());
        s
    }

    /// The HTTP URL of the automation endpoint at this address.
    pub fn http_url(&self) -> (r: String)
        ensures
            r@ == "http://"@ + endpoint_text_spec(*self),
    {
        let mut s = "http://".to_owned();
        s.append(self.text().as_str());
        s
    }
}

/// Everything needed to start a browser-automation session: which browser,
/// where its driver listens, and whether to run it headless.  Immutable once
/// a session starts.
#[derive(Clone, Copy, Debug, PartialEq, Eq, Structural)]
pub struct DriverConfig {
    pub browser: Browser,
    pub driver_address: EndpointAddress,
    pub headless: bool,
}

} // verus!
