use godric::browser::{parse_ipv4, parse_port, Browser, EndpointAddress};
use godric::helpers::Mode;
use godric::text::{format_u64, parse_u64, split_char, str_eq, trim};

#[test]
fn trim_removes_surrounding_whitespace() {
    assert_eq!(trim("  hello  "), "hello");
    assert_eq!(trim("\t\n x y \r\n"), "x y");
    assert_eq!(trim("plain"), "plain");
    assert_eq!(trim("   "), "");
    assert_eq!(trim(""), "");
}

#[test]
fn parse_u64_reads_decimal_digits() {
    assert_eq!(parse_u64("0"), Some(0));
    assert_eq!(parse_u64("7"), Some(7));
    assert_eq!(parse_u64("176878294"), Some(176878294));
    assert_eq!(parse_u64("18446744073709551615"), Some(u64::MAX));
}

#[test]
fn parse_u64_rejects_bad_input() {
    assert_eq!(parse_u64(""), None);
    assert_eq!(parse_u64("12a"), None);
    assert_eq!(parse_u64("-3"), None);
    assert_eq!(parse_u64(" 3"), None);
    assert_eq!(parse_u64("18446744073709551616"), None);
}

#[test]
fn format_u64_renders_decimal() {
    assert_eq!(format_u64(0), "0");
    assert_eq!(format_u64(9), "9");
    assert_eq!(format_u64(10), "10");
    assert_eq!(format_u64(4444), "4444");
    assert_eq!(format_u64(u64::MAX), "18446744073709551615");
}

#[test]
fn split_char_keeps_empty_fields() {
    assert_eq!(split_char("a/b/c", '/'), vec!["a", "b", "c"]);
    assert_eq!(split_char("", '/'), vec![""]);
    assert_eq!(split_char("/x", '/'), vec!["", "x"]);
    assert_eq!(split_char("x/", '/'), vec!["x", ""]);
    assert_eq!(split_char("a--b", '-'), vec!["a", "", "b"]);
}

#[test]
fn parse_ipv4_accepts_dotted_quads() {
    assert_eq!(parse_ipv4("127.0.0.1"), Some((127, 0, 0, 1)));
    assert_eq!(parse_ipv4("255.255.255.255"), Some((255, 255, 255, 255)));
    assert_eq!(parse_ipv4("0.0.0.0"), Some((0, 0, 0, 0)));
}

#[test]
fn parse_ipv4_rejects_bad_addresses() {
    assert_eq!(parse_ipv4("256.0.0.1"), None);
    assert_eq!(parse_ipv4("1.2.3"), None);
    assert_eq!(parse_ipv4("1.2.3.4.5"), None);
    assert_eq!(parse_ipv4("01.2.3.4"), None);
    assert_eq!(parse_ipv4("a.b.c.d"), None);
    assert_eq!(parse_ipv4(""), None);
}

#[test]
fn parse_port_bounds_the_value() {
    assert_eq!(parse_port("4444"), Some(4444));
    assert_eq!(parse_port("0"), Some(0));
    assert_eq!(parse_port("65535"), Some(65535));
    assert_eq!(parse_port("65536"), None);
    assert_eq!(parse_port("geck"), None);
}

#[test]
fn endpoint_renders_address_and_url() {
    let e = EndpointAddress::new(127, 0, 0, 1, 4444);
    assert_eq!(e.text(), "127.0.0.1:4444");
    assert_eq!(e.http_url(), "http://127.0.0.1:4444");
}

#[test]
fn str_eq_compares_content() {
    assert!(str_eq("abc", "abc"));
    assert!(!str_eq("abc", "abd"));
    assert!(!str_eq("abc", "ab"));
    assert!(str_eq("", ""));
}

#[test]
fn labels_round_trip() {
    assert_eq!(Browser::InternetExplorer.label(), "Internet Explorer");
    assert_eq!(Browser::from_label("Internet Explorer"), Some(Browser::InternetExplorer));
    assert_eq!(Browser::from_label("Firefox"), Some(Browser::Firefox));
    assert_eq!(Browser::from_label("Netscape"), None);
    assert_eq!(Mode::Goodreads.label(), "Goodreads");
    assert_eq!(Mode::from_label("Goodreads"), Some(Mode::Goodreads));
    assert_eq!(Mode::from_label("Library"), None);
}

#[test]
fn driver_names_per_browser() {
    assert_eq!(Browser::Firefox.driver(), "geckodriver");
    assert_eq!(Browser::Chrome.driver(), "chromedriver");
    assert_eq!(Browser::Chromium.driver(), "chromedriver");
    assert_eq!(Browser::Edge.driver(), "msedgedriver");
    assert_eq!(Browser::InternetExplorer.driver(), "IEDriverServer");
    assert_eq!(Browser::Opera.driver(), "operadriver");
    assert_eq!(Browser::Safari.driver(), "safaridriver");
}
