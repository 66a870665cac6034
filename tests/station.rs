use tank_gauge::protocol::{frame, query, respond, unrecognized_reply, Command, Framing, Request};
use tank_gauge::server::{HeaderConfig, RequestError, Server};
use tank_gauge::stamp::LocalTime;
use tank_gauge::tank::{Gauge, Tank, Warning};
use tank_gauge::text::{decimal_text, left_justified, right_justified};

fn gauge(volume: &str) -> Gauge {
    Gauge {
        volume: volume.to_string(),
        tc_volume: "1000".to_string(),
        ullage: "2000".to_string(),
        height: "51.95".to_string(),
        water: "5.48".to_string(),
        temp: "56.46".to_string(),
    }
}

fn header() -> HeaderConfig {
    HeaderConfig {
        line1: "WENDYS BP".to_string(),
        line2: "24 NIGHT INN AVE.".to_string(),
        line3: "ATLANTA,GA. 30301".to_string(),
        line4: "404-308-9102".to_string(),
    }
}

fn station() -> Server {
    let tanks = vec![
        Tank::new("UNLEAD", gauge("4000"), vec![Warning::HighWaterAlarm, Warning::HighWaterWarning]),
        Tank::new("PREMIUM", gauge("3000"), vec![]),
        Tank::new("DIESEL", gauge("2000"), vec![Warning::HighWaterWarning]),
    ];
    Server::new(header(), tanks)
}

fn request(code: &str, command: Command, selector: usize, payload: Option<&str>) -> Request {
    Request {
        code: code.to_string(),
        command,
        selector,
        payload: payload.map(|p| p.to_string()),
    }
}

fn at(year: u32, month: u32, day: u32, hour: u32, minute: u32) -> LocalTime {
    LocalTime { year, month, day, hour, minute }
}

fn now() -> LocalTime {
    at(2026, 10, 19, 15, 7)
}

const NOW: &str = "OCT 19, 2026  3:07 PM";

fn pad(s: &str) -> String {
    format!("{:<20}", s)
}

#[test]
fn decimal_numerals() {
    assert_eq!(decimal_text(0), "0");
    assert_eq!(decimal_text(7), "7");
    assert_eq!(decimal_text(123), "123");
}

#[test]
fn justification() {
    assert_eq!(left_justified("ab", 5), "ab   ");
    assert_eq!(left_justified("abcdef", 3), "abcdef");
    assert_eq!(right_justified("7", 2), " 7");
    assert_eq!(right_justified("12", 2), "12");
}

#[test]
fn warning_text() {
    assert_eq!(Warning::HighWaterAlarm.to_string(), "HIGH WATER ALARM");
    assert_eq!(Warning::HighWaterWarning.to_string(), "HIGH WATER WARNING");
}

#[test]
fn tank_label_is_padded() {
    let t = Tank::new("UNLEAD", gauge("1"), vec![]);
    assert_eq!(t.product, pad("UNLEAD"));
}

#[test]
fn frame_needs_each_field_in_turn() {
    assert!(matches!(frame(b""), Framing::Need(1)));
    assert!(matches!(frame(b"\x01"), Framing::Need(5)));
    assert!(matches!(frame(b"\x01I20"), Framing::Need(5)));
    assert!(matches!(frame(b"\x01I201"), Framing::Need(7)));
    assert!(matches!(frame(b"\x01S50301"), Framing::Need(27)));
}

#[test]
fn frame_rejects_missing_start_byte() {
    assert!(matches!(frame(b"I20101"), Framing::Malformed));
}

#[test]
fn frame_rejects_non_digit_selector() {
    assert!(matches!(frame(b"\x01I2010X"), Framing::Malformed));
}

#[test]
fn frame_rejects_invalid_code_text() {
    assert!(matches!(frame(b"\x01\xffI20"), Framing::Malformed));
}

#[test]
fn frame_rejects_invalid_payload_text() {
    let mut msg = b"\x01S60201".to_vec();
    msg.extend_from_slice(&[0xc3; 20]);
    assert!(matches!(frame(&msg), Framing::Malformed));
}

#[test]
fn frame_completes_query() {
    match frame(b"\x01I20512") {
        Framing::Complete(r) => {
            assert_eq!(r.code, "I205");
            assert_eq!(r.command, Command::Status);
            assert_eq!(r.selector, 12);
            assert!(r.payload.is_none());
        }
        other => panic!("unexpected {:?}", other),
    }
}

#[test]
fn frame_accepts_plus_sign_selector() {
    match frame(b"\x01I201+3") {
        Framing::Complete(r) => assert_eq!(r.selector, 3),
        other => panic!("unexpected {:?}", other),
    }
}

#[test]
fn frame_completes_setting() {
    match frame(b"\x01S50302NEW HEADER LINE     extra") {
        Framing::Complete(r) => {
            assert_eq!(r.command, Command::SetHeaderLine);
            assert_eq!(r.selector, 2);
            assert_eq!(r.payload.as_deref(), Some("NEW HEADER LINE     "));
        }
        other => panic!("unexpected {:?}", other),
    }
}

#[test]
fn frame_keeps_unknown_code() {
    match frame(b"\x01I20200") {
        Framing::Complete(r) => {
            assert_eq!(r.code, "I202");
            assert_eq!(r.command, Command::Unsupported);
        }
        other => panic!("unexpected {:?}", other),
    }
}

#[test]
fn header_block_layout() {
    let s = station();
    let expected = format!(
        "\x01\r\nI201\r\n{}\r\n\r\n{}\r\n{}\r\n{}\r\n{}\r\n",
        NOW,
        pad("WENDYS BP"),
        pad("24 NIGHT INN AVE."),
        pad("ATLANTA,GA. 30301"),
        pad("404-308-9102")
    );
    assert_eq!(s.build_header("I201", &now()), expected.into_bytes());
}

#[test]
fn inventory_selects_tanks() {
    let s = station();
    let all = s.inventory_rows(0);
    assert_eq!(all.len(), 4);
    assert_eq!(all[0], vec!["TANK", "PRODUCT", "VOLUME", "TC VOLUME", "ULLAGE", "HEIGHT", "WATER", "TEMP"]);
    assert_eq!(all[1][0], " 1");
    assert_eq!(all[3][0], " 3");
    assert_eq!(all[2][1], pad("PREMIUM"));
    assert_eq!(all[2][2], "3000");
    assert_eq!(all[1][7], "56.46");
    let one = s.inventory_rows(2);
    assert_eq!(one.len(), 2);
    assert_eq!(one[1][0], " 2");
    assert_eq!(one[1][1], pad("PREMIUM"));
    assert_eq!(s.inventory_rows(9).len(), 1);
}

#[test]
fn inventory_report_is_aligned() {
    let s = station();
    let text = String::from_utf8(s.i20100(3)).unwrap();
    let lines: Vec<&str> = text.split("\r\n").collect();
    assert_eq!(lines.len(), 3);
    assert_eq!(lines[2], "");
    assert!(lines[0].starts_with("TANK PRODUCT "));
    assert!(lines[1].starts_with("  3  DIESEL"));
    assert!(lines[1].ends_with("56.46"));
}

#[test]
fn status_rows_list_every_warning() {
    let s = station();
    let rows = s.status_rows(0);
    assert_eq!(rows.len(), 5);
    assert_eq!(rows[1], vec![" 1".to_string(), pad("UNLEAD"), "HIGH WATER ALARM".to_string()]);
    assert_eq!(rows[2], vec!["", "", "HIGH WATER WARNING"]);
    assert_eq!(rows[3], vec![" 2".to_string(), pad("PREMIUM"), "NORMAL".to_string()]);
    assert_eq!(rows[4], vec![" 3".to_string(), pad("DIESEL"), "HIGH WATER WARNING".to_string()]);
}

#[test]
fn status_report_end_to_end() {
    let mut s = station();
    let req = match frame(b"\x01I20501") {
        Framing::Complete(r) => r,
        other => panic!("unexpected {:?}", other),
    };
    let reply = respond(&mut s, &req, &now());
    let mut expected = s.build_header("I205", &now());
    expected.extend_from_slice(b"\r\n");
    let table = format!(
        "TANK   PRODUCT{}STATUS\r\n  1    {} HIGH WATER ALARM\r\n       {} HIGH WATER WARNING\r\n",
        " ".repeat(14),
        pad("UNLEAD"),
        " ".repeat(20)
    );
    expected.extend_from_slice(table.as_bytes());
    expected.extend_from_slice(b"\r\n\x03");
    assert_eq!(reply, expected);
}

#[test]
fn set_header_line_changes_one_line() {
    let mut s = station();
    let reply = s.s503tt(2, "MAIN STREET         ".to_string()).unwrap();
    assert_eq!(reply, b"# 2: MAIN STREET         ".to_vec());
    let expected = format!(
        "\x01\r\nS503\r\n{}\r\n\r\n{}\r\n{}\r\n{}\r\n{}\r\n",
        NOW,
        pad("WENDYS BP"),
        "MAIN STREET         ",
        pad("ATLANTA,GA. 30301"),
        pad("404-308-9102")
    );
    assert_eq!(s.build_header("S503", &now()), expected.into_bytes());
}

#[test]
fn set_header_line_refuses_bad_number() {
    let mut s = station();
    let before = s.build_header("S503", &now());
    assert_eq!(s.s503tt(0, "X".to_string()), Err(RequestError::InvalidLineNumber));
    assert_eq!(s.s503tt(5, "X".to_string()), Err(RequestError::InvalidLineNumber));
    assert_eq!(s.build_header("S503", &now()), before);
}

#[test]
fn set_product_label_everywhere() {
    let mut s = station();
    let reply = s.s602tt(0, "DIESEL".to_string()).unwrap();
    let expected = format!(
        "TANK   PRODUCT LABEL\r\n  1    {p}\r\n  2    {p}\r\n  3    {p}\r\n",
        p = pad("DIESEL")
    );
    assert_eq!(String::from_utf8(reply).unwrap(), expected);
    let rows = s.inventory_rows(0);
    for row in &rows[1..] {
        assert_eq!(row[1], "DIESEL");
    }
}

#[test]
fn set_product_label_one_tank() {
    let mut s = station();
    s.s602tt(2, "E85".to_string()).unwrap();
    let rows = s.inventory_rows(0);
    assert_eq!(rows[1][1], pad("UNLEAD"));
    assert_eq!(rows[2][1], "E85");
    assert_eq!(rows[3][1], pad("DIESEL"));
}

#[test]
fn set_product_label_refuses_missing_tank() {
    let mut s = station();
    assert_eq!(s.s602tt(4, "X".to_string()), Err(RequestError::NoSuchTank));
    assert_eq!(s.inventory_rows(0)[1][1], pad("UNLEAD"));
}

#[test]
fn unknown_codes_get_fixed_reply() {
    let fixed = vec![0x01, 0x39, 0x39, 0x39, 0x39, 0x46, 0x46, 0x31, 0x42, 0x03];
    assert_eq!(unrecognized_reply(), fixed);
    let s = station();
    for code in ["I202", "I203", "I204", "XXXX", "i201"] {
        let req = request(code, Command::Unsupported, 1, None);
        assert_eq!(query(&s, &req, &now()), fixed);
    }
}

#[test]
fn refused_setting_gets_fixed_reply() {
    let fixed = unrecognized_reply();
    let mut s = station();
    let req = request("S503", Command::SetHeaderLine, 7, Some("HELLO               "));
    assert_eq!(respond(&mut s, &req, &now()), fixed);
    let req = request("S602", Command::SetProductLabel, 4, Some("HELLO               "));
    assert_eq!(respond(&mut s, &req, &now()), fixed);
}

#[test]
fn inventory_reply_is_framed() {
    let mut s = station();
    let req = request("I201", Command::Inventory, 0, None);
    let reply = respond(&mut s, &req, &now());
    let mut expected = s.build_header("I201", &now());
    expected.extend_from_slice(b"\r\nIN-TANK INVENTORY\r\n\r\n");
    expected.extend_from_slice(&s.i20100(0));
    expected.extend_from_slice(b"\r\n\x03");
    assert_eq!(reply, expected);
}

#[test]
fn setting_reply_carries_old_header() {
    let mut s = station();
    let before = s.build_header("S503", &now());
    let req = request("S503", Command::SetHeaderLine, 1, Some("NEW NAME            "));
    let reply = respond(&mut s, &req, &now());
    let mut expected = before;
    expected.extend_from_slice(b"\r\n# 1: NEW NAME            \r\n\r\n\x03");
    assert_eq!(reply, expected);
}

#[test]
fn label_reply_is_framed() {
    let mut s = station();
    let req = request("S602", Command::SetProductLabel, 1, Some("SUPER               "));
    let reply = respond(&mut s, &req, &now());
    let mut expected = s.build_header("S602", &now());
    expected.extend_from_slice(b"\r\nTANK PRODUCT LABEL\r\n\r\n");
    let table = format!(
        "TANK   PRODUCT LABEL\r\n  1    SUPER               \r\n  2    {}\r\n  3    {}\r\n",
        pad("PREMIUM"),
        pad("DIESEL")
    );
    expected.extend_from_slice(table.as_bytes());
    expected.extend_from_slice(b"\r\n\x03");
    assert_eq!(reply, expected);
}

#[test]
fn stamp_layout() {
    assert_eq!(now().stamp(), NOW);
    assert_eq!(at(2026, 1, 5, 0, 5).stamp(), "JAN  5, 2026 12:05 AM");
    assert_eq!(at(2025, 12, 31, 12, 0).stamp(), "DEC 31, 2025 12:00 PM");
    assert_eq!(at(987, 6, 10, 23, 59).stamp(), "JUN 10, 0987 11:59 PM");
}

#[test]
fn stamp_validity() {
    assert!(now().is_valid());
    assert!(!at(2026, 13, 1, 0, 0).is_valid());
    assert!(!at(2026, 1, 0, 0, 0).is_valid());
    assert!(!at(2026, 1, 1, 24, 0).is_valid());
    assert!(!at(2026, 1, 1, 0, 60).is_valid());
    assert!(!at(10000, 1, 1, 0, 0).is_valid());
}

#[test]
fn short_header_line_is_printed_padded() {
    let mut s = station();
    s.s503tt(1, "X".to_string()).unwrap();
    let expected = format!(
        "\x01\r\nI201\r\n{}\r\n\r\n{}\r\n{}\r\n{}\r\n{}\r\n",
        NOW,
        pad("X"),
        pad("24 NIGHT INN AVE."),
        pad("ATLANTA,GA. 30301"),
        pad("404-308-9102")
    );
    assert_eq!(s.build_header("I201", &now()), expected.into_bytes());
}
