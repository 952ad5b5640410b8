use razer_poll::error::Error;
use razer_poll::exchange::Failure;
use razer_poll::text::{parse_hex_u16, HexError};

fn as_std_reads(s: &str) -> Result<u16, String> {
    u16::from_str_radix(s.trim_start_matches("0x"), 16).map_err(|e| e.to_string())
}

#[test]
fn hexadecimal_is_read_as_the_standard_library_reads_it() {
    for s in [
        "", "0x", "0x0x", "x", "0", "+", "-", "+0", "-0", "-1", "++1", "+-1", "0x+1f", "+0x1f",
        "0084", "00c3", "00C3", "0x00c3", "0X00c3", "0x0x84", "00x84", "0x0", "ffff", "FFFF",
        "fFfF", "10000", "ffffg", "fffffg", "gffff", "00000000ffff", "00000000010000", "1_0",
        " 84", "84 ", "8 4", "\u{e9}", "1\u{e9}", "\u{ff11}", "0x\u{2713}", "f/", "f:", "f@", "fG",
        "f`", "fg", "+ffff", "+10000", "0x+", "1+", "1-",
    ] {
        assert_eq!(parse_hex_u16(s), as_std_reads(s), "{s:?}");
    }
}

#[test]
fn short_texts_are_read_as_the_standard_library_reads_them() {
    let alphabet = ['0', '9', 'a', 'F', 'g', 'x', '+', '-'];
    let mut texts = vec![String::new()];
    for _ in 0..5 {
        let mut longer = Vec::new();
        for text in &texts {
            for c in alphabet {
                let mut next = text.clone();
                next.push(c);
                longer.push(next);
            }
        }
        for text in &longer {
            assert_eq!(parse_hex_u16(text), as_std_reads(text), "{text:?}");
        }
        texts = longer;
    }
}

#[test]
fn printed_ids_read_back() {
    for id in 0..=u16::MAX {
        assert_eq!(parse_hex_u16(&format!("{id:04x}")), Ok(id));
        assert_eq!(parse_hex_u16(&format!("0x{id:04x}")), Ok(id));
    }
}

#[test]
fn messages_of_hexadecimal_errors() {
    assert_eq!(
        HexError::Empty.message(),
        "cannot parse integer from empty string"
    );
    assert_eq!(
        HexError::InvalidDigit.message(),
        "invalid digit found in string"
    );
    assert_eq!(
        HexError::TooLarge.message(),
        "number too large to fit in target type"
    );
}

#[test]
fn messages_of_errors() {
    assert_eq!(
        Error::UnsupportedProduct { pid: 0x00c1 }.message(),
        "unsupported Razer product ID 00c1; use 0084 or 00c3"
    );
    assert_eq!(
        Error::UnsupportedHighRate { rate: 333 }.message(),
        "unsupported rate 333; use 125, 250, 500, 1000, 2000, 4000, or 8000"
    );
    assert_eq!(
        Error::UnsupportedRate {
            rate: 8000,
            name: "DeathAdder V2"
        }
        .message(),
        "unsupported rate 8000 for DeathAdder V2; use 125, 500, or 1000"
    );
    assert_eq!(
        Error::UnsupportedDpi {
            dpi: 99,
            name: "DeathAdder V2",
            max_dpi: 20_000
        }
        .message(),
        "unsupported DPI 99 for DeathAdder V2; use 100 through 20000"
    );
    assert_eq!(
        Error::UnknownRateCode { code: 0x0a }.message(),
        "device returned unknown polling-rate code 0x0a"
    );
    assert_eq!(
        Error::InterfaceNotFound {
            pid: 0x0084,
            interface: -1
        }
        .message(),
        "Razer HID interface not found: 1532:0084, interface -1.\n\
         Run with --list and confirm the receiver is connected wirelessly."
    );
    assert_eq!(
        Error::ShortResponse { read: 0 }.message(),
        "short feature report response: read 0 bytes"
    );
    assert_eq!(
        Error::UnexpectedResponse {
            status: 0x02,
            class: 0xf4,
            command: 0x85
        }
        .message(),
        "unexpected response: status=0x02, class=0xf4, command=0x85"
    );
    assert_eq!(
        Error::CommandFailed { status: 0x03 }.message(),
        "Razer command failed with status 0x03"
    );
    assert_eq!(
        Error::NothingRequested.message(),
        "provide a polling rate, --dpi, --status, or --list"
    );
    assert_eq!(
        Error::NoSupportedMouse.message(),
        "no supported Razer mice found; run with --list"
    );
}

#[test]
fn messages_hold_any_number() {
    for n in [0, 9, 10, 99, 100, 1000, 10_009, 65_535] {
        assert_eq!(
            Error::UnsupportedHighRate { rate: n }.message(),
            format!("unsupported rate {n}; use 125, 250, 500, 1000, 2000, 4000, or 8000")
        );
    }
    for interface in [i32::MIN, -10, 0, 7, i32::MAX] {
        assert!(Error::InterfaceNotFound { pid: 1, interface }
            .message()
            .starts_with(&format!(
                "Razer HID interface not found: 1532:0001, interface {interface}.\n"
            )));
    }
    assert_eq!(
        Error::ShortResponse { read: usize::MAX }.message(),
        format!("short feature report response: read {} bytes", usize::MAX)
    );
    for code in 0..=u8::MAX {
        assert_eq!(
            Error::CommandFailed { status: code }.message(),
            format!("Razer command failed with status 0x{code:02x}")
        );
    }
}

#[test]
fn messages_of_failures() {
    assert_eq!(
        Failure::Send(()).message(),
        "SET_REPORT failed; check hidraw permissions and stop OpenRazer first"
    );
    assert_eq!(Failure::Receive(()).message(), "GET_REPORT failed");
    assert_eq!(
        Failure::<()>::Response(Error::CommandFailed { status: 0x05 }).message(),
        "Razer command failed with status 0x05"
    );
}
