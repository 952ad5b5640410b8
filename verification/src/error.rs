//! What can go wrong before, during and after talking to a mouse.
use crate::text::{push_decimal, push_hex2, push_hex4};
use vstd::prelude::*;

verus! {

/// The USB vendor ID of Razer.
pub const RAZER_VID: u16 = 0x1532;

/// A request that cannot be carried out, or a reply that cannot be used.
#[derive(Debug, Clone, Copy, PartialEq, Eq)]
pub enum Error {
    /// No profile is known for the product ID.
    UnsupportedProduct { pid: u16 },
    /// The rate is none of those of a mouse with high-rate polling.
    UnsupportedHighRate { rate: u16 },
    /// The rate is none of those of a mouse without high-rate polling.
    UnsupportedRate { rate: u16, name: &'static str },
    /// The DPI is out of the range of the mouse.
    UnsupportedDpi { dpi: u16, name: &'static str, max_dpi: u16 },
    /// The mouse answered with a polling-rate code that stands for no rate.
    UnknownRateCode { code: u8 },
    /// No attached interface has that product ID and number.
    InterfaceNotFound { pid: u16, interface: i32 },
    /// The reply ends before its header does.
    ShortResponse { read: usize },
    /// The reply is not for the command that was sent.
    UnexpectedResponse { status: u8, class: u8, command: u8 },
    /// The mouse did not carry out the command.
    CommandFailed { status: u8 },
    /// Neither a setting nor a reading was asked for.
    NothingRequested,
    /// No attached mouse has a known profile.
    NoSupportedMouse,
}

impl Error {
    /// The message for a person.
    pub open spec fn text(self) -> Seq<char> {
        match self {
            Error::UnsupportedProduct { pid } => "unsupported Razer product ID "@
                + crate::text::hex4(pid) + "; use 0084 or 00c3"@,
            Error::UnsupportedHighRate { rate } => "unsupported rate "@ + crate::text::decimal(
                rate as int,
            ) + "; use 125, 250, 500, 1000, 2000, 4000, or 8000"@,
            Error::UnsupportedRate { rate, name } => "unsupported rate "@ + crate::text::decimal(
                rate as int,
            ) + " for "@ + name@ + "; use 125, 500, or 1000"@,
            Error::UnsupportedDpi { dpi, name, max_dpi } => "unsupported DPI "@
                + crate::text::decimal(dpi as int) + " for "@ + name@ + "; use 100 through "@
                + crate::text::decimal(max_dpi as int),
            Error::UnknownRateCode { code } => "device returned unknown polling-rate code 0x"@
                + crate::text::hex2(code),
            Error::InterfaceNotFound { pid, interface } => "Razer HID interface not found: "@
                + crate::text::hex4(RAZER_VID) + ":"@ + crate::text::hex4(pid) + ", interface "@
                + crate::text::decimal(interface as int)
                + ".\nRun with --list and confirm the receiver is connected wirelessly."@,
            Error::ShortResponse { read } => "short feature report response: read "@
                + crate::text::decimal(read as int) + " bytes"@,
            Error::UnexpectedResponse { status, class, command } =>
                "unexpected response: status=0x"@ + crate::text::hex2(status) + ", class=0x"@
                + crate::text::hex2(class) + ", command=0x"@ + crate::text::hex2(command),
            Error::CommandFailed { status } => "Razer command failed with status 0x"@
                + crate::text::hex2(status),
            Error::NothingRequested => "provide a polling rate, --dpi, --status, or --list"@,
            Error::NoSupportedMouse => "no supported Razer mice found; run with --list"@,
        }
    }

    /// The message for a person.
    pub fn message(&self) -> (message: String)
        ensures
            message@ == self.text(),
    {
        match *self {
            Error::UnsupportedProduct { pid } => {
                let mut out = String::from_str("unsupported Razer product ID ");
                push_hex4(&mut out, pid);
                out.append("; use 0084 or 00c3");
                out
            },
            Error::UnsupportedHighRate { rate } => {
                let mut out = String::from_str("unsupported rate ");
                push_decimal(&mut out, rate as i128);
                out.append("; use 125, 250, 500, 1000, 2000, 4000, or 8000");
                out
            },
            Error::UnsupportedRate { rate, name } => {
                let mut out = String::from_str("unsupported rate ");
                push_decimal(&mut out, rate as i128);
                out.append(" for ");
                out.append(name);
                out.append("; use 125, 500, or 1000");
                out
            },
            Error::UnsupportedDpi { dpi, name, max_dpi } => {
                let mut out = String::from_str("unsupported DPI ");
                push_decimal(&mut out, dpi as i128);
                out.append(" for ");
                out.append(name);
                out.append("; use 100 through ");
                push_decimal(&mut out, max_dpi as i128);
                out
            },
            Error::UnknownRateCode { code } => {
                let mut out = String::from_str("device returned unknown polling-rate code 0x");
                push_hex2(&mut out, code);
                out
            },
            Error::InterfaceNotFound { pid, interface } => {
                let mut out = String::from_str("Razer HID interface not found: ");
                push_hex4(&mut out, RAZER_VID);
                out.append(":");
                push_hex4(&mut out, pid);
                out.append(", interface ");
                push_decimal(&mut out, interface as i128);
                out.append(".\nRun with --list and confirm the receiver is connected wirelessly.");
                out
            },
            Error::ShortResponse { read } => {
                let mut out = String::from_str("short feature report response: read ");
                push_decimal(&mut out, read as i128);
                out.append(" bytes");
                out
            },
            Error::UnexpectedResponse { status, class, command } => {
                let mut out = String::from_str("unexpected response: status=0x");
                push_hex2(&mut out, status);
                out.append(", class=0x");
                push_hex2(&mut out, class);
                out.append(", command=0x");
                push_hex2(&mut out, command);
                out
            },
            Error::CommandFailed { status } => {
                let mut out = String::from_str("Razer command failed with status 0x");
                push_hex2(&mut out, status);
                out
            },
            Error::NothingRequested => String::from_str(
                "provide a polling rate, --dpi, --status, or --list",
            ),
            Error::NoSupportedMouse => String::from_str(
                "no supported Razer mice found; run with --list",
            ),
        }
    }
}

/// Every message tells what is wrong and names the values that are.
pub proof fn messages_name_the_values(
    pid: u16,
    rate: u16,
    dpi: u16,
    max_dpi: u16,
    name: &'static str,
    interface: i32,
)
    ensures
        (Error::UnsupportedProduct { pid }).text() == "unsupported Razer product ID "@
            + crate::text::hex4(pid) + "; use 0084 or 00c3"@,
        (Error::UnsupportedHighRate { rate }).text() == "unsupported rate "@ + crate::text::decimal(
            rate as int,
        ) + "; use 125, 250, 500, 1000, 2000, 4000, or 8000"@,
        (Error::UnsupportedRate { rate, name }).text() == "unsupported rate "@
            + crate::text::decimal(rate as int) + " for "@ + name@ + "; use 125, 500, or 1000"@,
        (Error::UnsupportedDpi { dpi, name, max_dpi }).text() == "unsupported DPI "@
            + crate::text::decimal(dpi as int) + " for "@ + name@ + "; use 100 through "@
            + crate::text::decimal(max_dpi as int),
        (Error::InterfaceNotFound { pid, interface }).text()
            == "Razer HID interface not found: 1532:"@ + crate::text::hex4(pid) + ", interface "@
            + crate::text::decimal(interface as int)
            + ".\nRun with --list and confirm the receiver is connected wirelessly."@,
        Error::NothingRequested.text() == "provide a polling rate, --dpi, --status, or --list"@,
        Error::NoSupportedMouse.text() == "no supported Razer mice found; run with --list"@,
{
    reveal_strlit("0123456789abcdef");
    reveal_strlit("Razer HID interface not found: ");
    reveal_strlit(":");
    reveal_strlit("Razer HID interface not found: 1532:");
    assert("Razer HID interface not found: 1532:"@ =~= "Razer HID interface not found: "@
        + crate::text::hex4(RAZER_VID) + ":"@);
}

/// The message of a reply that cannot be used names the bytes that say so.
pub proof fn reply_messages_name_the_bytes(
    read: usize,
    code: u8,
    status: u8,
    class: u8,
    command: u8,
)
    ensures
        (Error::UnknownRateCode { code }).text() == "device returned unknown polling-rate code 0x"@
            + crate::text::hex2(code),
        (Error::ShortResponse { read }).text() == "short feature report response: read "@
            + crate::text::decimal(read as int) + " bytes"@,
        (Error::UnexpectedResponse { status, class, command }).text()
            == "unexpected response: status=0x"@ + crate::text::hex2(status) + ", class=0x"@
            + crate::text::hex2(class) + ", command=0x"@ + crate::text::hex2(command),
        (Error::CommandFailed { status }).text() == "Razer command failed with status 0x"@
            + crate::text::hex2(status),
{
}

} // verus!
