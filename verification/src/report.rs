//! The 90-byte feature report: requests to a mouse, and what its replies say.
use crate::error::Error;
use crate::profile::{rate_code, DeviceProfile};
use vstd::prelude::*;

verus! {

/// The length of a feature report.
pub const REPORT_PAYLOAD_LEN: usize = 90;

/// The exclusive or of all bytes.
pub open spec fn xor_all(bytes: Seq<u8>) -> u8
    decreases bytes.len(),
{
    if bytes.len() == 0 {
        0
    } else {
        xor_all(bytes.drop_last()) ^ bytes.last()
    }
}

/// A report without its last two bytes: the status of a new command, the
/// transaction ID, no remaining packets, the protocol type, the number of
/// arguments, the command class, the command ID and 80 bytes of arguments.
pub open spec fn report_body(
    transaction_id: u8,
    command_class: u8,
    command: u8,
    arguments: Seq<u8>,
) -> Seq<u8> {
    Seq::new(
        88,
        |i: int|
            if i == 1 {
                transaction_id
            } else if i == 5 {
                arguments.len() as u8
            } else if i == 6 {
                command_class
            } else if i == 7 {
                command
            } else if 8 <= i < 8 + arguments.len() {
                arguments[i - 8]
            } else {
                0
            },
    )
}

/// The checksum of a report: the exclusive or of its bytes 2 through 87.
pub open spec fn checksum(report: Seq<u8>) -> u8 {
    xor_all(report.subrange(2, 88))
}

/// A whole report: its body, its checksum and a reserved byte.
pub open spec fn report_bytes(
    transaction_id: u8,
    command_class: u8,
    command: u8,
    arguments: Seq<u8>,
) -> Seq<u8> {
    let body = report_body(transaction_id, command_class, command, arguments);
    body.push(checksum(body)).push(0)
}

/// Builds the 90-byte Razer feature report.
///
/// Layout:
/// status, transaction ID, remaining packets (BE), protocol, data size,
/// command class, command ID, 80 argument bytes, CRC, reserved.
///
/// Up to 82 arguments have room; a report keeps the first 80 of them.
pub fn build_report(
    transaction_id: u8,
    command_class: u8,
    command: u8,
    arguments: &[u8],
) -> (report: [u8; REPORT_PAYLOAD_LEN])
    requires
        arguments@.len() <= 82,
    ensures
        report@ == report_bytes(transaction_id, command_class, command, arguments@),
{
    let ghost body = report_body(transaction_id, command_class, command, arguments@);
    let mut report: [u8; REPORT_PAYLOAD_LEN] = [0u8; REPORT_PAYLOAD_LEN];
    report[1] = transaction_id;
    report[5] = arguments.len() as u8;
    report[6] = command_class;
    report[7] = command;
    let mut i: usize = 0;
    while i < arguments.len() && i < 80
        invariant
            i <= arguments@.len(),
            i <= 80,
            arguments@.len() <= 82,
            body == report_body(transaction_id, command_class, command, arguments@),
            report@.len() == 90,
            forall|j: int| 0 <= j < 8 + i ==> report@[j] == body[j],
            forall|j: int| 8 + i <= j < 90 ==> report@[j] == 0,
        decreases arguments@.len() - i,
    {
        report[8 + i] = arguments[i];
        i = i + 1;
    }
    let mut crc: u8 = 0;
    let mut at: usize = 2;
    let ghost summed = body.subrange(2, 88);
    assert(report@.subrange(0, 88) =~= body);
    while at < 88
        invariant
            2 <= at <= 88,
            report@.len() == 90,
            report@.subrange(0, 88) == body,
            summed == body.subrange(2, 88),
            crc == xor_all(summed.take(at - 2)),
        decreases 88 - at,
    {
        assert(summed.take(at - 1).drop_last() =~= summed.take(at - 2));
        assert(report@.subrange(0, 88)[at as int] == report@[at as int]);
        crc = crc ^ report[at];
        at = at + 1;
    }
    assert(summed.take(86) =~= summed);
    report[88] = crc;
    assert(report@ =~= body.push(crc).push(0)) by {
        assert forall|j: int| 0 <= j < 88 implies report@[j] == body[j] by {
            assert(report@.subrange(0, 88)[j] == report@[j]);
        }
    }
    report
}

/// The high byte of a 16-bit number.
pub open spec fn high_byte(n: u16) -> u8 {
    (n / 256) as u8
}

/// The low byte of a 16-bit number.
pub open spec fn low_byte(n: u16) -> u8 {
    (n % 256) as u8
}

/// The report that sets the polling rate with that code.
pub open spec fn poll_report(profile: DeviceProfile, code: u8) -> Seq<u8> {
    if profile.high_rate_polling {
        report_bytes(profile.transaction_id, 0x00, 0x40, seq![0x00, code])
    } else {
        report_bytes(profile.transaction_id, 0x00, 0x05, seq![code])
    }
}

/// The report that sets an equal X and Y DPI.
pub open spec fn dpi_report(profile: DeviceProfile, dpi: u16) -> Seq<u8> {
    report_bytes(
        profile.transaction_id,
        0x04,
        0x05,
        seq![
            0x01,
            high_byte(dpi),
            low_byte(dpi),
            high_byte(dpi),
            low_byte(dpi),
            0x00,
            0x00,
        ],
    )
}

/// The report that asks for the polling rate.
pub open spec fn get_poll_report(profile: DeviceProfile) -> Seq<u8> {
    report_bytes(
        profile.transaction_id,
        0x00,
        if profile.high_rate_polling {
            0xc0
        } else {
            0x85
        },
        seq![0x00],
    )
}

/// The report that asks for the DPI.
pub open spec fn get_dpi_report(profile: DeviceProfile) -> Seq<u8> {
    report_bytes(
        profile.transaction_id,
        0x04,
        0x85,
        seq![0x00, 0x00, 0x00, 0x00, 0x00, 0x00, 0x00],
    )
}

/// Builds the report that sets the polling rate, in Hz.
pub fn build_poll_report(profile: DeviceProfile, rate: u16) -> (report: Result<
    [u8; REPORT_PAYLOAD_LEN],
    Error,
>)
    ensures
        match crate::profile::code_of_rate(profile, rate) {
            Some(code) => report matches Ok(bytes) && bytes@ == poll_report(profile, code),
            None => report matches Err(error) && error == crate::profile::rate_error(profile, rate),
        },
{
    match rate_code(profile, rate) {
        Err(error) => Err(error),
        Ok(code) => {
            if profile.high_rate_polling {
                let arguments: [u8; 2] = [0x00, code];
                assert(arguments@ =~= seq![0x00, code]);
                Ok(build_report(profile.transaction_id, 0x00, 0x40, &arguments))
            } else {
                let arguments: [u8; 1] = [code];
                assert(arguments@ =~= seq![code]);
                Ok(build_report(profile.transaction_id, 0x00, 0x05, &arguments))
            }
        },
    }
}

/// Builds the report that sets an equal X and Y DPI.
pub fn build_dpi_report(profile: DeviceProfile, dpi: u16) -> (report: Result<
    [u8; REPORT_PAYLOAD_LEN],
    Error,
>)
    ensures
        if crate::profile::accepts_dpi(profile, dpi) {
            report matches Ok(bytes) && bytes@ == dpi_report(profile, dpi)
        } else {
            report matches Err(error) && error == crate::profile::dpi_error(profile, dpi)
        },
{
    if dpi < 100 || dpi > profile.max_dpi {
        return Err(Error::UnsupportedDpi { dpi, name: profile.name, max_dpi: profile.max_dpi });
    }
    let high: u8 = (dpi / 256) as u8;
    let low: u8 = (dpi % 256) as u8;
    let arguments: [u8; 7] = [0x01, high, low, high, low, 0x00, 0x00];
    assert(arguments@ =~= seq![0x01, high, low, high, low, 0x00, 0x00]);
    Ok(build_report(profile.transaction_id, 0x04, 0x05, &arguments))
}

/// Builds the report that asks for the polling rate.
pub fn build_get_poll_report(profile: DeviceProfile) -> (report: [u8; REPORT_PAYLOAD_LEN])
    ensures
        report@ == get_poll_report(profile),
{
    let command: u8 = if profile.high_rate_polling {
        0xc0
    } else {
        0x85
    };
    let arguments: [u8; 1] = [0x00];
    assert(arguments@ =~= seq![0x00]);
    build_report(profile.transaction_id, 0x00, command, &arguments)
}

/// Builds the report that asks for the DPI.
pub fn build_get_dpi_report(profile: DeviceProfile) -> (report: [u8; REPORT_PAYLOAD_LEN])
    ensures
        report@ == get_dpi_report(profile),
{
    let arguments: [u8; 7] = [0x00, 0x00, 0x00, 0x00, 0x00, 0x00, 0x00];
    assert(arguments@ =~= seq![0x00, 0x00, 0x00, 0x00, 0x00, 0x00, 0x00]);
    build_report(profile.transaction_id, 0x04, 0x85, &arguments)
}

/// The polling rate that a code stands for.
pub open spec fn rate_of_code(profile: DeviceProfile, code: u8) -> Option<u16> {
    if profile.high_rate_polling {
        match code {
            0x01 => Some(8000u16),
            0x02 => Some(4000u16),
            0x04 => Some(2000u16),
            0x08 => Some(1000u16),
            0x10 => Some(500u16),
            0x20 => Some(250u16),
            0x40 => Some(125u16),
            _ => None,
        }
    } else {
        match code {
            0x01 => Some(1000u16),
            0x02 => Some(500u16),
            0x08 => Some(125u16),
            _ => None,
        }
    }
}

/// The byte of a reply that holds the code of the polling rate.
pub open spec fn replied_code(profile: DeviceProfile, response: Seq<u8>) -> u8 {
    if profile.high_rate_polling {
        response[9]
    } else {
        response[8]
    }
}

/// The 16-bit number with those two bytes, the high one first.
pub open spec fn from_bytes(high: u8, low: u8) -> u16 {
    (high * 256 + low) as u16
}

/// The X and Y DPI that a reply holds.
pub open spec fn replied_dpi(response: Seq<u8>) -> (u16, u16) {
    (from_bytes(response[9], response[10]), from_bytes(response[11], response[12]))
}

/// Reads the polling rate, in Hz, out of a reply.
pub fn decode_poll_rate(
    profile: DeviceProfile,
    response: &[u8; REPORT_PAYLOAD_LEN],
) -> (rate: Result<u16, Error>)
    ensures
        match rate_of_code(profile, replied_code(profile, response@)) {
            Some(known) => rate == Ok::<u16, Error>(known),
            None => rate == Err::<u16, Error>(
                Error::UnknownRateCode { code: replied_code(profile, response@) },
            ),
        },
{
    let at: usize = if profile.high_rate_polling {
        9
    } else {
        8
    };
    let code: u8 = response[at];
    if profile.high_rate_polling {
        return match code {
            0x01 => Ok(8000),
            0x02 => Ok(4000),
            0x04 => Ok(2000),
            0x08 => Ok(1000),
            0x10 => Ok(500),
            0x20 => Ok(250),
            0x40 => Ok(125),
            _ => Err(Error::UnknownRateCode { code }),
        };
    }
    match code {
        0x01 => Ok(1000),
        0x02 => Ok(500),
        0x08 => Ok(125),
        _ => Err(Error::UnknownRateCode { code }),
    }
}

/// Reads the X and Y DPI out of a reply.
pub fn decode_dpi(response: &[u8; REPORT_PAYLOAD_LEN]) -> (dpi: (u16, u16))
    ensures
        dpi == replied_dpi(response@),
{
    (
        response[9] as u16 * 256 + response[10] as u16,
        response[11] as u16 * 256 + response[12] as u16,
    )
}

/// The codes that are read are those that are written: a code stands for a
/// rate exactly where the rate has that code.
pub proof fn codes_and_rates_agree(profile: DeviceProfile, rate: u16, code: u8)
    ensures
        rate_of_code(profile, code) == Some(rate) <==> crate::profile::code_of_rate(profile, rate)
            == Some(code),
{
}

/// A reply that holds the arguments of a report that sets a rate reads as that
/// rate.
pub proof fn written_rate_reads_back(profile: DeviceProfile, rate: u16, response: Seq<u8>)
    requires
        crate::profile::code_of_rate(profile, rate) is Some,
        response.len() == 90,
        response.subrange(8, 88) == poll_report(
            profile,
            crate::profile::code_of_rate(profile, rate)->0,
        ).subrange(8, 88),
    ensures
        rate_of_code(profile, replied_code(profile, response)) == Some(rate),
{
    let report = poll_report(profile, crate::profile::code_of_rate(profile, rate)->0);
    assert(response[8] == response.subrange(8, 88)[0]);
    assert(response[9] == response.subrange(8, 88)[1]);
    assert(report[8] == report.subrange(8, 88)[0]);
    assert(report[9] == report.subrange(8, 88)[1]);
}

/// A reply that holds the arguments of a report that sets a DPI reads as that
/// DPI, for X and Y alike.
pub proof fn written_dpi_reads_back(profile: DeviceProfile, dpi: u16, response: Seq<u8>)
    requires
        response.len() == 90,
        response.subrange(8, 88) == dpi_report(profile, dpi).subrange(8, 88),
    ensures
        replied_dpi(response) == (dpi, dpi),
{
    let report = dpi_report(profile, dpi);
    assert forall|i: int| 9 <= i <= 12 implies response[i] == report[i] by {
        assert(response[i] == response.subrange(8, 88)[i - 8]);
        assert(report[i] == report.subrange(8, 88)[i - 8]);
    }
    assert(response[9] == report[9]);
    assert(response[10] == report[10]);
    assert(response[11] == report[11]);
    assert(response[12] == report[12]);
}

/// Every report is 90 bytes long, starts as a new command, ends in a zero
/// byte, and carries the checksum of what stands before it.
pub proof fn reports_are_framed(
    transaction_id: u8,
    command_class: u8,
    command: u8,
    arguments: Seq<u8>,
)
    ensures
        ({
            let report = report_bytes(transaction_id, command_class, command, arguments);
            &&& report.len() == 90
            &&& report[0] == 0
            &&& report[1] == transaction_id
            &&& report[6] == command_class
            &&& report[7] == command
            &&& report[88] == checksum(report)
            &&& report[89] == 0
        }),
{
    let body = report_body(transaction_id, command_class, command, arguments);
    let report = report_bytes(transaction_id, command_class, command, arguments);
    assert(report.subrange(2, 88) =~= body.subrange(2, 88));
}

/// The bytes that the checksum covers and the checksum itself cancel out.
pub proof fn checksum_cancels(
    transaction_id: u8,
    command_class: u8,
    command: u8,
    arguments: Seq<u8>,
)
    ensures
        xor_all(
            report_bytes(transaction_id, command_class, command, arguments).subrange(2, 89),
        ) == 0,
{
    reports_are_framed(transaction_id, command_class, command, arguments);
    let report = report_bytes(transaction_id, command_class, command, arguments);
    let covered = report.subrange(2, 89);
    assert(covered.drop_last() =~= report.subrange(2, 88));
    let crc = checksum(report);
    assert(crc ^ crc == 0) by (bit_vector);
}

/// Where everything stands in a report: the header, the arguments in their
/// order, and zeros in the rest of their room.
pub proof fn report_layout(
    transaction_id: u8,
    command_class: u8,
    command: u8,
    arguments: Seq<u8>,
)
    requires
        arguments.len() <= 82,
    ensures
        ({
            let report = report_bytes(transaction_id, command_class, command, arguments);
            &&& report.len() == 90
            &&& report[0] == 0 && report[1] == transaction_id
            &&& report[2] == 0 && report[3] == 0 && report[4] == 0
            &&& report[5] == arguments.len()
            &&& report[6] == command_class && report[7] == command
            &&& forall|i: int|
                0 <= i < 80 ==> #[trigger] report[8 + i] == if i < arguments.len() {
                    arguments[i]
                } else {
                    0
                }
            &&& report[89] == 0
        }),
{
}

/// The exclusive or of a whole is that of its parts, and of one byte the byte.
pub proof fn exclusive_or_of_parts(first: Seq<u8>, second: Seq<u8>, byte: u8)
    ensures
        xor_all(first + second) == xor_all(first) ^ xor_all(second),
        xor_all(seq![byte]) == byte,
    decreases second.len(),
{
    assert(seq![byte].drop_last() =~= Seq::empty());
    assert(xor_all(seq![byte].drop_last()) == 0);
    assert(0u8 ^ byte == byte) by (bit_vector);
    if second.len() == 0 {
        assert(first + second =~= first);
        let whole = xor_all(first);
        assert(whole ^ 0 == whole) by (bit_vector);
    } else {
        let rest = second.drop_last();
        exclusive_or_of_parts(first, rest, byte);
        assert((first + second).drop_last() =~= first + rest);
        let a = xor_all(first);
        let b = xor_all(rest);
        let c = second.last();
        assert((a ^ b) ^ c == a ^ (b ^ c)) by (bit_vector);
    }
}

/// A 16-bit number is its high byte times 256 and its low byte, both ways.
pub proof fn bytes_make_the_number(n: u16, high: u8, low: u8)
    ensures
        high_byte(n) * 256 + low_byte(n) == n,
        from_bytes(high, low) == high * 256 + low,
{
}

/// Every report that sets a DPI, on every mouse, is the same command: class 4,
/// command 5, with a one, the X and the Y DPI and two zeros as its arguments.
pub proof fn set_dpi_command(profile: DeviceProfile, dpi: u16)
    ensures
        ({
            let report = dpi_report(profile, dpi);
            &&& report.len() == 90
            &&& report[0] == 0 && report[1] == profile.transaction_id
            &&& report[2] == 0 && report[3] == 0 && report[4] == 0
            &&& report[5] == 7 && report[6] == 0x04 && report[7] == 0x05
            &&& report[8] == 0x01
            &&& report[9] * 256 + report[10] == dpi
            &&& report[11] * 256 + report[12] == dpi
            &&& forall|i: int| 13 <= i < 88 ==> #[trigger] report[i] == 0
            &&& xor_all(report.subrange(2, 89)) == 0
            &&& report[89] == 0
        }),
{
    let arguments: Seq<u8> = seq![
        0x01,
        high_byte(dpi),
        low_byte(dpi),
        high_byte(dpi),
        low_byte(dpi),
        0x00,
        0x00,
    ];
    checksum_cancels(profile.transaction_id, 0x04, 0x05, arguments);
}

/// Every report that sets a rate is the one command that its mouse has for it:
/// class 0 and command 0x40 with two arguments on a mouse with high-rate
/// polling, command 5 with one argument on another. The last argument divides
/// the greatest rate into the rate that is set.
pub proof fn set_rate_command(profile: DeviceProfile, rate: u16)
    requires
        crate::profile::code_of_rate(profile, rate) is Some,
    ensures
        ({
            let report = poll_report(profile, crate::profile::code_of_rate(profile, rate)->0);
            &&& report.len() == 90
            &&& report[0] == 0 && report[1] == profile.transaction_id
            &&& report[2] == 0 && report[3] == 0 && report[4] == 0
            &&& report[6] == 0x00
            &&& profile.high_rate_polling ==> report[5] == 2 && report[7] == 0x40 && report[8] == 0
                && rate * report[9] == 8000
            &&& !profile.high_rate_polling ==> report[5] == 1 && report[7] == 0x05 && report[9] == 0
                && rate * report[8] == 1000
            &&& forall|i: int| 10 <= i < 88 ==> #[trigger] report[i] == 0
            &&& xor_all(report.subrange(2, 89)) == 0
            &&& report[89] == 0
        }),
{
    let code = crate::profile::code_of_rate(profile, rate)->0;
    crate::profile::accepted_rates(profile, rate);
    if profile.high_rate_polling {
        checksum_cancels(profile.transaction_id, 0x00, 0x40, seq![0x00, code]);
    } else {
        checksum_cancels(profile.transaction_id, 0x00, 0x05, seq![code]);
    }
}

/// Every report that asks for the DPI, on every mouse, is the same command:
/// class 4, command 0x85, with seven zeros as its arguments.
pub proof fn get_dpi_command(profile: DeviceProfile)
    ensures
        ({
            let report = get_dpi_report(profile);
            &&& report.len() == 90
            &&& report[0] == 0 && report[1] == profile.transaction_id
            &&& report[2] == 0 && report[3] == 0 && report[4] == 0
            &&& report[5] == 7 && report[6] == 0x04 && report[7] == 0x85
            &&& forall|i: int| 8 <= i < 88 ==> #[trigger] report[i] == 0
            &&& xor_all(report.subrange(2, 89)) == 0
            &&& report[89] == 0
        }),
{
    checksum_cancels(
        profile.transaction_id,
        0x04,
        0x85,
        seq![0x00, 0x00, 0x00, 0x00, 0x00, 0x00, 0x00],
    );
}

/// Every report that asks for the rate is the one command that its mouse has
/// for it: class 0 and command 0xc0 on a mouse with high-rate polling, command
/// 0x85 on another, with one zero as its argument.
pub proof fn get_rate_command(profile: DeviceProfile)
    ensures
        ({
            let report = get_poll_report(profile);
            &&& report.len() == 90
            &&& report[0] == 0 && report[1] == profile.transaction_id
            &&& report[2] == 0 && report[3] == 0 && report[4] == 0
            &&& report[5] == 1 && report[6] == 0x00
            &&& profile.high_rate_polling ==> report[7] == 0xc0
            &&& !profile.high_rate_polling ==> report[7] == 0x85
            &&& forall|i: int| 8 <= i < 88 ==> #[trigger] report[i] == 0
            &&& xor_all(report.subrange(2, 89)) == 0
            &&& report[89] == 0
        }),
{
    let command: u8 = if profile.high_rate_polling {
        0xc0
    } else {
        0x85
    };
    checksum_cancels(profile.transaction_id, 0x00, command, seq![0x00]);
}

/// To read a setting is to send the command that writes it with its highest bit
/// set: no reading is a writing, and no writing a reading.
pub proof fn reading_differs_from_writing_by_one_bit(
    profile: DeviceProfile,
    rate: u16,
    dpi: u16,
)
    requires
        crate::profile::code_of_rate(profile, rate) is Some,
    ensures
        ({
            let write = poll_report(profile, crate::profile::code_of_rate(profile, rate)->0);
            let read = get_poll_report(profile);
            &&& read[6] == write[6]
            &&& read[7] == write[7] | 0x80 && write[7] & 0x80 == 0 && read[7] & 0x80 == 0x80
        }),
        ({
            let write = dpi_report(profile, dpi);
            let read = get_dpi_report(profile);
            &&& read[6] == write[6]
            &&& read[7] == write[7] | 0x80 && write[7] & 0x80 == 0 && read[7] & 0x80 == 0x80
        }),
{
    assert(0x40u8 | 0x80 == 0xc0 && 0x40u8 & 0x80 == 0 && 0xc0u8 & 0x80 == 0x80) by (bit_vector);
    assert(0x05u8 | 0x80 == 0x85 && 0x05u8 & 0x80 == 0 && 0x85u8 & 0x80 == 0x80) by (bit_vector);
    set_rate_command(profile, rate);
    set_dpi_command(profile, dpi);
    get_rate_command(profile);
    get_dpi_command(profile);
}

/// The rate in a reply is told by one of its bytes, whatever the others are: the
/// tenth from a mouse with high-rate polling, the ninth from another. It is the
/// accepted rate whose product with that byte is the greatest rate.
pub proof fn rate_in_a_reply(profile: DeviceProfile, response: Seq<u8>, rate: u16)
    requires
        response.len() == 90,
    ensures
        profile.high_rate_polling ==> {
            &&& replied_code(profile, response) == response[9]
            &&& rate_of_code(profile, replied_code(profile, response)) == Some(rate) <==> (rate
                == 125 || rate == 250 || rate == 500 || rate == 1000 || rate == 2000 || rate == 4000
                || rate == 8000) && rate * response[9] == 8000
        },
        !profile.high_rate_polling ==> {
            &&& replied_code(profile, response) == response[8]
            &&& rate_of_code(profile, replied_code(profile, response)) == Some(rate) <==> (rate
                == 125 || rate == 500 || rate == 1000) && rate * response[8] == 1000
        },
{
    let code = replied_code(profile, response);
    assert(rate == 8000 ==> rate * code == 8000 * code);
    assert(rate == 4000 ==> rate * code == 4000 * code);
    assert(rate == 2000 ==> rate * code == 2000 * code);
    assert(rate == 1000 ==> rate * code == 1000 * code);
    assert(rate == 500 ==> rate * code == 500 * code);
    assert(rate == 250 ==> rate * code == 250 * code);
    assert(rate == 125 ==> rate * code == 125 * code);
}

/// The DPI in a reply are told by four of its bytes, whatever the others are:
/// X by the tenth and eleventh, Y by the two that follow.
pub proof fn dpi_in_a_reply(response: Seq<u8>)
    requires
        response.len() == 90,
    ensures
        replied_dpi(response).0 == response[9] * 256 + response[10],
        replied_dpi(response).1 == response[11] * 256 + response[12],
{
}

} // verus!
