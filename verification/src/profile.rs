//! The supported mice, and the codes by which they know polling rates.
use crate::error::Error;
use vstd::prelude::*;

verus! {

/// What the protocol needs to know of a mouse.
#[derive(Debug, Clone, Copy, PartialEq, Eq)]
pub struct DeviceProfile {
    /// The name of the model.
    pub name: &'static str,
    /// The transaction ID that the mouse expects in a report.
    pub transaction_id: u8,
    /// The greatest DPI that the mouse accepts.
    pub max_dpi: u16,
    /// Whether the mouse knows the rates above 1000 Hz and their commands.
    pub high_rate_polling: bool,
}

/// The profile of a product ID, for the supported ones.
pub open spec fn profile_of(pid: u16) -> Option<DeviceProfile> {
    if pid == 0x0084 {
        Some(
            DeviceProfile {
                name: "DeathAdder V2",
                transaction_id: 0x3f,
                max_dpi: 20_000,
                high_rate_polling: false,
            },
        )
    } else if pid == 0x00c3 {
        Some(
            DeviceProfile {
                name: "DeathAdder V3 Pro wireless",
                transaction_id: 0x1f,
                max_dpi: 35_000,
                high_rate_polling: true,
            },
        )
    } else {
        None
    }
}

/// The profile of a product ID; an error for any but the supported ones.
pub fn device_profile(pid: u16) -> (profile: Result<DeviceProfile, Error>)
    ensures
        match profile_of(pid) {
            Some(known) => profile == Ok::<DeviceProfile, Error>(known),
            None => profile == Err::<DeviceProfile, Error>(Error::UnsupportedProduct { pid }),
        },
{
    match pid {
        0x0084 => Ok(
            DeviceProfile {
                name: "DeathAdder V2",
                transaction_id: 0x3f,
                max_dpi: 20_000,
                high_rate_polling: false,
            },
        ),
        0x00c3 => Ok(
            DeviceProfile {
                name: "DeathAdder V3 Pro wireless",
                transaction_id: 0x1f,
                max_dpi: 35_000,
                high_rate_polling: true,
            },
        ),
        _ => Err(Error::UnsupportedProduct { pid }),
    }
}

/// The code of a polling rate, for the rates that the mouse accepts.
pub open spec fn code_of_rate(profile: DeviceProfile, rate: u16) -> Option<u8> {
    if profile.high_rate_polling {
        match rate {
            8000 => Some(0x01u8),
            4000 => Some(0x02u8),
            2000 => Some(0x04u8),
            1000 => Some(0x08u8),
            500 => Some(0x10u8),
            250 => Some(0x20u8),
            125 => Some(0x40u8),
            _ => None,
        }
    } else {
        match rate {
            1000 => Some(0x01u8),
            500 => Some(0x02u8),
            125 => Some(0x08u8),
            _ => None,
        }
    }
}

/// The refusal of a rate that the mouse does not accept.
pub open spec fn rate_error(profile: DeviceProfile, rate: u16) -> Error {
    if profile.high_rate_polling {
        Error::UnsupportedHighRate { rate }
    } else {
        Error::UnsupportedRate { rate, name: profile.name }
    }
}

/// The code by which the mouse knows a polling rate in Hz.
pub fn rate_code(profile: DeviceProfile, rate: u16) -> (code: Result<u8, Error>)
    ensures
        match code_of_rate(profile, rate) {
            Some(known) => code == Ok::<u8, Error>(known),
            None => code == Err::<u8, Error>(rate_error(profile, rate)),
        },
{
    if profile.high_rate_polling {
        return match rate {
            8000 => Ok(0x01),
            4000 => Ok(0x02),
            2000 => Ok(0x04),
            1000 => Ok(0x08),
            500 => Ok(0x10),
            250 => Ok(0x20),
            125 => Ok(0x40),
            _ => Err(Error::UnsupportedHighRate { rate }),
        };
    }
    match rate {
        1000 => Ok(0x01),
        500 => Ok(0x02),
        125 => Ok(0x08),
        _ => Err(Error::UnsupportedRate { rate, name: profile.name }),
    }
}

/// Whether the mouse accepts a DPI.
pub open spec fn accepts_dpi(profile: DeviceProfile, dpi: u16) -> bool {
    100 <= dpi <= profile.max_dpi
}

/// The refusal of a DPI that the mouse does not accept.
pub open spec fn dpi_error(profile: DeviceProfile, dpi: u16) -> Error {
    Error::UnsupportedDpi { dpi, name: profile.name, max_dpi: profile.max_dpi }
}

/// The rates that both models accept are 125, 500 and 1000 Hz.
pub proof fn shared_rates(rate: u16)
    ensures
        (code_of_rate(profile_of(0x0084)->0, rate) is Some && code_of_rate(
            profile_of(0x00c3)->0,
            rate,
        ) is Some) <==> (rate == 125 || rate == 500 || rate == 1000),
{
}

/// The DPI that both models accept are those of the DeathAdder V2: 100 through
/// 20000. The DeathAdder V3 Pro alone goes up to 35000.
pub proof fn shared_dpi(dpi: u16)
    ensures
        accepts_dpi(profile_of(0x0084)->0, dpi) <==> 100 <= dpi <= 20_000,
        accepts_dpi(profile_of(0x00c3)->0, dpi) <==> 100 <= dpi <= 35_000,
        (accepts_dpi(profile_of(0x0084)->0, dpi) && accepts_dpi(profile_of(0x00c3)->0, dpi))
            <==> 100 <= dpi <= 20_000,
{
}

/// The greatest polling rate of a mouse, in Hz.
pub open spec fn greatest_rate(profile: DeviceProfile) -> u16 {
    if profile.high_rate_polling {
        8000
    } else {
        1000
    }
}

/// A mouse accepts its greatest rate and none above it.
pub proof fn rates_are_bounded(profile: DeviceProfile, rate: u16)
    requires
        code_of_rate(profile, rate) is Some,
    ensures
        rate <= greatest_rate(profile),
        code_of_rate(profile, greatest_rate(profile)) is Some,
{
}

/// A code divides the greatest rate of the mouse into the rate it stands for.
pub proof fn code_divides_greatest_rate(profile: DeviceProfile, rate: u16)
    requires
        code_of_rate(profile, rate) is Some,
    ensures
        rate * code_of_rate(profile, rate)->0 == greatest_rate(profile),
{
}

/// No two rates of a mouse share a code.
pub proof fn codes_are_distinct(profile: DeviceProfile, first: u16, second: u16)
    requires
        code_of_rate(profile, first) is Some,
        code_of_rate(profile, first) == code_of_rate(profile, second),
    ensures
        first == second,
{
}

/// Two products are supported: the DeathAdder V2, which takes up to 20000 DPI,
/// and the DeathAdder V3 Pro, which takes up to 35000 and the high rates.
pub proof fn two_products_are_supported(pid: u16)
    ensures
        profile_of(pid) is Some <==> pid == 0x0084 || pid == 0x00c3,
        pid == 0x0084 ==> {
            let profile = profile_of(pid)->0;
            &&& profile.name@ == "DeathAdder V2"@
            &&& profile.transaction_id == 0x3f
            &&& profile.max_dpi == 20_000
            &&& !profile.high_rate_polling
        },
        pid == 0x00c3 ==> {
            let profile = profile_of(pid)->0;
            &&& profile.name@ == "DeathAdder V3 Pro wireless"@
            &&& profile.transaction_id == 0x1f
            &&& profile.max_dpi == 35_000
            &&& profile.high_rate_polling
        },
{
}

/// A mouse accepts the rates of its kind, whatever else its profile says, and a
/// code times its rate is the greatest rate.
pub proof fn accepted_rates(profile: DeviceProfile, rate: u16)
    ensures
        profile.high_rate_polling ==> {
            &&& code_of_rate(profile, rate) is Some <==> (rate == 125 || rate == 250 || rate == 500
                || rate == 1000 || rate == 2000 || rate == 4000 || rate == 8000)
            &&& code_of_rate(profile, rate) matches Some(code) ==> rate * code == 8000
        },
        !profile.high_rate_polling ==> {
            &&& code_of_rate(profile, rate) is Some <==> (rate == 125 || rate == 500 || rate
                == 1000)
            &&& code_of_rate(profile, rate) matches Some(code) ==> rate * code == 1000
        },
{
}

/// A mouse accepts a DPI from 100 up to its own maximum.
pub proof fn accepted_dpi(profile: DeviceProfile, dpi: u16)
    ensures
        accepts_dpi(profile, dpi) <==> 100 <= dpi && dpi <= profile.max_dpi,
{
}

/// A refusal names what was asked for, and of which mouse where that matters.
pub proof fn refusals_name_the_request(profile: DeviceProfile, asked: u16)
    ensures
        profile.high_rate_polling ==> rate_error(profile, asked) == (Error::UnsupportedHighRate {
            rate: asked,
        }),
        !profile.high_rate_polling ==> rate_error(profile, asked) == (Error::UnsupportedRate {
            rate: asked,
            name: profile.name,
        }),
        dpi_error(profile, asked) == (Error::UnsupportedDpi {
            dpi: asked,
            name: profile.name,
            max_dpi: profile.max_dpi,
        }),
{
}

} // verus!
