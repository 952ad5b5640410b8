use razer_poll::devices::target_pids;
use razer_poll::error::Error;
use razer_poll::profile::{device_profile, rate_code, DeviceProfile};
use razer_poll::report::{
    build_dpi_report, build_get_dpi_report, build_get_poll_report, build_poll_report, build_report,
    decode_dpi, decode_poll_rate, REPORT_PAYLOAD_LEN,
};

#[test]
fn deathadder_v3_pro_8k_polling_report_matches_openrazer() {
    let report = build_poll_report(device_profile(0x00c3).unwrap(), 8000).unwrap();

    assert_eq!(
        &report[0..10],
        &[0x00, 0x1f, 0, 0, 0, 2, 0x00, 0x40, 0x00, 0x01]
    );
    assert_eq!(
        report[88],
        report[2..88].iter().fold(0, |crc, byte| crc ^ byte)
    );
}

#[test]
fn deathadder_v2_dpi_report_matches_openrazer() {
    let report = build_dpi_report(device_profile(0x0084).unwrap(), 1600).unwrap();

    assert_eq!(
        &report[0..15],
        &[0x00, 0x3f, 0, 0, 0, 7, 0x04, 0x05, 0x01, 0x06, 0x40, 0x06, 0x40, 0, 0]
    );
    assert_eq!(
        report[88],
        report[2..88].iter().fold(0, |crc, byte| crc ^ byte)
    );
    assert!(build_poll_report(device_profile(0x0084).unwrap(), 8000).is_err());
}

#[test]
fn unsupported_device_is_rejected() {
    assert!(device_profile(0x00c1).is_err());
}

#[test]
fn status_reports_and_responses_match_openrazer() {
    let profile = device_profile(0x00c3).unwrap();
    let poll_request = build_get_poll_report(profile);
    let dpi_request = build_get_dpi_report(profile);
    assert_eq!(&poll_request[0..8], &[0x00, 0x1f, 0, 0, 0, 1, 0x00, 0xc0]);
    assert_eq!(
        &dpi_request[0..9],
        &[0x00, 0x1f, 0, 0, 0, 7, 0x04, 0x85, 0x00]
    );

    let mut poll_response = [0u8; REPORT_PAYLOAD_LEN];
    poll_response[9] = 0x01;
    assert_eq!(decode_poll_rate(profile, &poll_response).unwrap(), 8000);

    let mut dpi_response = [0u8; REPORT_PAYLOAD_LEN];
    dpi_response[9..13].copy_from_slice(&[0x06, 0x40, 0x03, 0x20]);
    assert_eq!(decode_dpi(&dpi_response), (1600, 800));
}

#[test]
fn no_pid_filter_targets_each_supported_mouse_once() {
    let detected = [0x0084, 0x0084, 0x057d, 0x00c3, 0x00c3];

    assert_eq!(target_pids(None, &detected), vec![0x0084, 0x00c3]);
    assert_eq!(target_pids(Some(0x00c3), &detected), vec![0x00c3]);
}

fn v2() -> DeviceProfile {
    device_profile(0x0084).unwrap()
}

fn v3_pro() -> DeviceProfile {
    device_profile(0x00c3).unwrap()
}

#[test]
fn profiles_of_the_supported_mice() {
    assert_eq!(
        v2(),
        DeviceProfile {
            name: "DeathAdder V2",
            transaction_id: 0x3f,
            max_dpi: 20_000,
            high_rate_polling: false,
        }
    );
    assert_eq!(
        v3_pro(),
        DeviceProfile {
            name: "DeathAdder V3 Pro wireless",
            transaction_id: 0x1f,
            max_dpi: 35_000,
            high_rate_polling: true,
        }
    );
    for pid in 0..=u16::MAX {
        if pid != 0x0084 && pid != 0x00c3 {
            assert_eq!(device_profile(pid), Err(Error::UnsupportedProduct { pid }));
        }
    }
}

#[test]
fn every_rate_has_its_code() {
    let high = [
        (8000, 0x01),
        (4000, 0x02),
        (2000, 0x04),
        (1000, 0x08),
        (500, 0x10),
        (250, 0x20),
        (125, 0x40),
    ];
    let low = [(1000, 0x01), (500, 0x02), (125, 0x08)];
    for rate in 0..=u16::MAX {
        match high.iter().find(|entry| entry.0 == rate) {
            Some(entry) => assert_eq!(rate_code(v3_pro(), rate), Ok(entry.1)),
            None => assert_eq!(
                rate_code(v3_pro(), rate),
                Err(Error::UnsupportedHighRate { rate })
            ),
        }
        match low.iter().find(|entry| entry.0 == rate) {
            Some(entry) => assert_eq!(rate_code(v2(), rate), Ok(entry.1)),
            None => assert_eq!(
                rate_code(v2(), rate),
                Err(Error::UnsupportedRate {
                    rate,
                    name: "DeathAdder V2"
                })
            ),
        }
    }
}

#[test]
fn codes_divide_the_greatest_rate_and_differ() {
    for (profile, greatest) in [(v2(), 1000u32), (v3_pro(), 8000u32)] {
        let mut seen = Vec::new();
        for rate in 0..=u16::MAX {
            if let Ok(code) = rate_code(profile, rate) {
                assert_eq!(u32::from(rate) * u32::from(code), greatest);
                assert!(!seen.contains(&code));
                seen.push(code);
            }
        }
        assert!(rate_code(profile, greatest as u16).is_ok());
    }
}

#[test]
fn both_models_share_three_rates() {
    let shared: Vec<u16> = (0..=u16::MAX)
        .filter(|rate| rate_code(v2(), *rate).is_ok() && rate_code(v3_pro(), *rate).is_ok())
        .collect();
    assert_eq!(shared, vec![125, 500, 1000]);
}

#[test]
fn dpi_limits_of_each_model() {
    for (profile, max_dpi) in [(v2(), 20_000), (v3_pro(), 35_000)] {
        for dpi in [0, 99, max_dpi + 1, u16::MAX] {
            assert_eq!(
                build_dpi_report(profile, dpi),
                Err(Error::UnsupportedDpi {
                    dpi,
                    name: profile.name,
                    max_dpi
                })
            );
        }
        for dpi in [100, 101, 20_000, max_dpi] {
            assert!(build_dpi_report(profile, dpi).is_ok());
        }
    }
}

#[test]
fn v2_polling_report_has_one_argument() {
    let report = build_poll_report(v2(), 500).unwrap();
    let mut expected = [0u8; REPORT_PAYLOAD_LEN];
    expected[1] = 0x3f;
    expected[5] = 1;
    expected[7] = 0x05;
    expected[8] = 0x02;
    expected[88] = 1 ^ 0x05 ^ 0x02;
    assert_eq!(report, expected);
}

#[test]
fn v2_asks_for_the_rate_with_its_own_command() {
    let request = build_get_poll_report(v2());
    assert_eq!(&request[0..9], &[0x00, 0x3f, 0, 0, 0, 1, 0x00, 0x85, 0x00]);
    assert_eq!(request[88], 1 ^ 0x85);
}

#[test]
fn report_takes_no_arguments_up_to_all_it_has_room_for() {
    let empty = build_report(0xaa, 0x11, 0x22, &[]);
    assert_eq!(&empty[0..9], &[0, 0xaa, 0, 0, 0, 0, 0x11, 0x22, 0]);
    assert_eq!(empty[88], 0x33);

    for len in [79usize, 80, 81, 82] {
        let arguments: Vec<u8> = (0..len).map(|i| i as u8 + 1).collect();
        let report = build_report(0xaa, 0x11, 0x22, &arguments);
        let kept = len.min(80);
        assert_eq!(report[5], len as u8);
        assert_eq!(&report[8..8 + kept], &arguments[..kept]);
        assert_eq!(
            report[88],
            report[2..88].iter().fold(0, |crc, byte| crc ^ byte)
        );
        assert_eq!(report[89], 0);
    }
}

#[test]
fn checksum_cancels_out() {
    for report in [
        build_dpi_report(v3_pro(), 35_000).unwrap(),
        build_poll_report(v3_pro(), 125).unwrap(),
        build_get_dpi_report(v2()),
        build_get_poll_report(v2()),
    ] {
        assert_eq!(report[2..89].iter().fold(0, |crc, byte| crc ^ byte), 0);
        assert_eq!(report[0], 0);
        assert_eq!(report[89], 0);
    }
}

#[test]
fn unknown_codes_are_reported() {
    for code in 0..=u8::MAX {
        let mut response = [0xffu8; REPORT_PAYLOAD_LEN];
        response[8] = code;
        let expected = match code {
            0x01 => Ok(1000),
            0x02 => Ok(500),
            0x08 => Ok(125),
            _ => Err(Error::UnknownRateCode { code }),
        };
        assert_eq!(decode_poll_rate(v2(), &response), expected);

        let mut response = [0xffu8; REPORT_PAYLOAD_LEN];
        response[9] = code;
        let expected = match code {
            0x01 => Ok(8000),
            0x02 => Ok(4000),
            0x04 => Ok(2000),
            0x08 => Ok(1000),
            0x10 => Ok(500),
            0x20 => Ok(250),
            0x40 => Ok(125),
            _ => Err(Error::UnknownRateCode { code }),
        };
        assert_eq!(decode_poll_rate(v3_pro(), &response), expected);
    }
}

#[test]
fn written_settings_read_back() {
    for profile in [v2(), v3_pro()] {
        for rate in [125, 500, 1000] {
            let report = build_poll_report(profile, rate).unwrap();
            assert_eq!(decode_poll_rate(profile, &report), Ok(rate));
        }
        for dpi in [100, 255, 256, 1600, 19_999, 20_000] {
            let report = build_dpi_report(profile, dpi).unwrap();
            assert_eq!(decode_dpi(&report), (dpi, dpi));
        }
    }
}
