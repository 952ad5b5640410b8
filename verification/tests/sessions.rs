use razer_poll::devices::{
    detected_pids, device_line, device_lines, matching_device, opening_line, show_product,
    target_pids, HidInterface,
};
use razer_poll::error::{Error, RAZER_VID};
use razer_poll::profile::device_profile;
use razer_poll::report::{
    build_dpi_report, build_get_dpi_report, build_get_poll_report, build_poll_report,
    REPORT_PAYLOAD_LEN,
};
use razer_poll::session::{
    plan, plan_target, status_line, Plan, Request, Step, Target, DEFAULT_INTERFACE,
};

fn interface(vendor_id: u16, product_id: u16, interface_number: i32) -> HidInterface {
    HidInterface {
        vendor_id,
        product_id,
        interface_number,
        usage_page: 0x0001,
        usage: 0x0002,
        product: Some("Razer \"DeathAdder\"\n".to_string()),
        path: "/dev/hidraw3".to_string(),
    }
}

fn desk() -> Vec<HidInterface> {
    vec![
        interface(0x046d, 0x0084, 0),
        interface(RAZER_VID, 0x0084, 1),
        interface(RAZER_VID, 0x00c3, 0),
        interface(RAZER_VID, 0x057d, 0),
        interface(RAZER_VID, 0x0084, 0),
        interface(RAZER_VID, 0x0084, 0),
    ]
}

fn nothing() -> Request {
    Request {
        rate: None,
        dpi: None,
        list: false,
        status: false,
        pid: None,
        interface: DEFAULT_INTERFACE,
    }
}

fn targets_of(request: Request, devices: &[HidInterface]) -> Vec<Target> {
    match plan(request, devices) {
        Ok(Plan::Operate { targets }) => targets,
        other => panic!("no targets: {other:?}"),
    }
}

#[test]
fn detected_ids_follow_the_list() {
    assert_eq!(detected_pids(&desk(), 0), vec![0x00c3, 0x057d, 0x0084, 0x0084]);
    assert_eq!(detected_pids(&desk(), 1), vec![0x0084]);
    assert_eq!(detected_pids(&desk(), 2), Vec::<u16>::new());
    assert_eq!(detected_pids(&[], 0), Vec::<u16>::new());
}

#[test]
fn targets_come_in_the_order_of_detection() {
    assert_eq!(target_pids(None, &[0x00c3, 0x0084, 0x00c3]), vec![0x00c3, 0x0084]);
    assert_eq!(target_pids(None, &[0x00c1]), Vec::<u16>::new());
    assert_eq!(target_pids(None, &[]), Vec::<u16>::new());
    assert_eq!(target_pids(Some(0x1234), &[]), vec![0x1234]);
}

#[test]
fn first_matching_interface_is_found() {
    assert_eq!(matching_device(&desk(), 0x0084, 0), Ok(4));
    assert_eq!(matching_device(&desk(), 0x0084, 1), Ok(1));
    assert_eq!(matching_device(&desk(), 0x00c3, 0), Ok(2));
    assert_eq!(
        matching_device(&desk(), 0x00c3, 1),
        Err(Error::InterfaceNotFound {
            pid: 0x00c3,
            interface: 1
        })
    );
}

#[test]
fn products_are_shown_as_they_are_debugged() {
    for name in ["", "Razer", "a \"b\" \\ c", "tab\tline\n", "\u{e9}\u{200b}\0"] {
        let product = Some(name.to_string());
        assert_eq!(show_product(&product), format!("{product:?}"));
    }
    assert_eq!(show_product(&Some("Razer".to_string())), "Some(\"Razer\")");
    assert_eq!(show_product(&None), "None");
}

#[test]
fn listing_has_the_razer_interfaces() {
    let lines = device_lines(&desk());
    assert_eq!(lines.len(), 5);
    assert_eq!(
        lines[0],
        "1532:0084 interface=1 usage_page=0x0001 usage=0x0002 \
         product=Some(\"Razer \\\"DeathAdder\\\"\\n\") path=/dev/hidraw3"
    );
    assert_eq!(
        lines[1],
        "1532:00c3 interface=0 usage_page=0x0001 usage=0x0002 \
         product=Some(\"Razer \\\"DeathAdder\\\"\\n\") path=/dev/hidraw3"
    );
    assert_eq!(device_lines(&[interface(0x046d, 0x0084, 0)]).len(), 0);
}

#[test]
fn one_line_of_the_listing() {
    let mut info = interface(RAZER_VID, 0x00c3, -1);
    info.usage_page = 0xff00;
    info.usage = 0xabcd;
    assert_eq!(
        device_line(&info, "None"),
        "1532:00c3 interface=-1 usage_page=0xff00 usage=0xabcd product=None path=/dev/hidraw3"
    );
}

#[test]
fn opening_is_announced() {
    assert_eq!(
        opening_line(&interface(RAZER_VID, 0x0084, 0)),
        "Opening 1532:0084, interface 0, path /dev/hidraw3"
    );
}

#[test]
fn listing_goes_before_anything_else() {
    let request = Request {
        list: true,
        rate: Some(1),
        ..nothing()
    };
    match plan(request, &desk()) {
        Ok(Plan::List { lines }) => assert_eq!(lines, device_lines(&desk())),
        other => panic!("no listing: {other:?}"),
    }
}

#[test]
fn something_has_to_be_requested() {
    assert_eq!(plan(nothing(), &desk()), Err(Error::NothingRequested));
    assert_eq!(plan(nothing(), &[]), Err(Error::NothingRequested));
}

#[test]
fn a_supported_mouse_has_to_be_attached() {
    let request = Request {
        status: true,
        ..nothing()
    };
    assert_eq!(plan(request, &[]), Err(Error::NoSupportedMouse));
    assert_eq!(
        plan(
            Request {
                interface: 2,
                ..request
            },
            &desk()
        ),
        Err(Error::NoSupportedMouse)
    );
}

#[test]
fn a_requested_product_has_to_be_supported() {
    let request = Request {
        status: true,
        pid: Some(0x057d),
        ..nothing()
    };
    assert_eq!(
        plan(request, &desk()),
        Err(Error::UnsupportedProduct { pid: 0x057d })
    );
}

#[test]
fn every_attached_mouse_is_operated_on() {
    let request = Request {
        rate: Some(1000),
        dpi: Some(1600),
        status: true,
        ..nothing()
    };
    let targets = targets_of(request, &desk());
    let pids: Vec<u16> = targets.iter().map(|target| target.pid).collect();
    assert_eq!(pids, vec![0x00c3, 0x0084]);
    for target in &targets {
        let profile = device_profile(target.pid).unwrap();
        assert_eq!(target.profile, profile);
        assert_eq!(
            target.steps,
            vec![
                Step::Write {
                    report: build_poll_report(profile, 1000).unwrap(),
                    notice: format!("{}: polling rate set to 1000 Hz", profile.name),
                },
                Step::Write {
                    report: build_dpi_report(profile, 1600).unwrap(),
                    notice: format!("{}: DPI set to 1600", profile.name),
                },
                Step::ReadStatus {
                    poll_request: build_get_poll_report(profile),
                    dpi_request: build_get_dpi_report(profile),
                },
            ]
        );
        assert!(matching_device(&desk(), target.pid, request.interface).is_ok());
    }
}

#[test]
fn a_requested_product_is_operated_on_alone() {
    let request = Request {
        dpi: Some(1600),
        pid: Some(0x0084),
        ..nothing()
    };
    for devices in [desk(), Vec::new()] {
        let targets = targets_of(request, &devices);
        assert_eq!(targets.len(), 1);
        assert_eq!(targets[0].pid, 0x0084);
        assert_eq!(targets[0].steps.len(), 1);
    }
}

#[test]
fn one_refusal_stops_every_change() {
    let request = Request {
        rate: Some(8000),
        ..nothing()
    };
    assert_eq!(
        plan(request, &desk()),
        Err(Error::UnsupportedRate {
            rate: 8000,
            name: "DeathAdder V2"
        })
    );
    let alone = Request {
        pid: Some(0x00c3),
        ..request
    };
    assert_eq!(targets_of(alone, &desk()).len(), 1);
}

#[test]
fn both_models_share_the_smaller_limits() {
    for dpi in [100, 20_000] {
        let request = Request {
            dpi: Some(dpi),
            ..nothing()
        };
        assert_eq!(targets_of(request, &desk()).len(), 2);
    }
    let mut turned = desk();
    turned.reverse();
    for devices in [desk(), turned] {
        assert_eq!(
            plan(
                Request {
                    dpi: Some(20_001),
                    ..nothing()
                },
                &devices
            ),
            Err(Error::UnsupportedDpi {
                dpi: 20_001,
                name: "DeathAdder V2",
                max_dpi: 20_000
            })
        );
        for rate in 0..=u16::MAX {
            let request = Request {
                rate: Some(rate),
                ..nothing()
            };
            assert_eq!(plan(request, &devices).is_ok(), [125, 500, 1000].contains(&rate));
        }
    }
}

#[test]
fn rate_is_refused_before_dpi() {
    let request = Request {
        rate: Some(1),
        dpi: Some(1),
        ..nothing()
    };
    assert_eq!(
        plan_target(request, 0x00c3),
        Err(Error::UnsupportedHighRate { rate: 1 })
    );
    let request = Request {
        rate: Some(8000),
        ..request
    };
    assert_eq!(
        plan_target(request, 0x00c3),
        Err(Error::UnsupportedDpi {
            dpi: 1,
            name: "DeathAdder V3 Pro wireless",
            max_dpi: 35_000
        })
    );
}

#[test]
fn status_is_told_in_one_line() {
    let profile = device_profile(0x00c3).unwrap();
    let mut poll_response = [0u8; REPORT_PAYLOAD_LEN];
    poll_response[9] = 0x08;
    let mut dpi_response = [0u8; REPORT_PAYLOAD_LEN];
    dpi_response[9..13].copy_from_slice(&[0x06, 0x40, 0x03, 0x20]);
    assert_eq!(
        status_line(profile, &poll_response, &dpi_response),
        Ok("DeathAdder V3 Pro wireless: DPI 1600x800, polling rate 1000 Hz".to_string())
    );
    poll_response[9] = 0x03;
    assert_eq!(
        status_line(profile, &poll_response, &dpi_response),
        Err(Error::UnknownRateCode { code: 0x03 })
    );
}

#[test]
fn interface_zero_is_the_default() {
    assert_eq!(DEFAULT_INTERFACE, 0);
}
