//! What a run of the tool does: its request is checked against every target
//! before any of them is changed, and becomes a list of steps for each.
use crate::devices::{detected_pids, device_lines, target_pids, HidInterface};
use crate::error::Error;
use crate::profile::{device_profile, DeviceProfile};
use crate::report::{
    build_dpi_report, build_get_dpi_report, build_get_poll_report, build_poll_report, decode_dpi,
    decode_poll_rate, REPORT_PAYLOAD_LEN,
};
use crate::text::push_decimal;
use vstd::prelude::*;

verus! {

/// The interface that the Razer protocol uses.
pub const DEFAULT_INTERFACE: i32 = 0;

/// What is asked of the tool.
#[derive(Debug, Clone, Copy, PartialEq, Eq)]
pub struct Request {
    /// The polling rate to set, in Hz.
    pub rate: Option<u16>,
    /// The DPI to set, for X and Y.
    pub dpi: Option<u16>,
    /// Whether to list the interfaces and do nothing else.
    pub list: bool,
    /// Whether to read the current settings.
    pub status: bool,
    /// The one product ID to operate on.
    pub pid: Option<u16>,
    /// The number of the interface to use.
    pub interface: i32,
}

/// One thing to do with an open mouse.
#[derive(Debug, PartialEq, Eq)]
pub enum Step {
    /// Send a report, then print a line.
    Write { report: [u8; REPORT_PAYLOAD_LEN], notice: String },
    /// Send two reports, then print what their replies say.
    ReadStatus { poll_request: [u8; REPORT_PAYLOAD_LEN], dpi_request: [u8; REPORT_PAYLOAD_LEN] },
}

/// A step by the bytes and characters that it holds.
#[verifier::ext_equal]
pub enum StepView {
    Write { report: Seq<u8>, notice: Seq<char> },
    ReadStatus { poll_request: Seq<u8>, dpi_request: Seq<u8> },
}

impl View for Step {
    type V = StepView;

    open spec fn view(&self) -> StepView {
        match *self {
            Step::Write { report, notice } => StepView::Write { report: report@, notice: notice@ },
            Step::ReadStatus { poll_request, dpi_request } => StepView::ReadStatus {
                poll_request: poll_request@,
                dpi_request: dpi_request@,
            },
        }
    }
}

/// A mouse to operate on, and what to do with it.
#[derive(Debug, PartialEq, Eq)]
pub struct Target {
    /// The product ID.
    pub pid: u16,
    /// The profile of the product.
    pub profile: DeviceProfile,
    /// What to do, in this order.
    pub steps: Vec<Step>,
}

/// What a run does.
#[derive(Debug, PartialEq, Eq)]
pub enum Plan {
    /// Print these lines.
    List { lines: Vec<String> },
    /// Operate on these mice, in this order.
    Operate { targets: Vec<Target> },
}

/// The line that tells that the polling rate is set.
pub open spec fn rate_notice(profile: DeviceProfile, rate: u16) -> Seq<char> {
    profile.name@ + ": polling rate set to "@ + crate::text::decimal(rate as int) + " Hz"@
}

/// The line that tells that the DPI is set.
pub open spec fn dpi_notice(profile: DeviceProfile, dpi: u16) -> Seq<char> {
    profile.name@ + ": DPI set to "@ + crate::text::decimal(dpi as int)
}

/// The steps for a mouse that accepts the request: the rate first, then the
/// DPI, and the reading of the status last.
pub open spec fn steps_for(request: Request, profile: DeviceProfile) -> Seq<StepView> {
    let rate_steps = match request.rate {
        Some(rate) => seq![
            StepView::Write {
                report: crate::report::poll_report(
                    profile,
                    crate::profile::code_of_rate(profile, rate)->0,
                ),
                notice: rate_notice(profile, rate),
            },
        ],
        None => Seq::empty(),
    };
    let dpi_steps = match request.dpi {
        Some(dpi) => seq![
            StepView::Write {
                report: crate::report::dpi_report(profile, dpi),
                notice: dpi_notice(profile, dpi),
            },
        ],
        None => Seq::empty(),
    };
    let status_steps = if request.status {
        seq![
            StepView::ReadStatus {
                poll_request: crate::report::get_poll_report(profile),
                dpi_request: crate::report::get_dpi_report(profile),
            },
        ]
    } else {
        Seq::empty()
    };
    rate_steps + dpi_steps + status_steps
}

/// Why a product does not accept the request: it is not supported, or its
/// profile has no such rate, or no such DPI, in this order.
pub open spec fn refusal(request: Request, pid: u16) -> Option<Error> {
    match crate::profile::profile_of(pid) {
        None => Some(Error::UnsupportedProduct { pid }),
        Some(profile) => if request.rate is Some && crate::profile::code_of_rate(
            profile,
            request.rate->0,
        ) is None {
            Some(crate::profile::rate_error(profile, request.rate->0))
        } else if request.dpi is Some && !crate::profile::accepts_dpi(profile, request.dpi->0) {
            Some(crate::profile::dpi_error(profile, request.dpi->0))
        } else {
            None
        },
    }
}

/// The refusal of the first of the products that refuses the request.
pub open spec fn first_refusal(request: Request, pids: Seq<u16>) -> Option<Error>
    decreases pids.len(),
{
    if pids.len() == 0 {
        None
    } else {
        match first_refusal(request, pids.drop_last()) {
            Some(error) => Some(error),
            None => refusal(request, pids.last()),
        }
    }
}

/// The products that the request is for.
pub open spec fn requested_pids(request: Request, devices: Seq<HidInterface>) -> Seq<u16> {
    crate::devices::targets(request.pid, crate::devices::detected(devices, request.interface))
}

/// Why a request that is not for the listing cannot be carried out.
pub open spec fn request_error(request: Request, devices: Seq<HidInterface>) -> Option<Error> {
    if request.rate is None && request.dpi is None && !request.status {
        Some(Error::NothingRequested)
    } else if requested_pids(request, devices).len() == 0 {
        Some(Error::NoSupportedMouse)
    } else {
        first_refusal(request, requested_pids(request, devices))
    }
}

/// Whether the target is the product, with what the request asks of it.
pub open spec fn is_target(target: Target, request: Request, pid: u16) -> bool {
    &&& target.pid == pid
    &&& crate::profile::profile_of(pid) == Some(target.profile)
    &&& target.steps@.map_values(|step: Step| step@) == steps_for(request, target.profile)
}

fn rate_line(profile: DeviceProfile, rate: u16) -> (line: String)
    ensures
        line@ == rate_notice(profile, rate),
{
    let mut out = String::from_str(profile.name);
    out.append(": polling rate set to ");
    push_decimal(&mut out, rate as i128);
    out.append(" Hz");
    out
}

fn dpi_line(profile: DeviceProfile, dpi: u16) -> (line: String)
    ensures
        line@ == dpi_notice(profile, dpi),
{
    let mut out = String::from_str(profile.name);
    out.append(": DPI set to ");
    push_decimal(&mut out, dpi as i128);
    out
}

/// What the request asks of one product, or why the product refuses it.
pub fn plan_target(request: Request, pid: u16) -> (planned: Result<Target, Error>)
    ensures
        match refusal(request, pid) {
            Some(error) => planned matches Err(given) && given == error,
            None => planned matches Ok(target) && is_target(target, request, pid),
        },
{
    let profile = match device_profile(pid) {
        Ok(profile) => profile,
        Err(error) => {
            return Err(error);
        },
    };
    let mut steps: Vec<Step> = Vec::new();
    let ghost empty = steps@.map_values(|step: Step| step@);
    assert(empty =~= Seq::empty());
    if let Some(rate) = request.rate {
        match build_poll_report(profile, rate) {
            Ok(report) => steps.push(Step::Write { report, notice: rate_line(profile, rate) }),
            Err(error) => {
                return Err(error);
            },
        }
    }
    if let Some(dpi) = request.dpi {
        match build_dpi_report(profile, dpi) {
            Ok(report) => steps.push(Step::Write { report, notice: dpi_line(profile, dpi) }),
            Err(error) => {
                return Err(error);
            },
        }
    }
    if request.status {
        steps.push(
            Step::ReadStatus {
                poll_request: build_get_poll_report(profile),
                dpi_request: build_get_dpi_report(profile),
            },
        );
    }
    assert(steps@.map_values(|step: Step| step@) =~= steps_for(request, profile));
    Ok(Target { pid, profile, steps })
}

/// A refusal among the first products is the refusal of them all.
proof fn lemma_refusal_stays(request: Request, pids: Seq<u16>, n: int)
    requires
        0 <= n <= pids.len(),
        first_refusal(request, pids.take(n)) is Some,
    ensures
        first_refusal(request, pids) == first_refusal(request, pids.take(n)),
    decreases pids.len() - n,
{
    if n < pids.len() {
        assert(pids.take(n + 1).drop_last() =~= pids.take(n));
        lemma_refusal_stays(request, pids, n + 1);
    } else {
        assert(pids.take(n) =~= pids);
    }
}

/// Plans a run, given the attached interfaces. Every target accepts the whole
/// request, or there is no plan.
pub fn plan(request: Request, devices: &[HidInterface]) -> (planned: Result<Plan, Error>)
    ensures
        if request.list {
            planned matches Ok(Plan::List { lines }) && lines@.map_values(|line: String| line@)
                == crate::devices::listing(devices@)
        } else {
            match request_error(request, devices@) {
                Some(error) => planned matches Err(given) && given == error,
                None => {
                    &&& planned matches Ok(Plan::Operate { targets })
                    &&& targets@.len() == requested_pids(request, devices@).len()
                    &&& forall|i: int|
                        0 <= i < targets@.len() ==> is_target(
                            #[trigger] targets@[i],
                            request,
                            requested_pids(request, devices@)[i],
                        )
                },
            }
        },
{
    if request.list {
        return Ok(Plan::List { lines: device_lines(devices) });
    }
    if request.rate.is_none() && request.dpi.is_none() && !request.status {
        return Err(Error::NothingRequested);
    }
    let detected = detected_pids(devices, request.interface);
    let pids = target_pids(request.pid, detected.as_slice());
    if pids.len() == 0 {
        return Err(Error::NoSupportedMouse);
    }
    let mut targets: Vec<Target> = Vec::new();
    let mut i: usize = 0;
    while i < pids.len()
        invariant
            i <= pids@.len(),
            targets@.len() == i,
            first_refusal(request, pids@.take(i as int)) is None,
            forall|j: int| 0 <= j < i ==> is_target(#[trigger] targets@[j], request, pids@[j]),
            pids@ == requested_pids(request, devices@),
            request_error(request, devices@) == first_refusal(request, pids@),
            !request.list,
        decreases pids@.len() - i,
    {
        assert(pids@.take(i + 1).drop_last() =~= pids@.take(i as int));
        match plan_target(request, pids[i]) {
            Ok(target) => targets.push(target),
            Err(error) => {
                proof {
                    lemma_refusal_stays(request, pids@, i + 1);
                }
                return Err(error);
            },
        }
        i = i + 1;
    }
    assert(pids@.take(i as int) =~= pids@);
    Ok(Plan::Operate { targets })
}

/// The line that tells the current settings of a mouse.
pub open spec fn status_text(profile: DeviceProfile, dpi: (u16, u16), rate: u16) -> Seq<char> {
    profile.name@ + ": DPI "@ + crate::text::decimal(dpi.0 as int) + "x"@ + crate::text::decimal(
        dpi.1 as int,
    ) + ", polling rate "@ + crate::text::decimal(rate as int) + " Hz"@
}

/// The line that tells the current settings of a mouse, out of its replies.
pub fn status_line(
    profile: DeviceProfile,
    poll_response: &[u8; REPORT_PAYLOAD_LEN],
    dpi_response: &[u8; REPORT_PAYLOAD_LEN],
) -> (line: Result<String, Error>)
    ensures
        ({
            let code = crate::report::replied_code(profile, poll_response@);
            match crate::report::rate_of_code(profile, code) {
                Some(rate) => line matches Ok(told) && told@ == status_text(
                    profile,
                    crate::report::replied_dpi(dpi_response@),
                    rate,
                ),
                None => line matches Err(error) && error == (Error::UnknownRateCode { code }),
            }
        }),
{
    let rate = match decode_poll_rate(profile, poll_response) {
        Ok(rate) => rate,
        Err(error) => {
            return Err(error);
        },
    };
    let (dpi_x, dpi_y) = decode_dpi(dpi_response);
    let mut out = String::from_str(profile.name);
    out.append(": DPI ");
    push_decimal(&mut out, dpi_x as i128);
    out.append("x");
    push_decimal(&mut out, dpi_y as i128);
    out.append(", polling rate ");
    push_decimal(&mut out, rate as i128);
    out.append(" Hz");
    Ok(out)
}

/// Products as a whole accept a request exactly where each of them does.
pub proof fn one_refusal_stops_all(request: Request, pids: Seq<u16>)
    ensures
        first_refusal(request, pids) is None <==> forall|i: int|
            0 <= i < pids.len() ==> refusal(request, #[trigger] pids[i]) is None,
    decreases pids.len(),
{
    if pids.len() > 0 {
        let earlier = pids.drop_last();
        one_refusal_stops_all(request, earlier);
        if first_refusal(request, pids) is None {
            assert forall|i: int| 0 <= i < pids.len() implies refusal(
                request,
                #[trigger] pids[i],
            ) is None by {
                if i < earlier.len() {
                    assert(earlier[i] == pids[i]);
                }
            }
        }
        if forall|i: int| 0 <= i < pids.len() ==> refusal(request, #[trigger] pids[i]) is None {
            assert forall|i: int| 0 <= i < earlier.len() implies refusal(
                request,
                #[trigger] earlier[i],
            ) is None by {
                assert(pids[i] == earlier[i]);
            }
            assert(pids[pids.len() - 1] == pids.last());
        }
    }
}

/// There is a plan exactly where something is requested, there is a mouse to
/// operate on, and every such mouse accepts the request: where one of them
/// refuses it, none is changed.
pub proof fn all_accept_or_none_is_changed(request: Request, devices: Seq<HidInterface>)
    ensures
        request_error(request, devices) is None <==> {
            &&& request.rate is Some || request.dpi is Some || request.status
            &&& requested_pids(request, devices).len() > 0
            &&& forall|pid: u16| #[trigger]
                requested_pids(request, devices).contains(pid) ==> refusal(request, pid) is None
        },
{
    let pids = requested_pids(request, devices);
    one_refusal_stops_all(request, pids);
    assert((forall|i: int| 0 <= i < pids.len() ==> refusal(request, #[trigger] pids[i]) is None)
        <==> (forall|pid: u16| #[trigger] pids.contains(pid) ==> refusal(request, pid) is None))
        by {
        assert(forall|i: int| 0 <= i < pids.len() ==> pids.contains(#[trigger] pids[i]));
    }
}

/// What both models accept: of the rates 125, 500 and 1000 Hz, and of the DPI
/// those from 100 to 20000.
pub open spec fn within_shared_limits(request: Request) -> bool {
    &&& request.rate matches Some(rate) ==> rate == 125 || rate == 500 || rate == 1000
    &&& request.dpi matches Some(dpi) ==> 100 <= dpi <= 20_000
}

/// With both models to operate on, in whatever order, a request is accepted
/// exactly within their shared limits.
pub proof fn limits_of_both_models(request: Request, pids: Seq<u16>)
    requires
        forall|pid: u16| #[trigger] pids.contains(pid) <==> pid == 0x0084 || pid == 0x00c3,
    ensures
        first_refusal(request, pids) is None <==> within_shared_limits(request),
{
    one_refusal_stops_all(request, pids);
    if first_refusal(request, pids) is None {
        assert(pids.contains(0x0084) && pids.contains(0x00c3));
        let first = choose|i: int| 0 <= i < pids.len() && pids[i] == 0x0084;
        let second = choose|i: int| 0 <= i < pids.len() && pids[i] == 0x00c3;
        assert(refusal(request, pids[first]) is None);
        assert(refusal(request, pids[second]) is None);
    }
    if within_shared_limits(request) {
        assert forall|i: int| 0 <= i < pids.len() implies refusal(
            request,
            #[trigger] pids[i],
        ) is None by {
            assert(pids.contains(pids[i]));
        }
    }
}

/// With a product ID in the request, no other mouse is operated on.
pub proof fn requested_product_only(request: Request, devices: Seq<HidInterface>)
    requires
        request.pid is Some,
    ensures
        requested_pids(request, devices) == seq![request.pid->0],
{
}

/// Without a product ID in the request, every supported mouse with the
/// interface is operated on, and no other.
pub proof fn every_supported_mouse(request: Request, devices: Seq<HidInterface>, pid: u16)
    requires
        request.pid is None,
    ensures
        requested_pids(request, devices).contains(pid) <==> crate::profile::profile_of(pid) is Some
            && exists|at: int|
            0 <= at < devices.len() && crate::devices::is_match(
                #[trigger] devices[at],
                pid,
                request.interface,
            ),
        requested_pids(request, devices).no_duplicates(),
{
    let pids = crate::devices::detected(devices, request.interface);
    crate::devices::each_supported_mouse_once(pids);
    assert(requested_pids(request, devices) == crate::devices::targets(None, pids));
    if requested_pids(request, devices).contains(pid) {
        crate::devices::detected_targets_are_attached(devices, request.interface, pid);
    }
    if exists|at: int|
        0 <= at < devices.len() && crate::devices::is_match(
            #[trigger] devices[at],
            pid,
            request.interface,
        ) {
        let at = choose|at: int|
            0 <= at < devices.len() && crate::devices::is_match(
                #[trigger] devices[at],
                pid,
                request.interface,
            );
        let candidate = |info: HidInterface|
            crate::devices::is_candidate(info, request.interface);
        let kept = devices.filter(candidate);
        devices.lemma_filter_contains(candidate, at);
        assert(candidate(devices[at]));
        assert(kept.contains(devices[at]));
        let k = choose|k: int| 0 <= k < kept.len() && kept[k] == devices[at];
        assert(pids[k] == pid);
    }
}

/// With both models connected and no product ID in the request, a request for
/// anything at all is planned exactly within their shared limits.
pub proof fn limits_with_both_connected(request: Request, devices: Seq<HidInterface>)
    requires
        request.pid is None,
        request.rate is Some || request.dpi is Some || request.status,
        exists|at: int|
            0 <= at < devices.len() && crate::devices::is_match(
                #[trigger] devices[at],
                0x0084,
                request.interface,
            ),
        exists|at: int|
            0 <= at < devices.len() && crate::devices::is_match(
                #[trigger] devices[at],
                0x00c3,
                request.interface,
            ),
    ensures
        request_error(request, devices) is None <==> within_shared_limits(request),
{
    let pids = requested_pids(request, devices);
    assert forall|pid: u16| #[trigger] pids.contains(pid) <==> pid == 0x0084 || pid == 0x00c3 by {
        every_supported_mouse(request, devices, pid);
    }
    assert(pids.contains(0x0084));
    limits_of_both_models(request, pids);
}

/// Each part of a request gives one step of its own, whatever the other parts
/// are: a rate that is set comes first, a DPI that is set comes next, and the
/// reading of the status comes last. There are no other steps.
pub proof fn each_part_is_one_step(request: Request, profile: DeviceProfile)
    ensures
        ({
            let steps = steps_for(request, profile);
            let rates: int = if request.rate is Some {
                1
            } else {
                0
            };
            let dpis: int = if request.dpi is Some {
                1
            } else {
                0
            };
            let readings: int = if request.status {
                1
            } else {
                0
            };
            &&& steps.len() == rates + dpis + readings
            &&& request.rate matches Some(rate) ==> steps[0] == (StepView::Write {
                report: crate::report::poll_report(
                    profile,
                    crate::profile::code_of_rate(profile, rate)->0,
                ),
                notice: profile.name@ + ": polling rate set to "@ + crate::text::decimal(
                    rate as int,
                ) + " Hz"@,
            })
            &&& request.dpi matches Some(dpi) ==> steps[rates] == (StepView::Write {
                report: crate::report::dpi_report(profile, dpi),
                notice: profile.name@ + ": DPI set to "@ + crate::text::decimal(dpi as int),
            })
            &&& request.status ==> steps.last() == (StepView::ReadStatus {
                poll_request: crate::report::get_poll_report(profile),
                dpi_request: crate::report::get_dpi_report(profile),
            })
        }),
{
}

/// No step of a request writes but what the request asks to be written: a write
/// is of the rate or of the DPI that it names, and a request for the status
/// alone only reads.
pub proof fn only_what_is_asked_is_written(request: Request, profile: DeviceProfile, at: int)
    requires
        0 <= at < steps_for(request, profile).len(),
        request.rate matches Some(rate) ==> crate::profile::code_of_rate(profile, rate) is Some,
    ensures
        steps_for(request, profile)[at] matches StepView::Write { report, .. } ==> {
            ||| request.rate is Some && at == 0 && report[6] == 0x00 && report[7] < 0x80
            ||| request.dpi is Some && report[6] == 0x04 && report[7] == 0x05 && report[9] * 256
                + report[10] == request.dpi->0 && report[11] * 256 + report[12] == request.dpi->0
        },
        steps_for(request, profile)[at] matches StepView::ReadStatus { poll_request, dpi_request }
            ==> {
            &&& request.status
            &&& at == steps_for(request, profile).len() - 1
            &&& poll_request[6] == 0x00 && poll_request[7] >= 0x80
            &&& dpi_request[6] == 0x04 && dpi_request[7] == 0x85
        },
{
    each_part_is_one_step(request, profile);
    crate::report::get_rate_command(profile);
    crate::report::get_dpi_command(profile);
    if let Some(rate) = request.rate {
        crate::report::set_rate_command(profile, rate);
    }
    if let Some(dpi) = request.dpi {
        crate::report::set_dpi_command(profile, dpi);
    }
}

/// A product refuses a request for the first of these that holds: the product
/// is not supported, the rate is none of its rates, the DPI is out of its
/// range. Where none holds it accepts.
pub proof fn reasons_to_refuse(request: Request, pid: u16)
    ensures
        ({
            let profile = crate::profile::profile_of(pid)->0;
            let bad_rate = request.rate is Some && crate::profile::code_of_rate(
                profile,
                request.rate->0,
            ) is None;
            let bad_dpi = request.dpi is Some && (request.dpi->0 < 100 || request.dpi->0
                > profile.max_dpi);
            let supported = pid == 0x0084 || pid == 0x00c3;
            &&& !supported ==> refusal(request, pid) == Some(Error::UnsupportedProduct { pid })
            &&& supported && bad_rate ==> refusal(request, pid) == Some(
                crate::profile::rate_error(profile, request.rate->0),
            )
            &&& supported && !bad_rate && bad_dpi ==> refusal(request, pid) == Some(
                crate::profile::dpi_error(profile, request.dpi->0),
            )
            &&& supported && !bad_rate && !bad_dpi ==> refusal(request, pid) is None
        }),
{
}

/// Where a request is refused, the refusal is that of the first product that
/// refuses it.
pub proof fn first_refusal_is_told(request: Request, pids: Seq<u16>, at: int)
    requires
        0 <= at < pids.len(),
        refusal(request, pids[at]) is Some,
        forall|i: int| 0 <= i < at ==> refusal(request, #[trigger] pids[i]) is None,
    ensures
        first_refusal(request, pids) == refusal(request, pids[at]),
{
    let earlier = pids.take(at);
    one_refusal_stops_all(request, earlier);
    assert forall|i: int| 0 <= i < earlier.len() implies refusal(
        request,
        #[trigger] earlier[i],
    ) is None by {
        assert(earlier[i] == pids[i]);
    }
    assert(pids.take(at + 1).drop_last() =~= earlier);
    lemma_refusal_stays(request, pids, at + 1);
}

/// A request is turned down for the first of these that holds: it asks for
/// nothing, there is no mouse to operate on, a product refuses it.
pub proof fn reasons_to_turn_down(request: Request, devices: Seq<HidInterface>)
    ensures
        ({
            let nothing = request.rate is None && request.dpi is None && !request.status;
            let pids = requested_pids(request, devices);
            &&& nothing ==> request_error(request, devices) == Some(Error::NothingRequested)
            &&& !nothing && pids.len() == 0 ==> request_error(request, devices) == Some(
                Error::NoSupportedMouse,
            )
            &&& !nothing && pids.len() > 0 ==> request_error(request, devices) == first_refusal(
                request,
                pids,
            )
        }),
{
}

/// The products that a request is for are the one that it names, or else the
/// supported ones that are detected on its interface.
pub proof fn products_of_a_request(request: Request, devices: Seq<HidInterface>)
    ensures
        requested_pids(request, devices) == crate::devices::targets(
            request.pid,
            crate::devices::detected(devices, request.interface),
        ),
{
}

/// A target is its product, with the profile of that product and every step of
/// the request for it.
pub proof fn targets_are_whole(target: Target, request: Request, pid: u16)
    ensures
        is_target(target, request, pid) <==> {
            &&& target.pid == pid
            &&& crate::profile::profile_of(pid) == Some(target.profile)
            &&& target.steps@.len() == steps_for(request, target.profile).len()
            &&& forall|i: int|
                0 <= i < target.steps@.len() ==> (#[trigger] target.steps@[i])@ == steps_for(
                    request,
                    target.profile,
                )[i]
        },
{
    let views = target.steps@.map_values(|step: Step| step@);
    assert(forall|i: int| 0 <= i < views.len() ==> views[i] == (#[trigger] target.steps@[i])@);
    if views.len() == steps_for(request, target.profile).len() && (forall|i: int|
        0 <= i < views.len() ==> (#[trigger] target.steps@[i])@ == steps_for(
            request,
            target.profile,
        )[i]) {
        assert(views =~= steps_for(request, target.profile));
    }
}

/// The view of a step holds the bytes and characters that the step holds.
pub proof fn steps_are_viewed_whole(
    first: [u8; REPORT_PAYLOAD_LEN],
    second: [u8; REPORT_PAYLOAD_LEN],
    notice: String,
)
    ensures
        (Step::Write { report: first, notice })@ == (StepView::Write {
            report: first@,
            notice: notice@,
        }),
        (Step::ReadStatus { poll_request: first, dpi_request: second })@ == (StepView::ReadStatus {
            poll_request: first@,
            dpi_request: second@,
        }),
{
}

/// The status of a mouse is its name, its X and Y DPI and its polling rate.
pub proof fn status_tells_the_settings(profile: DeviceProfile, x: u16, y: u16, rate: u16)
    ensures
        status_text(profile, (x, y), rate) == profile.name@ + ": DPI "@ + crate::text::decimal(
            x as int,
        ) + "x"@ + crate::text::decimal(y as int) + ", polling rate "@ + crate::text::decimal(
            rate as int,
        ) + " Hz"@,
{
}

} // verus!
