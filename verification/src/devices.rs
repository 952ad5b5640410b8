//! The attached HID interfaces: which of them belong to supported mice, and how
//! they are listed.
use crate::error::{Error, RAZER_VID};
use crate::profile::device_profile;
use crate::text::{push_decimal, push_hex4};
use vstd::prelude::*;

verus! {

/// What the HID layer tells of an attached interface.
#[derive(Debug, PartialEq, Eq)]
pub struct HidInterface {
    /// The USB vendor ID.
    pub vendor_id: u16,
    /// The USB product ID.
    pub product_id: u16,
    /// The number of the interface within its device.
    pub interface_number: i32,
    /// The HID usage page.
    pub usage_page: u16,
    /// The HID usage.
    pub usage: u16,
    /// The name of the product, where the device has one.
    pub product: Option<String>,
    /// The path by which the interface is opened.
    pub path: String,
}

/// Whether the interface is the numbered one of a Razer device.
pub open spec fn is_candidate(info: HidInterface, interface: i32) -> bool {
    info.vendor_id == RAZER_VID && info.interface_number == interface
}

/// Whether the interface is the numbered one of that product.
pub open spec fn is_match(info: HidInterface, pid: u16, interface: i32) -> bool {
    is_candidate(info, interface) && info.product_id == pid
}

/// The product IDs of the Razer devices with such an interface, in the order of
/// the list, one for each interface.
pub open spec fn detected(devices: Seq<HidInterface>, interface: i32) -> Seq<u16> {
    devices.filter(|info: HidInterface| is_candidate(info, interface)).map_values(
        |info: HidInterface| info.product_id,
    )
}

/// The supported ones among product IDs, each once, in the order in which they
/// first appear.
pub open spec fn supported_once(pids: Seq<u16>) -> Seq<u16>
    decreases pids.len(),
{
    if pids.len() == 0 {
        Seq::empty()
    } else {
        let before = supported_once(pids.drop_last());
        if crate::profile::profile_of(pids.last()) is Some && !before.contains(pids.last()) {
            before.push(pids.last())
        } else {
            before
        }
    }
}

/// The product IDs to operate on: the requested one, or else every supported
/// one that was detected.
pub open spec fn targets(requested: Option<u16>, pids: Seq<u16>) -> Seq<u16> {
    match requested {
        Some(pid) => seq![pid],
        None => supported_once(pids),
    }
}

/// The product IDs of the Razer devices with such an interface.
pub fn detected_pids(devices: &[HidInterface], interface: i32) -> (pids: Vec<u16>)
    ensures
        pids@ == detected(devices@, interface),
{
    let mut pids: Vec<u16> = Vec::new();
    let mut i: usize = 0;
    proof {
        reveal(Seq::filter);
        assert(detected(devices@.take(0), interface) =~= Seq::empty());
    }
    while i < devices.len()
        invariant
            i <= devices@.len(),
            pids@ == detected(devices@.take(i as int), interface),
        decreases devices@.len() - i,
    {
        let info = &devices[i];
        proof {
            reveal(Seq::filter);
            assert(devices@.take(i + 1).drop_last() =~= devices@.take(i as int));
        }
        if info.vendor_id == RAZER_VID && info.interface_number == interface {
            pids.push(info.product_id);
        }
        i = i + 1;
        assert(pids@ =~= detected(devices@.take(i as int), interface));
    }
    assert(devices@.take(i as int) =~= devices@);
    pids
}

fn contains_pid(pids: &Vec<u16>, pid: u16) -> (found: bool)
    ensures
        found == pids@.contains(pid),
{
    let mut i: usize = 0;
    while i < pids.len()
        invariant
            i <= pids@.len(),
            forall|j: int| 0 <= j < i ==> pids@[j] != pid,
        decreases pids@.len() - i,
    {
        if pids[i] == pid {
            return true;
        }
        i = i + 1;
    }
    false
}

/// The product IDs to operate on: the requested one, or else every supported
/// one that was detected, each once.
pub fn target_pids(requested: Option<u16>, detected: &[u16]) -> (pids: Vec<u16>)
    ensures
        pids@ == targets(requested, detected@),
{
    let mut pids: Vec<u16> = Vec::new();
    if let Some(pid) = requested {
        pids.push(pid);
        assert(pids@ =~= seq![pid]);
        return pids;
    }
    let mut i: usize = 0;
    assert(supported_once(detected@.take(0)) =~= Seq::empty());
    while i < detected.len()
        invariant
            i <= detected@.len(),
            pids@ == supported_once(detected@.take(i as int)),
        decreases detected@.len() - i,
    {
        let pid = detected[i];
        assert(detected@.take(i + 1).drop_last() =~= detected@.take(i as int));
        if device_profile(pid).is_ok() && !contains_pid(&pids, pid) {
            pids.push(pid);
        }
        i = i + 1;
    }
    assert(detected@.take(i as int) =~= detected@);
    pids
}

/// The position of the first interface with that product ID and number.
pub fn matching_device(devices: &[HidInterface], pid: u16, interface: i32) -> (found: Result<
    usize,
    Error,
>)
    ensures
        match found {
            Ok(at) => {
                &&& at < devices@.len()
                &&& is_match(devices@[at as int], pid, interface)
                &&& forall|j: int| 0 <= j < at ==> !is_match(devices@[j], pid, interface)
            },
            Err(error) => {
                &&& error == (Error::InterfaceNotFound { pid, interface })
                &&& forall|j: int|
                    0 <= j < devices@.len() ==> !is_match(devices@[j], pid, interface)
            },
        },
{
    let mut i: usize = 0;
    while i < devices.len()
        invariant
            i <= devices@.len(),
            forall|j: int| 0 <= j < i ==> !is_match(devices@[j], pid, interface),
        decreases devices@.len() - i,
    {
        let info = &devices[i];
        if info.vendor_id == RAZER_VID && info.product_id == pid && info.interface_number
            == interface {
            return Ok(i);
        }
        i = i + 1;
    }
    Err(Error::InterfaceNotFound { pid, interface })
}

/// How the product's name is shown: quoted, with what cannot be printed
/// escaped.
pub uninterp spec fn quoted(name: Seq<char>) -> Seq<char>;

/// Calls the `Debug` formatting of `str` in the standard library. What it
/// returns is a function of the characters of the name; which characters it
/// escapes, and how, is not stated.
#[verifier::external_body]
fn quote(name: &str) -> (shown: String)
    ensures
        shown@ == quoted(name@),
{
    format!("{:?}", name)
}

/// How a product that may have no name is shown.
pub open spec fn product_shown(product: Option<String>) -> Seq<char> {
    match product {
        Some(name) => "Some("@ + quoted(name@) + ")"@,
        None => "None"@,
    }
}

/// How a product that may have no name is shown.
pub fn show_product(product: &Option<String>) -> (shown: String)
    ensures
        shown@ == product_shown(*product),
{
    match product {
        Some(name) => {
            let mut out = String::from_str("Some(");
            let name_shown = quote(name.as_str());
            out.append(name_shown.as_str());
            out.append(")");
            out
        },
        None => String::from_str("None"),
    }
}

/// The line for an interface in the listing.
pub open spec fn line_text(info: HidInterface, product: Seq<char>) -> Seq<char> {
    crate::text::hex4(info.vendor_id) + ":"@ + crate::text::hex4(info.product_id) + " interface="@
        + crate::text::decimal(info.interface_number as int) + " usage_page=0x"@
        + crate::text::hex4(info.usage_page) + " usage=0x"@ + crate::text::hex4(info.usage)
        + " product="@ + product + " path="@ + info.path@
}

/// The line for an interface in the listing, given how its product is shown.
pub fn device_line(info: &HidInterface, product: &str) -> (line: String)
    ensures
        line@ == line_text(*info, product@),
{
    let mut out = String::new();
    push_hex4(&mut out, info.vendor_id);
    out.append(":");
    push_hex4(&mut out, info.product_id);
    out.append(" interface=");
    push_decimal(&mut out, info.interface_number as i128);
    out.append(" usage_page=0x");
    push_hex4(&mut out, info.usage_page);
    out.append(" usage=0x");
    push_hex4(&mut out, info.usage);
    out.append(" product=");
    out.append(product);
    out.append(" path=");
    out.append(info.path.as_str());
    assert(out@ =~= line_text(*info, product@));
    out
}

/// The lines of the listing: one for each Razer interface, in the order of the
/// list.
pub open spec fn listing(devices: Seq<HidInterface>) -> Seq<Seq<char>> {
    devices.filter(|info: HidInterface| info.vendor_id == RAZER_VID).map_values(
        |info: HidInterface| line_text(info, product_shown(info.product)),
    )
}

/// The lines of the listing: one for each Razer interface.
pub fn device_lines(devices: &[HidInterface]) -> (lines: Vec<String>)
    ensures
        lines@.map_values(|line: String| line@) == listing(devices@),
{
    let mut lines: Vec<String> = Vec::new();
    let mut i: usize = 0;
    proof {
        reveal(Seq::filter);
        assert(listing(devices@.take(0)) =~= Seq::empty());
        assert(lines@.map_values(|line: String| line@) =~= Seq::empty());
    }
    while i < devices.len()
        invariant
            i <= devices@.len(),
            lines@.map_values(|line: String| line@) == listing(devices@.take(i as int)),
        decreases devices@.len() - i,
    {
        let info = &devices[i];
        proof {
            reveal(Seq::filter);
            assert(devices@.take(i + 1).drop_last() =~= devices@.take(i as int));
        }
        if info.vendor_id == RAZER_VID {
            let product = show_product(&info.product);
            let line = device_line(info, product.as_str());
            let ghost before = lines@.map_values(|line: String| line@);
            lines.push(line);
            assert(lines@.map_values(|line: String| line@) =~= before.push(line@));
        }
        i = i + 1;
        assert(lines@.map_values(|line: String| line@) =~= listing(devices@.take(i as int)));
    }
    assert(devices@.take(i as int) =~= devices@);
    lines
}

/// The line that announces that an interface is being opened.
pub open spec fn opening_text(info: HidInterface) -> Seq<char> {
    "Opening "@ + crate::text::hex4(info.vendor_id) + ":"@ + crate::text::hex4(info.product_id)
        + ", interface "@ + crate::text::decimal(info.interface_number as int) + ", path "@
        + info.path@
}

/// The line that announces that an interface is being opened.
pub fn opening_line(info: &HidInterface) -> (line: String)
    ensures
        line@ == opening_text(*info),
{
    let mut out = String::from_str("Opening ");
    push_hex4(&mut out, info.vendor_id);
    out.append(":");
    push_hex4(&mut out, info.product_id);
    out.append(", interface ");
    push_decimal(&mut out, info.interface_number as i128);
    out.append(", path ");
    out.append(info.path.as_str());
    out
}

/// With no product ID requested, the targets are the supported mice that were
/// detected, each once, and a mouse comes before another where it was detected
/// before it.
pub proof fn each_supported_mouse_once(pids: Seq<u16>)
    ensures
        targets(None, pids).no_duplicates(),
        forall|pid: u16| #[trigger]
            targets(None, pids).contains(pid) <==> pids.contains(pid)
                && crate::profile::profile_of(pid) is Some,
        forall|i: int, j: int, at: int|
            #![trigger targets(None, pids)[i], targets(None, pids)[j], pids[at]]
            0 <= i < j < targets(None, pids).len() && 0 <= at < pids.len() && pids[at] == targets(
                None,
                pids,
            )[j] ==> pids.take(at).contains(targets(None, pids)[i]),
    decreases pids.len(),
{
    let all = targets(None, pids);
    if pids.len() > 0 {
        let last = pids.last();
        let earlier = pids.drop_last();
        let before = targets(None, earlier);
        each_supported_mouse_once(earlier);
        assert(pids =~= earlier.push(last));
        assert forall|pid: u16| #[trigger] all.contains(pid) <==> pids.contains(pid)
            && crate::profile::profile_of(pid) is Some by {
            if pids.contains(pid) {
                let at = choose|at: int| 0 <= at < pids.len() && pids[at] == pid;
                if at < earlier.len() {
                    assert(earlier[at] == pid);
                }
                if crate::profile::profile_of(pid) is Some {
                    if earlier.contains(pid) {
                        assert(before.contains(pid));
                        let k = choose|k: int| 0 <= k < before.len() && before[k] == pid;
                        assert(all[k] == pid);
                    } else {
                        assert(all[all.len() - 1] == pid);
                    }
                }
            }
            if all.contains(pid) {
                let k = choose|k: int| 0 <= k < all.len() && all[k] == pid;
                if k < before.len() {
                    assert(before[k] == pid);
                    assert(before.contains(pid));
                    let at = choose|at: int| 0 <= at < earlier.len() && earlier[at] == pid;
                    assert(pids[at] == pid);
                } else {
                    assert(pids[pids.len() - 1] == pid);
                }
            }
        }
        assert forall|i: int, j: int, at: int|
            #![trigger all[i], all[j], pids[at]]
            0 <= i < j < all.len() && 0 <= at < pids.len() && pids[at]
                == all[j] implies pids.take(at).contains(all[i]) by {
            assert(all[i] == before[i]);
            assert(before.contains(before[i]));
            if at < earlier.len() {
                assert(earlier[at] == pids[at]);
                if j < before.len() {
                    assert(earlier.take(at) =~= pids.take(at));
                    assert(before[j] == all[j]);
                } else {
                    assert(earlier.contains(last));
                    assert(before.contains(last));
                }
            } else {
                assert(pids.take(at) =~= earlier);
            }
        }
    }
}

/// With no product ID requested, the interface of every target is attached.
pub proof fn detected_targets_are_attached(devices: Seq<HidInterface>, interface: i32, pid: u16)
    requires
        targets(None, detected(devices, interface)).contains(pid),
    ensures
        exists|at: int| 0 <= at < devices.len() && is_match(#[trigger] devices[at], pid, interface),
{
    let candidate = |info: HidInterface| is_candidate(info, interface);
    let kept = devices.filter(candidate);
    let pids = detected(devices, interface);
    each_supported_mouse_once(pids);
    let k = choose|k: int| 0 <= k < pids.len() && pids[k] == pid;
    assert(kept[k].product_id == pid);
    devices.lemma_filter_contains_rev(candidate, kept[k]);
    devices.lemma_filter_pred(candidate, k);
    assert(kept.contains(kept[k]));
    let at = choose|at: int| 0 <= at < devices.len() && devices[at] == kept[k];
    assert(is_match(devices[at], pid, interface));
}

/// An interface is the one that is looked for where it is of vendor 1532, of
/// that product and of that number; nothing else in it decides.
pub proof fn interfaces_match_by_ids(info: HidInterface, pid: u16, interface: i32)
    ensures
        is_candidate(info, interface) <==> info.vendor_id == 0x1532 && info.interface_number
            == interface,
        is_match(info, pid, interface) <==> info.vendor_id == 0x1532 && info.product_id == pid
            && info.interface_number == interface,
{
}

/// One more interface adds its product ID to what is detected where it is a
/// Razer interface of that number, and nothing otherwise; no interface, nothing
/// detected.
pub proof fn detected_one_by_one(devices: Seq<HidInterface>, info: HidInterface, interface: i32)
    ensures
        detected(Seq::empty(), interface) == Seq::<u16>::empty(),
        detected(devices.push(info), interface) == if info.vendor_id == 0x1532
            && info.interface_number == interface {
            detected(devices, interface).push(info.product_id)
        } else {
            detected(devices, interface)
        },
{
    reveal(Seq::filter);
    assert(detected(Seq::empty(), interface) =~= Seq::<u16>::empty());
    assert(devices.push(info).drop_last() =~= devices);
    assert(detected(devices.push(info), interface) =~= if is_candidate(info, interface) {
        detected(devices, interface).push(info.product_id)
    } else {
        detected(devices, interface)
    });
}

/// One more interface adds its line to the listing where it is of vendor 1532,
/// and nothing otherwise; no interface, no line.
pub proof fn listed_one_by_one(devices: Seq<HidInterface>, info: HidInterface)
    ensures
        listing(Seq::empty()) == Seq::<Seq<char>>::empty(),
        listing(devices.push(info)) == if info.vendor_id == 0x1532 {
            listing(devices).push(line_text(info, product_shown(info.product)))
        } else {
            listing(devices)
        },
{
    reveal(Seq::filter);
    assert(listing(Seq::empty()) =~= Seq::<Seq<char>>::empty());
    assert(devices.push(info).drop_last() =~= devices);
    assert(listing(devices.push(info)) =~= if info.vendor_id == 0x1532 {
        listing(devices).push(line_text(info, product_shown(info.product)))
    } else {
        listing(devices)
    });
}

/// The lines for an interface tell its fields, each under its own label.
pub proof fn lines_tell_the_fields(info: HidInterface, product: Seq<char>)
    ensures
        line_text(info, product) == crate::text::hex4(info.vendor_id) + ":"@ + crate::text::hex4(
            info.product_id,
        ) + " interface="@ + crate::text::decimal(info.interface_number as int)
            + " usage_page=0x"@ + crate::text::hex4(info.usage_page) + " usage=0x"@
            + crate::text::hex4(info.usage) + " product="@ + product + " path="@ + info.path@,
        opening_text(info) == "Opening "@ + crate::text::hex4(info.vendor_id) + ":"@
            + crate::text::hex4(info.product_id) + ", interface "@ + crate::text::decimal(
            info.interface_number as int,
        ) + ", path "@ + info.path@,
        info.product matches Some(name) ==> product_shown(info.product) == "Some("@ + quoted(name@)
            + ")"@,
        info.product is None ==> product_shown(info.product) == "None"@,
{
}

/// A requested product is the only target, whatever was detected, and whether
/// or not it is supported.
pub proof fn requested_target_is_the_only_one(pid: u16, pids: Seq<u16>)
    ensures
        targets(Some(pid), pids).len() == 1,
        targets(Some(pid), pids)[0] == pid,
{
}

} // verus!
