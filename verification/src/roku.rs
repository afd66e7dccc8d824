//! SSDP-style discovery of streaming players.
//!
//! The transport layer broadcasts one HTTP-shaped search message and hands
//! every reply datagram to `process_ssdp_datagram`, which parses the
//! header-line text, extracts the device address from the `LOCATION`
//! header, and appends a descriptor unless one with the same address was
//! already seen. A best-effort enrichment fetch afterwards fills in the
//! device-info fields parsed by `parse_device_info`.

use vstd::prelude::*;
use vstd::string::*;

use crate::error::BridgeResult;
use crate::text::contains_seq;
use crate::text::contains_str;
use crate::text::find_from;
use crate::text::find_seq;
use crate::text::header_match;
use crate::text::lemma_find_seq_props;
use crate::text::lines_spec;
use crate::text::split_lines;
use crate::text::starts_with_ignore_case;
use crate::text::trim_seq;
use crate::text::trim_str;
use crate::text::view_opt;

verus! {

/// One discovered streaming player: the address and `LOCATION`/`USN`
/// values from its search reply, plus the optional device-info fields a
/// later enrichment fetch may fill.
#[derive(Debug, Clone)]
pub struct RokuDevice {
    pub ip: String,
    pub location: String,
    pub usn: Option<String>,
    pub serial_number: Option<String>,
    pub device_id: Option<String>,
    pub model_name: Option<String>,
    pub friendly_name: Option<String>,
}

/// The device-info fields parsed from an enrichment reply.
#[derive(Debug, Clone)]
pub struct RokuDeviceInfo {
    pub serial_number: Option<String>,
    pub device_id: Option<String>,
    pub model_name: Option<String>,
    pub friendly_name: Option<String>,
}

/// The SSDP search message: an `M-SEARCH` request targeting the discovery
/// multicast group with the streaming-player service type.
pub fn ssdp_search_message() -> (r: String)
    ensures
        r@ == "M-SEARCH * HTTP/1.1\r\nHOST: 239.255.255.250:1900\r\nMAN: \"ssdp:discover\"\r\nMX: 3\r\nST: roku:ecp\r\n\r\n"@,
{
    String::from_str(
        "M-SEARCH * HTTP/1.1\r\nHOST: 239.255.255.250:1900\r\nMAN: \"ssdp:discover\"\r\nMX: 3\r\nST: roku:ecp\r\n\r\n",
    )
}

/// The host component of a URL: the characters between the scheme
/// separator and the next delimiter — whichever of `:` or `/` occurs
/// first — if the URL has that shape.
pub open spec fn ip_of_url(u: Seq<char>) -> Option<Seq<char>> {
    match find_seq(u, "://"@, 0) {
        Some(i) => {
            let after = u.subrange(i + "://"@.len(), u.len() as int);
            match (find_seq(after, ":"@, 0), find_seq(after, "/"@, 0)) {
                (Some(c), Some(sl)) => Some(after.subrange(0, if c <= sl { c } else { sl })),
                (Some(c), None) => Some(after.subrange(0, c)),
                (None, Some(sl)) => Some(after.subrange(0, sl)),
                (None, None) => None,
            }
        },
        None => None,
    }
}

/// Extracts the bare host/IP component from a URL such as
/// `http://192.168.1.100:8060/`.
pub fn extract_ip_from_url<'a>(url: &'a str) -> (r: Option<&'a str>)
    ensures
        match ip_of_url(url@) {
            Some(ip) => r matches Some(s) && s@ == ip,
            None => r is None,
        },
{
    proof {
        reveal_strlit("://");
        reveal_strlit(":");
        reveal_strlit("/");
    }
    let n = url.unicode_len();
    match find_from(url, "://", 0) {
        None => None,
        Some(i) => {
            proof {
                lemma_find_seq_props(url@, "://"@, 0);
            }
            let after = url.substring_char(i + 3, n);
            let colon = find_from(after, ":", 0);
            let slash = find_from(after, "/", 0);
            proof {
                lemma_find_seq_props(after@, ":"@, 0);
                lemma_find_seq_props(after@, "/"@, 0);
            }
            match (colon, slash) {
                (Some(c), Some(sl)) => Some(after.substring_char(0, if c <= sl { c } else { sl })),
                (Some(c), None) => Some(after.substring_char(0, c)),
                (None, Some(sl)) => Some(after.substring_char(0, sl)),
                (None, None) => None,
            }
        },
    }
}

/// The trimmed text between the first `<tag>` and the next `</tag>` after
/// it, if both occur.
pub open spec fn xml_tag_value(x: Seq<char>, tag: Seq<char>) -> Option<Seq<char>> {
    let st = "<"@ + tag + ">"@;
    let et = "</"@ + tag + ">"@;
    match find_seq(x, st, 0) {
        None => None,
        Some(p) => {
            let cs = p + st.len();
            match find_seq(x, et, cs) {
                None => None,
                Some(e) => Some(trim_seq(x.subrange(cs, e))),
            }
        },
    }
}

/// Extracts the content of the first `<tag>...</tag>` element, trimmed.
/// This is tag-delimited substring search, not a full XML parser: the
/// device-info replies are flat documents of leaf elements.
pub fn extract_xml_tag(xml: &str, tag: &str) -> (r: Option<String>)
    ensures
        match xml_tag_value(xml@, tag@) {
            Some(v) => r matches Some(s) && s@ == v,
            None => r is None,
        },
{
    proof {
        reveal_strlit("<");
        reveal_strlit(">");
        reveal_strlit("</");
    }
    let mut st = String::from_str("<");
    st.append(tag);
    st.append(">");
    let mut et = String::from_str("</");
    et.append(tag);
    et.append(">");
    proof {
        assert(st@ =~= "<"@ + tag@ + ">"@);
        assert(et@ =~= "</"@ + tag@ + ">"@);
    }
    let n = xml.unicode_len();
    match find_from(xml, st.as_str(), 0) {
        None => None,
        Some(p) => {
            proof {
                lemma_find_seq_props(xml@, st@, 0);
            }
            let cs = p + st.as_str().unicode_len();
            proof {
                assert(cs <= n);
            }
            match find_from(xml, et.as_str(), cs) {
                None => None,
                Some(e) => {
                    proof {
                        lemma_find_seq_props(xml@, et@, cs as int);
                    }
                    let content = xml.substring_char(cs, e);
                    Some(trim_str(content))
                },
            }
        },
    }
}

/// Parses a device-info reply: each field is the content of its leaf
/// element, with `user-device-name` preferred over `friendly-device-name`
/// for the friendly name. Absence of any element is not an error.
pub fn parse_device_info(xml: &str) -> (r: BridgeResult<RokuDeviceInfo>)
    ensures
        r matches Ok(info) && {
            &&& view_opt(info.serial_number) == xml_tag_value(xml@, "serial-number"@)
            &&& view_opt(info.device_id) == xml_tag_value(xml@, "device-id"@)
            &&& view_opt(info.model_name) == xml_tag_value(xml@, "model-name"@)
            &&& view_opt(info.friendly_name) == (if xml_tag_value(xml@, "user-device-name"@)
                is Some {
                xml_tag_value(xml@, "user-device-name"@)
            } else {
                xml_tag_value(xml@, "friendly-device-name"@)
            })
        },
{
    let serial_number = extract_xml_tag(xml, "serial-number");
    let device_id = extract_xml_tag(xml, "device-id");
    let model_name = extract_xml_tag(xml, "model-name");
    let friendly_name = match extract_xml_tag(xml, "user-device-name") {
        Some(name) => Some(name),
        None => extract_xml_tag(xml, "friendly-device-name"),
    };
    Ok(RokuDeviceInfo { serial_number, device_id, model_name, friendly_name })
}

/// The running `LOCATION`/`USN` values while scanning header lines.
pub struct SsdpHeaders {
    pub location: Seq<char>,
    pub usn: Option<Seq<char>>,
}

/// One header line applied to the running values: a line whose trimmed
/// text starts with `location:` or `usn:` (ASCII case-insensitively)
/// replaces the respective value with the trimmed remainder.
pub open spec fn header_step(st: SsdpHeaders, line: Seq<char>) -> SsdpHeaders {
    let t = trim_seq(line);
    if header_match(t, "location:"@) {
        SsdpHeaders { location: trim_seq(t.subrange("location:"@.len() as int, t.len() as int)), usn: st.usn }
    } else if header_match(t, "usn:"@) {
        SsdpHeaders { location: st.location, usn: Some(trim_seq(t.subrange("usn:"@.len() as int, t.len() as int))) }
    } else {
        st
    }
}

/// The header values after scanning all lines in order.
pub open spec fn fold_headers(st: SsdpHeaders, lines: Seq<Seq<char>>) -> SsdpHeaders
    decreases lines.len(),
{
    if lines.len() == 0 {
        st
    } else {
        fold_headers(header_step(st, lines[0]), lines.subrange(1, lines.len() as int))
    }
}

/// The `LOCATION`/`USN` values of a search reply: every line scanned, the
/// last match of each header winning, starting from an empty location and
/// no `USN`.
pub open spec fn ssdp_headers(text: Seq<char>) -> SsdpHeaders {
    fold_headers(SsdpHeaders { location: Seq::empty(), usn: None }, lines_spec(text))
}

/// What a search-reply datagram yields: the extracted IP, the `LOCATION`
/// value and the `USN` value, provided the reply carries the service-type
/// token, a non-empty `LOCATION`, and a location URL with a host part.
pub open spec fn ssdp_accepts(t: Seq<char>) -> Option<(Seq<char>, Seq<char>, Option<Seq<char>>)> {
    if !contains_seq(t, "roku:ecp"@) {
        None
    } else {
        let h = ssdp_headers(t);
        if h.location.len() == 0 {
            None
        } else {
            match ip_of_url(h.location) {
                None => None,
                Some(ip) => Some((ip, h.location, h.usn)),
            }
        }
    }
}

/// Parses one search-reply datagram into a descriptor with the enrichment
/// fields unset, or nothing if the reply is not an acceptable search reply.
pub fn parse_ssdp_response(text: &str) -> (r: Option<RokuDevice>)
    ensures
        match ssdp_accepts(text@) {
            None => r is None,
            Some((ip, loc, usn)) => r matches Some(d) && d.ip@ == ip && d.location@ == loc
                && view_opt(d.usn) == usn && d.serial_number is None && d.device_id is None
                && d.model_name is None && d.friendly_name is None,
        },
{
    if !contains_str(text, "roku:ecp") {
        return None;
    }
    let lines = split_lines(text);
    let ghost all_lines = lines_spec(text@);
    let mut location = String::new();
    let mut usn: Option<String> = None;
    let mut li: usize = 0;
    proof {
        assert(all_lines.subrange(0, all_lines.len() as int) =~= all_lines);
    }
    while li < lines.len()
        invariant
            0 <= li <= lines.len(),
            lines@.len() == all_lines.len(),
            forall|k: int| 0 <= k < lines@.len() ==> lines@[k]@ == all_lines[k],
            fold_headers(
                SsdpHeaders { location: location@, usn: view_opt(usn) },
                all_lines.subrange(li as int, all_lines.len() as int),
            ) == ssdp_headers(text@),
        decreases lines.len() - li,
    {
        let ghost rest = all_lines.subrange(li as int, all_lines.len() as int);
        let ghost st = SsdpHeaders { location: location@, usn: view_opt(usn) };
        let line = &lines[li];
        let t = trim_str(line.as_str());
        if starts_with_ignore_case(t.as_str(), "location:") {
            proof {
                reveal_strlit("location:");
            }
            location = trim_str(t.as_str().substring_char(9, t.as_str().unicode_len()));
        } else if starts_with_ignore_case(t.as_str(), "usn:") {
            proof {
                reveal_strlit("usn:");
            }
            usn = Some(trim_str(t.as_str().substring_char(4, t.as_str().unicode_len())));
        }
        proof {
            assert(rest.subrange(1, rest.len() as int) =~= all_lines.subrange(
                li + 1,
                all_lines.len() as int,
            ));
            assert(SsdpHeaders { location: location@, usn: view_opt(usn) } == header_step(
                st,
                all_lines[li as int],
            ));
        }
        li += 1;
    }
    proof {
        assert(all_lines.subrange(li as int, all_lines.len() as int) =~= Seq::<
            Seq<char>,
        >::empty());
    }
    if location.as_str().unicode_len() == 0 {
        return None;
    }
    match extract_ip_from_url(location.as_str()) {
        None => None,
        Some(ip) => {
            let ip_owned = String::from_str(ip);
            Some(
                RokuDevice {
                    ip: ip_owned,
                    location,
                    usn,
                    serial_number: None,
                    device_id: None,
                    model_name: None,
                    friendly_name: None,
                },
            )
        },
    }
}

/// Whether some descriptor in `devs` already carries the address `ip`.
pub open spec fn has_ip(devs: Seq<RokuDevice>, ip: Seq<char>) -> bool {
    exists|k: int| 0 <= k < devs.len() && devs[k].ip@ == ip
}

/// No two descriptors carry the same address.
pub open spec fn unique_ips(devs: Seq<RokuDevice>) -> bool {
    forall|i: int, j: int| 0 <= i < j < devs.len() ==> devs[i].ip@ != devs[j].ip@
}

/// How one reply datagram changes the result sequence: an unacceptable
/// reply or an already-seen address changes nothing; a new address appends
/// one descriptor with that reply's values and no enrichment fields.
pub open spec fn ssdp_step_rel(pre: Seq<RokuDevice>, t: Seq<char>, post: Seq<RokuDevice>) -> bool {
    match ssdp_accepts(t) {
        None => post == pre,
        Some((ip, loc, usn)) => if has_ip(pre, ip) {
            post == pre
        } else {
            &&& post.len() == pre.len() + 1
            &&& post.subrange(0, pre.len() as int) == pre
            &&& post[pre.len() as int].ip@ == ip
            &&& post[pre.len() as int].location@ == loc
            &&& view_opt(post[pre.len() as int].usn) == usn
            &&& post[pre.len() as int].serial_number is None
            &&& post[pre.len() as int].device_id is None
            &&& post[pre.len() as int].model_name is None
            &&& post[pre.len() as int].friendly_name is None
        },
    }
}

/// Whether `devices` already holds a descriptor with address `ip`.
fn contains_device_ip(devices: &Vec<RokuDevice>, ip: &String) -> (r: bool)
    ensures
        r == has_ip(devices@, ip@),
{
    let mut k: usize = 0;
    while k < devices.len()
        invariant
            0 <= k <= devices@.len(),
            forall|j: int| 0 <= j < k ==> devices@[j].ip@ != ip@,
        decreases devices@.len() - k,
    {
        if devices[k].ip.eq(ip) {
            return true;
        }
        k += 1;
    }
    false
}

/// Feeds one reply datagram into the result sequence, deduplicating by the
/// extracted address: the first-seen descriptor for an address is kept and
/// never replaced.
pub fn process_ssdp_datagram(devices: &mut Vec<RokuDevice>, text: &str)
    requires
        unique_ips(old(devices)@),
    ensures
        unique_ips(final(devices)@),
        ssdp_step_rel(old(devices)@, text@, final(devices)@),
{
    match parse_ssdp_response(text) {
        None => {},
        Some(d) => {
            if !contains_device_ip(devices, &d.ip) {
                devices.push(d);
                proof {
                    assert(devices@.subrange(0, devices@.len() - 1) =~= old(devices)@);
                }
            }
        },
    }
}

/// Law: within one discovery call, the first reply for an address wins.
/// After a reply for a fresh address has appended its descriptor, a second
/// reply carrying the same address — whatever its other content — leaves
/// the sequence unchanged, and exactly one descriptor holds that address,
/// the one built from the first reply.
pub proof fn lemma_ssdp_first_seen_wins(
    devs0: Seq<RokuDevice>,
    devs1: Seq<RokuDevice>,
    devs2: Seq<RokuDevice>,
    t1: Seq<char>,
    t2: Seq<char>,
)
    requires
        unique_ips(devs0),
        ssdp_step_rel(devs0, t1, devs1),
        ssdp_step_rel(devs1, t2, devs2),
        ssdp_accepts(t1) is Some,
        ssdp_accepts(t2) is Some,
        ssdp_accepts(t1).unwrap().0 == ssdp_accepts(t2).unwrap().0,
        !has_ip(devs0, ssdp_accepts(t1).unwrap().0),
    ensures
        devs2 == devs1,
        devs1[devs0.len() as int].location@ == ssdp_accepts(t1).unwrap().1,
        forall|i: int, j: int|
            0 <= i < devs1.len() && 0 <= j < devs1.len() && devs1[i].ip@ == ssdp_accepts(
                t1,
            ).unwrap().0 && devs1[j].ip@ == ssdp_accepts(t1).unwrap().0 ==> i == j,
{
    let ip = ssdp_accepts(t1).unwrap().0;
    assert(devs1[devs0.len() as int].ip@ == ip);
    assert(has_ip(devs1, ip));
    assert(unique_ips(devs1)) by {
        assert forall|i: int, j: int| 0 <= i < j < devs1.len() implies devs1[i].ip@
            != devs1[j].ip@ by {
            if j < devs0.len() {
                assert(devs1[i] == devs0[i] && devs1[j] == devs0[j]);
            } else {
                assert(devs1[i] == devs0[i]);
                assert(!has_ip(devs0, ip));
            }
        }
    }
    assert forall|i: int, j: int|
        0 <= i < devs1.len() && 0 <= j < devs1.len() && devs1[i].ip@ == ip && devs1[j].ip@
            == ip implies i == j by {
        if i < j {
            assert(devs1[i].ip@ != devs1[j].ip@);
        } else if j < i {
            assert(devs1[j].ip@ != devs1[i].ip@);
        }
    }
}

/// Writes the device-info fields of an enrichment reply into a descriptor,
/// leaving the search-reply fields untouched. Enrichment never removes a
/// device: a descriptor whose fetch failed simply keeps these fields unset.
pub fn apply_device_info(device: &mut RokuDevice, info: RokuDeviceInfo)
    ensures
        final(device).ip == old(device).ip,
        final(device).location == old(device).location,
        final(device).usn == old(device).usn,
        final(device).serial_number == info.serial_number,
        final(device).device_id == info.device_id,
        final(device).model_name == info.model_name,
        final(device).friendly_name == info.friendly_name,
{
    device.serial_number = info.serial_number;
    device.device_id = info.device_id;
    device.model_name = info.model_name;
    device.friendly_name = info.friendly_name;
}

/// The well-known port the enrichment fetch targets.
pub const DEVICE_INFO_PORT: u16 = 8060;

/// The fixed path the enrichment fetch requests.
pub fn device_info_path() -> (r: &'static str)
    ensures
        r@ == "/query/device-info"@,
{
    "/query/device-info"
}

} // verus!
