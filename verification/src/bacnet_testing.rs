//! The BACnet/IP test tool: its configuration, the choice of a device, the
//! names it accepts for object types and properties, and the frames it
//! sends and accepts.
//!
//! Sockets, clocks, files and printing stay with the command-line glue; the
//! glue hands received datagrams to [`parse_i_am_response`] and
//! [`process_confirmed_response`] and sends what the message builders return.

use vstd::prelude::*;
use vstd::string::StringExecFns;

use crate::bacnet_codec::{
    access_specs_view, bacnet_vendor_name, complex_ack_decoded, decode_complex_ack, decode_i_am,
    confirmed_choice_known, confirmed_request_apdu, decode_npdu_len, encode_confirmed_request,
    encode_read_property_multiple, max_apdu_size, max_segments, ApduSizeLimit, RequestHeader,
    SegmentLimit,
    global_broadcast_npdu, i_am_decoded, local_npdu, npdu_decoded_length,
    object_id_text, object_identifier_debug, read_property_multiple_encoding, vendor_name,
    who_is_all_service_data, AccessSpec,
    I_AM_SERVICE, READ_PROPERTY_MULTIPLE_SERVICE, UNCONFIRMED_REQUEST_PDU, WHO_IS_SERVICE,
};
use crate::bvlc::{bvlc_body, bvlc_frame, bvlc_payload, wrap_bvlc};
use crate::text::{
    concat2, concat3, decimal, decimal_string, join, join_strings, normalize_key, normalized,
    strings_view, text_eq,
};

verus! {

/// Where the tool looks for its configuration unless told otherwise.
pub const DEFAULT_CONFIG_PATH: &'static str = "config/bacnet-device.json";

/// BVLC function of an original unicast NPDU.
pub const BVLC_UNICAST: u8 = 0x0A;

/// BVLC function of an original broadcast NPDU.
pub const BVLC_BROADCAST: u8 = 0x0B;

/// The invoke id of the tool's ReadPropertyMultiple request.
pub const READ_INVOKE_ID: u8 = 1;

/// The whole configuration file.
pub struct BacnetConfig {
    pub network: NetworkConfig,
    pub devices: Vec<DeviceConfig>,
}

/// How the tool reaches the network.
pub struct NetworkConfig {
    pub local_bind: String,
    pub broadcast_addr: String,
    pub whois_wait_ms: u64,
    pub request_timeout_ms: u64,
    pub interface: Option<String>,
}

impl Default for NetworkConfig {
    fn default() -> (c: Self)
        ensures
            c.local_bind@ == "0.0.0.0:0"@,
            c.broadcast_addr@ == "255.255.255.255:47808"@,
            c.whois_wait_ms == 5000,
            c.request_timeout_ms == 5000,
            c.interface is None,
    {
        NetworkConfig {
            local_bind: String::from_str("0.0.0.0:0"),
            broadcast_addr: String::from_str("255.255.255.255:47808"),
            whois_wait_ms: 5000,
            request_timeout_ms: 5000,
            interface: None,
        }
    }
}

/// One named device the tool talks to.
pub struct DeviceConfig {
    pub name: String,
    pub address: String,
    pub port: u16,
    pub device_id: u32,
    pub reads: Vec<ReadTarget>,
}

/// One object of a device and the properties to read from it, by name.
pub struct ReadTarget {
    pub object_type: String,
    pub object_instance: u32,
    pub properties: Vec<String>,
}

/// A device that answered a Who-Is.
pub struct DiscoveredDevice<A> {
    pub device_id: u32,
    /// Where the answer came from.
    pub address: A,
    pub vendor_id: u16,
    pub vendor_name: String,
    pub max_apdu: u32,
    /// The segmentation code the device announced.
    pub segmentation: u32,
}

/// The BACnet/IP port a device config falls back to.
pub fn default_bacnet_port() -> (p: u16)
    ensures
        p == 47808,
{
    47808
}

impl DeviceConfig {
    /// The device's socket address as text, `address:port`.
    pub fn socket_addr_text(&self) -> (s: String)
        ensures
            s@ == self.address@ + ":"@ + decimal(self.port as nat),
    {
        let port = decimal_string(self.port as u64);
        concat3(self.address.as_str(), ":", port.as_str())
    }
}

/// A configuration is usable when it names at least one device.
pub fn check_config(cfg: &BacnetConfig) -> (r: Result<(), String>)
    ensures
        cfg.devices@.len() == 0 ==> (r matches Err(e) && e@
            == "config must include at least one device"@),
        cfg.devices@.len() != 0 ==> r is Ok,
{
    if cfg.devices.len() == 0 {
        Err(String::from_str("config must include at least one device"))
    } else {
        Ok(())
    }
}

/// The names of the configured devices, in order.
pub open spec fn device_names(devices: Seq<DeviceConfig>) -> Seq<Seq<char>> {
    devices.map_values(|d: DeviceConfig| d.name@)
}

/// The configured device names separated by `, `.
pub fn join_device_names(devices: &Vec<DeviceConfig>) -> (s: String)
    ensures
        s@ == join(device_names(devices@), ", "@),
{
    let n = devices.len();
    let mut s = String::new();
    let mut i: usize = 0;
    while i < n
        invariant
            n == devices@.len(),
            i <= n,
            s@ == join(device_names(devices@).take(i as int), ", "@),
        decreases n - i,
    {
        let ghost names = device_names(devices@);
        assert(names.take(i as int + 1).drop_last() == names.take(i as int));
        assert(names.take(i as int + 1).last() == devices@[i as int].name@);
        if i == 0 {
            assert(names.take(1) == seq![devices@[0].name@]);
            s.append(devices[i].name.as_str());
        } else {
            s.append(", ");
            s.append(devices[i].name.as_str());
        }
        i = i + 1;
    }
    assert(device_names(devices@).take(n as int) == device_names(devices@));
    s
}

/// Picks the device to read: the first one with the requested name, or the
/// only one when no name is given.
pub fn select_device<'a>(cfg: &'a BacnetConfig, requested_name: Option<&str>) -> (r: Result<
    &'a DeviceConfig,
    String,
>)
    ensures
        match requested_name {
            Some(name) => if exists|i: int|
                0 <= i < cfg.devices@.len() && (#[trigger] cfg.devices@[i]).name@ == name@ {
                r matches Ok(d) && exists|i: int|
                    0 <= i < cfg.devices@.len() && *d == cfg.devices@[i] && d.name@ == name@
                        && forall|j: int| 0 <= j < i ==> (#[trigger] cfg.devices@[j]).name@ != name@
            } else {
                r matches Err(e) && e@ == "unknown device `"@ + name@ + "`. Available devices: "@
                    + join(device_names(cfg.devices@), ", "@)
            },
            None => if cfg.devices@.len() == 1 {
                r matches Ok(d) && *d == cfg.devices@[0]
            } else {
                r matches Err(e) && e@ == "multiple devices configured. Choose one: "@ + join(
                    device_names(cfg.devices@),
                    ", "@,
                )
            },
        },
{
    match requested_name {
        Some(name) => {
            let n = cfg.devices.len();
            let mut i: usize = 0;
            while i < n
                invariant
                    n == cfg.devices@.len(),
                    requested_name == Some(name),
                    i <= n,
                    forall|j: int| 0 <= j < i ==> (#[trigger] cfg.devices@[j]).name@ != name@,
                decreases n - i,
            {
                if text_eq(cfg.devices[i].name.as_str(), name) {
                    assert(cfg.devices@[i as int].name@ == name@);
                    return Ok(&cfg.devices[i]);
                }
                i = i + 1;
            }
            let names = join_device_names(&cfg.devices);
            let head = concat3("unknown device `", name, "`. Available devices: ");
            Err(head.concat(names.as_str()))
        },
        None => {
            if cfg.devices.len() == 1 {
                Ok(&cfg.devices[0])
            } else {
                let names = join_device_names(&cfg.devices);
                Err(concat2("multiple devices configured. Choose one: ", names.as_str()))
            }
        },
    }
}

/// The BACnet object type number of a normalised object type name.
pub open spec fn object_type_code(key: Seq<char>) -> Option<u32> {
    if key == "device"@ {
        Some(8)
    } else if key == "analoginput"@ {
        Some(0)
    } else if key == "analogoutput"@ {
        Some(1)
    } else if key == "analogvalue"@ {
        Some(2)
    } else if key == "binaryinput"@ {
        Some(3)
    } else if key == "binaryoutput"@ {
        Some(4)
    } else if key == "binaryvalue"@ {
        Some(5)
    } else if key == "multistateinput"@ {
        Some(13)
    } else if key == "multistateoutput"@ {
        Some(14)
    } else if key == "multistatevalue"@ {
        Some(19)
    } else {
        None
    }
}

/// The BACnet property number of a normalised property name.
pub open spec fn property_code(key: Seq<char>) -> Option<u32> {
    if key == "objectname"@ {
        Some(77)
    } else if key == "description"@ {
        Some(28)
    } else if key == "presentvalue"@ {
        Some(85)
    } else if key == "statusflags"@ {
        Some(111)
    } else if key == "units"@ {
        Some(117)
    } else if key == "objectlist"@ {
        Some(76)
    } else if key == "modelname"@ {
        Some(70)
    } else if key == "firmwarerevision"@ {
        Some(44)
    } else if key == "vendorname"@ {
        Some(121)
    } else if key == "vendoridentifier"@ {
        Some(120)
    } else if key == "objectidentifier"@ {
        Some(75)
    } else {
        None
    }
}

/// What an object type name in the config stands for, or the refusal.
pub open spec fn object_type_lookup(name: Seq<char>) -> Result<u32, Seq<char>> {
    match object_type_code(normalized(name)) {
        Some(c) => Ok(c),
        None => Err("unsupported object_type `"@ + normalized(name) + "` in config"@),
    }
}

/// What a property name in the config stands for, or the refusal.
pub open spec fn property_lookup(name: Seq<char>) -> Result<u32, Seq<char>> {
    match property_code(normalized(name)) {
        Some(c) => Ok(c),
        None => Err("unsupported property `"@ + normalized(name) + "` in config"@),
    }
}

/// The views of a `Result` carrying a number or an error text.
pub open spec fn code_result_view(r: Result<u32, String>) -> Result<u32, Seq<char>> {
    match r {
        Ok(c) => Ok(c),
        Err(e) => Err(e@),
    }
}

/// Reads an object type name, ignoring case and punctuation.
pub fn parse_object_type(value: &str) -> (r: Result<u32, String>)
    ensures
        code_result_view(r) == object_type_lookup(value@),
{
    let key = normalize_key(value);
    let k = key.as_str();
    if text_eq(k, "device") {
        Ok(8)
    } else if text_eq(k, "analoginput") {
        Ok(0)
    } else if text_eq(k, "analogoutput") {
        Ok(1)
    } else if text_eq(k, "analogvalue") {
        Ok(2)
    } else if text_eq(k, "binaryinput") {
        Ok(3)
    } else if text_eq(k, "binaryoutput") {
        Ok(4)
    } else if text_eq(k, "binaryvalue") {
        Ok(5)
    } else if text_eq(k, "multistateinput") {
        Ok(13)
    } else if text_eq(k, "multistateoutput") {
        Ok(14)
    } else if text_eq(k, "multistatevalue") {
        Ok(19)
    } else {
        Err(concat3("unsupported object_type `", k, "` in config"))
    }
}

/// Reads a property name, ignoring case and punctuation.
pub fn parse_property_identifier(value: &str) -> (r: Result<u32, String>)
    ensures
        code_result_view(r) == property_lookup(value@),
{
    let key = normalize_key(value);
    let k = key.as_str();
    if text_eq(k, "objectname") {
        Ok(77)
    } else if text_eq(k, "description") {
        Ok(28)
    } else if text_eq(k, "presentvalue") {
        Ok(85)
    } else if text_eq(k, "statusflags") {
        Ok(111)
    } else if text_eq(k, "units") {
        Ok(117)
    } else if text_eq(k, "objectlist") {
        Ok(76)
    } else if text_eq(k, "modelname") {
        Ok(70)
    } else if text_eq(k, "firmwarerevision") {
        Ok(44)
    } else if text_eq(k, "vendorname") {
        Ok(121)
    } else if text_eq(k, "vendoridentifier") {
        Ok(120)
    } else if text_eq(k, "objectidentifier") {
        Ok(75)
    } else {
        Err(concat3("unsupported property `", k, "` in config"))
    }
}

/// The property numbers of a list of names, or the refusal of the first
/// name that is not supported.
pub open spec fn property_codes(names: Seq<String>) -> Result<Seq<u32>, Seq<char>>
    decreases names.len(),
{
    if names.len() == 0 {
        Ok(Seq::empty())
    } else {
        match property_codes(names.drop_last()) {
            Err(e) => Err(e),
            Ok(codes) => match property_lookup(names.last()@) {
                Ok(c) => Ok(codes.push(c)),
                Err(e) => Err(e),
            },
        }
    }
}

/// The access specification of a read target, or the refusal of its object
/// type or of its first unsupported property.
pub open spec fn target_spec(target: ReadTarget) -> Result<(u32, u32, Seq<u32>), Seq<char>> {
    match object_type_lookup(target.object_type@) {
        Err(e) => Err(e),
        Ok(t) => match property_codes(target.properties@) {
            Err(e) => Err(e),
            Ok(codes) => Ok((t, target.object_instance, codes)),
        },
    }
}

/// The views of a `Result` carrying an access specification.
pub open spec fn spec_result_view(r: Result<AccessSpec, String>) -> Result<
    (u32, u32, Seq<u32>),
    Seq<char>,
> {
    match r {
        Ok(s) => Ok((s.object_type, s.object_instance, s.properties@)),
        Err(e) => Err(e@),
    }
}

/// Turns a read target into the access specification of a
/// ReadPropertyMultiple request.
pub fn read_target_to_spec(target: &ReadTarget) -> (r: Result<AccessSpec, String>)
    ensures
        spec_result_view(r) == target_spec(*target),
{
    let object_type = match parse_object_type(target.object_type.as_str()) {
        Ok(t) => t,
        Err(e) => return Err(e),
    };
    let n = target.properties.len();
    let mut codes: Vec<u32> = Vec::new();
    let mut i: usize = 0;
    while i < n
        invariant
            n == target.properties@.len(),
            object_type_lookup(target.object_type@) == Ok::<u32, Seq<char>>(object_type),
            i <= n,
            property_codes(target.properties@.take(i as int)) == Ok::<Seq<u32>, Seq<char>>(codes@),
        decreases n - i,
    {
        let ghost names = target.properties@;
        assert(names.take(i as int + 1).drop_last() == names.take(i as int));
        match parse_property_identifier(target.properties[i].as_str()) {
            Ok(c) => codes.push(c),
            Err(e) => {
                assert(property_codes(names.take(i as int + 1)) == Err::<Seq<u32>, Seq<char>>(e@));
                proof {
                    lemma_property_codes_error_persists(names, i as int + 1);
                }
                return Err(e);
            },
        }
        i = i + 1;
    }
    assert(target.properties@.take(n as int) == target.properties@);
    Ok(AccessSpec { object_type, object_instance: target.object_instance, properties: codes })
}

/// Once a prefix of the names is refused, the whole list is refused with the
/// same message.
pub proof fn lemma_property_codes_error_persists(names: Seq<String>, k: int)
    requires
        0 <= k <= names.len(),
        property_codes(names.take(k)) is Err,
    ensures
        property_codes(names) == property_codes(names.take(k)),
    decreases names.len() - k,
{
    if k < names.len() {
        assert(names.take(k + 1).drop_last() == names.take(k));
        lemma_property_codes_error_persists(names, k + 1);
    } else {
        assert(names.take(k) == names);
    }
}

/// The Who-Is the tool broadcasts: a global-broadcast NPDU, an unconfirmed
/// Who-Is APDU with no range, in an original-broadcast BVLC frame.
pub open spec fn who_is_frame() -> Seq<u8> {
    bvlc_frame(
        BVLC_BROADCAST,
        seq![1u8, 0x20u8, 0xFFu8, 0xFFu8, 0u8, 0xFFu8, UNCONFIRMED_REQUEST_PDU, WHO_IS_SERVICE],
    )
}

/// Builds the Who-Is message for all devices.
pub fn build_who_is_message() -> (r: Result<Vec<u8>, String>)
    ensures
        r matches Ok(m) && m@ == who_is_frame(),
{
    let mut service_data = who_is_all_service_data().unwrap();
    let mut message = global_broadcast_npdu();
    let mut apdu: Vec<u8> = vec![UNCONFIRMED_REQUEST_PDU, WHO_IS_SERVICE];
    apdu.append(&mut service_data);
    message.append(&mut apdu);
    let ghost payload = message@;
    assert(payload =~= seq![1u8, 0x20u8, 0xFFu8, 0xFFu8, 0u8, 0xFFu8, UNCONFIRMED_REQUEST_PDU, WHO_IS_SERVICE]);
    Ok(wrap_bvlc(BVLC_BROADCAST, message))
}

/// The APDU of a received frame: what follows the BVLC header and the NPDU,
/// where both read.
pub open spec fn frame_apdu(data: Seq<u8>) -> Option<Seq<u8>> {
    match bvlc_body(data) {
        None => None,
        Some(body) => match npdu_decoded_length(body) {
            None => None,
            Some(n) => Some(body.skip(n as int)),
        },
    }
}

/// The I-Am fields a received frame carries: device instance, maximum APDU
/// length, segmentation code and vendor id.
pub open spec fn i_am_of(data: Seq<u8>) -> Option<(u32, u32, u32, u16)> {
    match frame_apdu(data) {
        None => None,
        Some(apdu) => if apdu.len() < 2 || apdu[0] != UNCONFIRMED_REQUEST_PDU || apdu[1]
            != I_AM_SERVICE {
            None
        } else {
            i_am_decoded(apdu.skip(2))
        },
    }
}

/// The vendor name shown for a vendor id.
pub open spec fn vendor_label(vendor_id: u16) -> Seq<char> {
    match bacnet_vendor_name(vendor_id) {
        Some(n) => n,
        None => "Unknown Vendor"@,
    }
}

fn frame_apdu_exec(data: &[u8]) -> (r: Option<&[u8]>)
    ensures
        match frame_apdu(data@) {
            Some(a) => r matches Some(s) && s@ == a,
            None => r is None,
        },
{
    let body = match bvlc_payload(data) {
        Some(b) => b,
        None => return None,
    };
    let n = match decode_npdu_len(body) {
        Some(n) => n,
        None => return None,
    };
    Some(vstd::slice::slice_subrange(body, n, body.len()))
}

/// Reads an I-Am answer received from `source`; anything else gives `None`.
pub fn parse_i_am_response<A>(data: &[u8], source: A) -> (r: Option<DiscoveredDevice<A>>)
    ensures
        match i_am_of(data@) {
            None => r is None,
            Some(f) => r matches Some(d) && d.device_id == f.0 && d.max_apdu == f.1
                && d.segmentation == f.2 && d.vendor_id == f.3 && d.address == source
                && d.vendor_name@ == vendor_label(f.3),
        },
{
    let apdu = match frame_apdu_exec(data) {
        Some(a) => a,
        None => return None,
    };
    if apdu.len() < 2 || apdu[0] != UNCONFIRMED_REQUEST_PDU || apdu[1] != I_AM_SERVICE {
        return None;
    }
    let service = vstd::slice::slice_subrange(apdu, 2, apdu.len());
    let (device_id, max_apdu, segmentation, vendor_id) = match decode_i_am(service) {
        Some(f) => f,
        None => return None,
    };
    let vendor_name = match vendor_name(vendor_id) {
        Some(n) => n,
        None => String::from_str("Unknown Vendor"),
    };
    Some(DiscoveredDevice { device_id, address: source, vendor_id, vendor_name, max_apdu, segmentation })
}

/// The service data of a complex acknowledgement for `invoke_id` that a
/// received frame carries.
pub open spec fn confirmed_response_of(data: Seq<u8>, invoke_id: u8) -> Option<Seq<u8>> {
    match frame_apdu(data) {
        None => None,
        Some(apdu) => match complex_ack_decoded(apdu) {
            Some(ack) => if ack.0 == invoke_id {
                Some(ack.1)
            } else {
                None
            },
            None => None,
        },
    }
}

/// Reads the answer to the confirmed request with `expected_invoke_id`;
/// anything else gives `None`.
pub fn process_confirmed_response(data: &[u8], expected_invoke_id: u8) -> (r: Option<Vec<u8>>)
    ensures
        match confirmed_response_of(data@, expected_invoke_id) {
            Some(d) => r matches Some(v) && v@ == d,
            None => r is None,
        },
{
    let apdu = match frame_apdu_exec(data) {
        Some(a) => a,
        None => return None,
    };
    match decode_complex_ack(apdu) {
        Some((invoke_id, service_data)) => {
            if invoke_id == expected_invoke_id {
                Some(service_data)
            } else {
                None
            }
        },
        None => None,
    }
}

/// Decides on one datagram received while the tool waits for the answer to
/// a confirmed request: one that did not come from the target is passed
/// over, one from the target is read as the answer for `expected_invoke_id`.
pub fn accept_confirmed_answer(from_target: bool, data: &[u8], expected_invoke_id: u8) -> (r:
    Option<Vec<u8>>)
    ensures
        !from_target ==> r is None,
        from_target ==> match confirmed_response_of(data@, expected_invoke_id) {
            Some(d) => r matches Some(v) && v@ == d,
            None => r is None,
        },
{
    if from_target {
        process_confirmed_response(data, expected_invoke_id)
    } else {
        None
    }
}

/// The header of the tool's confirmed requests: unsegmented, accepting a
/// segmented answer of any number of segments up to 1476 bytes each.
pub open spec fn tool_request_header() -> RequestHeader {
    RequestHeader {
        segmented: false,
        more_follows: false,
        segmented_response_accepted: true,
        max_segments: SegmentLimit::Unspecified,
        max_response_size: ApduSizeLimit::Up1476,
        sequence_number: None,
        proposed_window_size: None,
    }
}

/// The frame of a confirmed request: an NPDU that expects a reply, the
/// confirmed-request APDU with the tool's header, in an original-unicast
/// BVLC frame.
pub open spec fn confirmed_request_frame(invoke_id: u8, service_choice: u8, service_data: Seq<u8>) -> Seq<u8> {
    bvlc_frame(
        BVLC_UNICAST,
        seq![1u8, 0x04u8] + confirmed_request_apdu(tool_request_header(), invoke_id, service_choice, service_data),
    )
}

/// Builds the frame of a confirmed request; `None` where `bacnet-rs` knows
/// no confirmed service with that choice code.
pub fn confirmed_request_message(invoke_id: u8, service_choice: u8, service_data: Vec<u8>) -> (r:
    Option<Vec<u8>>)
    ensures
        r is Some <==> confirmed_choice_known(service_choice),
        r is Some ==> r.unwrap()@ == confirmed_request_frame(invoke_id, service_choice, service_data@),
{
    let ghost data = service_data@;
    let header = RequestHeader {
        segmented: false,
        more_follows: false,
        segmented_response_accepted: true,
        max_segments: SegmentLimit::Unspecified,
        max_response_size: ApduSizeLimit::Up1476,
        sequence_number: None,
        proposed_window_size: None,
    };
    let mut apdu = match encode_confirmed_request(
        header.segmented,
        header.more_follows,
        header.segmented_response_accepted,
        max_segments(header.max_segments),
        max_apdu_size(header.max_response_size),
        invoke_id,
        header.sequence_number,
        header.proposed_window_size,
        service_choice,
        service_data,
    ) {
        Some(a) => a,
        None => return None,
    };
    let mut message = local_npdu(true);
    message.append(&mut apdu);
    assert(message@ =~= seq![1u8, 0x04u8] + confirmed_request_apdu(header, invoke_id, service_choice, data));
    Some(wrap_bvlc(BVLC_UNICAST, message))
}

/// The ReadPropertyMultiple request frame for a list of access
/// specifications, or the encoder's error text.
pub open spec fn read_request_frame(specs: Seq<AccessSpec>) -> Result<Seq<u8>, Seq<char>> {
    match read_property_multiple_encoding(access_specs_view(specs)) {
        Ok(data) => Ok(confirmed_request_frame(READ_INVOKE_ID, READ_PROPERTY_MULTIPLE_SERVICE, data)),
        Err(e) => Err(e),
    }
}

/// Builds the ReadPropertyMultiple request frame the tool sends.
pub fn read_property_multiple_message(specs: &Vec<AccessSpec>) -> (r: Result<Vec<u8>, String>)
    ensures
        read_request_frame(specs@) == match r {
            Ok(m) => Ok(m@),
            Err(e) => Err(e@),
        },
{
    let data = match encode_read_property_multiple(specs) {
        Ok(d) => d,
        Err(e) => return Err(e),
    };
    let message = confirmed_request_message(READ_INVOKE_ID, READ_PROPERTY_MULTIPLE_SERVICE, data);
    Ok(message.unwrap())
}

/// The devices that answered a Who-Is, one per device id, kept in
/// ascending order of device id. The first answer from a device is kept.
///
/// The devices are held in a `Vec` kept sorted by id, with a ghost map
/// beside it, rather than in a `HashMap<u32, _>`: the listing must come out
/// in ascending id order, and a `HashMap` is walked in an order nothing
/// specifies, so it would still need a sorted copy; the sorted `Vec` gives
/// the lookup and the order in one structure.
pub struct Discoveries<A> {
    devices: Vec<DiscoveredDevice<A>>,
    by_id: Ghost<Map<u32, DiscoveredDevice<A>>>,
}

impl<A> View for Discoveries<A> {
    type V = Map<u32, DiscoveredDevice<A>>;

    /// The kept answer of each device id.
    closed spec fn view(&self) -> Map<u32, DiscoveredDevice<A>> {
        self.by_id@
    }
}

/// The devices are in strictly ascending order of device id.
pub open spec fn ascending_ids<A>(devices: Seq<DiscoveredDevice<A>>) -> bool {
    forall|i: int, j: int|
        0 <= i < j < devices.len() ==> (#[trigger] devices[i]).device_id
            < (#[trigger] devices[j]).device_id
}

/// A listing holds exactly the kept answers, in ascending order of id.
pub open spec fn lists_exactly<A>(
    listing: Seq<DiscoveredDevice<A>>,
    kept: Map<u32, DiscoveredDevice<A>>,
) -> bool {
    &&& ascending_ids(listing)
    &&& forall|i: int|
        0 <= i < listing.len() ==> kept.contains_key((#[trigger] listing[i]).device_id)
            && kept[listing[i].device_id] == listing[i]
    &&& forall|id: u32|
        #[trigger] kept.contains_key(id) ==> exists|i: int|
            0 <= i < listing.len() && (#[trigger] listing[i]).device_id == id
}

impl<A> Discoveries<A> {
    /// The listing and the kept answers agree.
    pub closed spec fn wf(&self) -> bool {
        lists_exactly(self.devices@, self.by_id@)
    }

    /// No answer yet.
    pub fn new() -> (r: Self)
        ensures
            r.wf(),
            r@ == Map::<u32, DiscoveredDevice<A>>::empty(),
    {
        Discoveries { devices: Vec::new(), by_id: Ghost(Map::empty()) }
    }

    /// Records an answer, unless its device already answered.
    pub fn record(&mut self, device: DiscoveredDevice<A>)
        requires
            old(self).wf(),
        ensures
            final(self).wf(),
            old(self)@.contains_key(device.device_id) ==> final(self)@ == old(self)@,
            !old(self)@.contains_key(device.device_id) ==> final(self)@ == old(self)@.insert(
                device.device_id,
                device,
            ),
    {
        let id = device.device_id;
        let n = self.devices.len();
        let mut pos: usize = 0;
        while pos < n && self.devices[pos].device_id < id
            invariant
                n == self.devices@.len(),
                pos <= n,
                forall|j: int| 0 <= j < pos ==> (#[trigger] self.devices@[j]).device_id < id,
            decreases n - pos,
        {
            pos = pos + 1;
        }
        if pos < n && self.devices[pos].device_id == id {
            return;
        }
        let ghost before = self.devices@;
        let ghost d = device;
        proof {
            assert forall|j: int| pos <= j < n implies (#[trigger] before[j]).device_id > id by {
                if j > pos {
                    assert(before[pos as int].device_id < before[j].device_id);
                }
            }
        }
        self.devices.insert(pos, device);
        self.by_id = Ghost(self.by_id@.insert(id, d));
        proof {
            let after = self.devices@;
            assert(after == before.insert(pos as int, d));
            assert forall|i: int, j: int|
                0 <= i < j < after.len() implies (#[trigger] after[i]).device_id
                < (#[trigger] after[j]).device_id by {
                if j < pos {
                    assert(after[i] == before[i] && after[j] == before[j]);
                } else if j == pos {
                    assert(after[i] == before[i]);
                } else if i < pos {
                    assert(after[i] == before[i] && after[j] == before[j - 1]);
                } else if i == pos {
                    assert(after[j] == before[j - 1]);
                } else {
                    assert(after[i] == before[i - 1] && after[j] == before[j - 1]);
                }
            }
            assert forall|i: int| 0 <= i < after.len() implies self.by_id@.contains_key(
                (#[trigger] after[i]).device_id,
            ) && self.by_id@[after[i].device_id] == after[i] by {
                if i < pos {
                    assert(after[i] == before[i]);
                } else if i > pos {
                    assert(after[i] == before[i - 1]);
                }
            }
            assert forall|k: u32| #[trigger] self.by_id@.contains_key(k) implies exists|i: int|
                0 <= i < after.len() && (#[trigger] after[i]).device_id == k by {
                if k == id {
                    assert(after[pos as int].device_id == k);
                } else {
                    let m = choose|m: int| 0 <= m < n && (#[trigger] before[m]).device_id == k;
                    if m < pos {
                        assert(after[m].device_id == k);
                    } else {
                        assert(after[m + 1].device_id == k);
                    }
                }
            }
        }
    }

    /// The kept answers in ascending order of device id.
    pub fn devices(&self) -> (r: &Vec<DiscoveredDevice<A>>)
        requires
            self.wf(),
        ensures
            lists_exactly(r@, self@),
    {
        &self.devices
    }

    /// Whether no device answered.
    pub fn is_empty(&self) -> (r: bool)
        requires
            self.wf(),
        ensures
            r == (self@ == Map::<u32, DiscoveredDevice<A>>::empty()),
    {
        let r = self.devices.len() == 0;
        proof {
            if r {
                assert(self@ =~= Map::<u32, DiscoveredDevice<A>>::empty());
            } else {
                assert(self@.contains_key(self.devices@[0].device_id));
            }
        }
        r
    }
}

/// The note a listed device gets when a configured device has its id: the
/// name of the first such configured device.
pub open spec fn marker_of(devices: Seq<DeviceConfig>, device_id: u32) -> Seq<char>
    decreases devices.len(),
{
    if devices.len() == 0 {
        Seq::empty()
    } else if devices[0].device_id == device_id {
        " <- configured as "@ + devices[0].name@
    } else {
        marker_of(devices.drop_first(), device_id)
    }
}

/// Where some configured device has the discovered id, wherever it stands
/// in the list (the last included), the note names the first such device.
pub proof fn lemma_marker_names_first_configured(devices: Seq<DeviceConfig>, device_id: u32, i: int)
    requires
        0 <= i < devices.len(),
        devices[i].device_id == device_id,
        forall|k: int| 0 <= k < i ==> (#[trigger] devices[k]).device_id != device_id,
    ensures
        marker_of(devices, device_id) == " <- configured as "@ + devices[i].name@,
    decreases i,
{
    if i > 0 {
        let rest = devices.drop_first();
        assert forall|k: int| 0 <= k < i - 1 implies (#[trigger] rest[k]).device_id != device_id by {
            assert(rest[k] == devices[k + 1]);
        }
        lemma_marker_names_first_configured(rest, device_id, i - 1);
    }
}

/// The note is empty exactly when no configured device has the discovered
/// id.
pub proof fn lemma_marker_empty_iff_unconfigured(devices: Seq<DeviceConfig>, device_id: u32)
    ensures
        marker_of(devices, device_id) == Seq::<char>::empty() <==> forall|k: int|
            0 <= k < devices.len() ==> (#[trigger] devices[k]).device_id != device_id,
    decreases devices.len(),
{
    if devices.len() > 0 {
        let rest = devices.drop_first();
        lemma_marker_empty_iff_unconfigured(rest, device_id);
        assert forall|k: int| 0 <= k < rest.len() implies #[trigger] rest[k] == devices[k + 1] by {}
        if devices[0].device_id == device_id {
            assert((" <- configured as "@ + devices[0].name@).len() > 0) by {
                reveal_strlit(" <- configured as ");
            }
        } else {
            if forall|k: int| 0 <= k < rest.len() ==> (#[trigger] rest[k]).device_id != device_id {
                assert forall|k: int| 0 <= k < devices.len() implies (#[trigger] devices[k]).device_id
                    != device_id by {
                    if k > 0 {
                        assert(devices[k] == rest[k - 1]);
                    }
                }
            } else {
                let k = choose|k: int| 0 <= k < rest.len() && (#[trigger] rest[k]).device_id == device_id;
                assert(devices[k + 1].device_id == device_id);
            }
        }
    }
}

/// The note shown beside a discovered device that is also configured.
pub fn configured_marker(devices: &Vec<DeviceConfig>, device_id: u32) -> (s: String)
    ensures
        s@ == marker_of(devices@, device_id),
{
    let n = devices.len();
    let mut i: usize = 0;
    assert(devices@.skip(0) == devices@);
    while i < n
        invariant
            n == devices@.len(),
            i <= n,
            marker_of(devices@, device_id) == marker_of(devices@.skip(i as int), device_id),
        decreases n - i,
    {
        assert(devices@.skip(i as int).drop_first() == devices@.skip(i as int + 1));
        if devices[i].device_id == device_id {
            return concat2(" <- configured as ", devices[i].name.as_str());
        }
        i = i + 1;
    }
    assert(devices@.skip(n as int).len() == 0);
    String::new()
}

/// Object type and property names are read without regard to case or
/// punctuation: names that normalise alike are read alike.
pub proof fn lemma_names_read_by_key(a: Seq<char>, b: Seq<char>)
    requires
        normalized(a) == normalized(b),
    ensures
        object_type_lookup(a) == object_type_lookup(b),
        property_lookup(a) == property_lookup(b),
{
}

/// The Who-Is frame is a well-formed BACnet/IP frame: its header checks out
/// and it carries the NPDU and APDU it was built from.
pub proof fn lemma_who_is_frame_well_formed()
    ensures
        bvlc_body(who_is_frame()) == Some(
            seq![1u8, 0x20u8, 0xFFu8, 0xFFu8, 0u8, 0xFFu8, UNCONFIRMED_REQUEST_PDU, WHO_IS_SERVICE],
        ),
{
    crate::bvlc::lemma_bvlc_frame_reads_back(
        BVLC_BROADCAST,
        seq![1u8, 0x20u8, 0xFFu8, 0xFFu8, 0u8, 0xFFu8, UNCONFIRMED_REQUEST_PDU, WHO_IS_SERVICE],
    );
}

/// An answer is accepted only for the request it answers: frames whose
/// acknowledgement carries another invoke id are refused.
pub proof fn lemma_other_invoke_id_refused(data: Seq<u8>, invoke_id: u8)
    requires
        frame_apdu(data) matches Some(apdu) && complex_ack_decoded(apdu) matches Some(ack) && ack.0
            != invoke_id,
    ensures
        confirmed_response_of(data, invoke_id) is None,
{
}

/// An I-Am is read from the bytes that follow the whole NPDU, however long
/// `Npdu::decode` finds it (a routed NPDU with source or destination
/// addresses included): where those bytes are an unconfirmed I-Am request,
/// its fields are what `IAmRequest::decode` reads from the service body.
pub proof fn lemma_i_am_read_after_whole_npdu(data: Seq<u8>, body: Seq<u8>, n: nat, service: Seq<u8>)
    requires
        bvlc_body(data) == Some(body),
        npdu_decoded_length(body) == Some(n),
        body.skip(n as int) == seq![UNCONFIRMED_REQUEST_PDU, I_AM_SERVICE] + service,
    ensures
        i_am_of(data) == i_am_decoded(service),
{
    let apdu = body.skip(n as int);
    assert(apdu.skip(2) =~= service);
}

/// A frame whose bytes after the NPDU are not an unconfirmed I-Am request,
/// or whose header or NPDU does not read, gives no device.
pub proof fn lemma_i_am_needs_i_am_apdu(data: Seq<u8>)
    requires
        match bvlc_body(data) {
            None => true,
            Some(body) => match npdu_decoded_length(body) {
                None => true,
                Some(n) => body.len() < n + 2 || body[n as int] != UNCONFIRMED_REQUEST_PDU
                    || body[n as int + 1] != I_AM_SERVICE,
            },
        },
    ensures
        i_am_of(data) is None,
{
}

/// Two frames that carry the same APDU after NPDUs of any lengths read as
/// the same device: a routed I-Am reads like a local one.
pub proof fn lemma_i_am_independent_of_npdu_length(
    d1: Seq<u8>,
    b1: Seq<u8>,
    n1: nat,
    d2: Seq<u8>,
    b2: Seq<u8>,
    n2: nat,
)
    requires
        bvlc_body(d1) == Some(b1),
        npdu_decoded_length(b1) == Some(n1),
        bvlc_body(d2) == Some(b2),
        npdu_decoded_length(b2) == Some(n2),
        b1.skip(n1 as int) == b2.skip(n2 as int),
    ensures
        i_am_of(d1) == i_am_of(d2),
{
}

/// Whether and how an I-Am frame is read does not depend on the BVLC
/// function byte: an I-Am sent as original-unicast reads as the same device
/// as one sent as original-broadcast (or forwarded).
pub proof fn lemma_i_am_ignores_bvlc_function(d1: Seq<u8>, d2: Seq<u8>)
    requires
        d1.len() == d2.len(),
        forall|k: int| 0 <= k < d1.len() && k != 1 ==> d1[k] == d2[k],
    ensures
        i_am_of(d1) == i_am_of(d2),
{
    if d1.len() >= 4 {
        assert(d1[0] == d2[0] && d1[2] == d2[2] && d1[3] == d2[3]);
        assert(d1.skip(4) =~= d2.skip(4));
    }
    assert(bvlc_body(d1) == bvlc_body(d2));
}

/// Where the answer for an object stands among the objects of a
/// ReadPropertyMultiple answer (object type number and instance of each):
/// the first with the same type and instance.
pub fn find_object_result(objects: &Vec<(u32, u32)>, object_type: u32, object_instance: u32) -> (r:
    Option<usize>)
    ensures
        match r {
            Some(i) => i < objects@.len() && objects@[i as int] == (object_type, object_instance)
                && forall|j: int|
                0 <= j < i ==> (#[trigger] objects@[j]) != (object_type, object_instance),
            None => forall|j: int|
                0 <= j < objects@.len() ==> (#[trigger] objects@[j]) != (
                    object_type,
                    object_instance,
                ),
        },
{
    let n = objects.len();
    let mut i: usize = 0;
    while i < n
        invariant
            n == objects@.len(),
            i <= n,
            forall|j: int| 0 <= j < i ==> (#[trigger] objects@[j]) != (object_type, object_instance),
        decreases n - i,
    {
        let (t, inst) = objects[i];
        if t == object_type && inst == object_instance {
            return Some(i);
        }
        i = i + 1;
    }
    None
}

/// Where the answer for a property stands among the property numbers of an
/// object's results: the first with the same number.
pub fn find_property_result(properties: &Vec<u32>, property: u32) -> (r: Option<usize>)
    ensures
        match r {
            Some(i) => i < properties@.len() && properties@[i as int] == property && forall|j: int|
                0 <= j < i ==> (#[trigger] properties@[j]) != property,
            None => forall|j: int| 0 <= j < properties@.len() ==> (#[trigger] properties@[j]) != property,
        },
{
    let n = properties.len();
    let mut i: usize = 0;
    while i < n
        invariant
            n == properties@.len(),
            i <= n,
            forall|j: int| 0 <= j < i ==> (#[trigger] properties@[j]) != property,
        decreases n - i,
    {
        if properties[i] == property {
            return Some(i);
        }
        i = i + 1;
    }
    None
}

/// How a discovered device's segmentation is shown: its `bacnet-rs` name,
/// or the bare code where it has none.
pub open spec fn segmentation_label_of(code: u32) -> Seq<char> {
    match crate::bacnet_codec::segmentation_text(code) {
        Some(t) => t,
        None => decimal(code as nat),
    }
}

/// A segmentation code is shown as `bacnet-rs` shows its `Segmentation`:
/// 0 Both, 1 Transmit, 2 Receive, 3 None; any other code as its decimal
/// number. The label is what the `segmentation_name` call gives wherever
/// that call gives a name.
pub proof fn lemma_segmentation_labels(code: u32)
    ensures
        code == 0 ==> segmentation_label_of(code) == "Both"@,
        code == 1 ==> segmentation_label_of(code) == "Transmit"@,
        code == 2 ==> segmentation_label_of(code) == "Receive"@,
        code == 3 ==> segmentation_label_of(code) == "None"@,
        code > 3 ==> segmentation_label_of(code) == decimal(code as nat),
        crate::bacnet_codec::segmentation_text(code) matches Some(t) ==> segmentation_label_of(code)
            == t,
{
}

/// The text shown for a segmentation code.
pub fn segmentation_label(code: u32) -> (s: String)
    ensures
        s@ == segmentation_label_of(code),
{
    match crate::bacnet_codec::segmentation_name(code) {
        Some(name) => name,
        None => decimal_string(code as u64),
    }
}

/// What a ReadPropertyMultiple answer holds for one property: its values,
/// each as its `Debug` text, or the BACnet error class and code.
pub struct PropertyAnswer {
    pub property: u32,
    pub values: Result<Vec<String>, (u32, u32)>,
}

/// What a ReadPropertyMultiple answer holds for one object.
pub struct ObjectAnswer {
    pub object_type: u32,
    pub object_instance: u32,
    pub properties: Vec<PropertyAnswer>,
}

/// The plain values of a property answer.
pub open spec fn property_answer_view(p: PropertyAnswer) -> (u32, Result<Seq<Seq<char>>, (u32, u32)>) {
    (
        p.property,
        match p.values {
            Ok(v) => Ok(strings_view(v@)),
            Err(e) => Err(e),
        },
    )
}

/// The plain values of an object answer.
pub open spec fn object_answer_view(o: ObjectAnswer) -> (u32, u32, Seq<(u32, Result<Seq<Seq<char>>, (u32, u32)>)>) {
    (o.object_type, o.object_instance, o.properties@.map_values(|p: PropertyAnswer| property_answer_view(p)))
}

/// The plain values of an answer.
pub open spec fn answers_view(answers: Seq<ObjectAnswer>) -> Seq<(u32, u32, Seq<(u32, Result<Seq<Seq<char>>, (u32, u32)>)>)> {
    answers.map_values(|o: ObjectAnswer| object_answer_view(o))
}

/// The lines of the read report and the error it stopped on, if any.
pub struct ReadReport {
    pub lines: Vec<String>,
    pub error: Option<String>,
}

/// The text of an optional error.
pub open spec fn error_view(e: Option<String>) -> Option<Seq<char>> {
    match e {
        Some(m) => Some(m@),
        None => None,
    }
}

/// Where `x` first stands in `s`.
pub open spec fn first_match<T>(s: Seq<T>, x: T) -> Option<int> {
    if exists|j: int| 0 <= j < s.len() && s[j] == x && forall|k: int| 0 <= k < j ==> s[k] != x {
        Some(choose|j: int| 0 <= j < s.len() && s[j] == x && forall|k: int| 0 <= k < j ==> s[k] != x)
    } else {
        None
    }
}

/// A search that returns the first position of `x`, or `None` where `x`
/// does not occur, agrees with [`first_match`].
proof fn lemma_first_match<T>(s: Seq<T>, x: T, r: Option<int>)
    requires
        match r {
            Some(i) => 0 <= i < s.len() && s[i] == x && forall|k: int| 0 <= k < i ==> s[k] != x,
            None => forall|k: int| 0 <= k < s.len() ==> s[k] != x,
        },
    ensures
        first_match(s, x) == r,
{
    match r {
        Some(i) => {
            assert(exists|j: int| 0 <= j < s.len() && s[j] == x && forall|k: int| 0 <= k < j ==> s[k] != x);
            let j = choose|j: int| 0 <= j < s.len() && s[j] == x && forall|k: int| 0 <= k < j ==> s[k] != x;
            if j < i {
                assert(s[j] != x);
            } else if i < j {
                assert(s[i] != x);
            }
        },
        None => {},
    }
}

/// The line shown for a property's answer.
pub open spec fn value_line(name: Seq<char>, v: Result<Seq<Seq<char>>, (u32, u32)>) -> Seq<char> {
    match v {
        Ok(vals) => if vals.len() > 0 {
            "  "@ + name + ": "@ + join(vals, ", "@)
        } else {
            "  "@ + name + ": <no values>"@
        },
        Err(e) => "  "@ + name + ": BACnet error class="@ + decimal(e.0 as nat) + " code="@ + decimal(e.1 as nat),
    }
}

/// The report of one property of an object: its line, or the refusal of its
/// name, or the note that the answer lacks it.
pub open spec fn property_entry(
    name: Seq<char>,
    props: Seq<(u32, Result<Seq<Seq<char>>, (u32, u32)>)>,
    id: Seq<char>,
) -> (Seq<Seq<char>>, Option<Seq<char>>) {
    match property_lookup(name) {
        Err(e) => (Seq::empty(), Some(e)),
        Ok(code) => match first_match(props.map_values(|p: (u32, Result<Seq<Seq<char>>, (u32, u32)>)| p.0), code) {
            None => (Seq::empty(), Some("missing property "@ + name + " for "@ + id)),
            Some(j) => (seq![value_line(name, props[j].1)], None),
        },
    }
}

/// The line of a property comes from the first answer entry with the same
/// property number, as if that entry were the object's only one.
pub proof fn lemma_property_entry_uses_first_match(
    name: Seq<char>,
    props: Seq<(u32, Result<Seq<Seq<char>>, (u32, u32)>)>,
    id: Seq<char>,
    code: u32,
    j: int,
)
    requires
        property_lookup(name) == Ok::<u32, Seq<char>>(code),
        0 <= j < props.len(),
        props[j].0 == code,
        forall|k: int| 0 <= k < j ==> (#[trigger] props[k]).0 != code,
    ensures
        property_entry(name, props, id) == property_entry(name, seq![props[j]], id),
        property_entry(name, props, id) == (seq![value_line(name, props[j].1)], None::<Seq<char>>),
{
    let codes = props.map_values(|p: (u32, Result<Seq<Seq<char>>, (u32, u32)>)| p.0);
    let one = seq![props[j]].map_values(|p: (u32, Result<Seq<Seq<char>>, (u32, u32)>)| p.0);
    assert forall|k: int| 0 <= k < j implies codes[k] != code by {
        assert(codes[k] == props[k].0);
    }
    lemma_first_match(codes, code, Some(j));
    assert(one[0] == code);
    lemma_first_match(one, code, Some(0));
}

/// A property that no answer entry carries is reported missing for the
/// object, with no line.
pub proof fn lemma_property_entry_missing(
    name: Seq<char>,
    props: Seq<(u32, Result<Seq<Seq<char>>, (u32, u32)>)>,
    id: Seq<char>,
    code: u32,
)
    requires
        property_lookup(name) == Ok::<u32, Seq<char>>(code),
        forall|k: int| 0 <= k < props.len() ==> (#[trigger] props[k]).0 != code,
    ensures
        property_entry(name, props, id) == (Seq::<Seq<char>>::empty(), Some(
            "missing property "@ + name + " for "@ + id,
        )),
{
    let codes = props.map_values(|p: (u32, Result<Seq<Seq<char>>, (u32, u32)>)| p.0);
    assert forall|k: int| 0 <= k < codes.len() implies codes[k] != code by {
        assert(codes[k] == props[k].0);
    }
    lemma_first_match(codes, code, None);
}

/// The report of an object's properties, in order, up to the first error.
pub open spec fn property_report(
    names: Seq<String>,
    props: Seq<(u32, Result<Seq<Seq<char>>, (u32, u32)>)>,
    id: Seq<char>,
) -> (Seq<Seq<char>>, Option<Seq<char>>)
    decreases names.len(),
{
    if names.len() == 0 {
        (Seq::empty(), None)
    } else {
        let (l1, e1) = property_entry(names[0]@, props, id);
        if e1 is Some {
            (l1, e1)
        } else {
            let (l2, e2) = property_report(names.drop_first(), props, id);
            (l1 + l2, e2)
        }
    }
}

/// The report of one read target: the object's line, its property lines and
/// a blank line, or up to the first error.
pub open spec fn target_report(
    t: ReadTarget,
    answers: Seq<(u32, u32, Seq<(u32, Result<Seq<Seq<char>>, (u32, u32)>)>)>,
) -> (Seq<Seq<char>>, Option<Seq<char>>) {
    match object_type_lookup(t.object_type@) {
        Err(e) => (Seq::empty(), Some(e)),
        Ok(ot) => {
            let id = object_identifier_debug(ot, t.object_instance);
            let head = seq!["Object "@ + id];
            match first_match(
                answers.map_values(|a: (u32, u32, Seq<(u32, Result<Seq<Seq<char>>, (u32, u32)>)>)| (a.0, a.1)),
                (ot, t.object_instance),
            ) {
                None => (head, Some("missing object result for "@ + id)),
                Some(i) => {
                    let (pl, pe) = property_report(t.properties@, answers[i].2, id);
                    if pe is Some {
                        (head + pl, pe)
                    } else {
                        (head + pl + seq![Seq::<char>::empty()], None)
                    }
                },
            }
        },
    }
}

/// The lines of a read target come from the first answer whose object type
/// and instance both equal the target's: the report is the one that answer
/// alone would give, whatever other answers (of the same instance and
/// another type among them) stand before or after it.
pub proof fn lemma_target_report_uses_first_exact_answer(
    t: ReadTarget,
    answers: Seq<(u32, u32, Seq<(u32, Result<Seq<Seq<char>>, (u32, u32)>)>)>,
    object_type: u32,
    i: int,
)
    requires
        object_type_lookup(t.object_type@) == Ok::<u32, Seq<char>>(object_type),
        0 <= i < answers.len(),
        answers[i].0 == object_type,
        answers[i].1 == t.object_instance,
        forall|k: int|
            0 <= k < i ==> !((#[trigger] answers[k]).0 == object_type && answers[k].1
                == t.object_instance),
    ensures
        target_report(t, answers) == target_report(t, seq![answers[i]]),
{
    let key = (object_type, t.object_instance);
    let keys = answers.map_values(
        |a: (u32, u32, Seq<(u32, Result<Seq<Seq<char>>, (u32, u32)>)>)| (a.0, a.1),
    );
    let one = seq![answers[i]];
    let one_keys = one.map_values(
        |a: (u32, u32, Seq<(u32, Result<Seq<Seq<char>>, (u32, u32)>)>)| (a.0, a.1),
    );
    assert forall|k: int| 0 <= k < i implies keys[k] != key by {
        assert(keys[k] == (answers[k].0, answers[k].1));
    }
    lemma_first_match(keys, key, Some(i));
    assert(one_keys[0] == key);
    lemma_first_match(one_keys, key, Some(0));
}

/// A read target that no answer matches in both object type and instance
/// is reported missing, as with no answers at all: an answer for another
/// object of the same instance is never taken for it.
pub proof fn lemma_target_report_without_exact_answer(
    t: ReadTarget,
    answers: Seq<(u32, u32, Seq<(u32, Result<Seq<Seq<char>>, (u32, u32)>)>)>,
    object_type: u32,
)
    requires
        object_type_lookup(t.object_type@) == Ok::<u32, Seq<char>>(object_type),
        forall|k: int|
            0 <= k < answers.len() ==> !((#[trigger] answers[k]).0 == object_type
                && answers[k].1 == t.object_instance),
    ensures
        target_report(t, answers) == target_report(t, Seq::empty()),
        target_report(t, answers).1 is Some,
{
    let key = (object_type, t.object_instance);
    let keys = answers.map_values(
        |a: (u32, u32, Seq<(u32, Result<Seq<Seq<char>>, (u32, u32)>)>)| (a.0, a.1),
    );
    let none = Seq::<(u32, u32, Seq<(u32, Result<Seq<Seq<char>>, (u32, u32)>)>)>::empty();
    assert forall|k: int| 0 <= k < keys.len() implies keys[k] != key by {
        assert(keys[k] == (answers[k].0, answers[k].1));
    }
    lemma_first_match(keys, key, None);
    lemma_first_match(
        none.map_values(|a: (u32, u32, Seq<(u32, Result<Seq<Seq<char>>, (u32, u32)>)>)| (a.0, a.1)),
        key,
        None,
    );
}

/// The report of all read targets, in order, up to the first error.
pub open spec fn read_report(
    reads: Seq<ReadTarget>,
    answers: Seq<(u32, u32, Seq<(u32, Result<Seq<Seq<char>>, (u32, u32)>)>)>,
) -> (Seq<Seq<char>>, Option<Seq<char>>)
    decreases reads.len(),
{
    if reads.len() == 0 {
        (Seq::empty(), None)
    } else {
        let (l1, e1) = target_report(reads[0], answers);
        if e1 is Some {
            (l1, e1)
        } else {
            let (l2, e2) = read_report(reads.drop_first(), answers);
            (l1 + l2, e2)
        }
    }
}

fn value_line_exec(name: &String, v: &Result<Vec<String>, (u32, u32)>) -> (s: String)
    ensures
        s@ == value_line(
            name@,
            match v {
                Ok(vals) => Ok(strings_view(vals@)),
                Err(e) => Err(*e),
            },
        ),
{
    match v {
        Ok(vals) => {
            if vals.len() > 0 {
                let joined = join_strings(vals, ", ");
                let head = concat3("  ", name.as_str(), ": ");
                head.concat(joined.as_str())
            } else {
                concat3("  ", name.as_str(), ": <no values>")
            }
        },
        Err((class, code)) => {
            let class_text = decimal_string(*class as u64);
            let code_text = decimal_string(*code as u64);
            let head = concat3("  ", name.as_str(), ": BACnet error class=");
            let tail = concat3(class_text.as_str(), " code=", code_text.as_str());
            head.concat(tail.as_str())
        },
    }
}

fn push_line(lines: &mut Vec<String>, line: String)
    ensures
        strings_view(final(lines)@) == strings_view(old(lines)@).push(line@),
{
    lines.push(line);
    assert(strings_view(lines@) =~= strings_view(old(lines)@).push(line@));
}

fn property_entry_exec(
    name: &String,
    props: &Vec<PropertyAnswer>,
    codes: &Vec<u32>,
    id: &String,
    lines: &mut Vec<String>,
) -> (e: Option<String>)
    requires
        codes@ == props@.map_values(|p: PropertyAnswer| p.property),
    ensures
        strings_view(final(lines)@) == strings_view(old(lines)@) + property_entry(
            name@,
            props@.map_values(|p: PropertyAnswer| property_answer_view(p)),
            id@,
        ).0,
        error_view(e) == property_entry(
            name@,
            props@.map_values(|p: PropertyAnswer| property_answer_view(p)),
            id@,
        ).1,
{
    let ghost pv = props@.map_values(|p: PropertyAnswer| property_answer_view(p));
    assert(pv.map_values(|p: (u32, Result<Seq<Seq<char>>, (u32, u32)>)| p.0) =~= codes@);
    let code = match parse_property_identifier(name.as_str()) {
        Ok(c) => c,
        Err(e) => {
            assert(strings_view(lines@) + Seq::<Seq<char>>::empty() =~= strings_view(lines@));
            return Some(e);
        },
    };
    let found = find_property_result(codes, code);
    proof {
        lemma_first_match(codes@, code, match found {
            Some(j) => Some(j as int),
            None => None,
        });
    }
    match found {
        None => {
            assert(strings_view(lines@) + Seq::<Seq<char>>::empty() =~= strings_view(lines@));
            let head = concat3("missing property ", name.as_str(), " for ");
            Some(head.concat(id.as_str()))
        },
        Some(j) => {
            let line = value_line_exec(name, &props[j].values);
            push_line(lines, line);
            assert(strings_view(old(lines)@).push(line@) =~= strings_view(old(lines)@) + seq![line@]);
            None
        },
    }
}

fn target_entry_exec(
    target: &ReadTarget,
    answers: &Vec<ObjectAnswer>,
    keys: &Vec<(u32, u32)>,
    lines: &mut Vec<String>,
) -> (e: Option<String>)
    requires
        keys@ == answers@.map_values(|a: ObjectAnswer| (a.object_type, a.object_instance)),
    ensures
        strings_view(final(lines)@) == strings_view(old(lines)@) + target_report(
            *target,
            answers_view(answers@),
        ).0,
        error_view(e) == target_report(*target, answers_view(answers@)).1,
{
    let ghost av = answers_view(answers@);
    assert(av.map_values(|a: (u32, u32, Seq<(u32, Result<Seq<Seq<char>>, (u32, u32)>)>)| (a.0, a.1))
        =~= keys@);
    let object_type = match parse_object_type(target.object_type.as_str()) {
        Ok(t) => t,
        Err(e) => {
            assert(strings_view(lines@) + Seq::<Seq<char>>::empty() =~= strings_view(lines@));
            return Some(e);
        },
    };
    let ghost start = strings_view(lines@);
    let id = object_id_text(object_type, target.object_instance);
    let ghost head = seq!["Object "@ + id@];
    push_line(lines, concat2("Object ", id.as_str()));
    let ghost after_head = strings_view(lines@);
    assert(after_head =~= start + head);
    let found = find_object_result(keys, object_type, target.object_instance);
    proof {
        lemma_first_match(keys@, (object_type, target.object_instance), match found {
            Some(j) => Some(j as int),
            None => None,
        });
    }
    let i = match found {
        None => {
            return Some(concat2("missing object result for ", id.as_str()));
        },
        Some(i) => i,
    };
    let props = &answers[i].properties;
    let ghost pv = props@.map_values(|p: PropertyAnswer| property_answer_view(p));
    assert(av[i as int].2 == pv);
    let n = props.len();
    let mut codes: Vec<u32> = Vec::new();
    let mut k: usize = 0;
    while k < n
        invariant
            n == props@.len(),
            k <= n,
            codes@.len() == k,
            forall|m: int| 0 <= m < k ==> codes@[m] == (#[trigger] props@[m]).property,
        decreases n - k,
    {
        codes.push(props[k].property);
        k = k + 1;
    }
    assert(codes@ =~= props@.map_values(|p: PropertyAnswer| p.property));
    let names = &target.properties;
    let count = names.len();
    let mut j: usize = 0;
    assert(names@.skip(0) =~= names@);
    let ghost tr = target_report(*target, av);
    let ghost pr = property_report(names@, pv, id@);
    assert(tr == (if pr.1 is Some {
        (head + pr.0, pr.1)
    } else {
        (head + pr.0 + seq![Seq::<char>::empty()], pr.1)
    }));
    while j < count
        invariant
            count == names@.len(),
            j <= count,
            after_head == start + head,
            pr == property_report(names@, pv, id@),
            tr == target_report(*target, answers_view(answers@)),
            start == strings_view(old(lines)@),
            tr == (if pr.1 is Some {
                (head + pr.0, pr.1)
            } else {
                (head + pr.0 + seq![Seq::<char>::empty()], pr.1)
            }),
            codes@ == props@.map_values(|p: PropertyAnswer| p.property),
            pv == props@.map_values(|p: PropertyAnswer| property_answer_view(p)),
            after_head + property_report(names@, pv, id@).0 == strings_view(lines@) + property_report(
                names@.skip(j as int),
                pv,
                id@,
            ).0,
            property_report(names@, pv, id@).1 == property_report(names@.skip(j as int), pv, id@).1,
            property_report(names@.skip(j as int), pv, id@).1 is Some ==> property_report(names@.skip(j as int), pv, id@).1
                == property_report(names@, pv, id@).1,
        decreases count - j,
    {
        let ghost before = strings_view(lines@);
        let ghost rest = names@.skip(j as int);
        assert(rest[0] == names@[j as int]);
        assert(rest.drop_first() =~= names@.skip(j as int + 1));
        let err = property_entry_exec(&names[j], props, &codes, &id, lines);
        let ghost entry = property_entry(names@[j as int]@, pv, id@);
        if err.is_some() {
            assert(property_report(rest, pv, id@) == entry);
            assert(start + (head + pr.0) =~= (start + head) + pr.0);
            return err;
        }
        assert(property_report(rest, pv, id@).0 == entry.0 + property_report(names@.skip(j as int + 1), pv, id@).0);
        assert(before + (entry.0 + property_report(names@.skip(j as int + 1), pv, id@).0) =~= (before + entry.0)
            + property_report(names@.skip(j as int + 1), pv, id@).0);
        j = j + 1;
    }
    assert(names@.skip(count as int).len() == 0);
    assert(strings_view(lines@) + Seq::<Seq<char>>::empty() =~= strings_view(lines@));
    let ghost before_blank = strings_view(lines@);
    push_line(lines, String::new());
    assert(start + (head + pr.0 + seq![Seq::<char>::empty()]) =~= before_blank.push(Seq::<char>::empty()));
    None
}

/// The report of a ReadPropertyMultiple answer, target by target: for each,
/// the object's line, one line per configured property (its values, `<no
/// values>`, or the BACnet error class and code) and a blank line. It stops
/// at the first target whose object type or property name is refused, or
/// whose object or property the answer lacks, with that error.
pub fn read_props_report(reads: &Vec<ReadTarget>, answers: &Vec<ObjectAnswer>) -> (r: ReadReport)
    ensures
        strings_view(r.lines@) == read_report(reads@, answers_view(answers@)).0,
        error_view(r.error) == read_report(reads@, answers_view(answers@)).1,
{
    let ghost av = answers_view(answers@);
    let m = answers.len();
    let mut keys: Vec<(u32, u32)> = Vec::new();
    let mut k: usize = 0;
    while k < m
        invariant
            m == answers@.len(),
            k <= m,
            keys@.len() == k,
            forall|i: int|
                0 <= i < k ==> keys@[i] == ((#[trigger] answers@[i]).object_type, answers@[i].object_instance),
        decreases m - k,
    {
        keys.push((answers[k].object_type, answers[k].object_instance));
        k = k + 1;
    }
    assert(keys@ =~= answers@.map_values(|a: ObjectAnswer| (a.object_type, a.object_instance)));
    let mut lines: Vec<String> = Vec::new();
    let n = reads.len();
    let mut i: usize = 0;
    assert(reads@.skip(0) =~= reads@);
    assert(strings_view(lines@) =~= Seq::<Seq<char>>::empty());
    while i < n
        invariant
            n == reads@.len(),
            i <= n,
            av == answers_view(answers@),
            keys@ == answers@.map_values(|a: ObjectAnswer| (a.object_type, a.object_instance)),
            read_report(reads@, av).0 == strings_view(lines@) + read_report(reads@.skip(i as int), av).0,
            read_report(reads@, av).1 == read_report(reads@.skip(i as int), av).1,
        decreases n - i,
    {
        let ghost before = strings_view(lines@);
        let ghost rest = reads@.skip(i as int);
        assert(rest[0] == reads@[i as int]);
        assert(rest.drop_first() =~= reads@.skip(i as int + 1));
        let err = target_entry_exec(&reads[i], answers, &keys, &mut lines);
        let ghost entry = target_report(reads@[i as int], av);
        if err.is_some() {
            return ReadReport { lines, error: err };
        }
        assert(before + (entry.0 + read_report(reads@.skip(i as int + 1), av).0) =~= (before + entry.0)
            + read_report(reads@.skip(i as int + 1), av).0);
        i = i + 1;
    }
    assert(reads@.skip(n as int).len() == 0);
    assert(strings_view(lines@) + Seq::<Seq<char>>::empty() =~= strings_view(lines@));
    ReadReport { lines, error: None }
}

} // verus!
