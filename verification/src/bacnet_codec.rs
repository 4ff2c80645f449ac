//! BACnet network and application layer encodings, through `bacnet-rs`.
//!
//! Each item below calls one `bacnet-rs` function. Where the source shows
//! its result in a few lines, the contract states it; the rest is named.

use vstd::prelude::*;

use bacnet_rs::app::{Apdu, MaxApduSize, MaxSegments};
use bacnet_rs::network::Npdu;
use bacnet_rs::object::{ObjectIdentifier, ObjectType, PropertyIdentifier, Segmentation};
use bacnet_rs::service::{
    ConfirmedServiceChoice, IAmRequest, PropertyReference, ReadAccessSpecification,
    ReadPropertyMultipleRequest, WhoIsRequest,
};

verus! {

/// `bacnet-rs`'s segment limit type, carried opaquely.
#[verifier::external_type_specification]
#[verifier::external_body]
pub struct ExMaxSegments(MaxSegments);

/// `bacnet-rs`'s APDU size limit type, carried opaquely.
#[verifier::external_type_specification]
#[verifier::external_body]
pub struct ExMaxApduSize(MaxApduSize);

/// Unconfirmed service choice of I-Am.
pub const I_AM_SERVICE: u8 = 0;

/// Unconfirmed service choice of Who-Is.
pub const WHO_IS_SERVICE: u8 = 8;

/// Confirmed service choice of ReadPropertyMultiple.
pub const READ_PROPERTY_MULTIPLE_SERVICE: u8 = 14;

/// The first APDU byte of an unconfirmed request.
pub const UNCONFIRMED_REQUEST_PDU: u8 = 0x10;

/// One object of a ReadPropertyMultiple request: object type number,
/// instance, and the property numbers to read.
#[derive(Clone)]
pub struct AccessSpec {
    pub object_type: u32,
    pub object_instance: u32,
    pub properties: Vec<u32>,
}

/// The plain values of a list of access specifications.
pub open spec fn access_specs_view(specs: Seq<AccessSpec>) -> Seq<(u32, u32, Seq<u32>)> {
    specs.map_values(|s: AccessSpec| (s.object_type, s.object_instance, s.properties@))
}

/// Where a network address that starts at `pos` ends: two bytes of network
/// number, a length byte, then that many bytes of MAC address. `None` where
/// the data ends first.
pub open spec fn npdu_address_end(data: Seq<u8>, pos: int) -> Option<int> {
    if pos + 3 > data.len() {
        None
    } else if pos + 3 + data[pos + 2] > data.len() {
        None
    } else {
        Some(pos + 3 + data[pos + 2])
    }
}

/// The length of the NPDU at the start of `data` as `Npdu::decode` reads it,
/// or `None` where it refuses the bytes: version 1, the control byte, the
/// destination address where control bit 0x20 is set, the source address
/// where bit 0x08 is set, and a hop count byte after a destination.
pub open spec fn npdu_decoded_length(data: Seq<u8>) -> Option<nat> {
    if data.len() < 2 || data[0] != 1 {
        None
    } else {
        let has_destination = data[1] & 0x20 != 0;
        let has_source = data[1] & 0x08 != 0;
        let after_destination = if has_destination {
            npdu_address_end(data, 2)
        } else {
            Some(2int)
        };
        match after_destination {
            None => None,
            Some(p) => {
                let after_source = if has_source {
                    npdu_address_end(data, p)
                } else {
                    Some(p)
                };
                match after_source {
                    None => None,
                    Some(q) => if !has_destination {
                        Some(q as nat)
                    } else if q >= data.len() {
                        None
                    } else {
                        Some((q + 1) as nat)
                    },
                }
            },
        }
    }
}

/// The fields `IAmRequest::decode` reads from an I-Am service body: device
/// instance, maximum APDU length, segmentation code and vendor id.
pub uninterp spec fn i_am_decoded(data: Seq<u8>) -> Option<(u32, u32, u32, u16)>;

/// The name `bacnet-rs` lists for a vendor id, if it lists one.
pub uninterp spec fn bacnet_vendor_name(vendor_id: u16) -> Option<Seq<char>>;

/// Whether `bacnet-rs` knows a confirmed service choice code
/// (`ConfirmedServiceChoice::try_from`): the codes 0 to 12, 14 to 17,
/// 20 to 26, 28, 29 and 34.
pub open spec fn confirmed_choice_known(code: u8) -> bool {
    code <= 12 || (14 <= code && code <= 17) || (20 <= code && code <= 26) || code == 28 || code
        == 29 || code == 34
}

/// The invoke id and service data of a complex acknowledgement, where
/// `Apdu::decode` reads `data` as one: the PDU type in the high nibble of the
/// first byte is 3, the invoke id follows, then (where the segmented flag
/// 0x08 is set) two segment bytes, then a known confirmed service choice; the
/// rest is the service data.
pub open spec fn complex_ack_decoded(data: Seq<u8>) -> Option<(u8, Seq<u8>)> {
    if data.len() < 3 || (data[0] >> 4u8) & 0x0F != 3 {
        None
    } else {
        let choice_at: int = if data[0] & 0x08 != 0 {
            4
        } else {
            2
        };
        if choice_at >= data.len() || !confirmed_choice_known(data[choice_at]) {
            None
        } else {
            Some((data[1], data.skip(choice_at + 1)))
        }
    }
}

/// How many segments of a segmented answer a request accepts.
#[derive(Clone, Copy, PartialEq, Eq, Structural)]
pub enum SegmentLimit {
    Unspecified,
    Two,
    Four,
    Eight,
    Sixteen,
    ThirtyTwo,
    SixtyFour,
    GreaterThan64,
}

/// The BACnet code of a segment limit.
pub open spec fn segment_limit_code(s: SegmentLimit) -> u8 {
    match s {
        SegmentLimit::Unspecified => 0,
        SegmentLimit::Two => 1,
        SegmentLimit::Four => 2,
        SegmentLimit::Eight => 3,
        SegmentLimit::Sixteen => 4,
        SegmentLimit::ThirtyTwo => 5,
        SegmentLimit::SixtyFour => 6,
        SegmentLimit::GreaterThan64 => 7,
    }
}

/// The largest APDU a request accepts in an answer.
#[derive(Clone, Copy, PartialEq, Eq, Structural)]
pub enum ApduSizeLimit {
    Up50,
    Up128,
    Up206,
    Up480,
    Up1024,
    Up1476,
}

/// The BACnet code of an APDU size limit.
pub open spec fn apdu_size_limit_code(s: ApduSizeLimit) -> u8 {
    match s {
        ApduSizeLimit::Up50 => 0,
        ApduSizeLimit::Up128 => 1,
        ApduSizeLimit::Up206 => 2,
        ApduSizeLimit::Up480 => 3,
        ApduSizeLimit::Up1024 => 4,
        ApduSizeLimit::Up1476 => 5,
    }
}

/// The code `bacnet-rs` gives a `MaxSegments` value (`as u8`).
pub uninterp spec fn max_segments_code(m: MaxSegments) -> u8;

/// The code `bacnet-rs` gives a `MaxApduSize` value (`as u8`).
pub uninterp spec fn max_apdu_size_code(m: MaxApduSize) -> u8;

/// The header of a confirmed request: segmentation flags, the limits the
/// answer must keep to, and the segment fields of a segmented request.
#[derive(Clone, Copy)]
pub struct RequestHeader {
    pub segmented: bool,
    pub more_follows: bool,
    pub segmented_response_accepted: bool,
    pub max_segments: SegmentLimit,
    pub max_response_size: ApduSizeLimit,
    pub sequence_number: Option<u8>,
    pub proposed_window_size: Option<u8>,
}

/// The first byte of a confirmed request APDU: type 0 and the three flags.
pub open spec fn confirmed_pdu_byte(segmented: bool, more_follows: bool, segmented_response_accepted: bool) -> u8 {
    ((if segmented { 8int } else { 0int }) + (if more_follows { 4int } else { 0int }) + (
    if segmented_response_accepted {
        2int
    } else {
        0int
    })) as u8
}

/// The segment fields written for a segmented request.
pub open spec fn segment_bytes(
    segmented: bool,
    sequence_number: Option<u8>,
    proposed_window_size: Option<u8>,
) -> Seq<u8> {
    if segmented {
        (match sequence_number {
            Some(n) => seq![n],
            None => Seq::empty(),
        }) + (match proposed_window_size {
            Some(w) => seq![w],
            None => Seq::empty(),
        })
    } else {
        Seq::empty()
    }
}

/// The bytes of a confirmed request APDU whose limits byte is `max_info`.
pub open spec fn confirmed_request_bytes(
    segmented: bool,
    more_follows: bool,
    segmented_response_accepted: bool,
    max_info: u8,
    invoke_id: u8,
    sequence_number: Option<u8>,
    proposed_window_size: Option<u8>,
    service_choice: u8,
    service_data: Seq<u8>,
) -> Seq<u8> {
    seq![confirmed_pdu_byte(segmented, more_follows, segmented_response_accepted), max_info, invoke_id]
        + segment_bytes(segmented, sequence_number, proposed_window_size) + seq![service_choice]
        + service_data
}

/// The bytes of a confirmed request APDU with the given header.
pub open spec fn confirmed_request_apdu(
    h: RequestHeader,
    invoke_id: u8,
    service_choice: u8,
    service_data: Seq<u8>,
) -> Seq<u8> {
    confirmed_request_bytes(
        h.segmented,
        h.more_follows,
        h.segmented_response_accepted,
        (segment_limit_code(h.max_segments) * 16 + apdu_size_limit_code(h.max_response_size)) as u8,
        invoke_id,
        h.sequence_number,
        h.proposed_window_size,
        service_choice,
        service_data,
    )
}

/// A BACnet unsigned value in as few bytes as hold it (one at least), most
/// significant first.
pub open spec fn unsigned_bytes(v: u32) -> Seq<u8> {
    if v <= 0xFF {
        seq![v as u8]
    } else if v <= 0xFFFF {
        seq![(v / 0x100) as u8, (v % 0x100) as u8]
    } else if v <= 0xFF_FFFF {
        seq![(v / 0x1_0000) as u8, (v / 0x100 % 0x100) as u8, (v % 0x100) as u8]
    } else {
        seq![
            (v / 0x100_0000) as u8,
            (v / 0x1_0000 % 0x100) as u8,
            (v / 0x100 % 0x100) as u8,
            (v % 0x100) as u8,
        ]
    }
}

/// A property reference: the property number as an enumerated value under
/// context tag 0 (tag byte 0x08 plus the value's length).
pub open spec fn property_reference_bytes(property: u32) -> Seq<u8> {
    seq![(0x08 + unsigned_bytes(property).len()) as u8] + unsigned_bytes(property)
}

/// The property references of a list, one after another.
pub open spec fn property_references_bytes(properties: Seq<u32>) -> Seq<u8>
    decreases properties.len(),
{
    if properties.len() == 0 {
        Seq::empty()
    } else {
        property_references_bytes(properties.drop_last()) + property_reference_bytes(
            properties.last(),
        )
    }
}

/// Whether an object identifier can be encoded: a type number of ten bits
/// and an instance of twenty-two.
pub open spec fn object_id_in_range(object_type: u32, instance: u32) -> bool {
    object_type <= 0x3FF && instance <= 0x3F_FFFF
}

/// One access specification: the object identifier under context tag 0
/// (0x0C, then the type shifted left by 22 bits with the instance, in four
/// bytes), the opening tag 1 (0x1E), the property references, and the
/// closing tag 1 (0x1F).
pub open spec fn access_spec_bytes(object_type: u32, instance: u32, properties: Seq<u32>) -> Seq<
    u8,
> {
    let id = object_type * 0x40_0000 + instance;
    seq![
        0x0Cu8,
        (id / 0x100_0000) as u8,
        (id / 0x1_0000 % 0x100) as u8,
        (id / 0x100 % 0x100) as u8,
        (id % 0x100) as u8,
        0x1Eu8,
    ] + property_references_bytes(properties) + seq![0x1Fu8]
}

/// The bytes `ReadPropertyMultipleRequest::encode` writes for a list of
/// access specifications: each specification in turn; or, where an object
/// identifier is out of range, the text of its error.
pub open spec fn read_property_multiple_encoding(specs: Seq<(u32, u32, Seq<u32>)>) -> Result<
    Seq<u8>,
    Seq<char>,
>
    decreases specs.len(),
{
    if specs.len() == 0 {
        Ok(Seq::empty())
    } else {
        match read_property_multiple_encoding(specs.drop_last()) {
            Err(e) => Err(e),
            Ok(before) => {
                let s = specs.last();
                if object_id_in_range(s.0, s.1) {
                    Ok(before + access_spec_bytes(s.0, s.1, s.2))
                } else {
                    Err("Value out of valid range"@)
                }
            },
        }
    }
}

/// Calls `Npdu::decode` and keeps the length it consumed:
/// `npdu_decoded_length`, as the source reads the header.
#[verifier::external_body]
pub fn decode_npdu_len(data: &[u8]) -> (r: Option<usize>)
    ensures
        r is Some <==> npdu_decoded_length(data@) is Some,
        r is Some ==> npdu_decoded_length(data@) == Some(r.unwrap() as nat),
{
    Npdu::decode(data).ok().map(|(_npdu, len)| len)
}

/// Calls `Npdu::global_broadcast().encode()`: version 1, control 0x20
/// (destination present), destination network 0xFFFF with an empty MAC, hop
/// count 255.
#[verifier::external_body]
pub fn global_broadcast_npdu() -> (r: Vec<u8>)
    ensures
        r@ == seq![1u8, 0x20u8, 0xFFu8, 0xFFu8, 0u8, 0xFFu8],
{
    Npdu::global_broadcast().encode()
}

/// Calls `Npdu::new()` with the expecting-reply flag set as given, then
/// `encode()`: version 1 and the control byte (0x04 when a reply is
/// expected), with no addresses.
#[verifier::external_body]
pub fn local_npdu(expecting_reply: bool) -> (r: Vec<u8>)
    ensures
        r@ == seq![1u8, if expecting_reply { 0x04u8 } else { 0u8 }],
{
    let mut npdu = Npdu::new();
    npdu.control.expecting_reply = expecting_reply;
    npdu.encode()
}

/// Calls `WhoIsRequest::new().encode`: a Who-Is for all devices has no
/// service data, and its encoding does not fail.
#[verifier::external_body]
pub fn who_is_all_service_data() -> (r: Option<Vec<u8>>)
    ensures
        r is Some,
        r.unwrap()@ == Seq::<u8>::empty(),
{
    let mut data = Vec::new();
    WhoIsRequest::new().encode(&mut data).ok().map(|_| data)
}

/// Calls `IAmRequest::decode` and keeps its fields as plain numbers: the
/// named `i_am_decoded`.
#[verifier::external_body]
pub fn decode_i_am(data: &[u8]) -> (r: Option<(u32, u32, u32, u16)>)
    ensures
        r == i_am_decoded(data@),
{
    IAmRequest::decode(data).ok().map(
        |i| {
            (
                i.device_identifier.instance,
                i.max_apdu_length_accepted,
                i.segmentation_supported as u32,
                i.vendor_identifier,
            )
        },
    )
}

/// Calls `bacnet_rs::vendor::get_vendor_name`: the named
/// `bacnet_vendor_name`.
#[verifier::external_body]
pub fn vendor_name(vendor_id: u16) -> (r: Option<String>)
    ensures
        r is Some <==> bacnet_vendor_name(vendor_id) is Some,
        r is Some ==> bacnet_vendor_name(vendor_id) == Some(r.unwrap()@),
{
    bacnet_rs::vendor::get_vendor_name(vendor_id).map(|name| name.to_string())
}

/// Calls `Apdu::decode` and keeps the invoke id and service data of a
/// complex acknowledgement: `complex_ack_decoded`, as the source reads it.
#[verifier::external_body]
pub fn decode_complex_ack(data: &[u8]) -> (r: Option<(u8, Vec<u8>)>)
    ensures
        r is Some <==> complex_ack_decoded(data@) is Some,
        r is Some ==> complex_ack_decoded(data@) == Some((r.unwrap().0, r.unwrap().1@)),
{
    match Apdu::decode(data) {
        Ok(Apdu::ComplexAck { invoke_id, service_data, .. }) => Some((invoke_id, service_data)),
        _ => None,
    }
}

/// Converts a segment limit to `bacnet-rs`'s `MaxSegments`, variant for
/// variant (the source numbers them 0 to 7 in this order).
#[verifier::external_body]
pub fn max_segments(s: SegmentLimit) -> (m: MaxSegments)
    ensures
        max_segments_code(m) == segment_limit_code(s),
{
    match s {
        SegmentLimit::Unspecified => MaxSegments::Unspecified,
        SegmentLimit::Two => MaxSegments::Two,
        SegmentLimit::Four => MaxSegments::Four,
        SegmentLimit::Eight => MaxSegments::Eight,
        SegmentLimit::Sixteen => MaxSegments::Sixteen,
        SegmentLimit::ThirtyTwo => MaxSegments::ThirtyTwo,
        SegmentLimit::SixtyFour => MaxSegments::SixtyFour,
        SegmentLimit::GreaterThan64 => MaxSegments::GreaterThan64,
    }
}

/// Converts an APDU size limit to `bacnet-rs`'s `MaxApduSize`, variant for
/// variant (the source numbers them 0 to 5 in this order).
#[verifier::external_body]
pub fn max_apdu_size(s: ApduSizeLimit) -> (m: MaxApduSize)
    ensures
        max_apdu_size_code(m) == apdu_size_limit_code(s),
{
    match s {
        ApduSizeLimit::Up50 => MaxApduSize::Up50,
        ApduSizeLimit::Up128 => MaxApduSize::Up128,
        ApduSizeLimit::Up206 => MaxApduSize::Up206,
        ApduSizeLimit::Up480 => MaxApduSize::Up480,
        ApduSizeLimit::Up1024 => MaxApduSize::Up1024,
        ApduSizeLimit::Up1476 => MaxApduSize::Up1476,
    }
}

/// Calls `Apdu::encode` on a confirmed request made of the given fields.
/// The source shows the bytes: the type-and-flags byte, the segment limit
/// and size limit codes in one byte, the invoke id, the segment fields of a
/// segmented request, the service choice, then the service data. `None`
/// where `bacnet-rs` has no confirmed service with that choice code.
#[verifier::external_body]
pub fn encode_confirmed_request(
    segmented: bool,
    more_follows: bool,
    segmented_response_accepted: bool,
    max_segments: MaxSegments,
    max_response_size: MaxApduSize,
    invoke_id: u8,
    sequence_number: Option<u8>,
    proposed_window_size: Option<u8>,
    service_choice: u8,
    service_data: Vec<u8>,
) -> (r: Option<Vec<u8>>)
    ensures
        r is Some <==> confirmed_choice_known(service_choice),
        r is Some ==> r.unwrap()@ == confirmed_request_bytes(
            segmented,
            more_follows,
            segmented_response_accepted,
            (max_segments_code(max_segments) * 16 + max_apdu_size_code(max_response_size)) as u8,
            invoke_id,
            sequence_number,
            proposed_window_size,
            service_choice,
            service_data@,
        ),
{
    let choice = ConfirmedServiceChoice::try_from(service_choice).ok()?;
    Some(Apdu::ConfirmedRequest {
        segmented, more_follows, segmented_response_accepted, max_segments, max_response_size,
        invoke_id, sequence_number, proposed_window_size, service_choice: choice, service_data,
    }.encode())
}

/// Calls `ReadPropertyMultipleRequest::encode` on the request built from the
/// specifications (each number converted to its `bacnet-rs` enum with
/// `From<u32>`, which the encoder turns back into the same number):
/// `read_property_multiple_encoding`, the error kept as its display text.
#[verifier::external_body]
pub fn encode_read_property_multiple(specs: &Vec<AccessSpec>) -> (r: Result<Vec<u8>, String>)
    ensures
        read_property_multiple_encoding(access_specs_view(specs@)) == match r {
            Ok(b) => Ok(b@),
            Err(e) => Err(e@),
        },
{
    let specs = specs.iter().map(|s| ReadAccessSpecification::new(
        ObjectIdentifier::new(ObjectType::from(s.object_type), s.object_instance),
        s.properties.iter().map(|p| PropertyReference::new(PropertyIdentifier::from(*p))).collect(),
    )).collect();
    let mut data = Vec::new();
    ReadPropertyMultipleRequest::new(specs).encode(&mut data).map(|_| data).map_err(|e| e.to_string())
}

/// How `bacnet-rs` shows a segmentation code: the `Display` text of the
/// `Segmentation` that `try_from` gives, where the code is one.
pub open spec fn segmentation_text(code: u32) -> Option<Seq<char>> {
    if code == 0 {
        Some("Both"@)
    } else if code == 1 {
        Some("Transmit"@)
    } else if code == 2 {
        Some("Receive"@)
    } else if code == 3 {
        Some("None"@)
    } else {
        None
    }
}

/// Calls `Segmentation::try_from` and shows the value with `Display`: the
/// source maps 0 to 3 to Both, Transmit, Receive and NoSegmentation (shown
/// as "None") and refuses other codes.
#[verifier::external_body]
pub fn segmentation_name(code: u32) -> (r: Option<String>)
    ensures
        r is Some <==> segmentation_text(code) is Some,
        r is Some ==> segmentation_text(code) == Some(r.unwrap()@),
{
    Segmentation::try_from(code).ok().map(|s| s.to_string())
}

/// The `Debug` text of the `ObjectIdentifier` with the given object type
/// number (converted with `ObjectType::from`) and instance.
pub uninterp spec fn object_identifier_debug(object_type: u32, instance: u32) -> Seq<char>;

/// Formats an object identifier with `Debug`: the named
/// `object_identifier_debug`.
#[verifier::external_body]
pub fn object_id_text(object_type: u32, instance: u32) -> (r: String)
    ensures
        r@ == object_identifier_debug(object_type, instance),
{
    format!("{:?}", ObjectIdentifier::new(ObjectType::from(object_type), instance))
}

} // verus!
