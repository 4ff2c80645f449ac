use bacnet_rs::app::{Apdu, MaxApduSize, MaxSegments};
use bacnet_rs::network::Npdu;
use bacnet_rs::object::{ObjectIdentifier, ObjectType, PropertyIdentifier, Segmentation};
use bacnet_rs::service::{
    ConfirmedServiceChoice, IAmRequest, PropertyReference, ReadAccessSpecification,
    ReadPropertyMultipleRequest, UnconfirmedServiceChoice, WhoIsRequest,
};
use listo_blocks::bacnet_codec::{
    AccessSpec, I_AM_SERVICE, READ_PROPERTY_MULTIPLE_SERVICE, WHO_IS_SERVICE,
};
use listo_blocks::bacnet_testing::{
    build_who_is_message, check_config, configured_marker, confirmed_request_message,
    find_object_result, find_property_result, read_props_report, segmentation_label,
    ObjectAnswer, PropertyAnswer,
    default_bacnet_port, parse_i_am_response, parse_object_type, parse_property_identifier,
    accept_confirmed_answer, process_confirmed_response, read_property_multiple_message, read_target_to_spec,
    select_device, BacnetConfig, DeviceConfig, DiscoveredDevice, Discoveries, NetworkConfig,
    ReadTarget,
};
use listo_blocks::bvlc::{bvlc_payload, wrap_bvlc};

fn device(name: &str, device_id: u32) -> DeviceConfig {
    DeviceConfig {
        name: name.to_string(),
        address: "192.168.0.10".to_string(),
        port: default_bacnet_port(),
        device_id,
        reads: Vec::new(),
    }
}

fn config(devices: Vec<DeviceConfig>) -> BacnetConfig {
    BacnetConfig { network: NetworkConfig::default(), devices }
}

fn discovered(device_id: u32, address: &'static str) -> DiscoveredDevice<&'static str> {
    DiscoveredDevice {
        device_id,
        address,
        vendor_id: 0,
        vendor_name: String::new(),
        max_apdu: 1476,
        segmentation: 3,
    }
}

#[test]
fn service_codes_match_bacnet_rs() {
    assert_eq!(I_AM_SERVICE, UnconfirmedServiceChoice::IAm as u8);
    assert_eq!(WHO_IS_SERVICE, UnconfirmedServiceChoice::WhoIs as u8);
    assert_eq!(READ_PROPERTY_MULTIPLE_SERVICE, ConfirmedServiceChoice::ReadPropertyMultiple as u8);
}

#[test]
fn wrap_bvlc_header() {
    assert_eq!(wrap_bvlc(0x0B, vec![1, 2]), vec![0x81, 0x0B, 0x00, 0x06, 1, 2]);
    assert_eq!(wrap_bvlc(0x0A, Vec::new()), vec![0x81, 0x0A, 0x00, 0x04]);
    let big = wrap_bvlc(0x0A, vec![0u8; 300]);
    assert_eq!(&big[..4], &[0x81, 0x0A, 0x01, 0x30]);
    let huge = wrap_bvlc(0x0A, vec![0u8; 65_535]);
    assert_eq!(&huge[..4], &[0x81, 0x0A, 0x00, 0x03]);
}

#[test]
fn bvlc_payload_checks_header() {
    let frame = wrap_bvlc(0x0A, vec![9, 8, 7]);
    assert_eq!(bvlc_payload(&frame), Some(&[9u8, 8, 7][..]));
    assert_eq!(bvlc_payload(&[0x81, 0x0A, 0x00]), None);
    assert_eq!(bvlc_payload(&[0x82, 0x0A, 0x00, 0x04]), None);
    assert_eq!(bvlc_payload(&[0x81, 0x0A, 0x00, 0x05]), None);
    let huge = wrap_bvlc(0x0A, vec![0u8; 65_535]);
    assert_eq!(bvlc_payload(&huge), None);
}

#[test]
fn who_is_message_bytes() {
    let msg = build_who_is_message().unwrap();
    assert_eq!(msg, vec![0x81, 0x0B, 0x00, 0x0C, 0x01, 0x20, 0xFF, 0xFF, 0x00, 0xFF, 0x10, 0x08]);
    let mut service_data = Vec::new();
    WhoIsRequest::new().encode(&mut service_data).unwrap();
    let mut message = Npdu::global_broadcast().encode();
    message.extend_from_slice(&[0x10, UnconfirmedServiceChoice::WhoIs as u8]);
    message.extend_from_slice(&service_data);
    assert_eq!(msg, wrap_bvlc(0x0B, message));
}

fn i_am_frame(instance: u32, vendor: u16) -> Vec<u8> {
    let i_am = IAmRequest::new(
        ObjectIdentifier::new(ObjectType::Device, instance),
        1476,
        Segmentation::NoSegmentation,
        vendor,
    );
    let mut body = Vec::new();
    i_am.encode(&mut body).unwrap();
    let mut payload = Npdu::new().encode();
    payload.extend_from_slice(&[0x10, UnconfirmedServiceChoice::IAm as u8]);
    payload.extend_from_slice(&body);
    wrap_bvlc(0x0B, payload)
}

#[test]
fn i_am_response_parsed() {
    let frame = i_am_frame(1234, 260);
    let d = parse_i_am_response(&frame, "10.0.0.9:47808").unwrap();
    assert_eq!(d.device_id, 1234);
    assert_eq!(d.address, "10.0.0.9:47808");
    assert_eq!(d.vendor_id, 260);
    assert_eq!(d.max_apdu, 1476);
    assert_eq!(d.segmentation, Segmentation::NoSegmentation as u32);
    assert_eq!(d.vendor_name, "BACnet Stack at SourceForge");
    assert_eq!(Some(d.vendor_name.as_str()), bacnet_rs::vendor::get_vendor_name(260));
}

#[test]
fn i_am_unknown_vendor_label() {
    let frame = i_am_frame(5, 65_000);
    let d = parse_i_am_response(&frame, ()).unwrap();
    assert_eq!(d.vendor_name, "Unknown Vendor");
}

#[test]
fn i_am_refusals() {
    let mut frame = i_am_frame(1, 8);
    assert!(parse_i_am_response(&frame[..frame.len() - 1], ()).is_none());
    frame[0] = 0x80;
    assert!(parse_i_am_response(&frame, ()).is_none());
    let who_is = build_who_is_message().unwrap();
    assert!(parse_i_am_response(&who_is, ()).is_none());
    assert!(parse_i_am_response(&[], ()).is_none());
}

fn complex_ack_frame(invoke_id: u8, data: Vec<u8>) -> Vec<u8> {
    let apdu = Apdu::ComplexAck {
        segmented: false,
        more_follows: false,
        invoke_id,
        sequence_number: None,
        proposed_window_size: None,
        service_choice: ConfirmedServiceChoice::ReadPropertyMultiple,
        service_data: data,
    };
    let mut payload = Npdu::new().encode();
    payload.extend_from_slice(&apdu.encode());
    wrap_bvlc(0x0A, payload)
}

#[test]
fn confirmed_response_matched_by_invoke_id() {
    let frame = complex_ack_frame(1, vec![0x0C, 0x00, 0x02]);
    assert_eq!(process_confirmed_response(&frame, 1), Some(vec![0x0C, 0x00, 0x02]));
    assert_eq!(process_confirmed_response(&frame, 2), None);
    assert_eq!(process_confirmed_response(&frame[..frame.len() - 1], 1), None);
}

#[test]
fn confirmed_choice_codes_follow_bacnet_rs() {
    for code in 0..=255u8 {
        assert_eq!(
            confirmed_request_message(1, code, vec![]).is_some(),
            ConfirmedServiceChoice::try_from(code).is_ok(),
            "choice {code}"
        );
    }
    assert!(confirmed_request_message(1, 26, vec![]).is_some());
    assert!(confirmed_request_message(1, 27, vec![]).is_none());
    assert!(confirmed_request_message(1, 28, vec![]).is_some());
    assert!(confirmed_request_message(1, 29, vec![]).is_some());
    assert!(confirmed_request_message(1, 18, vec![]).is_none());
    assert!(confirmed_request_message(1, 33, vec![]).is_none());
}

#[test]
fn confirmed_answer_only_from_target() {
    let frame = complex_ack_frame(3, vec![0x01, 0x02]);
    assert_eq!(accept_confirmed_answer(false, &frame, 3), None);
    assert_eq!(accept_confirmed_answer(true, &frame, 3), Some(vec![0x01, 0x02]));
    assert_eq!(accept_confirmed_answer(true, &frame, 4), None);
    assert_eq!(accept_confirmed_answer(true, &[0x81, 0x0A], 3), None);
}

#[test]
fn confirmed_response_through_routed_npdu() {
    // destination network 5, one-byte MAC, hop count 255
    let routed = wrap_bvlc(0x0A, vec![1, 0x20, 0, 5, 1, 0x42, 0xFF, 0x30, 1, 14, 0xAA]);
    assert_eq!(process_confirmed_response(&routed, 1), Some(vec![0xAA]));
    // source network 7, two-byte MAC
    let sourced = wrap_bvlc(0x0A, vec![1, 0x08, 0, 7, 2, 1, 2, 0x30, 1, 14, 0xAA]);
    assert_eq!(process_confirmed_response(&sourced, 1), Some(vec![0xAA]));
    // destination without its hop count
    let cut = wrap_bvlc(0x0A, vec![1, 0x20, 0, 5, 1, 0x42]);
    assert_eq!(process_confirmed_response(&cut, 1), None);
    // wrong NPDU version
    let version = wrap_bvlc(0x0A, vec![2, 0, 0x30, 1, 14, 0xAA]);
    assert_eq!(process_confirmed_response(&version, 1), None);
}

#[test]
fn confirmed_response_ack_forms() {
    // segmented acknowledgement: sequence number and window size precede the choice
    let segmented = wrap_bvlc(0x0A, vec![1, 0, 0x38, 1, 0, 4, 14, 0xBB]);
    assert_eq!(process_confirmed_response(&segmented, 1), Some(vec![0xBB]));
    // an acknowledgement with no service data
    let empty = wrap_bvlc(0x0A, vec![1, 0, 0x30, 9, 28]);
    assert_eq!(process_confirmed_response(&empty, 9), Some(vec![]));
    // choice 27 is not a confirmed service bacnet-rs knows
    let unknown = wrap_bvlc(0x0A, vec![1, 0, 0x30, 1, 27, 0xBB]);
    assert_eq!(process_confirmed_response(&unknown, 1), None);
    // a simple acknowledgement is not an answer with data
    let simple = wrap_bvlc(0x0A, vec![1, 0, 0x20, 1, 14]);
    assert_eq!(process_confirmed_response(&simple, 1), None);
}

#[test]
fn confirmed_request_frame_bytes() {
    let msg = confirmed_request_message(1, READ_PROPERTY_MULTIPLE_SERVICE, vec![0xAA]).unwrap();
    assert_eq!(msg, vec![0x81, 0x0A, 0x00, 0x0B, 0x01, 0x04, 0x02, 0x05, 0x01, 0x0E, 0xAA]);
    let apdu = Apdu::ConfirmedRequest {
        segmented: false,
        more_follows: false,
        segmented_response_accepted: true,
        max_segments: MaxSegments::Unspecified,
        max_response_size: MaxApduSize::Up1476,
        invoke_id: 1,
        sequence_number: None,
        proposed_window_size: None,
        service_choice: ConfirmedServiceChoice::ReadPropertyMultiple,
        service_data: vec![0xAA],
    };
    let mut npdu = Npdu::new();
    npdu.control.expecting_reply = true;
    let mut message = npdu.encode();
    message.extend_from_slice(&apdu.encode());
    assert_eq!(msg, wrap_bvlc(0x0A, message));
    assert!(confirmed_request_message(1, 255, vec![]).is_none());
    assert!(confirmed_request_message(1, 13, vec![]).is_none());
    assert!(confirmed_request_message(1, 34, vec![]).is_some());
    let read_property = confirmed_request_message(7, 12, vec![]).unwrap();
    assert_eq!(read_property, vec![0x81, 0x0A, 0x00, 0x0A, 0x01, 0x04, 0x02, 0x05, 0x07, 0x0C]);
}

#[test]
fn read_property_multiple_frame() {
    let specs = vec![AccessSpec { object_type: 0, object_instance: 3, properties: vec![85, 77] }];
    let msg = read_property_multiple_message(&specs).unwrap();
    let request = ReadPropertyMultipleRequest::new(vec![ReadAccessSpecification::new(
        ObjectIdentifier::new(ObjectType::AnalogInput, 3),
        vec![
            PropertyReference::new(PropertyIdentifier::PresentValue),
            PropertyReference::new(PropertyIdentifier::ObjectName),
        ],
    )]);
    let mut data = Vec::new();
    request.encode(&mut data).unwrap();
    assert_eq!(msg, confirmed_request_message(1, 14, data).unwrap());
}

#[test]
fn read_property_multiple_request_bytes() {
    let specs = vec![
        AccessSpec { object_type: 1, object_instance: 0x2_0003, properties: vec![85, 77] },
        AccessSpec { object_type: 8, object_instance: 7, properties: vec![0x1234, 0x12_3456, 0] },
    ];
    let msg = read_property_multiple_message(&specs).unwrap();
    let mut expected = vec![0x81, 0x0A, 0x00, 0x00, 0x01, 0x04, 0x02, 0x05, 0x01, 0x0E];
    expected.extend_from_slice(&[0x0C, 0x00, 0x42, 0x00, 0x03, 0x1E, 0x09, 85, 0x09, 77, 0x1F]);
    expected.extend_from_slice(&[
        0x0C, 0x02, 0x00, 0x00, 0x07, 0x1E, 0x0A, 0x12, 0x34, 0x0B, 0x12, 0x34, 0x56, 0x09, 0x00,
        0x1F,
    ]);
    expected[3] = expected.len() as u8;
    assert_eq!(msg, expected);
}

#[test]
fn read_property_multiple_out_of_range() {
    let too_big_instance =
        vec![AccessSpec { object_type: 0, object_instance: 0x40_0000, properties: vec![85] }];
    assert_eq!(
        read_property_multiple_message(&too_big_instance),
        Err("Value out of valid range".to_string())
    );
    let too_big_type = vec![
        AccessSpec { object_type: 0, object_instance: 1, properties: vec![85] },
        AccessSpec { object_type: 0x400, object_instance: 1, properties: vec![85] },
    ];
    assert_eq!(
        read_property_multiple_message(&too_big_type),
        Err("Value out of valid range".to_string())
    );
}

#[test]
fn object_type_names() {
    let table = [
        ("device", ObjectType::Device),
        ("Analog Input", ObjectType::AnalogInput),
        ("analog-output", ObjectType::AnalogOutput),
        ("ANALOG_VALUE", ObjectType::AnalogValue),
        ("binary-input", ObjectType::BinaryInput),
        ("binary-output", ObjectType::BinaryOutput),
        ("binary-value", ObjectType::BinaryValue),
        ("multi-state-input", ObjectType::MultiStateInput),
        ("multi-state-output", ObjectType::MultiStateOutput),
        ("multistate value", ObjectType::MultiStateValue),
    ];
    for (name, ot) in table {
        assert_eq!(parse_object_type(name), Ok(u32::from(ot)), "{name}");
    }
    assert_eq!(
        parse_object_type("Trend-Log!"),
        Err("unsupported object_type `trendlog` in config".to_string())
    );
}

#[test]
fn property_names() {
    let table = [
        ("object-name", PropertyIdentifier::ObjectName),
        ("description", PropertyIdentifier::Description),
        ("Present_Value", PropertyIdentifier::PresentValue),
        ("status-flags", PropertyIdentifier::StatusFlags),
        ("units", PropertyIdentifier::Units),
        ("object-list", PropertyIdentifier::ObjectList),
        ("model-name", PropertyIdentifier::ModelName),
        ("firmware-revision", PropertyIdentifier::FirmwareRevision),
        ("vendor-name", PropertyIdentifier::VendorName),
        ("vendor-identifier", PropertyIdentifier::VendorIdentifier),
        ("object-identifier", PropertyIdentifier::ObjectIdentifier),
    ];
    for (name, p) in table {
        assert_eq!(parse_property_identifier(name), Ok(u32::from(p)), "{name}");
    }
    assert_eq!(
        parse_property_identifier("priority-array"),
        Err("unsupported property `priorityarray` in config".to_string())
    );
}

#[test]
fn read_target_specs() {
    let target = ReadTarget {
        object_type: "analog-input".into(),
        object_instance: 2,
        properties: vec!["present-value".into(), "units".into()],
    };
    let spec = read_target_to_spec(&target).ok().unwrap();
    assert_eq!((spec.object_type, spec.object_instance), (0, 2));
    assert_eq!(spec.properties, vec![85, 117]);

    let bad = ReadTarget {
        object_type: "analog-input".into(),
        object_instance: 2,
        properties: vec!["units".into(), "bogus".into(), "worse".into()],
    };
    assert_eq!(read_target_to_spec(&bad).err().unwrap(), "unsupported property `bogus` in config");

    let bad_type = ReadTarget {
        object_type: "loop".into(),
        object_instance: 0,
        properties: vec!["bogus".into()],
    };
    assert_eq!(
        read_target_to_spec(&bad_type).err().unwrap(),
        "unsupported object_type `loop` in config"
    );
}

#[test]
fn select_device_cases() {
    let cfg = config(vec![device("device-a", 1), device("device-b", 2), device("device-a", 3)]);
    assert_eq!(select_device(&cfg, Some("device-b")).ok().unwrap().device_id, 2);
    assert_eq!(select_device(&cfg, Some("device-a")).ok().unwrap().device_id, 1);
    assert_eq!(
        select_device(&cfg, Some("device-c")).err().unwrap(),
        "unknown device `device-c`. Available devices: device-a, device-b, device-a"
    );
    assert_eq!(
        select_device(&cfg, None).err().unwrap(),
        "multiple devices configured. Choose one: device-a, device-b, device-a"
    );
    let single = config(vec![device("only", 9)]);
    assert_eq!(select_device(&single, None).ok().unwrap().device_id, 9);
    let empty = config(vec![]);
    assert_eq!(select_device(&empty, None).err().unwrap(), "multiple devices configured. Choose one: ");
}

#[test]
fn config_checks_and_defaults() {
    assert_eq!(check_config(&config(vec![])), Err("config must include at least one device".to_string()));
    assert_eq!(check_config(&config(vec![device("a", 1)])), Ok(()));
    let n = NetworkConfig::default();
    assert_eq!(n.local_bind, "0.0.0.0:0");
    assert_eq!(n.broadcast_addr, "255.255.255.255:47808");
    assert_eq!(n.whois_wait_ms, 5_000);
    assert_eq!(n.request_timeout_ms, 5_000);
    assert!(n.interface.is_none());
    assert_eq!(default_bacnet_port(), 47_808);
    assert_eq!(device("x", 1).socket_addr_text(), "192.168.0.10:47808");
}

#[test]
fn discoveries_keep_first_and_sort() {
    let mut found = Discoveries::new();
    assert!(found.is_empty());
    found.record(discovered(30, "first-30"));
    found.record(discovered(10, "first-10"));
    found.record(discovered(30, "second-30"));
    found.record(discovered(20, "first-20"));
    assert!(!found.is_empty());
    let listed: Vec<(u32, &str)> = found.devices().iter().map(|d| (d.device_id, d.address)).collect();
    assert_eq!(listed, vec![(10, "first-10"), (20, "first-20"), (30, "first-30")]);
}

#[test]
fn configured_markers() {
    let devices = vec![device("device-a", 1), device("device-b", 2), device("again", 2)];
    assert_eq!(configured_marker(&devices, 2), " <- configured as device-b");
    assert_eq!(configured_marker(&devices, 7), "");
}

#[test]
fn result_lookups_take_first_match() {
    let objects = vec![(0, 1), (8, 100), (0, 1)];
    assert_eq!(find_object_result(&objects, 0, 1), Some(0));
    assert_eq!(find_object_result(&objects, 8, 100), Some(1));
    assert_eq!(find_object_result(&objects, 8, 1), None);
    let props = vec![85, 77, 85];
    assert_eq!(find_property_result(&props, 77), Some(1));
    assert_eq!(find_property_result(&props, 85), Some(0));
    assert_eq!(find_property_result(&props, 117), None);
}

#[test]
fn who_is_frame_reads_back() {
    let msg = build_who_is_message().unwrap();
    assert_eq!(bvlc_payload(&msg), Some(&[0x01u8, 0x20, 0xFF, 0xFF, 0x00, 0xFF, 0x10, 0x08][..]));
}

#[test]
fn names_alike_read_alike() {
    assert_eq!(parse_object_type("Binary Output"), parse_object_type("binary_output"));
    assert_eq!(parse_property_identifier("Model Name"), parse_property_identifier("model-name"));
    assert_eq!(parse_object_type("Calendar?"), parse_object_type("calendar"));
}

#[test]
fn segmentation_labels() {
    assert_eq!(segmentation_label(0), Segmentation::Both.to_string());
    assert_eq!(segmentation_label(3), "None");
    assert_eq!(segmentation_label(3), Segmentation::NoSegmentation.to_string());
    assert_eq!(segmentation_label(9), "9");
}

#[test]
fn object_id_text_matches_debug() {
    let text = listo_blocks::bacnet_codec::object_id_text(0, 3);
    assert_eq!(text, format!("{:?}", ObjectIdentifier::new(ObjectType::AnalogInput, 3)));
}

fn answer(object_type: u32, instance: u32, props: Vec<(u32, Result<Vec<&str>, (u32, u32)>)>) -> ObjectAnswer {
    ObjectAnswer {
        object_type,
        object_instance: instance,
        properties: props
            .into_iter()
            .map(|(property, values)| PropertyAnswer {
                property,
                values: values.map(|v| v.into_iter().map(String::from).collect()),
            })
            .collect(),
    }
}

#[test]
fn read_report_lines() {
    let reads = vec![
        ReadTarget {
            object_type: "analog-input".into(),
            object_instance: 3,
            properties: vec!["present-value".into(), "units".into(), "description".into()],
        },
        ReadTarget { object_type: "device".into(), object_instance: 9, properties: vec![] },
    ];
    let answers = vec![
        answer(8, 9, vec![]),
        answer(0, 3, vec![
            (85, Ok(vec!["Real(21.5)", "Null"])),
            (117, Ok(vec![])),
            (28, Err((2, 32))),
        ]),
    ];
    let report = read_props_report(&reads, &answers);
    let id_ai = format!("{:?}", ObjectIdentifier::new(ObjectType::AnalogInput, 3));
    let id_dev = format!("{:?}", ObjectIdentifier::new(ObjectType::Device, 9));
    assert_eq!(
        report.lines,
        vec![
            format!("Object {id_ai}"),
            "  present-value: Real(21.5), Null".to_string(),
            "  units: <no values>".to_string(),
            "  description: BACnet error class=2 code=32".to_string(),
            String::new(),
            format!("Object {id_dev}"),
            String::new(),
        ]
    );
    assert!(report.error.is_none());
}

#[test]
fn read_report_stops_at_first_error() {
    let reads = vec![
        ReadTarget {
            object_type: "analog-input".into(),
            object_instance: 3,
            properties: vec!["units".into(), "present-value".into(), "bogus".into()],
        },
        ReadTarget { object_type: "device".into(), object_instance: 9, properties: vec![] },
    ];
    let answers = vec![answer(0, 3, vec![(117, Ok(vec!["Enumerated(62)"]))])];
    let report = read_props_report(&reads, &answers);
    let id_ai = format!("{:?}", ObjectIdentifier::new(ObjectType::AnalogInput, 3));
    assert_eq!(
        report.lines,
        vec![format!("Object {id_ai}"), "  units: Enumerated(62)".to_string()]
    );
    assert_eq!(report.error, Some(format!("missing property present-value for {id_ai}")));

    let device_only = vec![ReadTarget { object_type: "device".into(), object_instance: 9, properties: vec![] }];
    let missing = read_props_report(&device_only, &answers);
    let id_dev = format!("{:?}", ObjectIdentifier::new(ObjectType::Device, 9));
    assert_eq!(missing.lines, vec![format!("Object {id_dev}")]);
    assert_eq!(missing.error, Some(format!("missing object result for {id_dev}")));
}
