use listo_blocks::bacnet::{
    BacnetError, Device, DeviceConfig, Driver, DriverConfig, Point, PointConfig, PointDirection,
    PointOutcome, Registry,
};
use listo_blocks::plugin::NodeError;

fn point_config(direction: PointDirection) -> PointConfig {
    PointConfig {
        direction,
        object_type: "analog-value".to_string(),
        object_instance: 7,
        property: "present-value".to_string(),
        priority: 8,
    }
}

#[test]
fn bacnet_defaults() {
    let d = DriverConfig::default();
    assert_eq!(d.local_addr, "0.0.0.0");
    assert_eq!(d.local_port, 47808);
    assert_eq!(d.broadcast_addr, "255.255.255.255");
    assert_eq!(d.timeout_ms, 3000);
    let dev = DeviceConfig::default();
    assert_eq!(dev.host, "192.168.1.1");
    assert_eq!(dev.port, 47808);
    assert_eq!(dev.device_id, 0);
    let p = PointConfig::default();
    assert!(p.direction == PointDirection::Read);
    assert_eq!(p.object_type, "analog-input");
    assert_eq!(p.object_instance, 0);
    assert_eq!(p.property, "present-value");
    assert_eq!(p.priority, 16);
    assert!(PointDirection::default() == PointDirection::Read);
}

#[test]
fn registry_start_get_stop() {
    let mut reg: Registry<u8> = Registry::new();
    let path = "/drivers/a".to_string();
    let mut cfg = DriverConfig::default();
    cfg.timeout_ms = 1234;
    assert!(reg.start(path.clone(), cfg, Ok(1)).is_ok());
    assert_eq!(reg.get(&path).unwrap().timeout_ms, 1234);
    assert!(reg.get(&"/drivers/b".to_string()).is_none());
    reg.stop(&path);
    assert!(reg.get(&path).is_none());
    reg.stop(&path);
    assert!(reg.get(&path).is_none());
}

#[test]
fn registry_restart_replaces_session() {
    let mut reg: Registry<u8> = Registry::new();
    let path = "/d".to_string();
    reg.start(path.clone(), DriverConfig::default(), Ok(1)).ok().unwrap();
    let mut cfg = DriverConfig::default();
    cfg.timeout_ms = 10;
    reg.start(path.clone(), cfg, Ok(2)).ok().unwrap();
    assert_eq!(reg.get(&path).unwrap().timeout_ms, 10);
}

#[test]
fn registry_start_failure_reports_and_keeps_state() {
    let mut reg: Registry<u8> = Registry::new();
    let path = "/d".to_string();
    match reg.start(path.clone(), DriverConfig::default(), Err("bind failed".to_string())) {
        Err(BacnetError::Start(m)) => assert_eq!(m, "bind failed"),
        _ => panic!("expected a start error"),
    }
    assert!(reg.get(&path).is_none());
}

#[test]
fn trivial_kinds_accept_messages() {
    assert!(Driver.on_message().is_ok());
    assert!(Device.on_message().is_ok());
}

#[test]
fn point_builds_read_request() {
    let dev = DeviceConfig { host: "10.0.0.5".to_string(), port: 47809, device_id: 1001 };
    let req = Point
        .on_message(
            "in",
            Ok(point_config(PointDirection::Read)),
            "/drv/dev/pt".to_string(),
            Some("/drv/dev".to_string()),
            Some("/drv".to_string()),
            Some(dev),
            "null".to_string(),
        )
        .ok()
        .unwrap();
    assert_eq!(req.node_path, "/drv/dev/pt");
    assert_eq!(req.driver_path, "/drv");
    assert_eq!(req.address, "10.0.0.5:47809");
    assert_eq!(req.device_id, 1001);
    assert!(req.direction == PointDirection::Read);
    assert_eq!(req.object_type, "analog-value");
    assert_eq!(req.object_instance, 7);
    assert_eq!(req.property, "present-value");
    assert_eq!(req.priority, 8);
}

#[test]
fn point_falls_back_to_default_device() {
    let req = Point
        .on_message(
            "in",
            Ok(point_config(PointDirection::Write)),
            "/drv/dev/pt".to_string(),
            Some("/drv/dev".to_string()),
            Some("/drv".to_string()),
            None,
            "21.5".to_string(),
        )
        .ok()
        .unwrap();
    assert_eq!(req.address, "192.168.1.1:47808");
    assert_eq!(req.device_id, 0);
    assert_eq!(req.payload_json, "21.5");
}

#[test]
fn point_refusals() {
    let cfg = || Ok(point_config(PointDirection::Read));
    match Point.on_message("x", cfg(), "p".into(), None, None, None, "1".into()) {
        Err(NodeError::Runtime(m)) => assert_eq!(m, "unexpected port `x`"),
        _ => panic!(),
    }
    match Point.on_message("in", Err("bad direction".into()), "p".into(), None, None, None, "1".into()) {
        Err(NodeError::InvalidConfig(m)) => assert_eq!(m, "bad direction"),
        _ => panic!(),
    }
    match Point.on_message("in", cfg(), "p".into(), None, None, None, "1".into()) {
        Err(NodeError::Runtime(m)) => assert_eq!(m, "point must live under a device"),
        _ => panic!(),
    }
    match Point.on_message("in", cfg(), "d/p".into(), Some("d".into()), None, None, "1".into()) {
        Err(NodeError::Runtime(m)) => assert_eq!(m, "device must live under a driver"),
        _ => panic!(),
    }
}

#[test]
fn point_request_performs_through_driver() {
    let mut reg: Registry<()> = Registry::new();
    reg.start("/drv".to_string(), DriverConfig::default(), Ok(())).ok().unwrap();
    let handle = reg.get(&"/drv".to_string()).unwrap();
    let read = Point
        .on_message("in", Ok(point_config(PointDirection::Read)), "/drv/d/p".into(),
            Some("/drv/d".into()), Some("/drv".into()), None, "null".into())
        .ok()
        .unwrap();
    match read.perform(&handle, &"192.168.1.1:47808") {
        PointOutcome::Read(Ok(v)) => assert_eq!(v, "null"),
        _ => panic!(),
    }
    let write = Point
        .on_message("in", Ok(point_config(PointDirection::Write)), "/drv/d/p".into(),
            Some("/drv/d".into()), Some("/drv".into()), None, "3".into())
        .ok()
        .unwrap();
    assert!(matches!(write.perform(&handle, &()), PointOutcome::Write(Ok(()))));
}

#[test]
fn failed_restart_leaves_no_driver() {
    let mut reg: Registry<u8> = Registry::new();
    let path = "/drv".to_string();
    reg.start(path.clone(), DriverConfig::default(), Ok(1)).ok().unwrap();
    reg.stop(&path);
    assert!(reg.start(path.clone(), DriverConfig::default(), Err("no socket".into())).is_err());
    assert!(reg.get(&path).is_none());
}
