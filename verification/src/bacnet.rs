//! `com.listo.bacnet` (native process): the driver, device and point kinds.
//!
//! A driver node owns a BACnet/IP session, kept in the [`Registry`] under the
//! driver's node path. A device node only holds the remote device's address.
//! A point node reads or writes one property: it resolves its parent device's
//! settings and its grandparent driver's session, then issues the request.

use vstd::prelude::*;
use vstd::string::StringExecFns;

use crate::plugin::{is_runtime_error, runtime_error, NodeError};
use crate::text::{concat3, decimal, decimal_string, text_eq};

verus! {

/// The driver kind (`com.listo.bacnet.driver`): the local BACnet/IP interface.
pub struct Driver;

/// Settings of a driver node.
#[derive(Clone)]
pub struct DriverConfig {
    pub local_addr: String,
    pub local_port: u16,
    pub broadcast_addr: String,
    pub timeout_ms: u64,
}

impl Default for DriverConfig {
    fn default() -> (c: Self)
        ensures
            c.local_addr@ == "0.0.0.0"@,
            c.local_port == 47808,
            c.broadcast_addr@ == "255.255.255.255"@,
            c.timeout_ms == 3000,
    {
        DriverConfig {
            local_addr: String::from_str("0.0.0.0"),
            local_port: 47808,
            broadcast_addr: String::from_str("255.255.255.255"),
            timeout_ms: 3000,
        }
    }
}

/// The device kind (`com.listo.bacnet.device`): a remote BACnet device.
pub struct Device;

/// Settings of a device node: where the device answers and its instance.
#[derive(Clone)]
pub struct DeviceConfig {
    pub host: String,
    pub port: u16,
    pub device_id: u32,
}

/// The default device settings.
pub open spec fn is_default_device_config(c: DeviceConfig) -> bool {
    &&& c.host@ == "192.168.1.1"@
    &&& c.port == 47808
    &&& c.device_id == 0
}

impl Default for DeviceConfig {
    fn default() -> (c: Self)
        ensures
            is_default_device_config(c),
    {
        DeviceConfig { host: String::from_str("192.168.1.1"), port: 47808, device_id: 0 }
    }
}

/// The point kind (`com.listo.bacnet.point`): one object property.
pub struct Point;

/// Whether a point reads or writes its property.
#[derive(Clone, Copy, PartialEq, Eq, Structural)]
pub enum PointDirection {
    Read,
    Write,
}

impl Default for PointDirection {
    fn default() -> (d: Self)
        ensures
            d == PointDirection::Read,
    {
        PointDirection::Read
    }
}

/// Settings of a point node.
#[derive(Clone)]
pub struct PointConfig {
    pub direction: PointDirection,
    pub object_type: String,
    pub object_instance: u32,
    pub property: String,
    pub priority: u8,
}

impl Default for PointConfig {
    fn default() -> (c: Self)
        ensures
            c.direction == PointDirection::Read,
            c.object_type@ == "analog-input"@,
            c.object_instance == 0,
            c.property@ == "present-value"@,
            c.priority == 16,
    {
        PointConfig {
            direction: PointDirection::Read,
            object_type: String::from_str("analog-input"),
            object_instance: 0,
            property: String::from_str("present-value"),
            priority: 16,
        }
    }
}

/// Failures of the BACnet driver.
pub enum BacnetError {
    /// The driver's client could not be started.
    Start(String),
    /// Any other failure.
    Other(String),
}

/// A running driver: its settings and its BACnet client.
pub struct DriverSession<C> {
    pub cfg: DriverConfig,
    pub client: C,
}

/// What a point needs of a running driver.
pub struct DriverHandle {
    /// The request timeout, in milliseconds.
    pub timeout_ms: u64,
}

/// Driver sessions keyed by the driver node's path.
pub struct Registry<C> {
    drivers: crate::registry::Registry<DriverSession<C>>,
}

impl<C> View for Registry<C> {
    type V = Map<Seq<char>, DriverSession<C>>;

    /// The session of each started driver, by path.
    closed spec fn view(&self) -> Map<Seq<char>, DriverSession<C>> {
        self.drivers@
    }
}

impl<C> Registry<C> {
    /// The table is well formed.
    pub closed spec fn wf(&self) -> bool {
        self.drivers.wf()
    }

    /// No driver started.
    pub fn new() -> (r: Self)
        ensures
            r.wf(),
            r@ == Map::<Seq<char>, DriverSession<C>>::empty(),
    {
        Registry { drivers: crate::registry::Registry::new() }
    }

    /// Starts the driver at `path` with the client that was opened for it;
    /// an earlier session at `path` is replaced. Where the client could not
    /// be opened, nothing changes and the failure is reported as `Start`.
    pub fn start(&mut self, path: String, cfg: DriverConfig, client: Result<C, String>) -> (r: Result<
        (),
        BacnetError,
    >)
        requires
            old(self).wf(),
        ensures
            final(self).wf(),
            match client {
                Ok(c) => r is Ok && final(self)@ == old(self)@.insert(
                    path@,
                    DriverSession { cfg, client: c },
                ),
                Err(e) => r matches Err(BacnetError::Start(m)) && m@ == e@ && final(self)@ == old(
                    self,
                )@,
            },
    {
        match client {
            Ok(client) => {
                self.drivers.insert(path, DriverSession { cfg, client });
                Ok(())
            },
            Err(e) => Err(BacnetError::Start(e)),
        }
    }

    /// Stops the driver at `path`, if it runs.
    pub fn stop(&mut self, path: &String)
        requires
            old(self).wf(),
        ensures
            final(self).wf(),
            final(self)@ == old(self)@.remove(path@),
    {
        self.drivers.remove(path);
    }

    /// The handle of the driver at `path`, if it runs.
    pub fn get(&self, path: &String) -> (r: Option<DriverHandle>)
        requires
            self.wf(),
        ensures
            match r {
                Some(h) => self@.contains_key(path@) && h.timeout_ms == self@[path@].cfg.timeout_ms,
                None => !self@.contains_key(path@),
            },
    {
        match self.drivers.get(path) {
            Some(s) => Some(DriverHandle { timeout_ms: s.cfg.timeout_ms }),
            None => None,
        }
    }
}

impl DriverHandle {
    /// Reads one property of a remote object. The request is not wired to
    /// the network yet: it answers JSON `null`.
    pub fn read_property<A>(
        &self,
        addr: &A,
        device_id: u32,
        object_type: &str,
        object_instance: u32,
        property: &str,
    ) -> (r: Result<String, BacnetError>)
        ensures
            r matches Ok(v) && v@ == "null"@,
    {
        Ok(String::from_str("null"))
    }

    /// Writes one property of a remote object. The request is not wired to
    /// the network yet: it succeeds without effect.
    pub fn write_property<A>(
        &self,
        addr: &A,
        device_id: u32,
        object_type: &str,
        object_instance: u32,
        property: &str,
        value_json: &str,
        priority: u8,
    ) -> (r: Result<(), BacnetError>)
        ensures
            r is Ok,
    {
        Ok(())
    }
}

/// A request a point issues once it is accepted: which driver serves it,
/// where the device answers, and what to read or write.
pub struct PointRequest {
    pub node_path: String,
    pub driver_path: String,
    /// The device's socket address as text, `host:port`.
    pub address: String,
    pub device_id: u32,
    pub direction: PointDirection,
    pub object_type: String,
    pub object_instance: u32,
    pub property: String,
    pub priority: u8,
    /// The message payload (the value to write), as JSON text.
    pub payload_json: String,
}

/// The outcome of a point request against a running driver.
pub enum PointOutcome {
    Read(Result<String, BacnetError>),
    Write(Result<(), BacnetError>),
}

/// `host:port` for a device.
pub open spec fn device_address(cfg: DeviceConfig) -> Seq<char> {
    cfg.host@ + ":"@ + decimal(cfg.port as nat)
}

/// A point request carries the point's settings, the device's address and
/// instance, the driver's path and the payload.
pub open spec fn request_matches(
    q: PointRequest,
    cfg: PointConfig,
    node_path: Seq<char>,
    driver_path: Seq<char>,
    device: DeviceConfig,
    payload_json: Seq<char>,
) -> bool {
    &&& q.node_path@ == node_path
    &&& q.driver_path@ == driver_path
    &&& q.address@ == device_address(device)
    &&& q.device_id == device.device_id
    &&& q.direction == cfg.direction
    &&& q.object_type@ == cfg.object_type@
    &&& q.object_instance == cfg.object_instance
    &&& q.property@ == cfg.property@
    &&& q.priority == cfg.priority
    &&& q.payload_json@ == payload_json
}

impl Driver {
    /// A driver has no input to act on.
    pub fn on_message(&self) -> (r: Result<(), NodeError>)
        ensures
            r is Ok,
    {
        Ok(())
    }
}

impl Device {
    /// A device is a settings container with no input ports.
    pub fn on_message(&self) -> (r: Result<(), NodeError>)
        ensures
            r is Ok,
    {
        Ok(())
    }
}

impl Point {
    /// Accepts a message on `in` and turns it into a request.
    ///
    /// `config` is the outcome of decoding the point's settings; `device_path`
    /// is the point's parent and `driver_path` that parent's own parent;
    /// `device_config` is the parent device's decoded settings, where they
    /// could be read.
    pub fn on_message(
        &self,
        port: &str,
        config: Result<PointConfig, String>,
        node_path: String,
        device_path: Option<String>,
        driver_path: Option<String>,
        device_config: Option<DeviceConfig>,
        payload_json: String,
    ) -> (r: Result<PointRequest, NodeError>)
        ensures
            port@ != "in"@ ==> (r matches Err(e) && is_runtime_error(
                e,
                "unexpected port `"@ + port@ + "`"@,
            )),
            port@ == "in"@ ==> match config {
                Err(e) => r matches Err(NodeError::InvalidConfig(m)) && m@ == e@,
                Ok(cfg) => match device_path {
                    None => r matches Err(e) && is_runtime_error(
                        e,
                        "point must live under a device"@,
                    ),
                    Some(_) => match driver_path {
                        None => r matches Err(e) && is_runtime_error(
                            e,
                            "device must live under a driver"@,
                        ),
                        Some(drv) => r matches Ok(q) && match device_config {
                            Some(dc) => request_matches(
                                q,
                                cfg,
                                node_path@,
                                drv@,
                                dc,
                                payload_json@,
                            ),
                            None => exists|dc: DeviceConfig|
                                is_default_device_config(dc) && request_matches(
                                    q,
                                    cfg,
                                    node_path@,
                                    drv@,
                                    dc,
                                    payload_json@,
                                ),
                        },
                    },
                },
            },
    {
        if !text_eq(port, "in") {
            return Err(runtime_error(concat3("unexpected port `", port, "`")));
        }
        let cfg = match config {
            Ok(c) => c,
            Err(e) => return Err(NodeError::InvalidConfig(e)),
        };
        if device_path.is_none() {
            return Err(runtime_error(String::from_str("point must live under a device")));
        }
        let driver_path = match driver_path {
            Some(p) => p,
            None => return Err(runtime_error(String::from_str("device must live under a driver"))),
        };
        let device = match device_config {
            Some(d) => d,
            None => DeviceConfig::default(),
        };
        let port_text = decimal_string(device.port as u64);
        let address = concat3(device.host.as_str(), ":", port_text.as_str());
        Ok(PointRequest {
            node_path,
            driver_path,
            address,
            device_id: device.device_id,
            direction: cfg.direction,
            object_type: cfg.object_type,
            object_instance: cfg.object_instance,
            property: cfg.property,
            priority: cfg.priority,
            payload_json,
        })
    }
}

impl PointRequest {
    /// Issues the request through a running driver: a read for a reading
    /// point, a write of the payload at the point's priority otherwise.
    pub fn perform<A>(&self, driver: &DriverHandle, addr: &A) -> (r: PointOutcome)
        ensures
            self.direction == PointDirection::Read ==> (r matches PointOutcome::Read(Ok(v)) && v@
                == "null"@),
            self.direction == PointDirection::Write ==> r matches PointOutcome::Write(Ok(())),
    {
        match self.direction {
            PointDirection::Read => PointOutcome::Read(
                driver.read_property(
                    addr,
                    self.device_id,
                    self.object_type.as_str(),
                    self.object_instance,
                    self.property.as_str(),
                ),
            ),
            PointDirection::Write => PointOutcome::Write(
                driver.write_property(
                    addr,
                    self.device_id,
                    self.object_type.as_str(),
                    self.object_instance,
                    self.property.as_str(),
                    self.payload_json.as_str(),
                    self.priority,
                ),
            ),
        }
    }
}

/// A driver started with a client is found at its path with the timeout it
/// was configured with.
pub proof fn lemma_started_driver_found<C>(
    drivers: Map<Seq<char>, DriverSession<C>>,
    path: Seq<char>,
    cfg: DriverConfig,
    client: C,
)
    ensures
        ({
            let after = drivers.insert(path, DriverSession { cfg, client });
            after.contains_key(path) && after[path].cfg.timeout_ms == cfg.timeout_ms
        }),
{
}

/// A configuration change stops the driver and starts it again; where the
/// new client cannot be opened, no driver is left at the path (the old
/// session is not kept).
pub proof fn lemma_failed_restart_leaves_no_driver<C>(
    drivers: Map<Seq<char>, DriverSession<C>>,
    path: Seq<char>,
)
    ensures
        !drivers.remove(path).contains_key(path),
{
}

} // verus!
