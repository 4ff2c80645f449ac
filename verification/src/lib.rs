//! Verified logic of the listo reference blocks: the hello greeter, the
//! wasm demo routing, the BACnet driver/device/point kinds, the MQTT
//! client/pub/sub kinds, and the BACnet/IP test tool's frame handling.

pub mod bacnet;
pub mod bacnet_codec;
pub mod bacnet_testing;
pub mod bvlc;
pub mod greeter;
pub mod hello;
pub mod json;
pub mod mqtt;
pub mod plugin;
pub mod registry;
pub mod text;
pub mod wasm_demo;
