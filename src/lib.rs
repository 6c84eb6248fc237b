//! Decoding of the climate readings that Govee thermo-hygrometers broadcast
//! in Bluetooth Low Energy advertisements, and handling of device addresses.
pub mod bluetooth;
pub mod govee;
