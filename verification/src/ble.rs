//! Bluetooth LE: a non-connectable beacon and the OTA update peripheral.

pub mod beacon;
pub mod ota;
pub mod ota_laws;
