//! Plain values that the Bluetooth backend hands to the gateway.

use vstd::prelude::*;

verus! {

/// A Bluetooth adapter present on the host.
#[derive(Debug)]
pub struct AdapterInfo {
    pub id: String,
    pub name: String,
}

/// A peripheral seen while scanning.
#[derive(Debug)]
pub struct DeviceInfo {
    pub id: String,
    pub address: Option<String>,
    pub name: Option<String>,
}

/// Manufacturer-specific advertisement data of a peripheral.
#[derive(Debug)]
pub struct ManufacturerData {
    pub device_id: String,
    pub manufacturer_id: u16,
    pub data: Vec<u8>,
}

/// A value notified by a subscribed characteristic; `uuid` is the
/// characteristic's 128-bit UUID, most significant byte first.
#[derive(Debug)]
pub struct CharacteristicNotification {
    pub uuid: u128,
    pub value: Vec<u8>,
}

/// The address a platform reports when it hides the real one.
pub open spec fn is_placeholder_address(address: Seq<char>) -> bool {
    address == "00:00:00:00:00:00"@
}

/// The address to report for a peripheral: the placeholder that some
/// platforms report in place of the real address is dropped.
pub fn normalize_address(address: String) -> (r: Option<String>)
    ensures
        is_placeholder_address(address@) ==> r is None,
        !is_placeholder_address(address@) ==> r == Some(address),
{
    let placeholder = String::from_str("00:00:00:00:00:00");
    if address == placeholder {
        None
    } else {
        Some(address)
    }
}

} // verus!
