//! Device slots on the xHCI controller: allocation, addressing and
//! endpoint configuration (not implemented yet).
use vstd::prelude::*;

verus! {

/// An endpoint to configure.
#[derive(Debug, Clone, Copy)]
pub struct EndpointConfig {
    pub endpoint_num: u8,
    pub direction_in: bool,
    pub transfer_type: u8,
    pub max_packet_size: u16,
    pub interval: u8,
}

/// Slot allocation is not implemented: no slot is handed out.
pub fn allocate_slot() -> (r: Option<u8>)
    ensures
        r is None,
{
    None
}

/// Freeing a slot is not implemented.
pub fn free_slot(slot_id: u8) {
}

/// Addressing a device is not implemented: no address is assigned.
pub fn address_device(slot_id: u8, port: u8, speed: u8) -> (r: Option<u8>)
    ensures
        r is None,
{
    None
}

/// Configuring endpoints is not implemented: reported failed.
pub fn configure_endpoints(slot_id: u8, endpoints: &[EndpointConfig]) -> (r: bool)
    ensures
        !r,
{
    false
}

} // verus!
