//! Constants of the VirtIO protocol: device status bits, feature bits,
//! descriptor flags and block request codes.
use vstd::prelude::*;

verus! {

pub const VIRTIO_STATUS_ACKNOWLEDGE: u8 = 1;
pub const VIRTIO_STATUS_DRIVER: u8 = 2;
pub const VIRTIO_STATUS_DRIVER_OK: u8 = 4;
pub const VIRTIO_STATUS_FEATURES_OK: u8 = 8;
pub const VIRTIO_STATUS_DEVICE_NEEDS_RESET: u8 = 64;
pub const VIRTIO_STATUS_FAILED: u8 = 128;
pub const VIRTIO_F_NOTIFY_ON_EMPTY: u64 = 0x1000000;
pub const VIRTIO_F_ANY_LAYOUT: u64 = 0x8000000;
pub const VIRTIO_F_RING_INDIRECT_DESC: u64 = 0x10000000;
pub const VIRTIO_F_RING_EVENT_IDX: u64 = 0x20000000;
pub const VIRTIO_F_VERSION_1: u64 = 0x100000000;
pub const VIRTIO_F_ACCESS_PLATFORM: u64 = 0x200000000;
pub const VIRTIO_F_RING_PACKED: u64 = 0x400000000;
pub const VIRTIO_F_IN_ORDER: u64 = 0x800000000;
pub const VIRTIO_F_ORDER_PLATFORM: u64 = 0x1000000000;
pub const VIRTIO_F_SR_IOV: u64 = 0x2000000000;
pub const VIRTIO_F_NOTIFICATION_DATA: u64 = 0x4000000000;
pub const VIRTIO_BLK_F_SIZE_MAX: u64 = 0x2;
pub const VIRTIO_BLK_F_SEG_MAX: u64 = 0x4;
pub const VIRTIO_BLK_F_GEOMETRY: u64 = 0x10;
pub const VIRTIO_BLK_F_RO: u64 = 0x20;
pub const VIRTIO_BLK_F_BLK_SIZE: u64 = 0x40;
pub const VIRTIO_BLK_F_FLUSH: u64 = 0x200;
pub const VIRTIO_BLK_F_TOPOLOGY: u64 = 0x400;
pub const VIRTIO_BLK_F_CONFIG_WCE: u64 = 0x800;
pub const VIRTIO_BLK_F_MQ: u64 = 0x1000;
pub const VIRTIO_BLK_F_DISCARD: u64 = 0x2000;
pub const VIRTIO_BLK_F_WRITE_ZEROES: u64 = 0x4000;
pub const VIRTIO_NET_F_CSUM: u64 = 0x1;
pub const VIRTIO_NET_F_GUEST_CSUM: u64 = 0x2;
pub const VIRTIO_NET_F_CTRL_VQ: u64 = 0x20000;
pub const VIRTIO_NET_F_MAC: u64 = 0x20;
pub const VIRTIO_NET_F_GSO: u64 = 0x40;
pub const VIRTIO_NET_F_GUEST_TSO4: u64 = 0x80;
pub const VIRTIO_NET_F_GUEST_TSO6: u64 = 0x100;
pub const VIRTIO_NET_F_GUEST_ECN: u64 = 0x200;
pub const VIRTIO_NET_F_GUEST_UFO: u64 = 0x400;
pub const VIRTIO_NET_F_HOST_TSO4: u64 = 0x800;
pub const VIRTIO_NET_F_HOST_TSO6: u64 = 0x1000;
pub const VIRTIO_NET_F_HOST_ECN: u64 = 0x2000;
pub const VIRTIO_NET_F_HOST_UFO: u64 = 0x4000;
pub const VIRTIO_NET_F_MRG_RXBUF: u64 = 0x8000;
pub const VIRTIO_NET_F_STATUS: u64 = 0x10000;
pub const VIRTIO_NET_F_CTRL_RX: u64 = 0x40000;
pub const VIRTIO_NET_F_CTRL_VLAN: u64 = 0x80000;
pub const VIRTIO_NET_F_MQ: u64 = 0x400000;
pub const VIRTQ_DESC_F_NEXT: u16 = 1;
pub const VIRTQ_DESC_F_WRITE: u16 = 2;
pub const VIRTQ_DESC_F_INDIRECT: u16 = 4;
pub const VIRTIO_BLK_T_IN: u32 = 0;
pub const VIRTIO_BLK_T_OUT: u32 = 1;
pub const VIRTIO_BLK_T_FLUSH: u32 = 4;
pub const VIRTIO_BLK_T_DISCARD: u32 = 11;
pub const VIRTIO_BLK_T_WRITE_ZEROES: u32 = 13;
pub const VIRTIO_BLK_S_OK: u8 = 0;
pub const VIRTIO_BLK_S_IOERR: u8 = 1;
pub const VIRTIO_BLK_S_UNSUPP: u8 = 2;

} // verus!
