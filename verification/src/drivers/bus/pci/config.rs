//! Offsets of the registers of the PCI configuration space, and the codes
//! found in them.
use vstd::prelude::*;

verus! {

// Common header (bytes 0x00-0x0F).

pub const PCI_VENDOR_ID: u8 = 0x00;
pub const PCI_DEVICE_ID: u8 = 0x02;
pub const PCI_COMMAND: u8 = 0x04;
pub const PCI_STATUS: u8 = 0x06;
pub const PCI_REVISION: u8 = 0x08;
pub const PCI_PROG_IF: u8 = 0x09;
pub const PCI_SUBCLASS: u8 = 0x0A;
pub const PCI_CLASS: u8 = 0x0B;
pub const PCI_CACHE_LINE_SIZE: u8 = 0x0C;
pub const PCI_LATENCY_TIMER: u8 = 0x0D;
pub const PCI_HEADER_TYPE: u8 = 0x0E;
pub const PCI_BIST: u8 = 0x0F;

// Header type 0 (bytes 0x10-0x3F): an ordinary function.

pub const PCI_BAR0: u8 = 0x10;
pub const PCI_BAR1: u8 = 0x14;
pub const PCI_BAR2: u8 = 0x18;
pub const PCI_BAR3: u8 = 0x1C;
pub const PCI_BAR4: u8 = 0x20;
pub const PCI_BAR5: u8 = 0x24;
pub const PCI_CARDBUS_CIS: u8 = 0x28;
pub const PCI_SUBSYSTEM_VENDOR_ID: u8 = 0x2C;
pub const PCI_SUBSYSTEM_ID: u8 = 0x2E;
pub const PCI_ROM_ADDRESS: u8 = 0x30;
pub const PCI_CAPABILITIES_PTR: u8 = 0x34;
pub const PCI_INTERRUPT_LINE: u8 = 0x3C;
pub const PCI_INTERRUPT_PIN: u8 = 0x3D;
pub const PCI_MIN_GNT: u8 = 0x3E;
pub const PCI_MAX_LAT: u8 = 0x3F;

// Header type 1: a PCI-to-PCI bridge.

pub const PCI_PRIMARY_BUS: u8 = 0x18;
pub const PCI_SECONDARY_BUS: u8 = 0x19;
pub const PCI_SUBORDINATE_BUS: u8 = 0x1A;
pub const PCI_SEC_LATENCY_TIMER: u8 = 0x1B;

// Bits of the command register.

pub const PCI_CMD_IO_SPACE: u16 = 0x0001;
pub const PCI_CMD_MEMORY_SPACE: u16 = 0x0002;
pub const PCI_CMD_BUS_MASTER: u16 = 0x0004;
pub const PCI_CMD_SPECIAL_CYCLES: u16 = 0x0008;
pub const PCI_CMD_MEM_WR_INV: u16 = 0x0010;
pub const PCI_CMD_VGA_PALETTE: u16 = 0x0020;
pub const PCI_CMD_PARITY: u16 = 0x0040;
pub const PCI_CMD_SERR: u16 = 0x0100;
pub const PCI_CMD_FAST_B2B: u16 = 0x0200;
pub const PCI_CMD_INTERRUPT_DISABLE: u16 = 0x0400;

// Class codes.

pub const PCI_CLASS_UNCLASSIFIED: u8 = 0x00;
pub const PCI_CLASS_STORAGE: u8 = 0x01;
pub const PCI_CLASS_NETWORK: u8 = 0x02;
pub const PCI_CLASS_DISPLAY: u8 = 0x03;
pub const PCI_CLASS_MULTIMEDIA: u8 = 0x04;
pub const PCI_CLASS_MEMORY: u8 = 0x05;
pub const PCI_CLASS_BRIDGE: u8 = 0x06;
pub const PCI_CLASS_COMMUNICATION: u8 = 0x07;
pub const PCI_CLASS_SYSTEM: u8 = 0x08;
pub const PCI_CLASS_INPUT: u8 = 0x09;
pub const PCI_CLASS_DOCKING: u8 = 0x0A;
pub const PCI_CLASS_PROCESSOR: u8 = 0x0B;
pub const PCI_CLASS_SERIAL_BUS: u8 = 0x0C;
pub const PCI_CLASS_WIRELESS: u8 = 0x0D;
pub const PCI_CLASS_INTELLIGENT: u8 = 0x0E;
pub const PCI_CLASS_SATELLITE: u8 = 0x0F;
pub const PCI_CLASS_ENCRYPTION: u8 = 0x10;
pub const PCI_CLASS_SIGNAL: u8 = 0x11;

// Common subclasses.

// Storage (class 0x01).
pub const PCI_SUBCLASS_SCSI: u8 = 0x00;
pub const PCI_SUBCLASS_IDE: u8 = 0x01;
pub const PCI_SUBCLASS_FLOPPY: u8 = 0x02;
pub const PCI_SUBCLASS_IPI: u8 = 0x03;
pub const PCI_SUBCLASS_RAID: u8 = 0x04;
pub const PCI_SUBCLASS_ATA: u8 = 0x05;
pub const PCI_SUBCLASS_SATA: u8 = 0x06;
pub const PCI_SUBCLASS_SAS: u8 = 0x07;
pub const PCI_SUBCLASS_NVME: u8 = 0x08;
// Display (class 0x03).
pub const PCI_SUBCLASS_VGA: u8 = 0x00;
pub const PCI_SUBCLASS_XGA: u8 = 0x01;
pub const PCI_SUBCLASS_3D: u8 = 0x02;
// Bridge (class 0x06).
pub const PCI_SUBCLASS_HOST_BRIDGE: u8 = 0x00;
pub const PCI_SUBCLASS_ISA_BRIDGE: u8 = 0x01;
pub const PCI_SUBCLASS_EISA_BRIDGE: u8 = 0x02;
pub const PCI_SUBCLASS_MCA_BRIDGE: u8 = 0x03;
pub const PCI_SUBCLASS_PCI_BRIDGE: u8 = 0x04;
pub const PCI_SUBCLASS_PCMCIA_BRIDGE: u8 = 0x05;
pub const PCI_SUBCLASS_NUBUS_BRIDGE: u8 = 0x06;
pub const PCI_SUBCLASS_CARDBUS_BRIDGE: u8 = 0x07;
pub const PCI_SUBCLASS_RACEWAY_BRIDGE: u8 = 0x08;
pub const PCI_SUBCLASS_OTHER_BRIDGE: u8 = 0x80;
// Serial bus (class 0x0C).
pub const PCI_SUBCLASS_FIREWIRE: u8 = 0x00;
pub const PCI_SUBCLASS_ACCESS_BUS: u8 = 0x01;
pub const PCI_SUBCLASS_SSA: u8 = 0x02;
pub const PCI_SUBCLASS_USB: u8 = 0x03;
pub const PCI_SUBCLASS_FIBRE: u8 = 0x04;
pub const PCI_SUBCLASS_SMBUS: u8 = 0x05;
// USB programming interfaces (class 0x0C, subclass 0x03).
pub const PCI_PROG_IF_UHCI: u8 = 0x00;
pub const PCI_PROG_IF_OHCI: u8 = 0x10;
pub const PCI_PROG_IF_EHCI: u8 = 0x20;
pub const PCI_PROG_IF_XHCI: u8 = 0x30;

} // verus!
