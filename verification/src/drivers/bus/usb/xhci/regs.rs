//! xHCI registers: the capability fields, the operational, port, runtime
//! and interrupter register sets, their bits, and the TRB type and
//! completion codes.
use vstd::prelude::*;

verus! {

/// TRB types.
pub const TRB_NORMAL: u32 = 1;
pub const TRB_SETUP_STAGE: u32 = 2;
pub const TRB_DATA_STAGE: u32 = 3;
pub const TRB_STATUS_STAGE: u32 = 4;
pub const TRB_ISOCH: u32 = 5;
pub const TRB_LINK: u32 = 6;
pub const TRB_EVENT_DATA: u32 = 7;
pub const TRB_NO_OP: u32 = 8;
pub const TRB_ENABLE_SLOT: u32 = 9;
pub const TRB_DISABLE_SLOT: u32 = 10;
pub const TRB_ADDRESS_DEVICE: u32 = 11;
pub const TRB_CONFIGURE_ENDPOINT: u32 = 12;
pub const TRB_EVALUATE_CONTEXT: u32 = 13;
pub const TRB_RESET_ENDPOINT: u32 = 14;
pub const TRB_STOP_ENDPOINT: u32 = 15;
pub const TRB_SET_TR_DEQUEUE: u32 = 16;
pub const TRB_RESET_DEVICE: u32 = 17;
pub const TRB_NO_OP_CMD: u32 = 23;
pub const TRB_TRANSFER_EVENT: u32 = 32;
pub const TRB_COMMAND_COMPLETION: u32 = 33;
pub const TRB_PORT_STATUS_CHANGE: u32 = 34;

/// Completion codes.
pub const COMPLETION_SUCCESS: u8 = 1;
pub const COMPLETION_SHORT_PACKET: u8 = 13;

/// Capability registers.
#[derive(Debug, Clone, Copy)]
pub struct CapabilityRegs {
    pub caplength_hciversion: u32,
    pub hcsparams1: u32,
    pub hcsparams2: u32,
    pub hcsparams3: u32,
    pub hccparams1: u32,
    pub dboff: u32,
    pub rtsoff: u32,
    pub hccparams2: u32,
}

impl CapabilityRegs {
    /// Length of the capability registers (offset of the operational ones).
    pub fn caplength(&self) -> (r: u8)
        ensures
            r == self.caplength_hciversion % 0x100,
    {
        let v = self.caplength_hciversion;
        proof {
            crate::bitfields::lemma_u32_fields(v);
        }
        (v & 0xFF) as u8
    }

    /// Interface version (BCD).
    pub fn hci_version(&self) -> (r: u16)
        ensures
            r == self.caplength_hciversion / 0x1_0000,
    {
        let v = self.caplength_hciversion;
        proof {
            crate::bitfields::lemma_u32_fields(v);
        }
        ((v >> 16u32) & 0xFFFF) as u16
    }

    /// Number of device slots.
    pub fn max_slots(&self) -> (r: u8)
        ensures
            r == self.hcsparams1 % 0x100,
    {
        let v = self.hcsparams1;
        proof {
            crate::bitfields::lemma_u32_fields(v);
        }
        (v & 0xFF) as u8
    }

    /// Number of interrupters (11 bits).
    pub fn max_interrupters(&self) -> (r: u16)
        ensures
            r == (self.hcsparams1 / 0x100) % 0x800,
    {
        let v = self.hcsparams1;
        proof {
            crate::bitfields::lemma_u32_fields(v);
        }
        ((v >> 8u32) & 0x7FF) as u16
    }

    /// Number of root ports.
    pub fn max_ports(&self) -> (r: u8)
        ensures
            r == self.hcsparams1 / 0x100_0000,
    {
        let v = self.hcsparams1;
        proof {
            crate::bitfields::lemma_u32_fields(v);
        }
        ((v >> 24u32) & 0xFF) as u8
    }

    /// Whether the controller addresses 64 bits.
    pub fn is_64bit(&self) -> (r: bool)
        ensures
            r == (self.hccparams1 % 2 == 1),
    {
        let v = self.hccparams1;
        proof {
            crate::bitfields::lemma_u32_fields(v);
        }
        (v & 0x01) != 0
    }

    /// Size of a context: 64 bytes when the CSZ bit is set, else 32.
    pub fn context_size(&self) -> (r: usize)
        ensures
            r == (if (self.hccparams1 / 4) % 2 == 1 { 64usize } else { 32usize }),
    {
        let v = self.hccparams1;
        proof {
            crate::bitfields::lemma_u32_fields(v);
        }
        if (v & 0x04) != 0 {
            64
        } else {
            32
        }
    }
}

/// Operational registers.
#[derive(Debug, Clone, Copy)]
pub struct OperationalRegs {
    pub usbcmd: u32,
    pub usbsts: u32,
    pub pagesize: u32,
    pub reserved1: [u32; 2],
    pub dnctrl: u32,
    pub crcr: u64,
    pub reserved2: [u32; 4],
    pub dcbaap: u64,
    pub config: u32,
}

pub const USBCMD_RUN: u32 = 0x1;
pub const USBCMD_HCRST: u32 = 0x2;
pub const USBCMD_INTE: u32 = 0x4;
pub const USBCMD_HSEE: u32 = 0x8;
pub const USBCMD_LHCRST: u32 = 0x80;
pub const USBCMD_CSS: u32 = 0x100;
pub const USBCMD_CRS: u32 = 0x200;
pub const USBCMD_EWE: u32 = 0x400;
pub const USBCMD_EU3S: u32 = 0x800;

pub const USBSTS_HCH: u32 = 0x1;
pub const USBSTS_HSE: u32 = 0x4;
pub const USBSTS_EINT: u32 = 0x8;
pub const USBSTS_PCD: u32 = 0x10;
pub const USBSTS_SSS: u32 = 0x100;
pub const USBSTS_RSS: u32 = 0x200;
pub const USBSTS_SRE: u32 = 0x400;
pub const USBSTS_CNR: u32 = 0x800;
pub const USBSTS_HCE: u32 = 0x1000;

pub const CRCR_RCS: u64 = 0x1;
pub const CRCR_CS: u64 = 0x2;
pub const CRCR_CA: u64 = 0x4;
pub const CRCR_CRR: u64 = 0x8;

/// Registers of one root port.
#[derive(Debug, Clone, Copy)]
pub struct PortRegs {
    pub portsc: u32,
    pub portpmsc: u32,
    pub portli: u32,
    pub porthlpmc: u32,
}

pub const PORTSC_CCS: u32 = 0x1;
pub const PORTSC_PED: u32 = 0x2;
pub const PORTSC_OCA: u32 = 0x8;
pub const PORTSC_PR: u32 = 0x10;
pub const PORTSC_PP: u32 = 0x200;
pub const PORTSC_CSC: u32 = 0x2_0000;
pub const PORTSC_PEC: u32 = 0x4_0000;
pub const PORTSC_WRC: u32 = 0x8_0000;
pub const PORTSC_OCC: u32 = 0x10_0000;
pub const PORTSC_PRC: u32 = 0x20_0000;
pub const PORTSC_PLC: u32 = 0x40_0000;
pub const PORTSC_CEC: u32 = 0x80_0000;
pub const PORTSC_WCE: u32 = 0x200_0000;
pub const PORTSC_WDE: u32 = 0x400_0000;
pub const PORTSC_WOE: u32 = 0x800_0000;
pub const PORTSC_DR: u32 = 0x4000_0000;
pub const PORTSC_WPR: u32 = 0x8000_0000;
pub const PORTSC_PLS_MASK: u32 = 0x1E0;
pub const PORTSC_SPEED_MASK: u32 = 0x3C00;

/// Runtime registers.
#[derive(Debug, Clone, Copy)]
pub struct RuntimeRegs {
    pub mfindex: u32,
    pub reserved: [u32; 7],
}

/// Registers of one interrupter.
#[derive(Debug, Clone, Copy)]
pub struct InterrupterRegs {
    pub iman: u32,
    pub imod: u32,
    pub erstsz: u32,
    pub reserved: u32,
    pub erstba: u64,
    pub erdp: u64,
}

pub const IMAN_IP: u32 = 0x1;
pub const IMAN_IE: u32 = 0x2;

} // verus!
