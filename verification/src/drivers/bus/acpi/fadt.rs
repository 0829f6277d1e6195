//! The FADT: fixed hardware description, boot architecture flags and the
//! reset register.
use vstd::prelude::*;
use crate::drivers::bus::acpi::AcpiTableHeader;

verus! {

/// The FADT.
#[derive(Debug, Clone, Copy)]
pub struct FadtHeader {
    pub header: AcpiTableHeader,
    pub firmware_ctrl: u32,
    pub dsdt: u32,
    pub reserved: u8,
    pub preferred_pm_profile: u8,
    pub sci_interrupt: u16,
    pub smi_command_port: u32,
    pub acpi_enable: u8,
    pub acpi_disable: u8,
    pub s4bios_req: u8,
    pub pstate_control: u8,
    pub pm1a_event_block: u32,
    pub pm1b_event_block: u32,
    pub pm1a_control_block: u32,
    pub pm1b_control_block: u32,
    pub pm2_control_block: u32,
    pub pm_timer_block: u32,
    pub gpe0_block: u32,
    pub gpe1_block: u32,
    pub pm1_event_length: u8,
    pub pm1_control_length: u8,
    pub pm2_control_length: u8,
    pub pm_timer_length: u8,
    pub gpe0_length: u8,
    pub gpe1_length: u8,
    pub gpe1_base: u8,
    pub cstate_control: u8,
    pub worst_c2_latency: u16,
    pub worst_c3_latency: u16,
    pub flush_size: u16,
    pub flush_stride: u16,
    pub duty_offset: u8,
    pub duty_width: u8,
    pub day_alarm: u8,
    pub month_alarm: u8,
    pub century: u8,
    /// Boot architecture flags (bit 1: an 8042 controller is present).
    pub iapc_boot_arch: u16,
    pub reserved2: u8,
    pub flags: u32,
    /// Reset register (generic address structure).
    pub reset_reg: [u8; 12],
    pub reset_value: u8,
}

impl FadtHeader {
    /// Whether the platform has a PS/2 (8042) controller.
    pub fn has_8042(&self) -> (r: bool)
        ensures
            r == ((self.iapc_boot_arch / 2) % 2 == 1),
    {
        let b = self.iapc_boot_arch;
        proof {
            crate::bitfields::lemma_u16_fields(b);
        }
        (b & 2) != 0
    }

    /// Whether the reset register may be used (flags bit 10).
    pub fn reset_supported(&self) -> (r: bool)
        ensures
            r == ((self.flags / 0x400) % 2 == 1),
    {
        let f = self.flags;
        proof {
            crate::bitfields::lemma_u32_fields(f);
        }
        (f & 0x400) != 0
    }

    /// Resetting through the FADT reset register is not implemented: the
    /// system is not reset.
    pub fn reset_system(&self) {
    }
}

} // verus!
