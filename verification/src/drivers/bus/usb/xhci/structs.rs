//! xHCI data structures: transfer request blocks and their bit fields, USB
//! setup packets and descriptors, device and input contexts, and event
//! ring segment table entries.
use vstd::prelude::*;
use crate::drivers::bus::usb::xhci::regs::{
    TRB_LINK, TRB_ENABLE_SLOT, TRB_ADDRESS_DEVICE, TRB_NO_OP_CMD, TRB_SETUP_STAGE,
    TRB_DATA_STAGE, TRB_STATUS_STAGE, TRB_NORMAL,
};

verus! {

/// A transfer request block (16 bytes).
#[derive(Clone, Copy, Debug)]
pub struct Trb {
    pub param_lo: u32,
    pub param_hi: u32,
    pub status: u32,
    pub control: u32,
}

/// The TRB type field (bits 10..15 of the control word).
pub open spec fn type_field(control: u32) -> u32 {
    (control >> 10u32) & 0x3F
}

/// The cycle bit (bit 0 of the control word).
pub open spec fn cycle_bit(control: u32) -> bool {
    control & 1 != 0
}

/// The control word with the type field replaced by the low 6 bits of `t`.
pub open spec fn with_type(control: u32, t: u32) -> u32 {
    (control & !0xFC00u32) | ((t & 0x3F) << 10u32)
}

/// The control word with the cycle bit set to `c`.
pub open spec fn with_cycle(control: u32, c: bool) -> u32 {
    if c { control | 1 } else { control & !1u32 }
}

/// A TRB of type `t`, all else zero.
pub open spec fn typed(t: u32) -> Trb {
    Trb { param_lo: 0, param_hi: 0, status: 0, control: with_type(0, t) }
}

/// The 64-bit pointer held in the parameter words.
pub open spec fn param_of(t: Trb) -> int {
    t.param_lo + t.param_hi * 0x1_0000_0000
}

impl Trb {
    /// An all-zero TRB.
    pub fn new() -> (t: Trb)
        ensures
            t == (Trb { param_lo: 0, param_hi: 0, status: 0, control: 0 }),
    {
        Trb { param_lo: 0, param_hi: 0, status: 0, control: 0 }
    }

    /// Sets the TRB type (6 bits), keeping the rest of the control word.
    pub fn set_type(&mut self, trb_type: u32)
        ensures
            final(self).control == with_type(old(self).control, trb_type),
            type_field(final(self).control) == trb_type % 64,
            cycle_bit(final(self).control) == cycle_bit(old(self).control),
            final(self).param_lo == old(self).param_lo,
            final(self).param_hi == old(self).param_hi,
            final(self).status == old(self).status,
    {
        let c = self.control;
        let n = (c & !0xFC00u32) | ((trb_type & 0x3F) << 10u32);
        proof {
            lemma_control_bits(c, trb_type);
        }
        self.control = n;
    }

    /// The TRB type.
    pub fn trb_type(&self) -> (t: u32)
        ensures
            t == type_field(self.control),
    {
        (self.control >> 10u32) & 0x3F
    }

    /// Sets or clears the cycle bit, keeping the rest.
    pub fn set_cycle(&mut self, cycle: bool)
        ensures
            final(self).control == with_cycle(old(self).control, cycle),
            cycle_bit(final(self).control) == cycle,
            type_field(final(self).control) == type_field(old(self).control),
            final(self).param_lo == old(self).param_lo,
            final(self).param_hi == old(self).param_hi,
            final(self).status == old(self).status,
    {
        let c = self.control;
        proof {
            lemma_control_bits(c, 0);
        }
        if cycle {
            self.control = c | 1;
        } else {
            self.control = c & !1u32;
        }
    }

    /// The cycle bit.
    pub fn cycle(&self) -> (c: bool)
        ensures
            c == cycle_bit(self.control),
    {
        (self.control & 1) != 0
    }

    /// Stores a 64-bit pointer in the parameter words.
    pub fn set_param_ptr(&mut self, addr: u64)
        ensures
            param_of(*final(self)) == addr,
            final(self).param_lo == addr % 0x1_0000_0000,
            final(self).param_hi == addr / 0x1_0000_0000,
            final(self).status == old(self).status,
            final(self).control == old(self).control,
    {
        proof {
            crate::bitfields::lemma_u64_halves(addr, 0, 0);
        }
        let lo = addr as u32;
        let hi = (addr >> 32u64) as u32;
        self.param_lo = lo;
        self.param_hi = hi;
    }

    /// The 64-bit pointer in the parameter words.
    pub fn param_ptr(&self) -> (a: u64)
        ensures
            a == param_of(*self),
    {
        let lo = self.param_lo as u64;
        let hi = self.param_hi as u64;
        proof {
            crate::bitfields::lemma_u64_halves(0, lo, hi);
        }
        lo | (hi << 32u64)
    }

    /// Completion code of an event TRB (status bits 24..31).
    pub fn completion_code(&self) -> (c: u8)
        ensures
            c == self.status / 0x100_0000,
    {
        let s = self.status;
        proof {
            crate::bitfields::lemma_u32_fields(s);
        }
        ((s >> 24u32) & 0xFF) as u8
    }

    /// Transfer length of an event TRB (status bits 0..23).
    pub fn transfer_length(&self) -> (n: u32)
        ensures
            n == self.status % 0x100_0000,
    {
        let s = self.status;
        proof {
            crate::bitfields::lemma_u32_fields(s);
        }
        s & 0xFFFFFF
    }

    /// A link TRB to the ring at `next_ring_addr`, toggling the cycle when
    /// `toggle_cycle`.
    pub fn link(next_ring_addr: u64, toggle_cycle: bool) -> (t: Trb)
        ensures
            param_of(t) == next_ring_addr,
            t.status == 0,
            t.control == (if toggle_cycle { with_type(0, TRB_LINK) | 2 } else { with_type(0, TRB_LINK) }),
    {
        let mut trb = Trb::new();
        trb.set_param_ptr(next_ring_addr);
        trb.set_type(TRB_LINK);
        if toggle_cycle {
            trb.control = trb.control | 2;
        }
        trb
    }

    /// An Enable Slot command.
    pub fn enable_slot() -> (t: Trb)
        ensures
            t == typed(TRB_ENABLE_SLOT),
    {
        let mut trb = Trb::new();
        trb.set_type(TRB_ENABLE_SLOT);
        trb
    }

    /// An Address Device command for `slot_id` with the input context at
    /// `input_context_addr`; `bsr` blocks the SET_ADDRESS request.
    pub fn address_device(input_context_addr: u64, slot_id: u8, bsr: bool) -> (t: Trb)
        ensures
            param_of(t) == input_context_addr,
            t.status == 0,
            t.control == (with_type(0, TRB_ADDRESS_DEVICE) | ((slot_id as u32) << 24u32)) | (if bsr { 0x200u32 } else { 0u32 }),
    {
        let mut trb = Trb::new();
        trb.set_param_ptr(input_context_addr);
        trb.set_type(TRB_ADDRESS_DEVICE);
        trb.control = trb.control | ((slot_id as u32) << 24u32);
        if bsr {
            trb.control = trb.control | 0x200;
        } else {
            proof {
                crate::bitfields::lemma_u32_fields(trb.control);
            }
        }
        trb
    }

    /// A No Op command.
    pub fn noop() -> (t: Trb)
        ensures
            t == typed(TRB_NO_OP_CMD),
    {
        let mut trb = Trb::new();
        trb.set_type(TRB_NO_OP_CMD);
        trb
    }

    /// The Setup Stage of a control transfer: the 8 setup bytes immediate in
    /// the parameters, length 8, IDT set, transfer type `trt` (2 bits).
    pub fn setup_stage(request: SetupPacket, trt: u8) -> (t: Trb)
        ensures
            t.param_lo == request.bm_request_type as int + request.b_request as int * 0x100 + request.w_value as int * 0x1_0000,
            t.param_hi == request.w_index as int + request.w_length as int * 0x1_0000,
            t.status == 8,
            t.control == (with_type(0, TRB_SETUP_STAGE) | 0x40u32) | (((trt as u32) & 3) << 16u32),
    {
        let mut trb = Trb::new();
        let a = request.bm_request_type as u32;
        let b = request.b_request as u32;
        let v = request.w_value as u32;
        let i = request.w_index as u32;
        let l = request.w_length as u32;
        proof {
            crate::bitfields::lemma_pack_bytes(a, b, 0, 0);
            crate::bitfields::lemma_pack_halves(a | (b << 8u32), v);
            crate::bitfields::lemma_pack_halves(i, l);
        }
        trb.param_lo = a | (b << 8u32) | (v << 16u32);
        trb.param_hi = i | (l << 16u32);
        trb.status = 8;
        trb.set_type(TRB_SETUP_STAGE);
        trb.control = trb.control | 0x40;
        trb.control = trb.control | (((trt as u32) & 0x3) << 16u32);
        trb
    }

    /// A Data Stage of `length` bytes (17 bits) at `data_addr`, IN when
    /// `direction_in`.
    pub fn data_stage(data_addr: u64, length: u32, direction_in: bool) -> (t: Trb)
        ensures
            param_of(t) == data_addr,
            t.status == length % 0x2_0000,
            t.control == with_type(0, TRB_DATA_STAGE) | (if direction_in { 0x1_0000u32 } else { 0u32 }),
    {
        let mut trb = Trb::new();
        trb.set_param_ptr(data_addr);
        proof {
            crate::bitfields::lemma_u32_fields(length);
        }
        trb.status = length & 0x1FFFF;
        trb.set_type(TRB_DATA_STAGE);
        if direction_in {
            trb.control = trb.control | 0x1_0000;
        } else {
            proof {
                crate::bitfields::lemma_u32_fields(trb.control);
            }
        }
        trb
    }

    /// The Status Stage, IN when `direction_in`, with IOC set.
    pub fn status_stage(direction_in: bool) -> (t: Trb)
        ensures
            param_of(t) == 0,
            t.status == 0,
            t.control == (with_type(0, TRB_STATUS_STAGE) | (if direction_in { 0x1_0000u32 } else { 0u32 })) | 0x20u32,
    {
        let mut trb = Trb::new();
        trb.set_type(TRB_STATUS_STAGE);
        if direction_in {
            trb.control = trb.control | 0x1_0000;
        } else {
            proof {
                crate::bitfields::lemma_u32_fields(trb.control);
            }
        }
        trb.control = trb.control | 0x20;
        trb
    }

    /// A Normal transfer of `length` bytes (17 bits) at `data_addr`, IOC
    /// when `ioc`.
    pub fn normal(data_addr: u64, length: u32, ioc: bool) -> (t: Trb)
        ensures
            param_of(t) == data_addr,
            t.status == length % 0x2_0000,
            t.control == with_type(0, TRB_NORMAL) | (if ioc { 0x20u32 } else { 0u32 }),
    {
        let mut trb = Trb::new();
        trb.set_param_ptr(data_addr);
        proof {
            crate::bitfields::lemma_u32_fields(length);
        }
        trb.status = length & 0x1FFFF;
        trb.set_type(TRB_NORMAL);
        if ioc {
            trb.control = trb.control | 0x20;
        } else {
            proof {
                crate::bitfields::lemma_u32_fields(trb.control);
            }
        }
        trb
    }
}

/// A USB setup packet (8 bytes, little-endian fields).
#[derive(Clone, Copy, Debug)]
pub struct SetupPacket {
    pub bm_request_type: u8,
    pub b_request: u8,
    pub w_value: u16,
    pub w_index: u16,
    pub w_length: u16,
}

/// The 8 wire bytes of a setup packet.
pub open spec fn setup_bytes(p: SetupPacket) -> Seq<u8> {
    seq![
        p.bm_request_type, p.b_request,
        (p.w_value % 0x100) as u8, (p.w_value / 0x100) as u8,
        (p.w_index % 0x100) as u8, (p.w_index / 0x100) as u8,
        (p.w_length % 0x100) as u8, (p.w_length / 0x100) as u8,
    ]
}

fn lo_byte(x: u16) -> (b: u8)
    ensures
        b == (x % 0x100) as u8,
{
    proof {
        crate::bitfields::lemma_u16_fields(x);
    }
    (x & 0xFF) as u8
}

fn hi_byte(x: u16) -> (b: u8)
    ensures
        b == (x / 0x100) as u8,
{
    proof {
        crate::bitfields::lemma_u16_fields(x);
    }
    (x >> 8u16) as u8
}

impl SetupPacket {
    /// The 8 bytes sent in the Setup Stage.
    pub fn to_bytes(&self) -> (b: [u8; 8])
        ensures
            b@ == setup_bytes(*self),
    {
        let b = [
            self.bm_request_type,
            self.b_request,
            lo_byte(self.w_value),
            hi_byte(self.w_value),
            lo_byte(self.w_index),
            hi_byte(self.w_index),
            lo_byte(self.w_length),
            hi_byte(self.w_length),
        ];
        assert(b@ =~= setup_bytes(*self));
        b
    }

    /// GET_DESCRIPTOR of type `desc_type`, index `desc_index`, for `length`
    /// bytes.
    pub fn get_descriptor(desc_type: u8, desc_index: u8, length: u16) -> (p: SetupPacket)
        ensures
            p == (SetupPacket { bm_request_type: 0x80, b_request: 0x06,
                w_value: (desc_type as u16 * 0x100 + desc_index as u16) as u16, w_index: 0, w_length: length }),
    {
        let t = desc_type as u16;
        let i = desc_index as u16;
        proof {
            crate::bitfields::lemma_pack_u16(t, i);
        }
        SetupPacket { bm_request_type: 0x80, b_request: 0x06, w_value: (t << 8u16) | i, w_index: 0, w_length: length }
    }

    /// SET_ADDRESS to `address`.
    pub fn set_address(address: u8) -> (p: SetupPacket)
        ensures
            p == (SetupPacket { bm_request_type: 0x00, b_request: 0x05, w_value: address as u16, w_index: 0, w_length: 0 }),
    {
        SetupPacket { bm_request_type: 0x00, b_request: 0x05, w_value: address as u16, w_index: 0, w_length: 0 }
    }

    /// SET_CONFIGURATION to `config`.
    pub fn set_configuration(config: u8) -> (p: SetupPacket)
        ensures
            p == (SetupPacket { bm_request_type: 0x00, b_request: 0x09, w_value: config as u16, w_index: 0, w_length: 0 }),
    {
        SetupPacket { bm_request_type: 0x00, b_request: 0x09, w_value: config as u16, w_index: 0, w_length: 0 }
    }

    /// Bulk-Only Mass Storage Reset of `interface`.
    pub fn bulk_only_reset(interface: u16) -> (p: SetupPacket)
        ensures
            p == (SetupPacket { bm_request_type: 0x21, b_request: 0xFF, w_value: 0, w_index: interface, w_length: 0 }),
    {
        SetupPacket { bm_request_type: 0x21, b_request: 0xFF, w_value: 0, w_index: interface, w_length: 0 }
    }

    /// Get Max LUN of `interface` (one byte back).
    pub fn get_max_lun(interface: u16) -> (p: SetupPacket)
        ensures
            p == (SetupPacket { bm_request_type: 0xA1, b_request: 0xFE, w_value: 0, w_index: interface, w_length: 1 }),
    {
        SetupPacket { bm_request_type: 0xA1, b_request: 0xFE, w_value: 0, w_index: interface, w_length: 1 }
    }
}

/// Standard descriptor types.
pub const DESC_DEVICE: u8 = 1;
pub const DESC_CONFIGURATION: u8 = 2;
pub const DESC_STRING: u8 = 3;
pub const DESC_INTERFACE: u8 = 4;
pub const DESC_ENDPOINT: u8 = 5;
pub const DESC_DEVICE_QUALIFIER: u8 = 6;
pub const DESC_OTHER_SPEED_CONFIG: u8 = 7;
pub const DESC_INTERFACE_POWER: u8 = 8;
pub const DESC_OTG: u8 = 9;
pub const DESC_DEBUG: u8 = 10;
pub const DESC_INTERFACE_ASSOCIATION: u8 = 11;
pub const DESC_BOS: u8 = 15;
pub const DESC_DEVICE_CAPABILITY: u8 = 16;
pub const DESC_HID: u8 = 0x21;
pub const DESC_HID_REPORT: u8 = 0x22;
pub const DESC_HID_PHYSICAL: u8 = 0x23;

/// Device descriptor.
#[derive(Clone, Copy, Debug)]
pub struct DeviceDescriptor {
    pub b_length: u8,
    pub b_descriptor_type: u8,
    pub bcd_usb: u16,
    pub b_device_class: u8,
    pub b_device_sub_class: u8,
    pub b_device_protocol: u8,
    pub b_max_packet_size0: u8,
    pub id_vendor: u16,
    pub id_product: u16,
    pub bcd_device: u16,
    pub i_manufacturer: u8,
    pub i_product: u8,
    pub i_serial_number: u8,
    pub b_num_configurations: u8,
}

/// Configuration descriptor.
#[derive(Clone, Copy, Debug)]
pub struct ConfigurationDescriptor {
    pub b_length: u8,
    pub b_descriptor_type: u8,
    pub w_total_length: u16,
    pub b_num_interfaces: u8,
    pub b_configuration_value: u8,
    pub i_configuration: u8,
    pub bm_attributes: u8,
    pub b_max_power: u8,
}

/// Interface descriptor.
#[derive(Clone, Copy, Debug)]
pub struct InterfaceDescriptor {
    pub b_length: u8,
    pub b_descriptor_type: u8,
    pub b_interface_number: u8,
    pub b_alternate_setting: u8,
    pub b_num_endpoints: u8,
    pub b_interface_class: u8,
    pub b_interface_sub_class: u8,
    pub b_interface_protocol: u8,
    pub i_interface: u8,
}

/// Endpoint descriptor.
#[derive(Clone, Copy, Debug)]
pub struct EndpointDescriptor {
    pub b_length: u8,
    pub b_descriptor_type: u8,
    /// Number in bits 0..3, bit 7 set for IN.
    pub b_endpoint_address: u8,
    /// Transfer type in bits 0..1.
    pub bm_attributes: u8,
    pub w_max_packet_size: u16,
    pub b_interval: u8,
}

/// Transfer types of endpoints.
#[derive(Debug, Clone, Copy, PartialEq, Eq, Structural)]
pub enum EndpointType {
    Control,
    Isochronous,
    Bulk,
    Interrupt,
}

impl EndpointDescriptor {
    /// Endpoint number.
    pub fn endpoint_number(&self) -> (n: u8)
        ensures
            n == self.b_endpoint_address % 16,
    {
        let a = self.b_endpoint_address;
        proof {
            crate::bitfields::lemma_u8_fields(a);
        }
        a & 0x0F
    }

    /// Whether the endpoint sends to the host.
    pub fn is_in(&self) -> (r: bool)
        ensures
            r == (self.b_endpoint_address >= 0x80),
    {
        let a = self.b_endpoint_address;
        proof {
            crate::bitfields::lemma_u8_fields(a);
        }
        (a & 0x80) != 0
    }

    /// Transfer type from the attributes.
    pub fn transfer_type(&self) -> (t: EndpointType)
        ensures
            t == (match self.bm_attributes % 4 {
                0 => EndpointType::Control,
                1 => EndpointType::Isochronous,
                2 => EndpointType::Bulk,
                _ => EndpointType::Interrupt,
            }),
    {
        let a = self.bm_attributes;
        proof {
            crate::bitfields::lemma_u8_fields(a);
        }
        let k = a & 0x03;
        if k == 0 {
            EndpointType::Control
        } else if k == 1 {
            EndpointType::Isochronous
        } else if k == 2 {
            EndpointType::Bulk
        } else {
            EndpointType::Interrupt
        }
    }
}

/// USB class codes.
pub const CLASS_INTERFACE_SPECIFIC: u8 = 0x00;
pub const CLASS_AUDIO: u8 = 0x01;
pub const CLASS_CDC: u8 = 0x02;
pub const CLASS_HID: u8 = 0x03;
pub const CLASS_PHYSICAL: u8 = 0x05;
pub const CLASS_IMAGE: u8 = 0x06;
pub const CLASS_PRINTER: u8 = 0x07;
pub const CLASS_MASS_STORAGE: u8 = 0x08;
pub const CLASS_HUB: u8 = 0x09;
pub const CLASS_CDC_DATA: u8 = 0x0A;
pub const CLASS_SMART_CARD: u8 = 0x0B;
pub const CLASS_VIDEO: u8 = 0x0E;
pub const CLASS_AUDIO_VIDEO: u8 = 0x10;
pub const CLASS_WIRELESS: u8 = 0xE0;
pub const CLASS_VENDOR_SPECIFIC: u8 = 0xFF;

/// Mass-storage subclasses.
pub const MSC_SUBCLASS_RBC: u8 = 0x01;
pub const MSC_SUBCLASS_SFF8020I: u8 = 0x02;
pub const MSC_SUBCLASS_QIC157: u8 = 0x03;
pub const MSC_SUBCLASS_UFI: u8 = 0x04;
pub const MSC_SUBCLASS_SFF8070I: u8 = 0x05;
pub const MSC_SUBCLASS_SCSI: u8 = 0x06;

/// Mass-storage protocols.
pub const MSC_PROTOCOL_CBI_INTERRUPT: u8 = 0x00;
pub const MSC_PROTOCOL_CBI_NO_INTERRUPT: u8 = 0x01;
pub const MSC_PROTOCOL_BULK_ONLY: u8 = 0x50;
pub const MSC_PROTOCOL_UAS: u8 = 0x62;

/// Slot context.
#[derive(Clone, Copy, Debug)]
pub struct SlotContext {
    pub dword0: u32,
    pub dword1: u32,
    pub dword2: u32,
    pub dword3: u32,
    pub reserved: [u32; 12],
}

/// Endpoint context.
#[derive(Clone, Copy, Debug)]
pub struct EndpointContext {
    pub dword0: u32,
    pub dword1: u32,
    pub tr_dequeue_lo: u32,
    pub tr_dequeue_hi: u32,
    pub dword4: u32,
    pub reserved: [u32; 11],
}

/// Device context: slot and 31 endpoints.
#[derive(Clone, Copy, Debug)]
pub struct DeviceContext {
    pub slot: SlotContext,
    pub endpoints: [EndpointContext; 31],
}

/// Input control context.
#[derive(Clone, Copy, Debug)]
pub struct InputControlContext {
    pub drop_flags: u32,
    pub add_flags: u32,
    pub reserved: [u32; 5],
    pub dword7: u32,
}

/// Input context.
#[derive(Clone, Copy, Debug)]
pub struct InputContext {
    pub control: InputControlContext,
    pub slot: SlotContext,
    pub endpoints: [EndpointContext; 31],
}

/// Event ring segment table entry.
#[derive(Clone, Copy, Debug)]
pub struct ErstEntry {
    pub base_lo: u32,
    pub base_hi: u32,
    pub size: u32,
    pub reserved: u32,
}

impl ErstEntry {
    /// An all-zero entry.
    pub fn new() -> (e: ErstEntry)
        ensures
            e == (ErstEntry { base_lo: 0, base_hi: 0, size: 0, reserved: 0 }),
    {
        ErstEntry { base_lo: 0, base_hi: 0, size: 0, reserved: 0 }
    }
}

/// Setting the type then reading it gives the type back (6 bits), and the
/// cycle bit is untouched; setting the cycle leaves the type.
pub proof fn lemma_trb_fields_independent(control: u32, t: u32, c: bool)
    ensures
        type_field(with_type(control, t)) == t % 64,
        cycle_bit(with_type(control, t)) == cycle_bit(control),
        cycle_bit(with_cycle(control, c)) == c,
        type_field(with_cycle(control, c)) == type_field(control),
{
    lemma_control_bits(control, t);
}

/// The type and cycle fields of a control word, written and read back.
proof fn lemma_control_bits(c: u32, t: u32)
    by (bit_vector)
    ensures
        (((c & !0xFC00u32) | ((t & 0x3F) << 10u32)) >> 10u32) & 0x3F == t % 64,
        (((c & !0xFC00u32) | ((t & 0x3F) << 10u32)) & 1 != 0) == (c & 1 != 0),
        (c | 1) & 1 != 0,
        (c & !1u32) & 1 == 0,
        ((c | 1) >> 10u32) & 0x3F == (c >> 10u32) & 0x3F,
        ((c & !1u32) >> 10u32) & 0x3F == (c >> 10u32) & 0x3F,
        c | 0u32 == c,
{
}

/// A pointer stored in a TRB is read back unchanged.
pub proof fn lemma_param_roundtrip(addr: u64)
    ensures
        (addr % 0x1_0000_0000) + (addr / 0x1_0000_0000) * 0x1_0000_0000 == addr,
{
}

} // verus!
