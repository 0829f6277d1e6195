# Redstone Drive System

A kernel's device/driver registry, with its recovery and health policy, and
the bus and ring logic of its drivers, written in Verus: the library under
`src/` is verified, and its functions state in `requires`/`ensures` what
they do wherever that does not rest on a driver's or a bus's own code.

## Layout

- `src/drivers/base/` — the driver manager and its subsystems: devices and
  drivers, recovery and health policy, contexts, resources, parameters,
  driver-zone and DMA memory, dependency graph, fallback chains, events,
  classes, telemetry, power.
- `src/drivers/block/` — the block-device interface, the block registry, the
  virtqueue of virtio-blk with its request chains, and the ATA register and
  data helpers.
- `src/drivers/bus/` — PCI (configuration space, enumeration, BARs,
  capabilities), VirtIO, USB (xHCI rings, TRBs, ports, controller state;
  SCSI/BBB mass-storage encoding), ACPI table checks, ISA and platform buses.
- `src/bits.rs`, `src/bitfields.rs`, `src/seqs.rs`, `src/text.rs` — shared
  lemmas on bit fields and sequences, and text helpers.
- `app/` — what touches hardware or prints: port and memory-mapped I/O, the
  ATA and virtio-blk drivers and xHCI port handling built on the library,
  DMA memory through pointers, per-device driver data, logging and reports.
- `tests/` — tests of the library on concrete values.

Hardware state that the drivers read (PCI configuration space, PORTSC
values, capability registers, BAR size masks) enters the library as plain
values; the library decides, and `app/` performs the register accesses,
maps and clears DMA memory and allocates the memory of virtqueues.
