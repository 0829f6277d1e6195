use lib::drivers::block::ata::{self, Lba28Registers};
use lib::drivers::block::traits::{BlockDevice, BlockDeviceInfo, BlockError};
use lib::drivers::block::virtio_blk::{self, blk_init_next, BlkInit, BlkInitAction, RequestChain, BLK_T_IN, BLK_T_OUT};
use lib::drivers::block::virtqueue::{queue_layout, Virtqueue, DESC_F_NEXT, DESC_F_WRITE};
use lib::drivers::block::{self as block, BlockRegistry};

struct RamDisk {
    blocks: u64,
}

impl BlockDevice for RamDisk {
    fn spec_block_size(&self) -> usize {
        4
    }
    fn read_block(&self, lba: u64, buf: &mut [u8]) -> Result<(), BlockError> {
        if lba >= self.blocks {
            return Err(BlockError::InvalidBlock);
        }
        for b in buf.iter_mut().take(4) {
            *b = lba as u8;
        }
        Ok(())
    }
    fn write_block(&self, lba: u64, _buf: &[u8]) -> Result<(), BlockError> {
        if lba >= self.blocks {
            Err(BlockError::InvalidBlock)
        } else {
            Ok(())
        }
    }
    fn block_size(&self) -> usize {
        4
    }
    fn total_blocks(&self) -> u64 {
        self.blocks
    }
}

#[test]
fn read_blocks_splits_into_blocks() {
    let d = RamDisk { blocks: 4 };
    let mut buf = [0u8; 12];
    assert_eq!(d.read_blocks(1, &mut buf), Ok(()));
    assert_eq!(buf, [1, 1, 1, 1, 2, 2, 2, 2, 3, 3, 3, 3]);
}

#[test]
fn read_blocks_rejects_partial_blocks() {
    let d = RamDisk { blocks: 4 };
    let mut buf = [7u8; 6];
    assert_eq!(d.read_blocks(0, &mut buf), Err(BlockError::InvalidBuffer));
    assert_eq!(buf, [7u8; 6]);
    assert_eq!(d.write_blocks(0, &buf), Err(BlockError::InvalidBuffer));
}

#[test]
fn read_blocks_stops_at_failure() {
    let d = RamDisk { blocks: 2 };
    let mut buf = [0u8; 12];
    assert_eq!(d.read_blocks(1, &mut buf), Err(BlockError::InvalidBlock));
    assert_eq!(d.write_blocks(1, &[0u8; 8]), Err(BlockError::InvalidBlock));
    assert_eq!(d.write_blocks(0, &[0u8; 8]), Ok(()));
}

#[test]
fn block_error_messages() {
    assert_eq!(BlockError::ReadOnly.message(), "Read-only device");
    assert_eq!(BlockError::Busy.message(), "Device busy");
}

#[test]
fn device_info_sizes() {
    let info = BlockDeviceInfo { name: "virtio0", block_size: 512, total_blocks: 4096, read_only: false };
    assert_eq!(info.size_bytes(), 2 * 1024 * 1024);
    assert_eq!(info.size_mb(), 2);
}

#[test]
fn registry_prefers_ata_then_virtio() {
    let mut reg = BlockRegistry::new();
    block::init(&mut reg, Some(Box::new(RamDisk { blocks: 1 })), Some(Box::new(RamDisk { blocks: 2 })));
    assert_eq!(block::device_count(&reg), 1);
    assert_eq!(block::first_device(&reg).unwrap().total_blocks(), 1);
    let mut reg2 = BlockRegistry::new();
    block::init(&mut reg2, None, Some(Box::new(RamDisk { blocks: 2 })));
    assert_eq!(block::device_count(&reg2), 1);
    assert_eq!(block::get_device(&reg2, 0).unwrap().total_blocks(), 2);
    assert!(block::get_device(&reg2, 1).is_none());
}

#[test]
fn virtqueue_free_list_is_lifo() {
    let mut q = Virtqueue::new(4, 0x1000).unwrap();
    assert_eq!(q.size(), 4);
    assert_eq!(q.phys_addr(), 0x1000);
    assert_eq!(q.alloc_desc(), Some(0));
    assert_eq!(q.alloc_desc(), Some(1));
    q.free_desc(0);
    assert_eq!(q.alloc_desc(), Some(0));
    assert_eq!(q.alloc_desc(), Some(2));
    assert_eq!(q.alloc_desc(), Some(3));
    assert_eq!(q.alloc_desc(), None);
    assert_eq!(q.num_free, 0);
}

#[test]
fn virtqueue_rings() {
    let mut q = Virtqueue::new(2, 0).unwrap();
    q.push_avail(5);
    q.push_avail(6);
    q.push_avail(7);
    assert_eq!(q.avail.idx, 3);
    assert_eq!(q.avail_ring, vec![7, 6]);
    assert!(!q.has_used());
    assert!(q.pop_used().is_none());
    q.record_used(5, 512);
    assert!(q.has_used());
    let e = q.pop_used().unwrap();
    assert_eq!((e.id, e.len), (5, 512));
    assert!(!q.has_used());
}

#[test]
fn virtio_request_chain_roundtrip() {
    let mut q = Virtqueue::new(8, 0).unwrap();
    let chain: RequestChain = virtio_blk::submit_request(&mut q, 0x100, 16, 0x200, 512, 0x300, false).unwrap();
    assert_eq!((chain.header, chain.data, chain.status), (0, 1, 2));
    assert_eq!(q.desc[1].flags, DESC_F_NEXT | DESC_F_WRITE);
    assert_eq!(q.desc[2].flags, DESC_F_WRITE);
    assert_eq!(q.desc[0].next, 1);
    assert_eq!(q.avail_ring[0], 0);
    q.record_used(0, 513);
    assert_eq!(virtio_blk::finish_request(&mut q, chain, true, 0), Ok(()));
    assert_eq!(q.num_free, 8);
    assert_eq!(q.free_head, 2);
}

#[test]
fn virtio_request_errors() {
    let mut q = Virtqueue::new(2, 0).unwrap();
    assert_eq!(virtio_blk::submit_request(&mut q, 0, 16, 0, 512, 0, true).err(), Some(BlockError::Busy));
    let mut q = Virtqueue::new(3, 0).unwrap();
    let c = virtio_blk::submit_request(&mut q, 0, 16, 0, 512, 0, true).unwrap();
    assert_eq!(q.desc[c.data as usize].flags, DESC_F_NEXT);
    assert_eq!(virtio_blk::finish_request(&mut q, c, false, 0), Err(BlockError::IoError));
    assert_eq!(virtio_blk::status_result(1), Err(BlockError::IoError));
    assert_eq!(virtio_blk::status_result(2), Err(BlockError::HardwareError));
}

#[test]
fn virtio_blk_checks_and_registers() {
    assert_eq!(virtio_blk::check_request(false, 10, 0, 512), Err(BlockError::NotFound));
    assert_eq!(virtio_blk::check_request(true, 10, 10, 512), Err(BlockError::InvalidBlock));
    assert_eq!(virtio_blk::check_request(true, 10, 9, 511), Err(BlockError::InvalidBuffer));
    assert_eq!(virtio_blk::check_request(true, 10, 9, 512), Ok(()));
    assert_eq!(virtio_blk::capacity_from_regs(0x10, 0x2), 0x2_0000_0010);
    assert_eq!(virtio_blk::negotiated_queue_size(0), None);
    assert_eq!(virtio_blk::negotiated_queue_size(1024), Some(128));
    assert_eq!(virtio_blk::negotiated_queue_size(64), Some(64));
    assert!(virtio_blk::features_accepted(0x0B));
    assert!(!virtio_blk::features_accepted(0x07));
    assert_eq!(virtio_blk::request_header(true, 9).req_type, BLK_T_OUT);
    assert_eq!(virtio_blk::request_header(false, 9).req_type, BLK_T_IN);
    assert_eq!(virtio_blk::queue_pfn(0x5000), 5);
}

#[test]
fn ata_register_values() {
    let r: Lba28Registers = ata::lba28_registers(0x0123_4567).unwrap();
    assert_eq!((r.drive_head, r.lba_lo, r.lba_mid, r.lba_hi), (0xE1, 0x67, 0x45, 0x23));
    assert_eq!(ata::lba28_registers(0x1000_0000).err(), Some(BlockError::InvalidBlock));
    assert!(ata::is_ready(0x40));
    assert!(!ata::is_ready(0x80));
    assert_eq!(ata::data_request_state(0x01), Some(false));
    assert_eq!(ata::data_request_state(0x08), Some(true));
    assert_eq!(ata::data_request_state(0x40), None);
    assert_eq!(ata::check_read(511), Err(BlockError::InvalidBuffer));
    assert_eq!(ata::check_read(512), Ok(()));
}

#[test]
fn ata_identify_counts() {
    let mut id = [0u16; 256];
    id[60] = 0x5678;
    id[61] = 0x0012;
    assert_eq!(ata::identify_sectors(&id), 0x0012_5678);
    id[83] = 1 << 10;
    id[100] = 1;
    id[101] = 2;
    id[102] = 3;
    id[103] = 4;
    assert_eq!(ata::identify_sectors(&id), 0x0004_0003_0002_0001);
    let mut buf = [0u8; 4];
    ata::store_data_word(&mut buf, 1, 0xABCD);
    assert_eq!(buf, [0, 0xCD, 0xAB, 0]);
}

#[test]
fn queue_memory_layout() {
    let l = queue_layout(128);
    assert_eq!(l.avail_offset, 2048);
    assert_eq!(l.used_offset, 2048 + 4096);
    assert_eq!(l.total_size, 2048 + 4096 + 4096);
    assert!(l.used_offset + 6 + 8 * 128 <= l.total_size);
    let small = queue_layout(1);
    assert_eq!(small.avail_offset, 16);
    assert_eq!(small.used_offset, 16 + 4096);
    assert_eq!(small.total_size, 16 + 4096 + 4096);
    let q = Virtqueue::new(128, 0x8000).unwrap();
    assert_eq!(q.layout.total_size, l.total_size);
    assert_eq!(q.layout.used_offset, l.used_offset);
}

#[test]
fn blk_init_runs_the_legacy_sequence() {
    let steps = [
        (0u32, BlkInitAction::WriteStatus(0)),
        (0, BlkInitAction::WriteStatus(1)),
        (0, BlkInitAction::WriteStatus(3)),
        (0, BlkInitAction::ReadFeatures),
        (0x1234, BlkInitAction::WriteFeatures(0x1234)),
        (0, BlkInitAction::WriteStatus(11)),
        (0, BlkInitAction::ReadStatus),
        (11, BlkInitAction::SelectQueue),
        (0, BlkInitAction::ReadQueueSize),
        (256, BlkInitAction::SetUpQueue(128)),
        (1, BlkInitAction::ReadCapacity),
        (0, BlkInitAction::WriteStatus(15)),
        (0, BlkInitAction::Stop),
    ];
    let mut state = BlkInit::Start;
    for (value, expected) in steps.iter() {
        let (next, action) = blk_init_next(state, *value);
        assert_eq!(action, *expected);
        state = next;
    }
    assert_eq!(state, BlkInit::Done);
}

#[test]
fn blk_init_fails_on_refused_features_or_queue() {
    assert_eq!(blk_init_next(BlkInit::StatusAsked, 3), (BlkInit::Failed, BlkInitAction::Stop));
    assert_eq!(blk_init_next(BlkInit::SizeAsked, 0), (BlkInit::Failed, BlkInitAction::Stop));
    assert_eq!(blk_init_next(BlkInit::SizeAsked, 16), (BlkInit::QueueSetUp, BlkInitAction::SetUpQueue(16)));
    assert_eq!(blk_init_next(BlkInit::QueueSetUp, 0), (BlkInit::Failed, BlkInitAction::Stop));
    assert_eq!(blk_init_next(BlkInit::Failed, 1), (BlkInit::Failed, BlkInitAction::Stop));
}

#[test]
fn completion_polling_has_a_budget() {
    let q = Virtqueue::new(4, 0).unwrap();
    assert!(virtio_blk::poll_again(&q, 0));
    assert!(virtio_blk::poll_again(&q, virtio_blk::COMPLETION_POLLS - 1));
    assert!(!virtio_blk::poll_again(&q, virtio_blk::COMPLETION_POLLS));
}
