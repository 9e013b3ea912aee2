use dmac::descriptor::{end_address, BeatSize, StepSize, TransferDescriptor};

#[test]
fn beat_sizes_in_bytes() {
    assert_eq!(BeatSize::Byte.bytes(), 1);
    assert_eq!(BeatSize::HalfWord.bytes(), 2);
    assert_eq!(BeatSize::Word.bytes(), 4);
}

#[test]
fn step_size_multipliers() {
    assert_eq!(StepSize::X1.multiplier(), 1);
    assert_eq!(StepSize::X2.multiplier(), 2);
    assert_eq!(StepSize::X8.multiplier(), 8);
    assert_eq!(StepSize::X128.multiplier(), 128);
}

#[test]
fn empty_descriptor_is_all_zero() {
    let d = TransferDescriptor::empty();
    assert!(!d.valid);
    assert_eq!(d.block_transfer_count, 0);
    assert_eq!(d.source_address, 0);
    assert_eq!(d.destination_address, 0);
    assert_eq!(d.next_descriptor, 0);
    assert!(!d.is_chained());
}

#[test]
fn nonzero_next_link_means_chained() {
    let d = TransferDescriptor { next_descriptor: 0x2000_3000, ..TransferDescriptor::empty() };
    assert!(d.is_chained());
}

#[test]
fn end_address_is_base_plus_block_span() {
    // The hardware wants the address of the last beat when increment is on.
    assert_eq!(end_address(0x1000, BeatSize::Word, 4), Some(0x1010));
    assert_eq!(end_address(0x1000, BeatSize::HalfWord, 3), Some(0x1006));
    assert_eq!(end_address(0x1000, BeatSize::Byte, 0), Some(0x1000));
    assert_eq!(end_address(0, BeatSize::Word, 0xFFFF), Some(0x3_FFFC));
}

#[test]
fn end_address_reports_overflow() {
    assert_eq!(end_address(u32::MAX, BeatSize::Byte, 1), None);
    assert_eq!(end_address(u32::MAX - 4, BeatSize::Word, 1), Some(u32::MAX));
    assert_eq!(end_address(u32::MAX - 3, BeatSize::Word, 1), None);
    assert_eq!(end_address(0xFFFF_0000, BeatSize::Word, 0xFFFF), None);
}
