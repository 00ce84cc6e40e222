use spreads_native::boundary::{BlockDescriptor, OwnedBlock};
use spreads_native::cpu::normalize_cpu_index;

#[test]
fn failed_allocation_settles_to_nothing() {
    let block = OwnedBlock::acquire(0, 128, 16);
    assert!(!block.is_live());
    assert_eq!(block.descriptor(), None);
}

#[test]
fn successful_allocation_settles_to_a_descriptor() {
    let block = OwnedBlock::acquire(4096, 128, 16);
    assert!(block.is_live());
    assert_eq!(
        block.descriptor(),
        Some(BlockDescriptor {
            addr: 4096,
            size: 128,
            align: 16,
        })
    );
}

#[test]
fn resize_failure_preserves_the_original_block() {
    let mut block = OwnedBlock::acquire(4096, 128, 16);
    let before = block.descriptor();
    block.settle_resize(0, 256, 16);
    assert!(block.is_live());
    assert_eq!(block.descriptor(), before);
    let handed_back = block.release();
    assert_eq!(handed_back, 4096);
}

#[test]
fn resize_success_invalidates_the_original_block() {
    let mut block = OwnedBlock::acquire(4096, 128, 16);
    block.settle_resize(8192, 256, 16);
    assert_eq!(
        block.descriptor(),
        Some(BlockDescriptor {
            addr: 8192,
            size: 256,
            align: 16,
        })
    );
    let handed_back = block.release();
    assert_eq!(handed_back, 8192);
}

#[test]
fn resize_carries_the_original_alignment() {
    let mut block = OwnedBlock::acquire(4096, 128, 64);
    block.settle_resize(8192, 256, 16);
    assert_eq!(
        block.descriptor(),
        Some(BlockDescriptor {
            addr: 8192,
            size: 256,
            align: 64,
        })
    );
}

#[test]
fn resize_from_nothing_acts_as_a_fresh_allocation() {
    let mut block = OwnedBlock::empty();
    block.settle_resize(4096, 64, 32);
    assert_eq!(
        block.descriptor(),
        Some(BlockDescriptor {
            addr: 4096,
            size: 64,
            align: 32,
        })
    );
}

#[test]
fn resize_from_nothing_can_still_fail() {
    let mut block = OwnedBlock::empty();
    block.settle_resize(0, 64, 32);
    assert!(!block.is_live());
}

#[test]
fn release_empties_the_wrapper() {
    let mut block = OwnedBlock::acquire(4096, 128, 16);
    let addr = block.release();
    assert_eq!(addr, 4096);
    assert!(!block.is_live());
}

#[test]
fn releasing_nothing_hands_the_engine_null_every_time() {
    let mut block = OwnedBlock::empty();
    assert_eq!(block.release(), 0);
    assert_eq!(block.release(), 0);
    assert_eq!(block.release(), 0);
    assert!(!block.is_live());
}

#[test]
fn cpu_index_passes_through_when_valid() {
    assert_eq!(normalize_cpu_index(0), 0);
    assert_eq!(normalize_cpu_index(5), 5);
    assert_eq!(normalize_cpu_index(i32::MAX), i32::MAX);
}

#[test]
fn cpu_index_collapses_negatives_to_the_sentinel() {
    assert_eq!(normalize_cpu_index(-1), -1);
    assert_eq!(normalize_cpu_index(-7), -1);
    assert_eq!(normalize_cpu_index(i32::MIN), -1);
}
