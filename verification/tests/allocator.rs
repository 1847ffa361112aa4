use shoyu::allocator::TransientAllocation;
use shoyu::allocator::TransientAllocator;

#[test]
fn blocks_follow_each_other_without_overlap() {
    let mut allocator = TransientAllocator::new(1000, 4);
    allocator.reset();
    let mut blocks: Vec<TransientAllocation> = Vec::new();
    for _ in 0..4 {
        blocks.push(allocator.bump().unwrap());
    }
    assert_eq!(blocks[0], TransientAllocation { offset: 0, size: 250 });
    assert_eq!(blocks[1], TransientAllocation { offset: 250, size: 250 });
    assert_eq!(blocks[2], TransientAllocation { offset: 500, size: 250 });
    assert_eq!(blocks[3], TransientAllocation { offset: 750, size: 250 });
    let total: u32 = blocks.iter().map(|b| b.size).sum();
    assert!(total <= 1000);
    assert!(allocator.bump().is_err());
}

#[test]
fn a_reset_brings_back_the_first_block() {
    let mut allocator = TransientAllocator::new(64, 2);
    let first = allocator.bump().unwrap();
    allocator.bump().unwrap();
    assert!(allocator.bump().is_err());
    assert_eq!(allocator.remaining(), 0);
    allocator.reset();
    assert_eq!(allocator.remaining(), 2);
    assert_eq!(allocator.bump().unwrap(), first);
    assert_eq!(first.offset, 0);
}

#[test]
fn the_block_size_is_the_whole_part_of_the_division() {
    let mut allocator = TransientAllocator::new(80000000, 8080);
    let first = allocator.bump().unwrap();
    let second = allocator.bump().unwrap();
    assert_eq!(first.size, 9900);
    assert_eq!(second.offset, 9900);
    assert_eq!(allocator.remaining(), 8078);
}

#[test]
fn an_allocator_without_blocks_always_fails() {
    let mut allocator = TransientAllocator::new(1024, 0);
    assert!(allocator.bump().is_err());
    allocator.reset();
    assert!(allocator.bump().is_err());
}

#[test]
fn more_blocks_than_bytes_gives_empty_blocks() {
    let mut allocator = TransientAllocator::new(2, 3);
    for _ in 0..3 {
        assert_eq!(allocator.bump().unwrap(), TransientAllocation { offset: 0, size: 0 });
    }
    assert!(allocator.bump().is_err());
}
