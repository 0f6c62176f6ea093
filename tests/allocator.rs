use cassander::allocator::{block_size, decode_header, encode_header, free, reallocate, MemoryBlock, HEADER_SIZE};

#[test]
fn allocation_round_trip_releases_what_it_took() {
    for size in [0usize, 1, 7, 4096, 1 << 20] {
        let mut block = MemoryBlock::allocate(size).unwrap();
        assert_eq!(block.len(), size);
        for i in 0..size {
            block.write(i, (i % 251) as u8);
        }
        for i in 0..size {
            assert_eq!(block.read(i), (i % 251) as u8);
        }
        assert_eq!(block.release(), size + HEADER_SIZE);
    }
}

#[test]
fn reallocation_keeps_the_prefix() {
    let mut block = MemoryBlock::allocate(100).unwrap();
    for i in 0..100 {
        block.write(i, i as u8 ^ 0x5A);
    }
    let mut grown = block.resize(500).ok().unwrap();
    assert_eq!(grown.len(), 500);
    for i in 0..100 {
        assert_eq!(grown.read(i), i as u8 ^ 0x5A);
    }
    grown.write(499, 0xEE);
    assert_eq!(grown.read(499), 0xEE);
    let shrunk = grown.resize(10).ok().unwrap();
    assert_eq!(shrunk.len(), 10);
    for i in 0..10 {
        assert_eq!(shrunk.read(i), i as u8 ^ 0x5A);
    }
    assert_eq!(shrunk.release(), 10 + HEADER_SIZE);
}

#[test]
fn reallocating_nothing_allocates() {
    let a = reallocate(None, 64).ok().unwrap();
    let b = MemoryBlock::allocate(64).unwrap();
    assert_eq!(a.len(), b.len());
    assert_eq!(free(Some(a)), free(Some(b)));
    assert_eq!(free(None), 0);
}

#[test]
fn oversized_requests_fail() {
    assert!(block_size(usize::MAX).is_none());
    assert!(MemoryBlock::allocate(usize::MAX - 3).is_none());
    let block = MemoryBlock::allocate(3).unwrap();
    let back = block.resize(usize::MAX).err().unwrap();
    assert_eq!(back.len(), 3);
    assert!(reallocate(None, usize::MAX).err().unwrap().is_none());
}

#[test]
fn header_records_the_total_size() {
    assert_eq!(block_size(60), Some(68));
    let header = encode_header(68);
    assert_eq!(header, vec![68, 0, 0, 0, 0, 0, 0, 0]);
    assert_eq!(decode_header(&header), 68);
    assert_eq!(decode_header(&encode_header(0x0102_0304_0506)), 0x0102_0304_0506);
}
