use retype::engine::Raw;
use retype::engine::read;
use retype::memory::Memory;
use retype::memory::copy;
use retype::memory::ptr_to_slice;

#[test]
fn test_write_read() {
    // Destination [0, 0, 0, 0] at address 0, source [1, 2, 3, 4] at address 4.
    let mut mem = Memory::from_bytes(vec![0u8, 0, 0, 0, 1, 2, 3, 4]);
    copy(&mut mem, 0, 4, 4);

    let dest = ptr_to_slice(&mem, 0, 4);
    assert_eq!(dest, &[1u8, 2, 3, 4]);
}

#[test]
fn test_read() {
    // A text value holding "original"; reading from its address reproduces
    // an equal value in fresh storage, without destructing the source.
    let mut mem = Memory::from_bytes(b"original".to_vec());
    let s2: Raw<String> = read(&mut mem, 0, 8);

    let second = ptr_to_slice(&mem, s2.addr, s2.size);
    assert_eq!(second, b"original");
    // The source bytes are still in place.
    let first = ptr_to_slice(&mem, 0, 8);
    assert_eq!(first, b"original");
}

#[test]
fn test_read_fresh_storage() {
    let mut mem = Memory::from_bytes(vec![9u8, 8, 7]);
    let v: Raw<[u8; 3]> = read(&mut mem, 0, 3);
    assert_eq!(v.addr, 3);
    assert_eq!(v.size, 3);
    assert_eq!(mem.len(), 6);
}

#[test]
fn test_copy_empty_region() {
    let mut mem = Memory::from_bytes(vec![5u8, 6]);
    copy(&mut mem, 0, 1, 0);
    assert_eq!(ptr_to_slice(&mem, 0, 2), &[5u8, 6]);
}

#[test]
fn test_borrow_whole_memory() {
    let mem = Memory::from_bytes(vec![1u8, 2, 3]);
    assert_eq!(ptr_to_slice(&mem, 0, 3), &[1u8, 2, 3]);
    assert_eq!(ptr_to_slice(&mem, 1, 2), &[2u8, 3]);
    assert_eq!(ptr_to_slice(&mem, 3, 0), &[] as &[u8]);
}
