use retype::codec::decode_u32;
use retype::codec::encode_u32;
use retype::container::SharedBox;
use retype::container::SyncBox;
use retype::container::UniqueBox;
use retype::engine::Raw;
use retype::engine::Uninit;
use retype::memory::Memory;
use retype::memory::copy;
use retype::memory::ptr_to_slice;
use retype::promote::assume_init;

#[test]
fn test_maybeuninit() {
    // Fill possibly-uninitialized storage sized for a 4-byte array with
    // [1, 2, 3, 4], then promote it; the value equals [1, 2, 3, 4].
    let mut mem = Memory::from_bytes(vec![1u8, 2, 3, 4]);
    let mu: Raw<Uninit<[u8; 4]>> = Raw::reserve(&mut mem, 4);
    copy(&mut mem, mu.addr, 0, 4);

    let init: Raw<[u8; 4]> = assume_init(mu);
    let bytes = ptr_to_slice(&mem, init.addr, init.size);
    assert_eq!(bytes, &[1u8, 2, 3, 4]);
}

#[test]
fn test_bare_promotion_keeps_region() {
    let mut mem = Memory::new();
    let mu: Raw<Uninit<u32>> = Raw::reserve(&mut mem, 4);
    let addr = mu.addr;
    let init: Raw<u32> = assume_init(mu);
    assert_eq!(init.addr, addr);
    assert_eq!(init.size, 4);
}

#[test]
fn test_unique_box_promotion() {
    let mut mem = Memory::new();
    let b: UniqueBox<Uninit<u32>> = UniqueBox::new(&mut mem, &encode_u32(7));
    let addr = b.addr;
    let init: UniqueBox<u32> = assume_init(b);
    assert_eq!(init.addr, addr);
    assert_eq!(decode_u32(ptr_to_slice(&mem, init.addr, init.size)), 7);
}

#[test]
fn test_shared_box_promotion() {
    let mut mem = Memory::new();
    let b: SharedBox<Uninit<u32>> = SharedBox::new(&mut mem, &encode_u32(40));
    let addr = b.addr;
    let init: SharedBox<u32> = assume_init(b);
    assert_eq!(init.addr, addr);
    assert_eq!(decode_u32(ptr_to_slice(&mem, init.addr, init.size)), 40);
}

#[test]
fn test_sync_box_promotion() {
    let mut mem = Memory::new();
    let b: SyncBox<Uninit<u32>> = SyncBox::new(&mut mem, &encode_u32(90));
    let addr = b.addr;
    let init: SyncBox<u32> = assume_init(b);
    assert_eq!(init.addr, addr);
    assert_eq!(decode_u32(ptr_to_slice(&mem, init.addr, init.size)), 90);
}
