use retype::codec::decode_u32;
use retype::codec::encode_i32;
use retype::codec::encode_u32;
use retype::container::SharedBox;
use retype::container::SyncBox;
use retype::container::UniqueBox;
use retype::container::container_transmute;
use retype::memory::Memory;
use retype::memory::ptr_to_slice;
use retype::engine::transmute_copy;
use retype::engine::Raw;

#[test]
fn test_box_transmute() {
    let mut mem = Memory::new();
    let x: UniqueBox<i32> = UniqueBox::new(&mut mem, &encode_i32(-54));
    let y: UniqueBox<u32> = container_transmute::<i32, u32, _>(x);
    let v = decode_u32(ptr_to_slice(&mem, y.addr, y.size));
    assert_eq!(v, ((1u64 << 32u64) - 54u64) as u32);
}

#[test]
fn test_unique_box_double_transmute_address() {
    let mut mem = Memory::new();
    let c1: UniqueBox<i32> = UniqueBox::new(&mut mem, &encode_i32(11));
    let addr = c1.addr;
    let c2: UniqueBox<u32> = container_transmute::<i32, u32, _>(c1);
    let c3: UniqueBox<i32> = container_transmute::<u32, i32, _>(c2);
    assert_eq!(c3.addr, addr);
}

#[test]
fn test_shared_box_double_transmute_address() {
    let mut mem = Memory::new();
    let c1: SharedBox<i32> = SharedBox::new(&mut mem, &encode_i32(-7));
    let addr = c1.addr;
    let c2: SharedBox<u32> = container_transmute::<i32, u32, _>(c1);
    let c3: SharedBox<i32> = container_transmute::<u32, i32, _>(c2);
    assert_eq!(c3.addr, addr);
}

#[test]
fn test_sync_box_double_transmute_address() {
    let mut mem = Memory::new();
    let c1: SyncBox<i32> = SyncBox::new(&mut mem, &encode_i32(1000));
    let addr = c1.addr;
    let c2: SyncBox<u32> = container_transmute::<i32, u32, _>(c1);
    let c3: SyncBox<i32> = container_transmute::<u32, i32, _>(c2);
    assert_eq!(c3.addr, addr);
}

#[test]
fn test_container_transmute_leaves_memory_untouched() {
    let mut mem = Memory::new();
    let c: SharedBox<u32> = SharedBox::new(&mut mem, &encode_u32(5));
    let before = ptr_to_slice(&mem, 0, mem.len()).to_vec();
    let _d: SharedBox<i32> = container_transmute::<u32, i32, _>(c);
    let after = ptr_to_slice(&mem, 0, mem.len()).to_vec();
    assert_eq!(before, after);
}

#[test]
fn test_transmute_copy_keeps_region() {
    let r: Raw<i32> = Raw::from_region(12, 4);
    let s: Raw<u32> = transmute_copy::<i32, u32>(r);
    assert_eq!(s.addr, 12);
    assert_eq!(s.size, 4);
}
