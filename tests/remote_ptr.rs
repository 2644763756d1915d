use bg_inspect::error::Error;
use bg_inspect::process::MemoryRegion;
use bg_inspect::process::MemorySnapshot;
use bg_inspect::process::ProcessMemory;
use bg_inspect::remote_ptr::RemotePtr;

fn snapshot(start: usize, bytes: Vec<u8>) -> MemorySnapshot {
    MemorySnapshot::new(vec![MemoryRegion { start, bytes }])
}

#[test]
fn byte_offset_composes() {
    let p = RemotePtr::<u8>::new(0x1000);
    for (a, b) in [(0x10isize, 0x20isize), (-0x10, 0x30), (0x7FFF, -0x8000), (-5, -7)] {
        assert_eq!(p.byte_offset(a).byte_offset(b).address(), p.byte_offset(a + b).address());
    }
    assert_eq!(p.byte_offset(0x540).address(), 0x1540);
    assert_eq!(p.byte_offset(-0x18).address(), 0x0FE8);
}

#[test]
fn byte_offset_wraps_around_the_address_space() {
    let p = RemotePtr::<u8>::new(usize::MAX);
    assert_eq!(p.byte_offset(1).address(), 0);
    let q = RemotePtr::<u8>::new(0);
    assert_eq!(q.byte_offset(-1).address(), usize::MAX);
}

#[test]
fn cast_keeps_the_address_and_compares_by_address() {
    let p = RemotePtr::<u8>::new(0x1234);
    let q: RemotePtr<u32> = p.cast();
    assert_eq!(q.address(), 0x1234);
    assert!(RemotePtr::<u8>::new(0).is_null());
    assert!(!p.is_null());
    assert!(p == RemotePtr::<u8>::new(0x1234));
    assert!(p != RemotePtr::<u8>::new(0x1235));
}

#[test]
fn typed_reads_are_little_endian() {
    let mem = snapshot(0x100, vec![0x34, 0x12, 0xFE, 0xFF, 0x78, 0x56, 0x34, 0x12, 0x80]);
    assert_eq!(RemotePtr::<u16>::new(0x100).read(&mem).unwrap(), 0x1234);
    assert_eq!(RemotePtr::<i16>::new(0x102).read(&mem).unwrap(), -2);
    assert_eq!(RemotePtr::<u32>::new(0x104).read(&mem).unwrap(), 0x12345678);
    assert_eq!(RemotePtr::<i32>::new(0x100).read(&mem).unwrap(), -0x0001EDCC);
    assert_eq!(RemotePtr::<u64>::new(0x100).read(&mem).unwrap(), 0x12345678FFFE1234);
    assert_eq!(RemotePtr::<i8>::new(0x108).read(&mem).unwrap(), -128);
    assert_eq!(RemotePtr::<u8>::new(0x108).read(&mem).unwrap(), 0x80);
    let p: RemotePtr<u8> = RemotePtr::<RemotePtr<u8>>::new(0x100).read(&mem).unwrap();
    assert_eq!(p.address(), 0x12345678FFFE1234);
}

#[test]
fn read_array_decodes_each_element() {
    let mem = snapshot(0x100, vec![1, 0, 2, 0, 0xFF, 0xFF]);
    let v = RemotePtr::<u16>::new(0x100).read_array(&mem, 3).unwrap();
    assert_eq!(v, vec![1, 2, 0xFFFF]);
    assert!(RemotePtr::<u16>::new(0x100).read_array(&mem, 4).is_err());
    assert_eq!(RemotePtr::<u16>::new(0x100).read_array(&mem, 0).unwrap(), Vec::<u16>::new());
}

#[test]
fn read_bytes_is_all_or_nothing() {
    let mem = snapshot(0x100, vec![1, 2, 3, 4]);
    assert_eq!(RemotePtr::<u8>::new(0x101).read_bytes(&mem, 3).unwrap(), vec![2, 3, 4]);
    assert!(matches!(RemotePtr::<u8>::new(0x101).read_bytes(&mem, 4), Err(Error::Memory(_))));
    assert!(matches!(RemotePtr::<u8>::new(0xFF).read_bytes(&mem, 1), Err(Error::Memory(_))));
    assert!(matches!(RemotePtr::<u8>::new(0x104).read_bytes(&mem, 1), Err(Error::Memory(_))));
}

#[test]
fn read_mem_into_refuses_a_short_buffer() {
    let mem = snapshot(0x100, vec![1, 2, 3, 4]);
    let mut buffer = vec![9u8; 2];
    match mem.read_mem_into(&mut buffer, 0x100, 3) {
        Err(Error::InsufficentMemory { expected, actual, .. }) => {
            assert_eq!(expected, 3);
            assert_eq!(actual, 2);
        }
        other => panic!("unexpected {other:?}"),
    }
    assert_eq!(buffer, vec![9, 9]);
}

#[test]
fn read_mem_into_fills_the_front_of_the_buffer() {
    let mem = snapshot(0x100, vec![1, 2, 3, 4]);
    let mut buffer = vec![9u8; 5];
    assert_eq!(mem.read_mem_into(&mut buffer, 0x101, 3).unwrap(), 3);
    assert_eq!(buffer, vec![2, 3, 4, 9, 9]);
    assert!(mem.read_mem_into(&mut buffer, 0x200, 3).is_err());
    assert_eq!(buffer, vec![2, 3, 4, 9, 9]);
}

#[test]
fn snapshot_serves_a_read_from_the_first_region_holding_the_address() {
    let mem = MemorySnapshot::new(vec![
        MemoryRegion { start: 0x100, bytes: vec![1, 2] },
        MemoryRegion { start: 0x100, bytes: vec![7, 8, 9] },
        MemoryRegion { start: 0x200, bytes: vec![5] },
    ]);
    assert_eq!(mem.read_mem(0x100, 2).unwrap(), vec![1, 2]);
    assert!(mem.read_mem(0x100, 3).is_err());
    assert_eq!(mem.read_mem(0x200, 1).unwrap(), vec![5]);
}

#[test]
fn pointers_order_by_address() {
    let a = RemotePtr::<u8>::new(0x10);
    let b = RemotePtr::<u8>::new(0x20);
    assert!(a < b);
    assert!(b > a);
    assert!(a <= RemotePtr::<u8>::new(0x10));
    assert_eq!(a.partial_cmp(&b), Some(std::cmp::Ordering::Less));
    let range = RemotePtr::<u8>::new(0x10)..RemotePtr::<u8>::new(0x20);
    assert!(range.contains(&RemotePtr::new(0x18)));
    assert!(!range.contains(&RemotePtr::new(0x20)));
}
