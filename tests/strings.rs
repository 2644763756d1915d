use bg_inspect::error::Error;
use bg_inspect::process::MemoryRegion;
use bg_inspect::process::MemorySnapshot;
use bg_inspect::remote_ptr::RemotePtr;
use bg_inspect::strings::decode_c_string;
use bg_inspect::strings::decode_res_ref;
use bg_inspect::strings::read_res_ref;
use bg_inspect::strings::read_string;

#[test]
fn res_ref_without_nul_is_whole() {
    assert_eq!(decode_res_ref(b"ABCDEFGH"), "ABCDEFGH");
}

#[test]
fn res_ref_stops_at_the_first_nul() {
    assert_eq!(decode_res_ref(b"AB\0\0\0\0\0\0"), "AB");
    assert_eq!(decode_res_ref(b"AB\0CD\0\0\0"), "AB");
    assert_eq!(decode_res_ref(b"\0BCDEFGH"), "");
}

#[test]
fn res_ref_replaces_invalid_bytes() {
    assert_eq!(decode_res_ref(b"A\xFFB\0\0\0\0\0"), "A\u{FFFD}B");
}

#[test]
fn c_string_needs_a_nul() {
    assert_eq!(decode_c_string(b"ABCD").unwrap(), None);
    assert_eq!(decode_c_string(b"").unwrap(), None);
    assert_eq!(decode_c_string(b"AB\0CD").unwrap(), Some("AB".to_string()));
    assert_eq!(decode_c_string(b"\0").unwrap(), Some(String::new()));
}

#[test]
fn c_string_rejects_invalid_text() {
    match decode_c_string(b"A\xFF\0") {
        Err(Error::InvalidString { bytes, .. }) => assert_eq!(bytes, vec![b'A', 0xFF]),
        other => panic!("unexpected {other:?}"),
    }
}

fn memory() -> MemorySnapshot {
    let mut bytes = vec![0u8; 0x100];
    // pointer at 0x1000 -> 0x1040 ("Imoen\0")
    bytes[0x00..0x08].copy_from_slice(&0x1040u64.to_le_bytes());
    // null pointer at 0x1008
    // pointer at 0x1010 -> 0x1060 (no nul within 8 bytes)
    bytes[0x10..0x18].copy_from_slice(&0x1060u64.to_le_bytes());
    // pointer at 0x1018 -> 0x5000 (unmapped)
    bytes[0x18..0x20].copy_from_slice(&0x5000u64.to_le_bytes());
    bytes[0x40..0x46].copy_from_slice(b"Imoen\0");
    bytes[0x60..0x70].copy_from_slice(b"ABCDEFGHIJKLMNOP");
    bytes[0x80..0x88].copy_from_slice(b"AR2600\0\0");
    MemorySnapshot::new(vec![MemoryRegion { start: 0x1000, bytes }])
}

#[test]
fn indirect_string_through_a_pointer() {
    let mem = memory();
    let base = RemotePtr::<u8>::new(0x1000);
    assert_eq!(read_string(&mem, base, 0, 16).unwrap(), Some("Imoen".to_string()));
}

#[test]
fn indirect_string_of_a_null_pointer_is_absent() {
    let mem = memory();
    let base = RemotePtr::<u8>::new(0x1000);
    assert_eq!(read_string(&mem, base, 8, 16).unwrap(), None);
}

#[test]
fn indirect_string_without_a_nul_within_the_cap_is_absent() {
    let mem = memory();
    let base = RemotePtr::<u8>::new(0x1000);
    assert_eq!(read_string(&mem, base, 0x10, 8).unwrap(), None);
    assert_eq!(read_string(&mem, base, 0x10, 0x20).unwrap(), Some("ABCDEFGHIJKLMNOP".to_string()));
}

#[test]
fn indirect_string_through_an_unmapped_pointer_fails() {
    let mem = memory();
    let base = RemotePtr::<u8>::new(0x1000);
    assert!(matches!(read_string(&mem, base, 0x18, 8), Err(Error::Memory(_))));
    assert!(matches!(read_string(&mem, base, 0x200, 8), Err(Error::Memory(_))));
}

#[test]
fn inline_field_read() {
    let mem = memory();
    let base = RemotePtr::<u8>::new(0x1000);
    assert_eq!(read_res_ref(&mem, base, 0x80).unwrap(), "AR2600");
    assert_eq!(read_res_ref(&mem, base.byte_offset(0x100), -0x80).unwrap(), "AR2600");
    assert!(read_res_ref(&mem, base, 0xFC).is_err());
}
