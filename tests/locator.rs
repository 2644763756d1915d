use bg_inspect::error::Error;
use bg_inspect::find_game_process;
use bg_inspect::process::get_base_address_from_memory_map;
use bg_inspect::process::parse_hex;
use bg_inspect::process::recognized_name;
use bg_inspect::process::GameProcess;

const MAPS: &str = "\
55d0c0a00000-55d0c0a01000 r--p 00000000 fd:01 1 /usr/bin/loader
55d0c0a01000-55d0c0a02000 r-xp 00001000 fd:01 1 /usr/bin/loader
7f0000000000-7f0000021000 rw-p 00000000 00:00 0
563a1b2c0000-563a1c000000 r--p 00000000 fd:01 2 /games/BaldursGate
563a1c000000-563a1d000000 r-xp 00d40000 fd:01 2 /games/BaldursGate
";

#[test]
fn base_address_is_on_the_fourth_line() {
    assert_eq!(get_base_address_from_memory_map(MAPS), Some(0x563a1b2c0000));
}

#[test]
fn base_address_missing_or_malformed() {
    assert_eq!(get_base_address_from_memory_map("a-b\nc-d\ne-f\n"), None);
    assert_eq!(get_base_address_from_memory_map("1-2\n3-4\n5-6\nzz-7\n"), None);
    assert_eq!(get_base_address_from_memory_map("1-2\n3-4\n5-6\n1000 no dash\n"), None);
    assert_eq!(get_base_address_from_memory_map("1-2\n3-4\n5-6\n0-7\n"), None);
    assert_eq!(get_base_address_from_memory_map("1-2\n3-4\n5-6\n+1f-7"), Some(0x1f));
    assert_eq!(get_base_address_from_memory_map(""), None);
}

#[test]
fn hex_parsing_follows_from_str_radix() {
    for s in ["0", "1f", "1F", "+ff", "ffffffffffffffff", "10000000000000000", "", "+", "g", "-1", "++1"] {
        assert_eq!(parse_hex(s.as_bytes()), usize::from_str_radix(s, 16).ok(), "{s}");
    }
}

#[test]
fn names_are_trimmed_before_matching() {
    assert_eq!(recognized_name("BaldursGate\n"), Some("BaldursGate".to_string()));
    assert_eq!(recognized_name("BaldursGateII  \n"), Some("BaldursGateII".to_string()));
    assert_eq!(recognized_name("bash\n"), None);
    assert_eq!(recognized_name(" BaldursGate"), None);
    assert_eq!(recognized_name("BaldursGate\u{3000}\u{85}\t"), Some("BaldursGate".to_string()));
    assert_eq!(recognized_name("BaldursGate\u{200B}"), None);
}

#[test]
fn game_process_from_its_entries() {
    let p = GameProcess::new("/proc/42".to_string(), 42, "BaldursGate\n", MAPS).unwrap().unwrap();
    assert_eq!(p.pid, 42);
    assert_eq!(p.base_address, 0x563a1b2c0000);
    assert_eq!(p.name, "BaldursGate");
    assert_eq!(p.path, "/proc/42");
    assert!(GameProcess::new("/proc/7".to_string(), 7, "bash\n", MAPS).unwrap().is_none());
    assert!(matches!(
        GameProcess::new("/proc/42".to_string(), 42, "BaldursGate\n", "x\n"),
        Err(Error::Memory(_))
    ));
}

fn found(pid: u32) -> Result<Option<GameProcess>, Error> {
    Ok(Some(GameProcess {
        path: format!("/proc/{pid}"),
        pid,
        base_address: 0x1000,
        name: "BaldursGate".to_string(),
    }))
}

#[test]
fn first_found_process_is_picked() {
    let candidates = vec![Ok(None), Err(Error::Memory("denied".to_string())), found(10), found(11)];
    assert_eq!(find_game_process(candidates, true).unwrap().pid, 10);
}

#[test]
fn no_process_found() {
    let candidates = vec![Ok(None), Err(Error::GameProcessClosed)];
    assert!(matches!(find_game_process(candidates, true), Err(Error::MissingGameProcess)));
    assert!(matches!(find_game_process(vec![Ok(None)], false), Err(Error::GameProcessClosed)));
    assert!(matches!(find_game_process(vec![], true), Err(Error::MissingGameProcess)));
}
