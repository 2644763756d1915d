use std::cell::Cell;

use bg_inspect::entity_list;
use bg_inspect::error::Error;
use bg_inspect::get_static_entity_list;
use bg_inspect::ids::Alignment;
use bg_inspect::ids::EnemyAlly;
use bg_inspect::ids::Gender;
use bg_inspect::ids::Lookup;
use bg_inspect::ids::ObjectType;
use bg_inspect::process::MemoryRegion;
use bg_inspect::process::MemorySnapshot;
use bg_inspect::process::ProcessMemory;
use bg_inspect::remote_ptr::RemotePtr;
use bg_inspect::types::read_effect_list;
use bg_inspect::types::CDerivedStats;
use bg_inspect::types::CGameAIBase;
use bg_inspect::types::CGameEffect;
use bg_inspect::types::CGameSprite;
use bg_inspect::types::CPoint;
use bg_inspect::types::EntityPtr;
use bg_inspect::types::SpriteLayout;

const BASE: usize = 0x40_0000;
const OBJ: usize = 0x200_0000;
const NAMES: usize = OBJ + 0x5000;
const NODES: usize = OBJ + 0x6000;
const EFFECTS: usize = OBJ + 0x7000;

/// A channel that counts its reads and fails once a given number is reached,
/// as a target that exits would.
struct Counting<'a> {
    inner: &'a MemorySnapshot,
    reads: Cell<usize>,
    fail_from: usize,
}

impl ProcessMemory for Counting<'_> {
    fn read_mem(&self, address: usize, length: usize) -> Result<Vec<u8>, Error> {
        let n = self.reads.get();
        self.reads.set(n + 1);
        if n >= self.fail_from {
            return Err(Error::GameProcessClosed);
        }
        self.inner.read_mem(address, length)
    }
}

fn counting(inner: &MemorySnapshot) -> Counting<'_> {
    Counting { inner, reads: Cell::new(0), fail_from: usize::MAX }
}

fn put(mem: &mut [u8], at: usize, bytes: &[u8]) {
    mem[at..at + bytes.len()].copy_from_slice(bytes);
}

fn put_ptr(mem: &mut [u8], at: usize, ptr: usize) {
    put(mem, at, &(ptr as u64).to_le_bytes());
}

fn put_effect(mem: &mut [u8], at: usize, effect_id: u32, res: &[u8; 8]) {
    let body = at + 8;
    put(mem, body, b"V2.0\0\0\0\0");
    put(mem, body + 0x8, &effect_id.to_le_bytes());
    put(mem, body + 0x10, &3i32.to_le_bytes());
    put(mem, body + 0x1C, &1u32.to_le_bytes());
    put(mem, body + 0x20, &60u32.to_le_bytes());
    put(mem, body + 0x28, res);
    put(mem, body + 0x68, b"RES2\0\0\0\0");
    put(mem, body + 0x70, b"RES3\0\0\0\0");
    put(mem, body + 0x8C, b"SOURCE\0\0");
}

/// A target with a global table whose slot 0 is unoccupied and slot 1 holds a
/// creature named Imoen with two equipped effects (its list has a third node
/// that the count leaves out) and no timed effects.
fn target(kind: u8) -> MemorySnapshot {
    let mut table = vec![0u8; entity_list::LENGTH];
    put(&mut table, 0, &0xFFFFu16.to_le_bytes());
    put_ptr(&mut table, 8, 0xDEAD_0000);
    put(&mut table, 16, &5u16.to_le_bytes());
    put_ptr(&mut table, 24, OBJ);
    for slot in 2..entity_list::ELEMENT_COUNT {
        put(&mut table, slot * 16, &0xFFFFu16.to_le_bytes());
    }

    let mut m = vec![0u8; 0x8000];
    put(&mut m, 0x8, &[kind]);
    put(&mut m, 0xC, &100i32.to_le_bytes());
    put(&mut m, 0x10, &200i32.to_le_bytes());
    put(&mut m, 0x14, &(-3i32).to_le_bytes());
    put(&mut m, 0x28, &[2]);
    put_ptr(&mut m, 0x30, NAMES);
    put(&mut m, 0x38, &[2, 1, 1, 4]);
    put(&mut m, 0x3C, &0x12345678i32.to_le_bytes());
    put(&mut m, 0x40, &[1, 2, 3, 4, 5, 9, 2, 0x22]);
    put(&mut m, 0x48, &77i32.to_le_bytes());
    put(&mut m, 0x4C, &1i16.to_le_bytes());

    put(&mut m, 0x540, b"IMOEN\0\0\0");
    put(&mut m, 0x560 + 0x1C, &30i16.to_le_bytes());
    put(&mut m, 0x560 + 0x22C, &[3, 4, 0xFF]);
    put(&mut m, 0x1120 + 0x4, &40i16.to_le_bytes());
    put(&mut m, 0x1120 + 0x6, &(-2i16).to_le_bytes());
    put(&mut m, 0x1120 + 0x10, &15i16.to_le_bytes());
    put(&mut m, 0x1120 + 0x4E, &18i16.to_le_bytes());
    put(&mut m, 0x1120 + 0x50, &75i16.to_le_bytes());
    put(&mut m, 0x1120 + 0x52, &17i16.to_le_bytes());
    put(&mut m, 0x1120 + 0x5A, &12i16.to_le_bytes());
    put_ptr(&mut m, 0x3910, NAMES + 0x10);
    put(&mut m, 0x3A08, b"AR2600\0\0");

    put_ptr(&mut m, 0x4998 + 0x8, NODES);
    put(&mut m, 0x4998 + 0x18, &2u32.to_le_bytes());
    put_ptr(&mut m, 0x49E8 + 0x8, 0);
    put(&mut m, 0x49E8 + 0x18, &0u32.to_le_bytes());

    put(&mut m, 0x5000, b"IMOEN\0");
    put(&mut m, 0x5010, b"Imoen\0");

    put_ptr(&mut m, 0x6000, NODES + 0x20);
    put_ptr(&mut m, 0x6010, EFFECTS);
    put_ptr(&mut m, 0x6020, NODES + 0x40);
    put_ptr(&mut m, 0x6030, EFFECTS + 0x100);
    put_ptr(&mut m, 0x6040, 0);
    put_ptr(&mut m, 0x6050, EFFECTS + 0x200);
    put_effect(&mut m, 0x7000, 17, b"SPWI101\0");
    put_effect(&mut m, 0x7100, 42, b"SPPR102\0");
    put_effect(&mut m, 0x7200, 99, b"EXTRA\0\0\0");

    MemorySnapshot::new(vec![
        MemoryRegion { start: BASE + entity_list::OFFSET, bytes: table },
        MemoryRegion { start: OBJ, bytes: m },
    ])
}

fn creature() -> EntityPtr {
    EntityPtr { id: 5, ptr: RemotePtr::new(OBJ) }
}

#[test]
fn global_table_is_read_whole() {
    let mem = target(0x31);
    let channel = counting(&mem);
    let entities = get_static_entity_list(&channel, BASE).unwrap();
    assert_eq!(channel.reads.get(), 1);
    assert_eq!(entities.len(), entity_list::ELEMENT_COUNT);
    assert!(!entities[0].is_valid());
    assert!(entities[1].is_valid());
    assert_eq!(entities[1].id, 5);
    assert_eq!(entities[1].ptr.address(), OBJ);
    assert_eq!(entities.iter().filter(|e| e.is_valid()).count(), 1);
    assert!(get_static_entity_list(&mem, BASE + 1).is_err());
}

#[test]
fn unoccupied_slot_is_not_decoded() {
    let mem = target(0x31);
    let channel = counting(&mem);
    let empty = EntityPtr { id: 0xFFFF, ptr: RemotePtr::new(OBJ) };
    assert!(CGameAIBase::new(&channel, &empty).unwrap().is_none());
    assert_eq!(channel.reads.get(), 0);
    let base = CGameAIBase::new(&mem, &creature()).unwrap().unwrap();
    let sprite = CGameSprite::new(&channel, &empty, base, &SpriteLayout::observed()).unwrap();
    assert!(sprite.is_none());
    assert_eq!(channel.reads.get(), 0);
}

#[test]
fn base_record_fields() {
    let mem = target(0x31);
    let base = CGameAIBase::new(&mem, &creature()).unwrap().unwrap();
    let o = &base.object;
    assert_eq!(o.object_type, ObjectType::Sprite);
    assert_eq!(o.pos, CPoint { x: 100, y: 200 });
    assert_eq!(o.pos_z, -3);
    assert_eq!(o.list_type, 2);
    assert_eq!(o.id, 77);
    assert_eq!(o.can_be_seen, 1);
    let t = &o.type_ai;
    assert_eq!(t.name, Some("IMOEN".to_string()));
    assert_eq!(t.enemy_ally, Lookup::Found(EnemyAlly::Pc));
    assert_eq!((t.general, t.race, t.class), (1, 1, 4));
    assert_eq!(t.instance, 0x12345678);
    assert_eq!(t.special_case, [1, 2, 3, 4, 5]);
    assert_eq!(t.specifics, 9);
    assert_eq!(t.gender, Lookup::Found(Gender::Female));
    assert_eq!(t.alignment, Lookup::Found(Alignment::Neutral));
}

#[test]
fn unknown_identifiers_do_not_stop_a_decode() {
    let mut mem = target(0x31);
    mem.regions[1].bytes[0x38] = 77;
    mem.regions[1].bytes[0x46] = 200;
    let base = CGameAIBase::new(&mem, &creature()).unwrap().unwrap();
    assert_eq!(base.object.type_ai.enemy_ally, Lookup::Unknown(77));
    assert_eq!(base.object.type_ai.gender, Lookup::Unknown(200));
}

#[test]
fn unknown_kind_tag_is_an_error() {
    let mem = target(0x32);
    match CGameAIBase::new(&mem, &creature()) {
        Err(Error::InvalidEnumValue { value, .. }) => assert_eq!(value, 0x32),
        other => panic!("unexpected {other:?}"),
    }
}

#[test]
fn other_kinds_are_not_creatures() {
    let mem = target(0x21);
    let base = CGameAIBase::new(&mem, &creature()).unwrap().unwrap();
    assert_eq!(base.object.object_type, ObjectType::Door);
    let channel = counting(&mem);
    assert!(CGameSprite::new(&channel, &creature(), base, &SpriteLayout::observed()).unwrap().is_none());
    assert_eq!(channel.reads.get(), 0);
}

#[test]
fn creature_record_end_to_end() {
    let mem = target(0x31);
    let entities = get_static_entity_list(&mem, BASE).unwrap();
    let entity = entities.into_iter().find(|e| e.is_valid()).unwrap();
    let base = CGameAIBase::new(&mem, &entity).unwrap().unwrap();
    assert_eq!(base.object.object_type, ObjectType::Sprite);
    let s = CGameSprite::new(&mem, &entity, base, &SpriteLayout::observed()).unwrap().unwrap();
    assert_eq!(s.name, "Imoen");
    assert_eq!(s.res_ref, "IMOEN");
    assert_eq!(s.current_area, "AR2600");
    assert_eq!(s.base_stats.hp, 30);
    assert_eq!((s.base_stats.level1, s.base_stats.level2, s.base_stats.level3), (3, 4, -1));
    let d: CDerivedStats = s.derived_stats;
    assert_eq!((d.max_hp, d.ac, d.thac0), (40, -2, 15));
    assert_eq!((d.str, d.str_extra, d.int, d.chr), (18, 75, 17, 12));
    assert_eq!(d.dex, 0);
    assert_eq!(s.equipped_effects.len(), 2);
    assert_eq!(s.equipped_effects[0].effect_id, 17);
    assert_eq!(s.equipped_effects[0].res, "SPWI101");
    assert_eq!(s.equipped_effects[1].effect_id, 42);
    assert_eq!(s.equipped_effects[1].res, "SPPR102");
    assert!(s.timed_effects.is_empty());
    assert_eq!(s.base.object.type_ai.enemy_ally, Lookup::Found(EnemyAlly::Pc));
}

#[test]
fn effect_fields() {
    let mem = target(0x31);
    let e: CGameEffect = CGameEffect::new(&mem, RemotePtr::new(EFFECTS)).unwrap();
    assert_eq!(e.version, "V2.0");
    assert_eq!(e.effect_id, 17);
    assert_eq!(e.spell_level, 3);
    assert_eq!(e.duration_type, 1);
    assert_eq!(e.duration, 60);
    assert_eq!(e.res, "SPWI101");
    assert_eq!(e.res_2, "RES2");
    assert_eq!(e.res_3, "RES3");
    assert_eq!(e.source_res, "SOURCE");
}

#[test]
fn list_walk_is_bounded_by_the_count() {
    let mut mem = target(0x31);
    let container = RemotePtr::<u8>::new(OBJ + 0x4998);
    let v = read_effect_list(&mem, container).unwrap();
    assert_eq!(v.iter().map(|e| e.effect_id).collect::<Vec<_>>(), vec![17, 42]);
    mem.regions[1].bytes[0x4998 + 0x18] = 3;
    let v = read_effect_list(&mem, container).unwrap();
    assert_eq!(v.iter().map(|e| e.effect_id).collect::<Vec<_>>(), vec![17, 42, 99]);
    mem.regions[1].bytes[0x4998 + 0x18] = 4;
    assert!(read_effect_list(&mem, container).is_err());
}

#[test]
fn empty_list_reads_only_its_header() {
    let mut mem = target(0x31);
    mem.regions[1].bytes[0x4998 + 0x18] = 0;
    let channel = counting(&mem);
    let v = read_effect_list(&channel, RemotePtr::new(OBJ + 0x4998)).unwrap();
    assert!(v.is_empty());
    assert_eq!(channel.reads.get(), 2);
}

#[test]
fn target_exit_mid_decode_is_reported() {
    let mem = target(0x31);
    let base_reads = {
        let channel = counting(&mem);
        CGameAIBase::new(&channel, &creature()).unwrap();
        channel.reads.get()
    };
    let total = {
        let channel = counting(&mem);
        let base = CGameAIBase::new(&mem, &creature()).unwrap().unwrap();
        CGameSprite::new(&channel, &creature(), base, &SpriteLayout::observed()).unwrap().unwrap();
        channel.reads.get()
    };
    assert!(base_reads > 0 && total > 0);
    for fail_from in 0..base_reads {
        let channel = Counting { inner: &mem, reads: Cell::new(0), fail_from };
        assert!(matches!(CGameAIBase::new(&channel, &creature()), Err(Error::GameProcessClosed)));
    }
    for fail_from in 0..total {
        let channel = Counting { inner: &mem, reads: Cell::new(0), fail_from };
        let base = CGameAIBase::new(&mem, &creature()).unwrap().unwrap();
        let r = CGameSprite::new(&channel, &creature(), base, &SpriteLayout::observed());
        assert!(matches!(r, Err(Error::GameProcessClosed)), "{fail_from}");
    }
}

#[test]
fn creature_without_a_name_is_an_error() {
    let mut mem = target(0x31);
    for b in &mut mem.regions[1].bytes[0x3910..0x3918] {
        *b = 0;
    }
    let base = CGameAIBase::new(&mem, &creature()).unwrap().unwrap();
    let r = CGameSprite::new(&mem, &creature(), base, &SpriteLayout::observed());
    assert!(matches!(r, Err(Error::InvalidString { .. })));
}

#[test]
fn layouts_differ_by_the_drift() {
    let a = SpriteLayout::observed();
    let b = SpriteLayout::documented();
    assert_eq!(b.current_area - a.current_area, 0x18);
    assert_eq!(b.equipped_effects - a.equipped_effects, 0x18);
    assert_eq!(b.timed_effects - a.timed_effects, 0x18);
    assert_eq!((a.res_ref, a.name), (b.res_ref, b.name));
}
