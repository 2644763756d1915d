//! Records of the target's object graph and the decoders that read them.

use vstd::prelude::*;
use crate::error::Error;
use crate::ids::Alignment;
use crate::ids::EnemyAlly;
use crate::ids::Gender;
use crate::ids::Identifier;
use crate::ids::Lookup;
use crate::ids::lemma_known_is_found;
use crate::ids::lemma_unknown_keeps_raw;
use crate::ids::ObjectType;
use crate::process::ProcessMemory;
use crate::remote_ptr::Decode;
use crate::remote_ptr::RemotePtr;
use crate::remote_ptr::offset_address;
use crate::remote_ptr::value_at;
use crate::strings::read_res_ref;
use crate::strings::decode_res_ref;
use crate::strings::is_res_ref_of;
use crate::strings::string_invalid;
use crate::strings::read_string;
use crate::strings::string_field;
use crate::strings::text_of;

verus! {

broadcast use vstd::slice::group_slice_axioms, crate::remote_ptr::group_remote_ptr;

/// The `i16` at offset `at` of `b`.
pub open spec fn i16_at(b: Seq<u8>, at: int) -> i16 {
    i16::spec_decode(b.subrange(at, at + 2))
}

/// A position on an area map.
#[derive(Debug, Clone, Copy, PartialEq, Eq, Structural)]
pub struct CPoint {
    pub x: i32,
    pub y: i32,
}

impl Decode for CPoint {
    open spec fn spec_size() -> nat {
        8
    }

    open spec fn spec_decode(bytes: Seq<u8>) -> CPoint {
        CPoint {
            x: i32::spec_decode(bytes.subrange(0, 4)),
            y: i32::spec_decode(bytes.subrange(4, 8)),
        }
    }

    fn size() -> (r: usize) {
        8
    }

    fn decode_at(bytes: &[u8], at: usize) -> (r: CPoint) {
        let len: usize = bytes.len();
        assert(at + 8 <= len);
        let x = i32::decode_at(bytes, at);
        let y = i32::decode_at(bytes, at + 4);
        let ghost s = bytes@.subrange(at as int, at + 8);
        assert(s.subrange(0, 4) =~= bytes@.subrange(at as int, at + 4));
        assert(s.subrange(4, 8) =~= bytes@.subrange(at + 4, at + 8));
        CPoint { x, y }
    }
}

/// Number of bytes that the derived statistics block spans.
pub const DERIVED_STATS_LEN: usize = 0x5C;

/// Statistics of a creature after every effect has been applied.
#[derive(Debug, Clone, Copy, PartialEq, Eq, Structural)]
pub struct CDerivedStats {
    pub max_hp: i16,
    pub ac: i16,
    pub thac0: i16,
    pub ac_crush_mod: i16,
    pub ac_missile_mod: i16,
    pub ac_pierce_mod: i16,
    pub ac_slash_mod: i16,
    pub number_of_attacks: i16,
    pub save_vs_death: i16,
    pub save_vs_wands: i16,
    pub save_vs_poly: i16,
    pub save_vs_breath: i16,
    pub save_vs_spell: i16,
    pub resist_fire: i16,
    pub resist_cold: i16,
    pub resist_electricity: i16,
    pub resist_acid: i16,
    pub resist_magic: i16,
    pub resist_magic_fire: i16,
    pub resist_magic_cold: i16,
    pub resist_slashing: i16,
    pub resist_crushing: i16,
    pub resist_piercing: i16,
    pub resist_missile: i16,
    pub level1: i16,
    pub level2: i16,
    pub level3: i16,
    pub str: i16,
    /// e.g. exceptional strength
    pub str_extra: i16,
    pub dex: i16,
    pub con: i16,
    pub int: i16,
    pub wis: i16,
    pub chr: i16,
}

/// The derived statistics that a block of `DERIVED_STATS_LEN` bytes holds.
pub open spec fn derived_stats_of(b: Seq<u8>) -> CDerivedStats {
    CDerivedStats {
        max_hp: i16_at(b, 0x4),
        ac: i16_at(b, 0x6),
        thac0: i16_at(b, 0x10),
        ac_crush_mod: i16_at(b, 0x8),
        ac_missile_mod: i16_at(b, 0xA),
        ac_pierce_mod: i16_at(b, 0xC),
        ac_slash_mod: i16_at(b, 0xE),
        number_of_attacks: i16_at(b, 0x12),
        save_vs_death: i16_at(b, 0x14),
        save_vs_wands: i16_at(b, 0x16),
        save_vs_poly: i16_at(b, 0x18),
        save_vs_breath: i16_at(b, 0x1A),
        save_vs_spell: i16_at(b, 0x1C),
        resist_fire: i16_at(b, 0x1E),
        resist_cold: i16_at(b, 0x20),
        resist_electricity: i16_at(b, 0x22),
        resist_acid: i16_at(b, 0x24),
        resist_magic: i16_at(b, 0x26),
        resist_magic_fire: i16_at(b, 0x28),
        resist_magic_cold: i16_at(b, 0x2A),
        resist_slashing: i16_at(b, 0x2C),
        resist_crushing: i16_at(b, 0x2E),
        resist_piercing: i16_at(b, 0x30),
        resist_missile: i16_at(b, 0x32),
        level1: i16_at(b, 0x46),
        level2: i16_at(b, 0x48),
        level3: i16_at(b, 0x4A),
        str: i16_at(b, 0x4E),
        str_extra: i16_at(b, 0x50),
        dex: i16_at(b, 0x56),
        con: i16_at(b, 0x58),
        int: i16_at(b, 0x52),
        wis: i16_at(b, 0x54),
        chr: i16_at(b, 0x5A),
    }
}

/// Decodes a derived statistics block.
pub fn decode_derived_stats(bytes: &[u8]) -> (r: CDerivedStats)
    requires
        bytes@.len() >= DERIVED_STATS_LEN,
    ensures
        r == derived_stats_of(bytes@),
{
    CDerivedStats {
        max_hp: i16::decode_at(bytes, 0x4),
        ac: i16::decode_at(bytes, 0x6),
        thac0: i16::decode_at(bytes, 0x10),
        ac_crush_mod: i16::decode_at(bytes, 0x8),
        ac_missile_mod: i16::decode_at(bytes, 0xA),
        ac_pierce_mod: i16::decode_at(bytes, 0xC),
        ac_slash_mod: i16::decode_at(bytes, 0xE),
        number_of_attacks: i16::decode_at(bytes, 0x12),
        save_vs_death: i16::decode_at(bytes, 0x14),
        save_vs_wands: i16::decode_at(bytes, 0x16),
        save_vs_poly: i16::decode_at(bytes, 0x18),
        save_vs_breath: i16::decode_at(bytes, 0x1A),
        save_vs_spell: i16::decode_at(bytes, 0x1C),
        resist_fire: i16::decode_at(bytes, 0x1E),
        resist_cold: i16::decode_at(bytes, 0x20),
        resist_electricity: i16::decode_at(bytes, 0x22),
        resist_acid: i16::decode_at(bytes, 0x24),
        resist_magic: i16::decode_at(bytes, 0x26),
        resist_magic_fire: i16::decode_at(bytes, 0x28),
        resist_magic_cold: i16::decode_at(bytes, 0x2A),
        resist_slashing: i16::decode_at(bytes, 0x2C),
        resist_crushing: i16::decode_at(bytes, 0x2E),
        resist_piercing: i16::decode_at(bytes, 0x30),
        resist_missile: i16::decode_at(bytes, 0x32),
        level1: i16::decode_at(bytes, 0x46),
        level2: i16::decode_at(bytes, 0x48),
        level3: i16::decode_at(bytes, 0x4A),
        str: i16::decode_at(bytes, 0x4E),
        str_extra: i16::decode_at(bytes, 0x50),
        dex: i16::decode_at(bytes, 0x56),
        con: i16::decode_at(bytes, 0x58),
        int: i16::decode_at(bytes, 0x52),
        wis: i16::decode_at(bytes, 0x54),
        chr: i16::decode_at(bytes, 0x5A),
    }
}

impl CDerivedStats {
    /// Reads the derived statistics block at `ptr`.
    pub fn new<P: ProcessMemory>(process: &P, ptr: RemotePtr<u8>) -> (r: Result<Self, Error>)
        ensures
            match r {
                Ok(s) => process.bytes_at(ptr@, DERIVED_STATS_LEN as nat) matches Some(b) ==> b.len()
                    == DERIVED_STATS_LEN && s == derived_stats_of(b),
                Err(e) => e.is_read_failure(),
            },
            process.is_complete() ==> (r is Ok <==> process.bytes_at(
                ptr@,
                DERIVED_STATS_LEN as nat,
            ) is Some),
    {
        let bytes = ptr.read_bytes(process, DERIVED_STATS_LEN)?;
        Ok(decode_derived_stats(bytes.as_slice()))
    }
}

/// Number of bytes from the start of a creature file header to its last field read.
pub const CREATURE_HEADER_LEN: usize = 0x22F;

/// The part of a creature's file header that is read.
#[derive(Debug, Clone, Copy, PartialEq, Eq, Structural)]
pub struct CCreatureFileHeader {
    pub hp: i16,
    pub level1: i8,
    pub level2: i8,
    pub level3: i8,
}

/// The header fields that a block of `CREATURE_HEADER_LEN` bytes holds.
pub open spec fn creature_header_of(b: Seq<u8>) -> CCreatureFileHeader {
    CCreatureFileHeader {
        hp: i16_at(b, 0x1C),
        level1: i8::spec_decode(b.subrange(0x22C, 0x22D)),
        level2: i8::spec_decode(b.subrange(0x22D, 0x22E)),
        level3: i8::spec_decode(b.subrange(0x22E, 0x22F)),
    }
}

impl CCreatureFileHeader {
    /// Reads the creature file header at `ptr`.
    pub fn new<P: ProcessMemory>(process: &P, ptr: RemotePtr<u8>) -> (r: Result<Self, Error>)
        ensures
            match r {
                Ok(h) => process.bytes_at(ptr@, CREATURE_HEADER_LEN as nat) matches Some(b) ==> b.len()
                    == CREATURE_HEADER_LEN && h == creature_header_of(b),
                Err(e) => e.is_read_failure(),
            },
            process.is_complete() ==> (r is Ok <==> process.bytes_at(
                ptr@,
                CREATURE_HEADER_LEN as nat,
            ) is Some),
    {
        let bytes = ptr.read_bytes(process, CREATURE_HEADER_LEN)?;
        let b = bytes.as_slice();
        Ok(
            CCreatureFileHeader {
                hp: i16::decode_at(b, 0x1C),
                level1: i8::decode_at(b, 0x22C),
                level2: i8::decode_at(b, 0x22D),
                level3: i8::decode_at(b, 0x22E),
            },
        )
    }
}

/// Offset of an effect's body from the start of its record.
pub const EFFECT_BODY_OFFSET: isize = 0x8;

/// Number of bytes of an effect's body that are read.
pub const EFFECT_BODY_LEN: usize = 0x94;

/// An effect active on a creature.
#[derive(Debug)]
pub struct CGameEffect {
    pub version: String,
    pub res: String,
    pub res_2: String,
    pub res_3: String,
    pub effect_id: u32,
    pub spell_level: i32,
    pub duration_type: u32,
    pub duration: u32,
    pub source_res: String,
}

impl CGameEffect {
    /// The effect fields that a body of `EFFECT_BODY_LEN` bytes holds.
    pub open spec fn matches_body(&self, b: Seq<u8>) -> bool {
        b.len() == EFFECT_BODY_LEN
        && is_res_ref_of(self.version@, b.subrange(0x0, 0x8))
        && is_res_ref_of(self.res@, b.subrange(0x28, 0x30))
        && is_res_ref_of(self.res_2@, b.subrange(0x68, 0x70))
        && is_res_ref_of(self.res_3@, b.subrange(0x70, 0x78))
        && is_res_ref_of(self.source_res@, b.subrange(0x8C, 0x94))
        && self.effect_id == u32::spec_decode(b.subrange(0x8, 0xC))
        && self.spell_level == i32::spec_decode(b.subrange(0x10, 0x14))
        && self.duration_type == u32::spec_decode(b.subrange(0x1C, 0x20))
        && self.duration == u32::spec_decode(b.subrange(0x20, 0x24))
    }

    /// Reads the effect whose record starts at `ptr`.
    pub fn new<P: ProcessMemory>(process: &P, ptr: RemotePtr<u8>) -> (r: Result<Self, Error>)
        ensures
            match r {
                Ok(e) => effect_at(process, ptr, e),
                Err(e) => e.is_read_failure(),
            },
            process.is_complete() ==> (r is Ok <==> process.bytes_at(
                offset_address(ptr@, EFFECT_BODY_OFFSET as int),
                EFFECT_BODY_LEN as nat,
            ) is Some),
    {
        let bytes = ptr.byte_offset(EFFECT_BODY_OFFSET).read_bytes(process, EFFECT_BODY_LEN)?;
        let b = bytes.as_slice();
        Ok(
            CGameEffect {
                version: decode_res_ref(&b[0x0..0x8]),
                res: decode_res_ref(&b[0x28..0x30]),
                res_2: decode_res_ref(&b[0x68..0x70]),
                res_3: decode_res_ref(&b[0x70..0x78]),
                source_res: decode_res_ref(&b[0x8C..0x94]),
                effect_id: u32::decode_at(b, 0x8),
                spell_level: i32::decode_at(b, 0x10),
                duration_type: u32::decode_at(b, 0x1C),
                duration: u32::decode_at(b, 0x20),
            },
        )
    }
}

/// Number of bytes that a classification's identifier fields span.
pub const AI_OBJECT_IDS_LEN: usize = 0x10;

/// Offset of a classification's identifier fields.
pub const AI_OBJECT_IDS_OFFSET: isize = 0x8;

/// Bound on the length of a classification's name.
pub const AI_OBJECT_NAME_CAP: usize = 8;

/// How scripts classify an object: its name and the identifiers of its
/// allegiance, broad category, race, class, gender and alignment. Category, race
/// and class are kept as their raw values.
#[derive(Debug)]
pub struct CAIObjectType {
    pub name: Option<String>,
    pub enemy_ally: Lookup<EnemyAlly, u8>,
    pub general: u8,
    pub race: u8,
    pub class: u8,
    pub instance: i32,
    pub special_case: [u8; 5],
    pub specifics: u8,
    pub gender: Lookup<Gender, u8>,
    pub alignment: Lookup<Alignment, u8>,
}

impl CAIObjectType {
    /// The identifier fields that a block of `AI_OBJECT_IDS_LEN` bytes holds.
    pub open spec fn matches_ids(&self, b: Seq<u8>) -> bool {
        &&& self.enemy_ally == Lookup::<EnemyAlly, u8>::spec_from_raw(b[0])
        &&& self.general == b[1]
        &&& self.race == b[2]
        &&& self.class == b[3]
        &&& self.instance == i32::spec_decode(b.subrange(4, 8))
        &&& self.special_case@ == b.subrange(8, 13)
        &&& self.specifics == b[13]
        &&& self.gender == Lookup::<Gender, u8>::spec_from_raw(b[14])
        &&& self.alignment == Lookup::<Alignment, u8>::spec_from_raw(b[15])
    }

    /// `self` agrees with what the process is known to hold for a classification at `ptr`.
    pub open spec fn agrees_with<P: ProcessMemory>(&self, process: &P, ptr: RemotePtr<u8>) -> bool {
        &&& (string_field(process, ptr, 0, AI_OBJECT_NAME_CAP as nat) matches Some(t) ==> t
            == text_of(self.name))
        &&& (process.bytes_at(
            offset_address(ptr@, AI_OBJECT_IDS_OFFSET as int),
            AI_OBJECT_IDS_LEN as nat,
        ) matches Some(b) ==> b.len() == AI_OBJECT_IDS_LEN && self.matches_ids(b))
    }

    /// Everything a classification at `ptr` is made of is known, and valid.
    pub open spec fn readable_at<P: ProcessMemory>(process: &P, ptr: RemotePtr<u8>) -> bool {
        &&& string_field(process, ptr, 0, AI_OBJECT_NAME_CAP as nat) is Some
        &&& process.bytes_at(
            offset_address(ptr@, AI_OBJECT_IDS_OFFSET as int),
            AI_OBJECT_IDS_LEN as nat,
        ) is Some
    }

    /// On a complete channel, the error that reading a classification at `ptr`
    /// ends in: `InvalidString` where its name is known not to be valid text,
    /// a failed read otherwise.
    pub open spec fn read_error<P: ProcessMemory>(process: &P, ptr: RemotePtr<u8>, e: Error) -> bool {
        if string_invalid(process, ptr, 0, AI_OBJECT_NAME_CAP as nat) {
            e is InvalidString
        } else {
            e.is_read_failure()
        }
    }

    /// Reads the classification at `ptr`. An identifier outside its known set is
    /// kept as its raw value.
    pub fn new<P: ProcessMemory>(process: &P, ptr: RemotePtr<u8>) -> (r: Result<Self, Error>)
        ensures
            r matches Ok(t) ==> t.agrees_with(process, ptr),
            r matches Err(e) ==> e.is_read_failure() || e is InvalidString,
            r matches Err(Error::InvalidString { .. }) ==> string_field(
                process,
                ptr,
                0,
                AI_OBJECT_NAME_CAP as nat,
            ) is None,
            process.is_complete() ==> (r matches Err(e) ==> Self::read_error(process, ptr, e)),
            process.is_complete() ==> (r is Ok <==> Self::readable_at(process, ptr)),
    {
        let name = read_string(process, ptr, 0x0, AI_OBJECT_NAME_CAP)?;
        let bytes = ptr.byte_offset(AI_OBJECT_IDS_OFFSET).read_bytes(process, AI_OBJECT_IDS_LEN)?;
        let b = bytes.as_slice();
        let special_case = [b[8], b[9], b[10], b[11], b[12]];
        assert(special_case@ =~= b@.subrange(8, 13));
        Ok(
            CAIObjectType {
                name,
                enemy_ally: Lookup::from_raw(b[0]),
                general: b[1],
                race: b[2],
                class: b[3],
                instance: i32::decode_at(b, 4),
                special_case,
                specifics: b[13],
                gender: Lookup::from_raw(b[14]),
                alignment: Lookup::from_raw(b[15]),
            },
        )
    }
}

/// In a decoded classification, each looked-up identifier is `Unknown` of
/// exactly the raw byte read where that byte is outside its set, and `Found` of
/// an identifier whose raw value is that byte where it is inside.
pub proof fn lemma_identity_lookups(t: CAIObjectType, b: Seq<u8>)
    requires
        b.len() == AI_OBJECT_IDS_LEN,
        t.matches_ids(b),
    ensures
        (forall|v: EnemyAlly| #[trigger] v.spec_raw() != b[0]) ==> t.enemy_ally == Lookup::<EnemyAlly, u8>::Unknown(
            b[0],
        ),
        (exists|v: EnemyAlly| #[trigger] v.spec_raw() == b[0]) ==> (t.enemy_ally matches Lookup::Found(v)
            && v.spec_raw() == b[0]),
        (forall|v: Gender| #[trigger] v.spec_raw() != b[14]) ==> t.gender == Lookup::<Gender, u8>::Unknown(
            b[14],
        ),
        (exists|v: Gender| #[trigger] v.spec_raw() == b[14]) ==> (t.gender matches Lookup::Found(v)
            && v.spec_raw() == b[14]),
        (forall|v: Alignment| #[trigger] v.spec_raw() != b[15]) ==> t.alignment == Lookup::<Alignment, u8>::Unknown(
            b[15],
        ),
        (exists|v: Alignment| #[trigger] v.spec_raw() == b[15]) ==> (t.alignment matches Lookup::Found(v)
            && v.spec_raw() == b[15]),
{
    if forall|v: EnemyAlly| #[trigger] v.spec_raw() != b[0] {
        lemma_unknown_keeps_raw::<EnemyAlly>(b[0]);
    }
    if exists|v: EnemyAlly| #[trigger] v.spec_raw() == b[0] {
        let v = choose|v: EnemyAlly| #[trigger] v.spec_raw() == b[0];
        lemma_known_is_found::<EnemyAlly>(b[0], v);
    }
    if forall|v: Gender| #[trigger] v.spec_raw() != b[14] {
        lemma_unknown_keeps_raw::<Gender>(b[14]);
    }
    if exists|v: Gender| #[trigger] v.spec_raw() == b[14] {
        let v = choose|v: Gender| #[trigger] v.spec_raw() == b[14];
        lemma_known_is_found::<Gender>(b[14], v);
    }
    if forall|v: Alignment| #[trigger] v.spec_raw() != b[15] {
        lemma_unknown_keeps_raw::<Alignment>(b[15]);
    }
    if exists|v: Alignment| #[trigger] v.spec_raw() == b[15] {
        let v = choose|v: Alignment| #[trigger] v.spec_raw() == b[15];
        lemma_known_is_found::<Alignment>(b[15], v);
    }
}

/// Offset of an object's own fields from its record.
pub const OBJECT_FIELDS_OFFSET: isize = 0x8;

/// Number of bytes that an object's own fields span.
pub const OBJECT_FIELDS_LEN: usize = 0x46;

/// Offset of an object's classification from its record.
pub const OBJECT_CLASSIFICATION_OFFSET: isize = 0x30;

/// The fields that every object of the global table has.
#[derive(Debug)]
pub struct CGameObject {
    pub object_type: ObjectType,
    pub pos: CPoint,
    pub pos_z: i32,
    pub list_type: u8,
    pub type_ai: CAIObjectType,
    pub id: i32,
    pub can_be_seen: i16,
}

impl CGameObject {
    /// The object's own fields that a block of `OBJECT_FIELDS_LEN` bytes holds
    /// (the classification is read on its own).
    pub open spec fn matches_fields(&self, b: Seq<u8>) -> bool {
        &&& ObjectType::spec_from_raw(b[0]) == Some(self.object_type)
        &&& self.pos == CPoint::spec_decode(b.subrange(0x4, 0xC))
        &&& self.pos_z == i32::spec_decode(b.subrange(0xC, 0x10))
        &&& self.list_type == b[0x20]
        &&& self.id == i32::spec_decode(b.subrange(0x40, 0x44))
        &&& self.can_be_seen == i16_at(b, 0x44)
    }
}

/// An object of the global table, as a script sees it.
#[derive(Debug)]
pub struct CGameAIBase {
    pub object: CGameObject,
}

impl CGameAIBase {
    /// `self` agrees with what the process is known to hold for an object record at `ptr`.
    pub open spec fn agrees_with<P: ProcessMemory>(&self, process: &P, ptr: RemotePtr<u8>) -> bool {
        &&& (process.bytes_at(
            offset_address(ptr@, OBJECT_FIELDS_OFFSET as int),
            OBJECT_FIELDS_LEN as nat,
        ) matches Some(b) ==> b.len() == OBJECT_FIELDS_LEN && self.object.matches_fields(b))
        &&& self.object.type_ai.agrees_with(process, at_offset(ptr, OBJECT_CLASSIFICATION_OFFSET))
    }

    /// Everything an object record at `ptr` is made of is known, and its kind
    /// tag is in the known set.
    pub open spec fn readable_at<P: ProcessMemory>(process: &P, ptr: RemotePtr<u8>) -> bool {
        &&& process.bytes_at(
            offset_address(ptr@, OBJECT_FIELDS_OFFSET as int),
            OBJECT_FIELDS_LEN as nat,
        ) matches Some(b) && ObjectType::spec_from_raw(b[0]) is Some
        &&& CAIObjectType::readable_at(process, at_offset(ptr, OBJECT_CLASSIFICATION_OFFSET))
    }

    /// On a complete channel, the error that reading an object record at `ptr`
    /// ends in: a failed read where its fields are unknown, `InvalidEnumValue`
    /// holding the kind tag where that tag is outside the known set, and else
    /// the error of reading its classification.
    pub open spec fn read_error<P: ProcessMemory>(process: &P, ptr: RemotePtr<u8>, e: Error) -> bool {
        match process.bytes_at(
            offset_address(ptr@, OBJECT_FIELDS_OFFSET as int),
            OBJECT_FIELDS_LEN as nat,
        ) {
            None => e.is_read_failure(),
            Some(b) => match ObjectType::spec_from_raw(b[0]) {
                None => e matches Error::InvalidEnumValue { value, .. } && value == b[0],
                Some(_) => CAIObjectType::read_error(
                    process,
                    at_offset(ptr, OBJECT_CLASSIFICATION_OFFSET),
                    e,
                ),
            },
        }
    }

    /// Reads the object that `entity` refers to. An unoccupied slot gives `None`
    /// without any read; a kind tag outside the known set is an error, since
    /// the kind decides how the object is read further.
    pub fn new<P: ProcessMemory>(process: &P, entity: &EntityPtr) -> (r: Result<Option<Self>, Error>)
        ensures
            !entity.spec_is_valid() ==> r matches Ok(None),
            entity.spec_is_valid() ==> (r matches Ok(o) ==> o matches Some(base) && base.agrees_with(
                process,
                entity.ptr,
            )),
            r matches Err(e) ==> e.is_read_failure() || e is InvalidString || e is InvalidEnumValue,
            r matches Err(Error::InvalidEnumValue { value, .. }) ==> value <= 0xFF
                && ObjectType::spec_from_raw(value as u8) is None && (process.bytes_at(
                offset_address(entity.ptr@, OBJECT_FIELDS_OFFSET as int),
                OBJECT_FIELDS_LEN as nat,
            ) matches Some(b) ==> b[0] == value),
            entity.spec_is_valid() && process.is_complete() ==> (r is Ok <==> Self::readable_at(
                process,
                entity.ptr,
            )),
            entity.spec_is_valid() && process.is_complete() ==> (r matches Err(e) ==> Self::read_error(
                process,
                entity.ptr,
                e,
            )),
            (process.bytes_at(
                offset_address(entity.ptr@, OBJECT_FIELDS_OFFSET as int),
                OBJECT_FIELDS_LEN as nat,
            ) matches Some(b) && ObjectType::spec_from_raw(b[0]) is None && entity.spec_is_valid())
                ==> r is Err,
    {
        if !entity.is_valid() {
            return Ok(None);
        }
        let ptr = entity.ptr;
        let bytes = ptr.byte_offset(OBJECT_FIELDS_OFFSET).read_bytes(process, OBJECT_FIELDS_LEN)?;
        let b = bytes.as_slice();
        let object_type = match ObjectType::from_raw(b[0]) {
            Some(t) => t,
            None => {
                return Err(
                    Error::InvalidEnumValue { enum_type: "ObjectType".to_string(), value: b[0] as u64 },
                );
            },
        };
        let classification = ptr.byte_offset(OBJECT_CLASSIFICATION_OFFSET);
        let type_ai = CAIObjectType::new(process, classification)?;
        let base = CGameAIBase {
            object: CGameObject {
                object_type,
                pos: CPoint::decode_at(b, 0x4),
                pos_z: i32::decode_at(b, 0xC),
                list_type: b[0x20],
                type_ai,
                id: i32::decode_at(b, 0x40),
                can_be_seen: i16::decode_at(b, 0x44),
            },
        };
        Ok(Some(base))
    }
}

/// The id that marks a slot of the global table as unoccupied.
pub const SENTINEL_ID: u16 = 0xFFFF;

/// A slot of the global object table: the object's id and where its record lies.
#[derive(Debug, Clone, Copy, PartialEq, Eq)]
pub struct EntityPtr {
    pub id: u16,
    pub ptr: RemotePtr<u8>,
}

impl EntityPtr {
    pub open spec fn spec_is_valid(&self) -> bool {
        self.id != SENTINEL_ID
    }

    /// The slot is occupied.
    pub fn is_valid(&self) -> (r: bool)
        ensures
            r == self.spec_is_valid(),
    {
        self.id != SENTINEL_ID
    }
}

impl Decode for EntityPtr {
    open spec fn spec_size() -> nat {
        16
    }

    open spec fn spec_decode(bytes: Seq<u8>) -> EntityPtr {
        EntityPtr {
            id: u16::spec_decode(bytes.subrange(0, 2)),
            ptr: RemotePtr::<u8>::spec_decode(bytes.subrange(8, 16)),
        }
    }

    fn size() -> (r: usize) {
        16
    }

    fn decode_at(bytes: &[u8], at: usize) -> (r: EntityPtr) {
        let len: usize = bytes.len();
        assert(at + 16 <= len);
        let id = u16::decode_at(bytes, at);
        let ptr = RemotePtr::<u8>::decode_at(bytes, at + 8);
        let ghost s = bytes@.subrange(at as int, at + 16);
        assert(s.subrange(0, 2) =~= bytes@.subrange(at as int, at + 2));
        assert(s.subrange(8, 16) =~= bytes@.subrange(at + 8, at + 16));
        EntityPtr { id, ptr }
    }
}

/// Offset of a list's head pointer within its container.
pub const LIST_HEAD_OFFSET: isize = 0x8;

/// Offset of a list's element count within its container.
pub const LIST_COUNT_OFFSET: isize = 0x18;

/// Offset of a node's payload pointer within the node.
pub const NODE_PAYLOAD_OFFSET: isize = 0x10;

/// The `i`-th node of a list whose first node is `head`, each node holding the
/// pointer to the next one at its start.
pub open spec fn list_node<P: ProcessMemory>(process: &P, head: RemotePtr<u8>, i: nat) -> Option<
    RemotePtr<u8>,
>
    decreases i,
{
    if i == 0 {
        Some(head)
    } else {
        match list_node(process, head, (i - 1) as nat) {
            Some(node) => value_at::<RemotePtr<u8>, P>(process, node@),
            None => None,
        }
    }
}

/// The payload pointer of the `i`-th node of the list that starts at `head`.
pub open spec fn list_payload<P: ProcessMemory>(process: &P, head: RemotePtr<u8>, i: nat) -> Option<
    RemotePtr<u8>,
> {
    match list_node(process, head, i) {
        Some(node) => value_at::<RemotePtr<u8>, P>(
            process,
            offset_address(node@, NODE_PAYLOAD_OFFSET as int),
        ),
        None => None,
    }
}

/// `value` is what `read_func` may decode from the payload of the `i`-th node of
/// the list that starts at `head`, where that payload is known.
pub open spec fn decoded_payload<T, P: ProcessMemory, F: Fn(&P, RemotePtr<u8>) -> Result<T, Error>>(
    process: &P,
    read_func: F,
    head: RemotePtr<u8>,
    i: nat,
    value: T,
) -> bool {
    match list_payload(process, head, i) {
        Some(payload) => read_func.ensures((process, payload), Ok::<T, Error>(value)),
        None => true,
    }
}

/// The head pointer of the list whose container is at `base`.
pub open spec fn list_head<P: ProcessMemory>(process: &P, base: RemotePtr<u8>) -> Option<RemotePtr<u8>> {
    value_at::<RemotePtr<u8>, P>(process, offset_address(base@, LIST_HEAD_OFFSET as int))
}

/// The element count of the list whose container is at `base`.
pub open spec fn list_count<P: ProcessMemory>(process: &P, base: RemotePtr<u8>) -> Option<u32> {
    value_at::<u32, P>(process, offset_address(base@, LIST_COUNT_OFFSET as int))
}

/// Every node that a walk of `count` nodes from `head` visits, the pointer to
/// the node after it, and its payload pointer, are known.
pub open spec fn walk_known<P: ProcessMemory>(process: &P, head: RemotePtr<u8>, count: nat) -> bool {
    forall|i: nat|
        i < count ==> list_node(process, head, i + 1) is Some && (#[trigger] list_payload(
            process,
            head,
            i,
        )) is Some
}

/// The head and count of the list whose container is at `base`, and the whole
/// walk that they describe, are known.
pub open spec fn list_walk_known<P: ProcessMemory>(process: &P, base: RemotePtr<u8>) -> bool {
    match (list_head(process, base), list_count(process, base)) {
        (Some(head), Some(count)) => walk_known(process, head, count as nat),
        _ => false,
    }
}

/// `read_func` may fail with `e` on the payload of the `i`-th node of the list
/// that starts at `head`.
pub open spec fn payload_failed<T, P: ProcessMemory, F: Fn(&P, RemotePtr<u8>) -> Result<T, Error>>(
    process: &P,
    read_func: F,
    head: RemotePtr<u8>,
    i: nat,
    e: Error,
) -> bool {
    match list_payload(process, head, i) {
        Some(payload) => read_func.ensures((process, payload), Err::<T, Error>(e)),
        None => false,
    }
}

/// A walk of the list whose container is at `base` can fail with `e`: part of
/// the list is unknown, or `read_func` may fail with `e` on one of the payloads.
pub open spec fn walk_failed<T, P: ProcessMemory, F: Fn(&P, RemotePtr<u8>) -> Result<T, Error>>(
    process: &P,
    read_func: F,
    base: RemotePtr<u8>,
    e: Error,
) -> bool {
    match (list_head(process, base), list_count(process, base)) {
        (Some(head), Some(count)) => !walk_known(process, head, count as nat) || exists|i: nat|
            i < count && #[trigger] payload_failed(process, read_func, head, i, e),
        _ => true,
    }
}

/// Decodes the list whose container is at `base_ptr`: exactly as many nodes as
/// the container's count says, from the head on, each payload decoded by
/// `read_func`. The count bounds the walk; no terminator is looked for.
pub fn read_ptr_list<T, P: ProcessMemory, F: Fn(&P, RemotePtr<u8>) -> Result<T, Error>>(
    process: &P,
    base_ptr: RemotePtr<u8>,
    read_func: F,
) -> (r: Result<Vec<T>, Error>)
    requires
        forall|payload: RemotePtr<u8>| #[trigger] read_func.requires((process, payload)),
    ensures
        r matches Ok(v) ==> (list_count(process, base_ptr) matches Some(count) ==> v@.len() == count),
        r matches Ok(v) ==> (list_head(process, base_ptr) matches Some(head) ==> forall|i: int|
            0 <= i < v@.len() ==> decoded_payload(process, read_func, head, i as nat, #[trigger] v@[i])),
        r matches Err(e) ==> e.is_read_failure() || exists|payload: RemotePtr<u8>|
            read_func.ensures((process, payload), Err::<T, Error>(e)),
        process.is_complete() && r is Ok ==> list_walk_known(process, base_ptr),
        process.is_complete() ==> (r matches Err(e) ==> walk_failed(process, read_func, base_ptr, e)),
{
    let mut lst: Vec<T> = Vec::new();
    let mut head: RemotePtr<u8> = base_ptr.byte_offset(LIST_HEAD_OFFSET).cast::<RemotePtr<u8>>().read(
        process,
    )?;
    let count: u32 = base_ptr.byte_offset(LIST_COUNT_OFFSET).cast::<u32>().read(process)?;
    let ghost first = head;
    let mut i: u32 = 0;
    while i < count
        invariant
            i <= count,
            list_head(process, base_ptr) matches Some(h) ==> h == first,
            list_count(process, base_ptr) matches Some(c) ==> c == count,
            list_node(process, first, i as nat) matches Some(n) ==> n == head,
            process.is_complete() ==> list_head(process, base_ptr) is Some && list_count(
                process,
                base_ptr,
            ) is Some && list_node(process, first, i as nat) is Some && walk_known(
                process,
                first,
                i as nat,
            ),
            lst@.len() == i,
            forall|payload: RemotePtr<u8>| #[trigger] read_func.requires((process, payload)),
            forall|j: int|
                0 <= j < i ==> decoded_payload(process, read_func, first, j as nat, #[trigger] lst@[j]),
        decreases count - i,
    {
        let next: RemotePtr<u8> = match head.cast::<RemotePtr<u8>>().read(process) {
            Ok(next) => next,
            Err(e) => {
                proof {
                    if process.is_complete() {
                        assert(list_node(process, first, (i + 1) as nat) is None);
                        assert(list_payload(process, first, i as nat) is Some ==> !walk_known(
                            process,
                            first,
                            count as nat,
                        ));
                    }
                }
                return Err(e);
            },
        };
        let data_ptr: RemotePtr<u8> = match head.byte_offset(NODE_PAYLOAD_OFFSET).cast::<
            RemotePtr<u8>,
        >().read(process) {
            Ok(data_ptr) => data_ptr,
            Err(e) => {
                proof {
                    if process.is_complete() {
                        assert(list_payload(process, first, i as nat) is None);
                    }
                }
                return Err(e);
            },
        };
        assert(list_payload(process, first, i as nat) matches Some(p) ==> p == data_ptr);
        let x = match read_func(process, data_ptr) {
            Ok(x) => x,
            Err(e) => {
                proof {
                    if process.is_complete() {
                        assert(payload_failed(process, read_func, first, i as nat, e));
                    }
                }
                return Err(e);
            },
        };
        let ghost before = lst@;
        lst.push(x);
        assert forall|j: int| 0 <= j < i + 1 implies decoded_payload(
            process,
            read_func,
            first,
            j as nat,
            #[trigger] lst@[j],
        ) by {
            if j < i {
                assert(lst@[j] == before[j]);
            }
        }
        assert(list_node(process, first, (i + 1) as nat) matches Some(n) ==> n == next);
        proof {
            if process.is_complete() {
                assert forall|k: nat| k < i + 1 implies list_node(process, first, k + 1) is Some && (
                #[trigger] list_payload(process, first, k)) is Some by {
                    if k < i {
                        assert(list_payload(process, first, k) is Some);
                    }
                }
            }
        }
        head = next;
        i += 1;
    }
    Ok(lst)
}

/// Where the fields of a creature record lie, relative to the record. These
/// offsets depend on the build of the target and are data, not code.
#[derive(Debug, Clone, Copy, PartialEq, Eq, Structural)]
pub struct SpriteLayout {
    pub res_ref: isize,
    pub base_stats: isize,
    pub derived_stats: isize,
    pub name: isize,
    pub current_area: isize,
    pub equipped_effects: isize,
    pub timed_effects: isize,
}

impl SpriteLayout {
    /// The offsets observed in the supported build: the area and both effect
    /// lists lie 0x18 bytes before the published layout's.
    pub fn observed() -> (r: Self)
        ensures
            r == (SpriteLayout {
                res_ref: 0x540,
                base_stats: 0x560,
                derived_stats: 0x1120,
                name: 0x3910,
                current_area: 0x3A08,
                equipped_effects: 0x4998,
                timed_effects: 0x49E8,
            }),
    {
        SpriteLayout {
            res_ref: 0x540,
            base_stats: 0x560,
            derived_stats: 0x1120,
            name: 0x3910,
            current_area: 0x3A20 - 0x18,
            equipped_effects: 0x49B0 - 0x18,
            timed_effects: 0x4A00 - 0x18,
        }
    }

    /// The offsets of the published layout.
    pub fn documented() -> (r: Self)
        ensures
            r == (SpriteLayout {
                res_ref: 0x540,
                base_stats: 0x560,
                derived_stats: 0x1120,
                name: 0x3910,
                current_area: 0x3A20,
                equipped_effects: 0x49B0,
                timed_effects: 0x4A00,
            }),
    {
        SpriteLayout {
            res_ref: 0x540,
            base_stats: 0x560,
            derived_stats: 0x1120,
            name: 0x3910,
            current_area: 0x3A20,
            equipped_effects: 0x49B0,
            timed_effects: 0x4A00,
        }
    }
}

/// Bound on the length of a creature's name.
pub const SPRITE_NAME_CAP: usize = 64;

/// `effect` agrees with what the process is known to hold for an effect record at `ptr`.
pub open spec fn effect_at<P: ProcessMemory>(process: &P, ptr: RemotePtr<u8>, effect: CGameEffect) -> bool {
    process.bytes_at(offset_address(ptr@, EFFECT_BODY_OFFSET as int), EFFECT_BODY_LEN as nat) matches Some(
        b,
    ) ==> effect.matches_body(b)
}

/// `effect` agrees with what the process is known to hold for the payload of
/// the `i`-th node of the list that starts at `head`.
pub open spec fn effect_in_list<P: ProcessMemory>(
    process: &P,
    head: RemotePtr<u8>,
    i: nat,
    effect: CGameEffect,
) -> bool {
    match list_payload(process, head, i) {
        Some(payload) => effect_at(process, payload, effect),
        None => true,
    }
}

/// `effects` agrees with what the process is known to hold for the effect list
/// whose container is at `base`.
pub open spec fn effect_list_at<P: ProcessMemory>(
    process: &P,
    base: RemotePtr<u8>,
    effects: Seq<CGameEffect>,
) -> bool {
    &&& (list_count(process, base) matches Some(count) ==> effects.len() == count)
    &&& (list_head(process, base) matches Some(head) ==> forall|i: int|
        0 <= i < effects.len() ==> effect_in_list(process, head, i as nat, #[trigger] effects[i]))
}

/// The effect body that the payload of the `i`-th node of the list that starts
/// at `head` points to is known.
pub open spec fn effect_body_known<P: ProcessMemory>(process: &P, head: RemotePtr<u8>, i: nat) -> bool {
    match list_payload(process, head, i) {
        Some(payload) => process.bytes_at(
            offset_address(payload@, EFFECT_BODY_OFFSET as int),
            EFFECT_BODY_LEN as nat,
        ) is Some,
        None => false,
    }
}

/// Everything that the effect list whose container is at `base` is made of is known.
pub open spec fn effect_list_readable<P: ProcessMemory>(process: &P, base: RemotePtr<u8>) -> bool {
    match (list_head(process, base), list_count(process, base)) {
        (Some(head), Some(count)) => walk_known(process, head, count as nat) && forall|i: nat|
            i < count ==> #[trigger] effect_body_known(process, head, i),
        _ => false,
    }
}

/// Reads the list of effects whose container is at `base`.
pub fn read_effect_list<P: ProcessMemory>(process: &P, base: RemotePtr<u8>) -> (r: Result<
    Vec<CGameEffect>,
    Error,
>)
    ensures
        r matches Ok(v) ==> effect_list_at(process, base, v@),
        r matches Err(e) ==> e.is_read_failure(),
        process.is_complete() ==> (r is Ok <==> effect_list_readable(process, base)),
{
    let read_effect = |p: &P, q: RemotePtr<u8>| -> (e: Result<CGameEffect, Error>)
        ensures
            match e {
                Ok(e) => effect_at(p, q, e),
                Err(e) => e.is_read_failure(),
            },
            p.is_complete() ==> (e is Ok <==> p.bytes_at(
                offset_address(q@, EFFECT_BODY_OFFSET as int),
                EFFECT_BODY_LEN as nat,
            ) is Some),
        { CGameEffect::new(p, q) };
    let effects = match read_ptr_list(process, base, read_effect) {
        Ok(effects) => effects,
        Err(e) => {
            proof {
                if process.is_complete() {
                    if let (Some(head), Some(count)) = (
                        list_head(process, base),
                        list_count(process, base),
                    ) {
                        if walk_known(process, head, count as nat) {
                            let i = choose|i: nat|
                                i < count && #[trigger] payload_failed(
                                    process,
                                    read_effect,
                                    head,
                                    i,
                                    e,
                                );
                            assert(!effect_body_known(process, head, i));
                        }
                    }
                }
            }
            return Err(e);
        },
    };
    proof {
        if let Some(head) = list_head(process, base) {
            assert forall|i: int| 0 <= i < effects@.len() implies effect_in_list(
                process,
                head,
                i as nat,
                #[trigger] effects@[i],
            ) by {
                assert(decoded_payload(process, read_effect, head, i as nat, effects@[i]));
            }
            if process.is_complete() {
                let count = list_count(process, base)->0;
                assert forall|i: nat| i < count implies #[trigger] effect_body_known(
                    process,
                    head,
                    i,
                ) by {
                    assert(decoded_payload(process, read_effect, head, i, effects@[i as int]));
                }
            }
        }
    }
    Ok(effects)
}

/// A creature.
#[derive(Debug)]
pub struct CGameSprite {
    pub base: CGameAIBase,
    pub res_ref: String,
    pub base_stats: CCreatureFileHeader,
    pub name: String,
    pub derived_stats: CDerivedStats,
    pub current_area: String,
    pub equipped_effects: Vec<CGameEffect>,
    pub timed_effects: Vec<CGameEffect>,
}

/// The pointer `offset` bytes past `ptr`.
pub open spec fn at_offset(ptr: RemotePtr<u8>, offset: isize) -> RemotePtr<u8> {
    RemotePtr::spec_at(offset_address(ptr@, offset as int))
}

impl CGameSprite {
    /// `self`'s own fields agree with what the process is known to hold for a
    /// creature record at `ptr` laid out as `layout`.
    pub open spec fn agrees_with<P: ProcessMemory>(
        &self,
        process: &P,
        ptr: RemotePtr<u8>,
        layout: SpriteLayout,
    ) -> bool {
        &&& (process.bytes_at(offset_address(ptr@, layout.res_ref as int), 8) matches Some(b)
            ==> is_res_ref_of(self.res_ref@, b))
        &&& (process.bytes_at(
            offset_address(ptr@, layout.derived_stats as int),
            DERIVED_STATS_LEN as nat,
        ) matches Some(b) ==> b.len() == DERIVED_STATS_LEN && self.derived_stats == derived_stats_of(b))
        &&& (string_field(process, ptr, layout.name as int, SPRITE_NAME_CAP as nat) matches Some(t) ==> t
            == Some(self.name@))
        &&& (process.bytes_at(offset_address(ptr@, layout.current_area as int), 8) matches Some(b)
            ==> is_res_ref_of(self.current_area@, b))
        &&& effect_list_at(process, at_offset(ptr, layout.equipped_effects), self.equipped_effects@)
        &&& effect_list_at(process, at_offset(ptr, layout.timed_effects), self.timed_effects@)
        &&& (process.bytes_at(
            offset_address(ptr@, layout.base_stats as int),
            CREATURE_HEADER_LEN as nat,
        ) matches Some(b) ==> b.len() == CREATURE_HEADER_LEN && self.base_stats == creature_header_of(b))
    }

    /// Everything a creature record at `ptr` laid out as `layout` is made of is
    /// known, and it has a name.
    pub open spec fn readable_at<P: ProcessMemory>(
        process: &P,
        ptr: RemotePtr<u8>,
        layout: SpriteLayout,
    ) -> bool {
        &&& process.bytes_at(offset_address(ptr@, layout.res_ref as int), 8) is Some
        &&& process.bytes_at(
            offset_address(ptr@, layout.derived_stats as int),
            DERIVED_STATS_LEN as nat,
        ) is Some
        &&& string_field(process, ptr, layout.name as int, SPRITE_NAME_CAP as nat) matches Some(
            Some(_),
        )
        &&& process.bytes_at(offset_address(ptr@, layout.current_area as int), 8) is Some
        &&& effect_list_readable(process, at_offset(ptr, layout.equipped_effects))
        &&& effect_list_readable(process, at_offset(ptr, layout.timed_effects))
        &&& process.bytes_at(
            offset_address(ptr@, layout.base_stats as int),
            CREATURE_HEADER_LEN as nat,
        ) is Some
    }

    /// The name field of a creature record at `ptr` is known to be absent or not
    /// valid text.
    pub open spec fn name_bad<P: ProcessMemory>(
        process: &P,
        ptr: RemotePtr<u8>,
        layout: SpriteLayout,
    ) -> bool {
        ||| string_invalid(process, ptr, layout.name as int, SPRITE_NAME_CAP as nat)
        ||| string_field(process, ptr, layout.name as int, SPRITE_NAME_CAP as nat) == Some(
            None::<Seq<char>>,
        )
    }

    /// Reads the creature that `entity` refers to, given its object record
    /// `base`. A slot that is unoccupied, or an object of another kind, gives
    /// `None`: the specialisation does not apply. A creature without a name is
    /// an error.
    ///
    /// Category, race and class stay raw values, so the derived statistics
    /// are not interpreted by class (no class levels are derived): this decoder
    /// neither needs a known class nor fails on an unknown one.
    pub fn new<P: ProcessMemory>(
        process: &P,
        entity: &EntityPtr,
        base: CGameAIBase,
        layout: &SpriteLayout,
    ) -> (r: Result<Option<Self>, Error>)
        ensures
            !entity.spec_is_valid() || base.object.object_type != ObjectType::Sprite ==> r matches Ok(
                None,
            ),
            entity.spec_is_valid() && base.object.object_type == ObjectType::Sprite ==> (r matches Ok(
                o,
            ) ==> o is Some),
            r matches Ok(Some(s)) ==> s.base == base && s.agrees_with(process, entity.ptr, *layout),
            r matches Err(e) ==> e.is_read_failure() || e is InvalidString,
            r matches Err(Error::InvalidString { .. }) ==> !(string_field(
                process,
                entity.ptr,
                layout.name as int,
                SPRITE_NAME_CAP as nat,
            ) matches Some(Some(_))),
            entity.spec_is_valid() && base.object.object_type == ObjectType::Sprite
                && process.is_complete() ==> (r matches Err(e) ==> (e is InvalidString <==> (
            process.bytes_at(offset_address(entity.ptr@, layout.res_ref as int), 8) is Some
                && process.bytes_at(
                offset_address(entity.ptr@, layout.derived_stats as int),
                DERIVED_STATS_LEN as nat,
            ) is Some && Self::name_bad(process, entity.ptr, *layout)))),
            entity.spec_is_valid() && base.object.object_type == ObjectType::Sprite
                && process.is_complete() ==> (r is Ok <==> Self::readable_at(
                process,
                entity.ptr,
                *layout,
            )),
    {
        if !entity.is_valid() || base.object.object_type != ObjectType::Sprite {
            return Ok(None);
        }
        let ptr = entity.ptr;
        let res_ref = read_res_ref(process, ptr, layout.res_ref)?;
        let derived_stats = CDerivedStats::new(process, ptr.byte_offset(layout.derived_stats))?;
        let name = match read_string(process, ptr, layout.name, SPRITE_NAME_CAP)? {
            Some(name) => name,
            None => {
                return Err(
                    Error::InvalidString {
                        msg: "creature has no terminated name".to_string(),
                        bytes: Vec::new(),
                    },
                );
            },
        };
        let current_area = read_res_ref(process, ptr, layout.current_area)?;
        let equipped_ptr = ptr.byte_offset(layout.equipped_effects);
        let equipped_effects = read_effect_list(process, equipped_ptr)?;
        let timed_ptr = ptr.byte_offset(layout.timed_effects);
        let timed_effects = read_effect_list(process, timed_ptr)?;
        let base_stats = CCreatureFileHeader::new(process, ptr.byte_offset(layout.base_stats))?;
        assert(equipped_ptr == at_offset(ptr, layout.equipped_effects));
        assert(timed_ptr == at_offset(ptr, layout.timed_effects));
        Ok(
            Some(
                CGameSprite {
                    base,
                    res_ref,
                    base_stats,
                    name,
                    derived_stats,
                    current_area,
                    equipped_effects,
                    timed_effects,
                },
            ),
        )
    }
}

} // verus!
