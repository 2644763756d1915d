//! Closed identifier sets, and looking raw values up in them without failing
//! on values outside the set.

use vstd::prelude::*;

verus! {

/// A closed set of identifiers, each standing for one raw byte in the target.
pub trait Identifier: Sized {
    /// The raw value that stands for this identifier.
    spec fn spec_raw(&self) -> u8;

    /// The identifier that `raw` stands for, if it is in the known set.
    spec fn spec_from_raw(raw: u8) -> Option<Self>;

    /// `spec_from_raw` finds exactly the identifiers whose raw value is given.
    proof fn lemma_from_raw(raw: u8)
        ensures
            match Self::spec_from_raw(raw) {
                Some(v) => v.spec_raw() == raw,
                None => forall|v: Self| #[trigger] v.spec_raw() != raw,
            },
    ;

    fn raw(&self) -> (r: u8)
        ensures
            r == self.spec_raw(),
    ;

    fn from_raw(raw: u8) -> (r: Option<Self>)
        ensures
            r == Self::spec_from_raw(raw),
    ;
}

/// The outcome of looking a raw value up in an identifier set: the identifier
/// where it is known, else the raw value itself.
#[derive(Debug, PartialEq, Eq, Clone, PartialOrd, Ord)]
pub enum Lookup<T, U> {
    Found(T),
    Unknown(U),
}

impl<T, U> Lookup<T, U> {
    pub fn to_option(self) -> (r: Option<T>)
        ensures
            r == match self {
                Lookup::Found(f) => Some(f),
                Lookup::Unknown(_) => None::<T>,
            },
    {
        match self {
            Lookup::Found(f) => Some(f),
            Lookup::Unknown(_) => None,
        }
    }

    pub fn as_option(&self) -> (r: Option<&T>)
        ensures
            r == match self {
                Lookup::Found(f) => Some(f),
                Lookup::Unknown(_) => None::<&T>,
            },
    {
        match self {
            Lookup::Found(f) => Some(f),
            Lookup::Unknown(_) => None,
        }
    }
}

impl<T: Identifier> Lookup<T, u8> {
    /// The lookup of `raw`.
    pub open spec fn spec_from_raw(raw: u8) -> Self {
        match T::spec_from_raw(raw) {
            Some(v) => Lookup::Found(v),
            None => Lookup::Unknown(raw),
        }
    }

    /// Looks `raw` up; an unknown value is kept, never an error.
    pub fn from_raw(raw: u8) -> (r: Self)
        ensures
            r == Self::spec_from_raw(raw),
    {
        match T::from_raw(raw) {
            Some(v) => Lookup::Found(v),
            None => Lookup::Unknown(raw),
        }
    }
}

/// A raw value that no identifier of the set stands for is looked up as
/// `Unknown` of exactly that value.
pub proof fn lemma_unknown_keeps_raw<T: Identifier>(raw: u8)
    requires
        forall|v: T| #[trigger] v.spec_raw() != raw,
    ensures
        Lookup::<T, u8>::spec_from_raw(raw) == Lookup::<T, u8>::Unknown(raw),
{
    T::lemma_from_raw(raw);
    if let Some(v) = T::spec_from_raw(raw) {
        assert(v.spec_raw() == raw);
    }
}

/// A raw value that some identifier of the set stands for is looked up as
/// `Found` of an identifier whose raw value is exactly that value.
pub proof fn lemma_known_is_found<T: Identifier>(raw: u8, v: T)
    requires
        v.spec_raw() == raw,
    ensures
        Lookup::<T, u8>::spec_from_raw(raw) matches Lookup::Found(w) && w.spec_raw() == raw,
{
    T::lemma_from_raw(raw);
}

/// The kind tag of an object in the target's global table; it selects which
/// specialised record an object is decoded as.
#[derive(Debug, Clone, Copy, PartialEq, Eq, Structural)]
pub enum ObjectType {
    Empty,
    AiBase,
    Sound,
    Container,
    Spawning,
    Door,
    Static,
    Sprite,
    ObjectMarker,
    Trigger,
    TiledObject,
    Temporal,
    AreaAi,
    Fireball,
    GameAi,
}

impl Identifier for ObjectType {
    open spec fn spec_raw(&self) -> u8 {
        match self {
            ObjectType::Empty => 0x00,
            ObjectType::AiBase => 0x01,
            ObjectType::Sound => 0x10,
            ObjectType::Container => 0x11,
            ObjectType::Spawning => 0x20,
            ObjectType::Door => 0x21,
            ObjectType::Static => 0x30,
            ObjectType::Sprite => 0x31,
            ObjectType::ObjectMarker => 0x40,
            ObjectType::Trigger => 0x41,
            ObjectType::TiledObject => 0x51,
            ObjectType::Temporal => 0x60,
            ObjectType::AreaAi => 0x61,
            ObjectType::Fireball => 0x70,
            ObjectType::GameAi => 0x71,
        }
    }

    open spec fn spec_from_raw(raw: u8) -> Option<ObjectType> {
        match raw {
            0x00 => Some(ObjectType::Empty),
            0x01 => Some(ObjectType::AiBase),
            0x10 => Some(ObjectType::Sound),
            0x11 => Some(ObjectType::Container),
            0x20 => Some(ObjectType::Spawning),
            0x21 => Some(ObjectType::Door),
            0x30 => Some(ObjectType::Static),
            0x31 => Some(ObjectType::Sprite),
            0x40 => Some(ObjectType::ObjectMarker),
            0x41 => Some(ObjectType::Trigger),
            0x51 => Some(ObjectType::TiledObject),
            0x60 => Some(ObjectType::Temporal),
            0x61 => Some(ObjectType::AreaAi),
            0x70 => Some(ObjectType::Fireball),
            0x71 => Some(ObjectType::GameAi),
            _ => None,
        }
    }

    proof fn lemma_from_raw(raw: u8) {
    }

    fn raw(&self) -> (r: u8) {
        match self {
            ObjectType::Empty => 0x00,
            ObjectType::AiBase => 0x01,
            ObjectType::Sound => 0x10,
            ObjectType::Container => 0x11,
            ObjectType::Spawning => 0x20,
            ObjectType::Door => 0x21,
            ObjectType::Static => 0x30,
            ObjectType::Sprite => 0x31,
            ObjectType::ObjectMarker => 0x40,
            ObjectType::Trigger => 0x41,
            ObjectType::TiledObject => 0x51,
            ObjectType::Temporal => 0x60,
            ObjectType::AreaAi => 0x61,
            ObjectType::Fireball => 0x70,
            ObjectType::GameAi => 0x71,
        }
    }

    fn from_raw(raw: u8) -> (r: Option<ObjectType>) {
        match raw {
            0x00 => Some(ObjectType::Empty),
            0x01 => Some(ObjectType::AiBase),
            0x10 => Some(ObjectType::Sound),
            0x11 => Some(ObjectType::Container),
            0x20 => Some(ObjectType::Spawning),
            0x21 => Some(ObjectType::Door),
            0x30 => Some(ObjectType::Static),
            0x31 => Some(ObjectType::Sprite),
            0x40 => Some(ObjectType::ObjectMarker),
            0x41 => Some(ObjectType::Trigger),
            0x51 => Some(ObjectType::TiledObject),
            0x60 => Some(ObjectType::Temporal),
            0x61 => Some(ObjectType::AreaAi),
            0x70 => Some(ObjectType::Fireball),
            0x71 => Some(ObjectType::GameAi),
            _ => None,
        }
    }
}

/// Moral alignment of a creature, with the masks that scripts match against.
#[derive(Debug, Clone, Copy, PartialEq, Eq, Structural)]
pub enum Alignment {
    NoAlignment,
    LawfulGood,
    LawfulNeutral,
    LawfulEvil,
    NeutralGood,
    Neutral,
    NeutralEvil,
    ChaoticGood,
    ChaoticNeutral,
    ChaoticEvil,
    MaskGood,
    MaskGENeutral,
    MaskEvil,
    MaskLawful,
    MaskLCNeutral,
    MaskChaotic,
}

impl Identifier for Alignment {
    open spec fn spec_raw(&self) -> u8 {
        match self {
            Alignment::NoAlignment => 0x00,
            Alignment::LawfulGood => 0x11,
            Alignment::LawfulNeutral => 0x12,
            Alignment::LawfulEvil => 0x13,
            Alignment::NeutralGood => 0x21,
            Alignment::Neutral => 0x22,
            Alignment::NeutralEvil => 0x23,
            Alignment::ChaoticGood => 0x31,
            Alignment::ChaoticNeutral => 0x32,
            Alignment::ChaoticEvil => 0x33,
            Alignment::MaskGood => 0x01,
            Alignment::MaskGENeutral => 0x02,
            Alignment::MaskEvil => 0x03,
            Alignment::MaskLawful => 0x10,
            Alignment::MaskLCNeutral => 0x20,
            Alignment::MaskChaotic => 0x30,
        }
    }

    open spec fn spec_from_raw(raw: u8) -> Option<Alignment> {
        match raw {
            0x00 => Some(Alignment::NoAlignment),
            0x11 => Some(Alignment::LawfulGood),
            0x12 => Some(Alignment::LawfulNeutral),
            0x13 => Some(Alignment::LawfulEvil),
            0x21 => Some(Alignment::NeutralGood),
            0x22 => Some(Alignment::Neutral),
            0x23 => Some(Alignment::NeutralEvil),
            0x31 => Some(Alignment::ChaoticGood),
            0x32 => Some(Alignment::ChaoticNeutral),
            0x33 => Some(Alignment::ChaoticEvil),
            0x01 => Some(Alignment::MaskGood),
            0x02 => Some(Alignment::MaskGENeutral),
            0x03 => Some(Alignment::MaskEvil),
            0x10 => Some(Alignment::MaskLawful),
            0x20 => Some(Alignment::MaskLCNeutral),
            0x30 => Some(Alignment::MaskChaotic),
            _ => None,
        }
    }

    proof fn lemma_from_raw(raw: u8) {
    }

    fn raw(&self) -> (r: u8) {
        match self {
            Alignment::NoAlignment => 0x00,
            Alignment::LawfulGood => 0x11,
            Alignment::LawfulNeutral => 0x12,
            Alignment::LawfulEvil => 0x13,
            Alignment::NeutralGood => 0x21,
            Alignment::Neutral => 0x22,
            Alignment::NeutralEvil => 0x23,
            Alignment::ChaoticGood => 0x31,
            Alignment::ChaoticNeutral => 0x32,
            Alignment::ChaoticEvil => 0x33,
            Alignment::MaskGood => 0x01,
            Alignment::MaskGENeutral => 0x02,
            Alignment::MaskEvil => 0x03,
            Alignment::MaskLawful => 0x10,
            Alignment::MaskLCNeutral => 0x20,
            Alignment::MaskChaotic => 0x30,
        }
    }

    fn from_raw(raw: u8) -> (r: Option<Alignment>) {
        match raw {
            0x00 => Some(Alignment::NoAlignment),
            0x11 => Some(Alignment::LawfulGood),
            0x12 => Some(Alignment::LawfulNeutral),
            0x13 => Some(Alignment::LawfulEvil),
            0x21 => Some(Alignment::NeutralGood),
            0x22 => Some(Alignment::Neutral),
            0x23 => Some(Alignment::NeutralEvil),
            0x31 => Some(Alignment::ChaoticGood),
            0x32 => Some(Alignment::ChaoticNeutral),
            0x33 => Some(Alignment::ChaoticEvil),
            0x01 => Some(Alignment::MaskGood),
            0x02 => Some(Alignment::MaskGENeutral),
            0x03 => Some(Alignment::MaskEvil),
            0x10 => Some(Alignment::MaskLawful),
            0x20 => Some(Alignment::MaskLCNeutral),
            0x30 => Some(Alignment::MaskChaotic),
            _ => None,
        }
    }
}

/// Allegiance of a creature towards the party.
#[derive(Debug, Clone, Copy, PartialEq, Eq, Structural)]
pub enum EnemyAlly {
    Anyone,
    Inanimate,
    Pc,
    Familiar,
    Ally,
    Controlled,
    Charmed,
    Reallycharmed,
    GoodButRed,
    GoodButBlue,
    Goodcutoff,
    Notgood,
    Anything,
    AreaObject,
    Neutral,
    NotNeutral,
    NotEvil,
    EvilCutoff,
    EvilButGreen,
    EvilButBlue,
    CharmedPc,
    Enemy,
}

impl Identifier for EnemyAlly {
    open spec fn spec_raw(&self) -> u8 {
        match self {
            EnemyAlly::Anyone => 0x00,
            EnemyAlly::Inanimate => 0x01,
            EnemyAlly::Pc => 0x02,
            EnemyAlly::Familiar => 0x03,
            EnemyAlly::Ally => 0x04,
            EnemyAlly::Controlled => 0x05,
            EnemyAlly::Charmed => 0x06,
            EnemyAlly::Reallycharmed => 0x07,
            EnemyAlly::GoodButRed => 0x1C,
            EnemyAlly::GoodButBlue => 0x1D,
            EnemyAlly::Goodcutoff => 0x1E,
            EnemyAlly::Notgood => 0x1F,
            EnemyAlly::Anything => 0x7E,
            EnemyAlly::AreaObject => 0x7F,
            EnemyAlly::Neutral => 0x80,
            EnemyAlly::NotNeutral => 0xC6,
            EnemyAlly::NotEvil => 0xC7,
            EnemyAlly::EvilCutoff => 0xC8,
            EnemyAlly::EvilButGreen => 0xC9,
            EnemyAlly::EvilButBlue => 0xCA,
            EnemyAlly::CharmedPc => 0xFE,
            EnemyAlly::Enemy => 0xFF,
        }
    }

    open spec fn spec_from_raw(raw: u8) -> Option<EnemyAlly> {
        match raw {
            0x00 => Some(EnemyAlly::Anyone),
            0x01 => Some(EnemyAlly::Inanimate),
            0x02 => Some(EnemyAlly::Pc),
            0x03 => Some(EnemyAlly::Familiar),
            0x04 => Some(EnemyAlly::Ally),
            0x05 => Some(EnemyAlly::Controlled),
            0x06 => Some(EnemyAlly::Charmed),
            0x07 => Some(EnemyAlly::Reallycharmed),
            0x1C => Some(EnemyAlly::GoodButRed),
            0x1D => Some(EnemyAlly::GoodButBlue),
            0x1E => Some(EnemyAlly::Goodcutoff),
            0x1F => Some(EnemyAlly::Notgood),
            0x7E => Some(EnemyAlly::Anything),
            0x7F => Some(EnemyAlly::AreaObject),
            0x80 => Some(EnemyAlly::Neutral),
            0xC6 => Some(EnemyAlly::NotNeutral),
            0xC7 => Some(EnemyAlly::NotEvil),
            0xC8 => Some(EnemyAlly::EvilCutoff),
            0xC9 => Some(EnemyAlly::EvilButGreen),
            0xCA => Some(EnemyAlly::EvilButBlue),
            0xFE => Some(EnemyAlly::CharmedPc),
            0xFF => Some(EnemyAlly::Enemy),
            _ => None,
        }
    }

    proof fn lemma_from_raw(raw: u8) {
    }

    fn raw(&self) -> (r: u8) {
        match self {
            EnemyAlly::Anyone => 0x00,
            EnemyAlly::Inanimate => 0x01,
            EnemyAlly::Pc => 0x02,
            EnemyAlly::Familiar => 0x03,
            EnemyAlly::Ally => 0x04,
            EnemyAlly::Controlled => 0x05,
            EnemyAlly::Charmed => 0x06,
            EnemyAlly::Reallycharmed => 0x07,
            EnemyAlly::GoodButRed => 0x1C,
            EnemyAlly::GoodButBlue => 0x1D,
            EnemyAlly::Goodcutoff => 0x1E,
            EnemyAlly::Notgood => 0x1F,
            EnemyAlly::Anything => 0x7E,
            EnemyAlly::AreaObject => 0x7F,
            EnemyAlly::Neutral => 0x80,
            EnemyAlly::NotNeutral => 0xC6,
            EnemyAlly::NotEvil => 0xC7,
            EnemyAlly::EvilCutoff => 0xC8,
            EnemyAlly::EvilButGreen => 0xC9,
            EnemyAlly::EvilButBlue => 0xCA,
            EnemyAlly::CharmedPc => 0xFE,
            EnemyAlly::Enemy => 0xFF,
        }
    }

    fn from_raw(raw: u8) -> (r: Option<EnemyAlly>) {
        match raw {
            0x00 => Some(EnemyAlly::Anyone),
            0x01 => Some(EnemyAlly::Inanimate),
            0x02 => Some(EnemyAlly::Pc),
            0x03 => Some(EnemyAlly::Familiar),
            0x04 => Some(EnemyAlly::Ally),
            0x05 => Some(EnemyAlly::Controlled),
            0x06 => Some(EnemyAlly::Charmed),
            0x07 => Some(EnemyAlly::Reallycharmed),
            0x1C => Some(EnemyAlly::GoodButRed),
            0x1D => Some(EnemyAlly::GoodButBlue),
            0x1E => Some(EnemyAlly::Goodcutoff),
            0x1F => Some(EnemyAlly::Notgood),
            0x7E => Some(EnemyAlly::Anything),
            0x7F => Some(EnemyAlly::AreaObject),
            0x80 => Some(EnemyAlly::Neutral),
            0xC6 => Some(EnemyAlly::NotNeutral),
            0xC7 => Some(EnemyAlly::NotEvil),
            0xC8 => Some(EnemyAlly::EvilCutoff),
            0xC9 => Some(EnemyAlly::EvilButGreen),
            0xCA => Some(EnemyAlly::EvilButBlue),
            0xFE => Some(EnemyAlly::CharmedPc),
            0xFF => Some(EnemyAlly::Enemy),
            _ => None,
        }
    }
}

/// Gender of a creature, including the special values used for summons.
#[derive(Debug, Clone, Copy, PartialEq, Eq, Structural)]
pub enum Gender {
    Male,
    Female,
    Other,
    Niether,
    Both,
    Summoned,
    Illusionary,
    Extra,
    SummonedDemon,
    Extra2,
    Extra3,
    Extra4,
    Extra5,
    Extra6,
    Extra7,
    Extra8,
    Extra9,
    Extra10,
    ImprisonedSummoned,
}

impl Identifier for Gender {
    open spec fn spec_raw(&self) -> u8 {
        match self {
            Gender::Male => 0x01,
            Gender::Female => 0x02,
            Gender::Other => 0x03,
            Gender::Niether => 0x04,
            Gender::Both => 0x05,
            Gender::Summoned => 0x06,
            Gender::Illusionary => 0x07,
            Gender::Extra => 0x08,
            Gender::SummonedDemon => 0x09,
            Gender::Extra2 => 0x0A,
            Gender::Extra3 => 0x0B,
            Gender::Extra4 => 0x0C,
            Gender::Extra5 => 0x0D,
            Gender::Extra6 => 0x0E,
            Gender::Extra7 => 0x0F,
            Gender::Extra8 => 0x10,
            Gender::Extra9 => 0x11,
            Gender::Extra10 => 0x12,
            Gender::ImprisonedSummoned => 0x42,
        }
    }

    open spec fn spec_from_raw(raw: u8) -> Option<Gender> {
        match raw {
            0x01 => Some(Gender::Male),
            0x02 => Some(Gender::Female),
            0x03 => Some(Gender::Other),
            0x04 => Some(Gender::Niether),
            0x05 => Some(Gender::Both),
            0x06 => Some(Gender::Summoned),
            0x07 => Some(Gender::Illusionary),
            0x08 => Some(Gender::Extra),
            0x09 => Some(Gender::SummonedDemon),
            0x0A => Some(Gender::Extra2),
            0x0B => Some(Gender::Extra3),
            0x0C => Some(Gender::Extra4),
            0x0D => Some(Gender::Extra5),
            0x0E => Some(Gender::Extra6),
            0x0F => Some(Gender::Extra7),
            0x10 => Some(Gender::Extra8),
            0x11 => Some(Gender::Extra9),
            0x12 => Some(Gender::Extra10),
            0x42 => Some(Gender::ImprisonedSummoned),
            _ => None,
        }
    }

    proof fn lemma_from_raw(raw: u8) {
    }

    fn raw(&self) -> (r: u8) {
        match self {
            Gender::Male => 0x01,
            Gender::Female => 0x02,
            Gender::Other => 0x03,
            Gender::Niether => 0x04,
            Gender::Both => 0x05,
            Gender::Summoned => 0x06,
            Gender::Illusionary => 0x07,
            Gender::Extra => 0x08,
            Gender::SummonedDemon => 0x09,
            Gender::Extra2 => 0x0A,
            Gender::Extra3 => 0x0B,
            Gender::Extra4 => 0x0C,
            Gender::Extra5 => 0x0D,
            Gender::Extra6 => 0x0E,
            Gender::Extra7 => 0x0F,
            Gender::Extra8 => 0x10,
            Gender::Extra9 => 0x11,
            Gender::Extra10 => 0x12,
            Gender::ImprisonedSummoned => 0x42,
        }
    }

    fn from_raw(raw: u8) -> (r: Option<Gender>) {
        match raw {
            0x01 => Some(Gender::Male),
            0x02 => Some(Gender::Female),
            0x03 => Some(Gender::Other),
            0x04 => Some(Gender::Niether),
            0x05 => Some(Gender::Both),
            0x06 => Some(Gender::Summoned),
            0x07 => Some(Gender::Illusionary),
            0x08 => Some(Gender::Extra),
            0x09 => Some(Gender::SummonedDemon),
            0x0A => Some(Gender::Extra2),
            0x0B => Some(Gender::Extra3),
            0x0C => Some(Gender::Extra4),
            0x0D => Some(Gender::Extra5),
            0x0E => Some(Gender::Extra6),
            0x0F => Some(Gender::Extra7),
            0x10 => Some(Gender::Extra8),
            0x11 => Some(Gender::Extra9),
            0x12 => Some(Gender::Extra10),
            0x42 => Some(Gender::ImprisonedSummoned),
            _ => None,
        }
    }
}

} // verus!
