//! Static tabletop rules: alignments, classes, races, sizes, skills, ability
//! scores and the arithmetic that goes with them.

use vstd::prelude::*;
use vstd::string::StringExecFns;

verus! {

/// The error of a failed parse of an alignment, class or race name.
#[derive(Clone, Copy, Debug, PartialEq, Eq, Structural)]
pub struct FromStringError;

#[derive(Clone, Copy, Debug, PartialEq, Eq, Structural)]
pub enum AdvantageStatus {
    Advantage,
    Normal,
    Disadvantage,
}

#[derive(Clone, Copy, Debug, PartialEq, Eq, Structural)]
pub enum Alignment {
    ChaoticEvil,
    ChaoticGood,
    ChaoticNeutral,
    LawfulEvil,
    LawfulGood,
    LawfulNeutral,
    Neutral,
    NeutralEvil,
    NeutralGood,
}

#[derive(Clone, Copy, Debug, PartialEq, Eq, Structural)]
pub enum Class {
    Barbarian,
    Bard,
    Cleric,
    Druid,
    Fighter,
    Monk,
    Paladin,
    Ranger,
    Rogue,
    Sorcerer,
    Warlock,
    Wizard,
}

#[derive(Clone, Copy, Debug, PartialEq, Eq, Structural)]
pub enum DamageType {
    Acid,
    Bludgeoning,
    Cold,
    Fire,
    Force,
    Lightning,
    Necrotic,
    Piercing,
    Poison,
    Psychic,
    Radiant,
    Slashing,
    Thunder,
}

#[derive(Clone, Copy, Debug, PartialEq, Eq, Structural)]
pub enum Race {
    Dragonborn,
    Dwarf,
    Elf,
    Gnome,
    HalfElf,
    HalfOrc,
    Halfling,
    Human,
    Tiefling,
}

#[derive(Clone, Copy, Debug, PartialEq, Eq, Structural)]
pub enum Size {
    Tiny,
    Small,
    Medium,
    Large,
    Huge,
    Gargantuan,
}

#[derive(Clone, Copy, Debug, PartialEq, Eq, Structural)]
pub enum Skill {
    Acrobatics,
    AnimalHandling,
    Arcana,
    Athletics,
    Deception,
    History,
    Insight,
    Intimidation,
    Investigation,
    Medicine,
    Nature,
    Perception,
    Performance,
    Persuasion,
    Religion,
    SleightOfHand,
    Stealth,
    Survival,
}

#[derive(Clone, Copy, Debug, PartialEq, Eq, Structural)]
pub enum Stat {
    Charisma,
    Constitution,
    Dexterity,
    Intelligence,
    Strength,
    Wisdom,
}

pub const NUMBER_OF_STATS: usize = 6;

/// The six ability scores of a creature.
#[derive(Clone, Copy, Debug, PartialEq, Eq, Structural)]
pub struct Stats {
    pub charisma: u8,
    pub constitution: u8,
    pub dexterity: u8,
    pub intelligence: u8,
    pub strength: u8,
    pub wisdom: u8,
}

/// Whether two string slices hold the same text.
///
/// Wraps `==` on `str` (`<str as PartialEq>::eq`), which compares the two
/// slices byte for byte; two valid UTF-8 slices have the same bytes exactly
/// when they have the same characters.
#[verifier::external_body]
fn str_eq(a: &str, b: &str) -> (same: bool)
    ensures
        same == (a@ == b@),
{
    a == b
}

impl Alignment {
    /// The display name of an alignment.
    pub open spec fn name(self) -> Seq<char> {
        match self {
            Alignment::ChaoticEvil => "Chaotic Evil"@,
            Alignment::ChaoticGood => "Chaotic Good"@,
            Alignment::ChaoticNeutral => "Chaotic Neutral"@,
            Alignment::LawfulEvil => "Lawful Evil"@,
            Alignment::LawfulGood => "Lawful Good"@,
            Alignment::LawfulNeutral => "Lawful Neutral"@,
            Alignment::Neutral => "Neutral"@,
            Alignment::NeutralEvil => "Neutral Evil"@,
            Alignment::NeutralGood => "Neutral Good"@,
        }
    }

    /// The alignment that a text names, if any. Names are matched exactly.
    pub open spec fn parse(text: Seq<char>) -> Result<Alignment, FromStringError> {
        if text == "Chaotic Evil"@ {
            Ok(Alignment::ChaoticEvil)
        } else if text == "Chaotic Good"@ {
            Ok(Alignment::ChaoticGood)
        } else if text == "Chaotic Neutral"@ {
            Ok(Alignment::ChaoticNeutral)
        } else if text == "Lawful Evil"@ {
            Ok(Alignment::LawfulEvil)
        } else if text == "Lawful Good"@ {
            Ok(Alignment::LawfulGood)
        } else if text == "Lawful Neutral"@ {
            Ok(Alignment::LawfulNeutral)
        } else if text == "Neutral"@ {
            Ok(Alignment::Neutral)
        } else if text == "Neutral Evil"@ {
            Ok(Alignment::NeutralEvil)
        } else if text == "Neutral Good"@ {
            Ok(Alignment::NeutralGood)
        } else {
            Err(FromStringError)
        }
    }

    /// The position of an alignment in declaration order.
    pub open spec fn ordinal(self) -> nat {
        match self {
            Alignment::ChaoticEvil => 0,
            Alignment::ChaoticGood => 1,
            Alignment::ChaoticNeutral => 2,
            Alignment::LawfulEvil => 3,
            Alignment::LawfulGood => 4,
            Alignment::LawfulNeutral => 5,
            Alignment::Neutral => 6,
            Alignment::NeutralEvil => 7,
            Alignment::NeutralGood => 8,
        }
    }

    pub fn to_string(&self) -> (text: String)
        ensures
            text@ == self.name(),
    {
        match self {
            Alignment::ChaoticEvil => String::from_str("Chaotic Evil"),
            Alignment::ChaoticGood => String::from_str("Chaotic Good"),
            Alignment::ChaoticNeutral => String::from_str("Chaotic Neutral"),
            Alignment::LawfulEvil => String::from_str("Lawful Evil"),
            Alignment::LawfulGood => String::from_str("Lawful Good"),
            Alignment::LawfulNeutral => String::from_str("Lawful Neutral"),
            Alignment::Neutral => String::from_str("Neutral"),
            Alignment::NeutralEvil => String::from_str("Neutral Evil"),
            Alignment::NeutralGood => String::from_str("Neutral Good"),
        }
    }

    pub fn from_str(s: &str) -> (parsed: Result<Alignment, FromStringError>)
        ensures
            parsed == Alignment::parse(s@),
    {
        if str_eq(s, "Chaotic Evil") {
            Ok(Alignment::ChaoticEvil)
        } else if str_eq(s, "Chaotic Good") {
            Ok(Alignment::ChaoticGood)
        } else if str_eq(s, "Chaotic Neutral") {
            Ok(Alignment::ChaoticNeutral)
        } else if str_eq(s, "Lawful Evil") {
            Ok(Alignment::LawfulEvil)
        } else if str_eq(s, "Lawful Good") {
            Ok(Alignment::LawfulGood)
        } else if str_eq(s, "Lawful Neutral") {
            Ok(Alignment::LawfulNeutral)
        } else if str_eq(s, "Neutral") {
            Ok(Alignment::Neutral)
        } else if str_eq(s, "Neutral Evil") {
            Ok(Alignment::NeutralEvil)
        } else if str_eq(s, "Neutral Good") {
            Ok(Alignment::NeutralGood)
        } else {
            Err(FromStringError)
        }
    }

    /// Every alignment once, in declaration order.
    pub fn all() -> (list: Vec<Alignment>)
        ensures
            list@.len() == 9,
            forall|each: Alignment| list@[#[trigger] each.ordinal() as int] == each,
    {
        vec![
            Alignment::ChaoticEvil,
            Alignment::ChaoticGood,
            Alignment::ChaoticNeutral,
            Alignment::LawfulEvil,
            Alignment::LawfulGood,
            Alignment::LawfulNeutral,
            Alignment::Neutral,
            Alignment::NeutralEvil,
            Alignment::NeutralGood,
        ]
    }

    /// The display name of every alignment, in declaration order.
    pub fn names() -> (names: Vec<String>)
        ensures
            names@.len() == 9,
            forall|each: Alignment| (#[trigger] names@[each.ordinal() as int])@ == each.name(),
    {
        let list = Alignment::all();
        let mut names: Vec<String> = Vec::new();
        let mut i: usize = 0;
        while i < list.len()
            invariant
                i <= list@.len(),
                list@.len() == 9,
                names@.len() == i,
                forall|j: int| 0 <= j < i ==> (#[trigger] names@[j])@ == list@[j].name(),
            decreases list@.len() - i,
        {
            names.push(list[i].to_string());
            i = i + 1;
        }
        proof {
            assert forall|each: Alignment| (#[trigger] names@[each.ordinal() as int])@
                == each.name() by {
                assert(list@[each.ordinal() as int] == each);
            }
        }
        names
    }

    /// Parsing the display name of an alignment gives that alignment back.
    pub proof fn lemma_parse_name(self)
        ensures
            Alignment::parse(self.name()) == Ok::<Alignment, FromStringError>(self),
    {
        reveal_strlit("Chaotic Evil");
        reveal_strlit("Chaotic Good");
        reveal_strlit("Chaotic Neutral");
        reveal_strlit("Lawful Evil");
        reveal_strlit("Lawful Good");
        reveal_strlit("Lawful Neutral");
        reveal_strlit("Neutral");
        reveal_strlit("Neutral Evil");
        reveal_strlit("Neutral Good");
        let n = self.name();
        match self {
            Alignment::ChaoticEvil => {},
            Alignment::ChaoticGood => {
                assert(n[8] != 'E');
            },
            Alignment::ChaoticNeutral => {
                assert(n[8] != 'E' && n[8] != 'G');
            },
            Alignment::LawfulEvil => {
                assert(n[0] != 'C');
            },
            Alignment::LawfulGood => {
                assert(n[0] != 'C' && n[7] != 'E');
            },
            Alignment::LawfulNeutral => {
                assert(n[0] != 'C' && n[7] != 'E' && n[7] != 'G');
            },
            Alignment::Neutral => {
                assert(n[0] != 'C' && n[0] != 'L');
            },
            Alignment::NeutralEvil => {
                assert(n[0] != 'C' && n[0] != 'L' && n.len() != 7);
            },
            Alignment::NeutralGood => {
                assert(n[0] != 'C' && n[0] != 'L' && n.len() != 7 && n[8] != 'E');
            },
        }
    }
}

impl Class {
    /// The display name of a class.
    pub open spec fn name(self) -> Seq<char> {
        match self {
            Class::Barbarian => "Barbarian"@,
            Class::Bard => "Bard"@,
            Class::Cleric => "Cleric"@,
            Class::Druid => "Druid"@,
            Class::Fighter => "Fighter"@,
            Class::Monk => "Monk"@,
            Class::Paladin => "Paladin"@,
            Class::Ranger => "Ranger"@,
            Class::Rogue => "Rogue"@,
            Class::Sorcerer => "Sorcerer"@,
            Class::Warlock => "Warlock"@,
            Class::Wizard => "Wizard"@,
        }
    }

    /// The class that a text names, if any. Names are matched exactly.
    pub open spec fn parse(text: Seq<char>) -> Result<Class, FromStringError> {
        if text == "Barbarian"@ {
            Ok(Class::Barbarian)
        } else if text == "Bard"@ {
            Ok(Class::Bard)
        } else if text == "Cleric"@ {
            Ok(Class::Cleric)
        } else if text == "Druid"@ {
            Ok(Class::Druid)
        } else if text == "Fighter"@ {
            Ok(Class::Fighter)
        } else if text == "Monk"@ {
            Ok(Class::Monk)
        } else if text == "Paladin"@ {
            Ok(Class::Paladin)
        } else if text == "Ranger"@ {
            Ok(Class::Ranger)
        } else if text == "Rogue"@ {
            Ok(Class::Rogue)
        } else if text == "Sorcerer"@ {
            Ok(Class::Sorcerer)
        } else if text == "Warlock"@ {
            Ok(Class::Warlock)
        } else if text == "Wizard"@ {
            Ok(Class::Wizard)
        } else {
            Err(FromStringError)
        }
    }

    /// The position of a class in declaration order.
    pub open spec fn ordinal(self) -> nat {
        match self {
            Class::Barbarian => 0,
            Class::Bard => 1,
            Class::Cleric => 2,
            Class::Druid => 3,
            Class::Fighter => 4,
            Class::Monk => 5,
            Class::Paladin => 6,
            Class::Ranger => 7,
            Class::Rogue => 8,
            Class::Sorcerer => 9,
            Class::Warlock => 10,
            Class::Wizard => 11,
        }
    }

    pub fn to_string(&self) -> (text: String)
        ensures
            text@ == self.name(),
    {
        match self {
            Class::Barbarian => String::from_str("Barbarian"),
            Class::Bard => String::from_str("Bard"),
            Class::Cleric => String::from_str("Cleric"),
            Class::Druid => String::from_str("Druid"),
            Class::Fighter => String::from_str("Fighter"),
            Class::Monk => String::from_str("Monk"),
            Class::Paladin => String::from_str("Paladin"),
            Class::Ranger => String::from_str("Ranger"),
            Class::Rogue => String::from_str("Rogue"),
            Class::Sorcerer => String::from_str("Sorcerer"),
            Class::Warlock => String::from_str("Warlock"),
            Class::Wizard => String::from_str("Wizard"),
        }
    }

    pub fn from_str(s: &str) -> (parsed: Result<Class, FromStringError>)
        ensures
            parsed == Class::parse(s@),
    {
        if str_eq(s, "Barbarian") {
            Ok(Class::Barbarian)
        } else if str_eq(s, "Bard") {
            Ok(Class::Bard)
        } else if str_eq(s, "Cleric") {
            Ok(Class::Cleric)
        } else if str_eq(s, "Druid") {
            Ok(Class::Druid)
        } else if str_eq(s, "Fighter") {
            Ok(Class::Fighter)
        } else if str_eq(s, "Monk") {
            Ok(Class::Monk)
        } else if str_eq(s, "Paladin") {
            Ok(Class::Paladin)
        } else if str_eq(s, "Ranger") {
            Ok(Class::Ranger)
        } else if str_eq(s, "Rogue") {
            Ok(Class::Rogue)
        } else if str_eq(s, "Sorcerer") {
            Ok(Class::Sorcerer)
        } else if str_eq(s, "Warlock") {
            Ok(Class::Warlock)
        } else if str_eq(s, "Wizard") {
            Ok(Class::Wizard)
        } else {
            Err(FromStringError)
        }
    }

    /// Every class once, in declaration order.
    pub fn all() -> (list: Vec<Class>)
        ensures
            list@.len() == 12,
            forall|each: Class| list@[#[trigger] each.ordinal() as int] == each,
    {
        vec![
            Class::Barbarian,
            Class::Bard,
            Class::Cleric,
            Class::Druid,
            Class::Fighter,
            Class::Monk,
            Class::Paladin,
            Class::Ranger,
            Class::Rogue,
            Class::Sorcerer,
            Class::Warlock,
            Class::Wizard,
        ]
    }

    /// The display name of every class, in declaration order.
    pub fn names() -> (names: Vec<String>)
        ensures
            names@.len() == 12,
            forall|each: Class| (#[trigger] names@[each.ordinal() as int])@ == each.name(),
    {
        let list = Class::all();
        let mut names: Vec<String> = Vec::new();
        let mut i: usize = 0;
        while i < list.len()
            invariant
                i <= list@.len(),
                list@.len() == 12,
                names@.len() == i,
                forall|j: int| 0 <= j < i ==> (#[trigger] names@[j])@ == list@[j].name(),
            decreases list@.len() - i,
        {
            names.push(list[i].to_string());
            i = i + 1;
        }
        proof {
            assert forall|each: Class| (#[trigger] names@[each.ordinal() as int])@
                == each.name() by {
                assert(list@[each.ordinal() as int] == each);
            }
        }
        names
    }

    /// Parsing the display name of a class gives that class back.
    pub proof fn lemma_parse_name(self)
        ensures
            Class::parse(self.name()) == Ok::<Class, FromStringError>(self),
    {
        reveal_strlit("Barbarian");
        reveal_strlit("Bard");
        reveal_strlit("Cleric");
        reveal_strlit("Druid");
        reveal_strlit("Fighter");
        reveal_strlit("Monk");
        reveal_strlit("Paladin");
        reveal_strlit("Ranger");
        reveal_strlit("Rogue");
        reveal_strlit("Sorcerer");
        reveal_strlit("Warlock");
        reveal_strlit("Wizard");
        let n = self.name();
        match self {
            Class::Barbarian => {},
            Class::Bard => {
                assert(n.len() != 9);
            },
            Class::Cleric => {
                assert(n.len() != 9 && n.len() != 4);
            },
            Class::Druid => {
                assert(n.len() != 9 && n.len() != 4 && n.len() != 6);
            },
            Class::Fighter => {
                assert(n.len() != 9 && n.len() != 4 && n.len() != 6 && n.len() != 5);
            },
            Class::Monk => {
                assert(n.len() != 9 && n[0] != 'B' && n.len() != 6 && n.len() != 5 && n.len() != 7);
            },
            Class::Paladin => {
                assert(n.len() != 9 && n.len() != 4 && n.len() != 6 && n.len() != 5 && n[0] != 'F');
            },
            Class::Ranger => {
                assert(n.len() != 9 && n.len() != 4 && n[0] != 'C' && n.len() != 5 && n.len() != 7);
            },
            Class::Rogue => {
                assert(n.len() != 9 && n.len() != 4 && n.len() != 6 && n[0] != 'D' && n.len() != 7);
            },
            Class::Sorcerer => {
                assert(n.len() != 9 && n.len() != 4 && n.len() != 6 && n.len() != 5 && n.len()
                    != 7);
            },
            Class::Warlock => {
                assert(n.len() != 9 && n.len() != 4 && n.len() != 6 && n.len() != 5 && n[0]
                    != 'F' && n[0] != 'P' && n.len() != 8);
            },
            Class::Wizard => {
                assert(n.len() != 9 && n.len() != 4 && n[0] != 'C' && n.len() != 5 && n.len()
                    != 7 && n[0] != 'R' && n.len() != 8);
            },
        }
    }
}

impl Race {
    /// The display name of a race.
    pub open spec fn name(self) -> Seq<char> {
        match self {
            Race::Dragonborn => "Dragonborn"@,
            Race::Dwarf => "Dwarf"@,
            Race::Elf => "Elf"@,
            Race::Gnome => "Gnome"@,
            Race::HalfElf => "Half Elf"@,
            Race::HalfOrc => "Half Orc"@,
            Race::Halfling => "Halfling"@,
            Race::Human => "Human"@,
            Race::Tiefling => "Tiefling"@,
        }
    }

    /// The race that a text names, if any. Names are matched exactly.
    pub open spec fn parse(text: Seq<char>) -> Result<Race, FromStringError> {
        if text == "Dragonborn"@ {
            Ok(Race::Dragonborn)
        } else if text == "Dwarf"@ {
            Ok(Race::Dwarf)
        } else if text == "Elf"@ {
            Ok(Race::Elf)
        } else if text == "Gnome"@ {
            Ok(Race::Gnome)
        } else if text == "Half Elf"@ {
            Ok(Race::HalfElf)
        } else if text == "Half Orc"@ {
            Ok(Race::HalfOrc)
        } else if text == "Halfling"@ {
            Ok(Race::Halfling)
        } else if text == "Human"@ {
            Ok(Race::Human)
        } else if text == "Tiefling"@ {
            Ok(Race::Tiefling)
        } else {
            Err(FromStringError)
        }
    }

    /// The position of a race in declaration order.
    pub open spec fn ordinal(self) -> nat {
        match self {
            Race::Dragonborn => 0,
            Race::Dwarf => 1,
            Race::Elf => 2,
            Race::Gnome => 3,
            Race::HalfElf => 4,
            Race::HalfOrc => 5,
            Race::Halfling => 6,
            Race::Human => 7,
            Race::Tiefling => 8,
        }
    }

    pub fn to_string(&self) -> (text: String)
        ensures
            text@ == self.name(),
    {
        match self {
            Race::Dragonborn => String::from_str("Dragonborn"),
            Race::Dwarf => String::from_str("Dwarf"),
            Race::Elf => String::from_str("Elf"),
            Race::Gnome => String::from_str("Gnome"),
            Race::HalfElf => String::from_str("Half Elf"),
            Race::HalfOrc => String::from_str("Half Orc"),
            Race::Halfling => String::from_str("Halfling"),
            Race::Human => String::from_str("Human"),
            Race::Tiefling => String::from_str("Tiefling"),
        }
    }

    pub fn from_str(s: &str) -> (parsed: Result<Race, FromStringError>)
        ensures
            parsed == Race::parse(s@),
    {
        if str_eq(s, "Dragonborn") {
            Ok(Race::Dragonborn)
        } else if str_eq(s, "Dwarf") {
            Ok(Race::Dwarf)
        } else if str_eq(s, "Elf") {
            Ok(Race::Elf)
        } else if str_eq(s, "Gnome") {
            Ok(Race::Gnome)
        } else if str_eq(s, "Half Elf") {
            Ok(Race::HalfElf)
        } else if str_eq(s, "Half Orc") {
            Ok(Race::HalfOrc)
        } else if str_eq(s, "Halfling") {
            Ok(Race::Halfling)
        } else if str_eq(s, "Human") {
            Ok(Race::Human)
        } else if str_eq(s, "Tiefling") {
            Ok(Race::Tiefling)
        } else {
            Err(FromStringError)
        }
    }

    /// Every race once, in declaration order.
    pub fn all() -> (list: Vec<Race>)
        ensures
            list@.len() == 9,
            forall|each: Race| list@[#[trigger] each.ordinal() as int] == each,
    {
        vec![
            Race::Dragonborn,
            Race::Dwarf,
            Race::Elf,
            Race::Gnome,
            Race::HalfElf,
            Race::HalfOrc,
            Race::Halfling,
            Race::Human,
            Race::Tiefling,
        ]
    }

    /// The display name of every race, in declaration order.
    pub fn names() -> (names: Vec<String>)
        ensures
            names@.len() == 9,
            forall|each: Race| (#[trigger] names@[each.ordinal() as int])@ == each.name(),
    {
        let list = Race::all();
        let mut names: Vec<String> = Vec::new();
        let mut i: usize = 0;
        while i < list.len()
            invariant
                i <= list@.len(),
                list@.len() == 9,
                names@.len() == i,
                forall|j: int| 0 <= j < i ==> (#[trigger] names@[j])@ == list@[j].name(),
            decreases list@.len() - i,
        {
            names.push(list[i].to_string());
            i = i + 1;
        }
        proof {
            assert forall|each: Race| (#[trigger] names@[each.ordinal() as int])@
                == each.name() by {
                assert(list@[each.ordinal() as int] == each);
            }
        }
        names
    }

    /// Parsing the display name of a race gives that race back.
    pub proof fn lemma_parse_name(self)
        ensures
            Race::parse(self.name()) == Ok::<Race, FromStringError>(self),
    {
        reveal_strlit("Dragonborn");
        reveal_strlit("Dwarf");
        reveal_strlit("Elf");
        reveal_strlit("Gnome");
        reveal_strlit("Half Elf");
        reveal_strlit("Half Orc");
        reveal_strlit("Halfling");
        reveal_strlit("Human");
        reveal_strlit("Tiefling");
        let n = self.name();
        match self {
            Race::Dragonborn => {},
            Race::Dwarf => {
                assert(n.len() != 10);
            },
            Race::Elf => {
                assert(n.len() != 10 && n.len() != 5);
            },
            Race::Gnome => {
                assert(n.len() != 10 && n[0] != 'D' && n.len() != 3);
            },
            Race::HalfElf => {
                assert(n.len() != 10 && n.len() != 5 && n.len() != 3);
            },
            Race::HalfOrc => {
                assert(n.len() != 10 && n.len() != 5 && n.len() != 3 && n[5] != 'E');
            },
            Race::Halfling => {
                assert(n.len() != 10 && n.len() != 5 && n.len() != 3 && n[4] != ' ');
            },
            Race::Human => {
                assert(n.len() != 10 && n[0] != 'D' && n.len() != 3 && n[0] != 'G' && n.len() != 8);
            },
            Race::Tiefling => {
                assert(n.len() != 10 && n.len() != 5 && n.len() != 3 && n[0] != 'H');
            },
        }
    }
}

/// The weight in pounds that a creature can carry: fifteen times its
/// strength, halved for a tiny creature and doubled for each size above
/// medium.
pub open spec fn spec_carrying_capacity(strength: u8, size: Size) -> int {
    let total = strength * 15;
    match size {
        Size::Tiny => total / 2,
        Size::Small => total,
        Size::Medium => total,
        Size::Large => total * 2,
        Size::Huge => total * 4,
        Size::Gargantuan => total * 8,
    }
}

pub fn carrying_capacity(strength: u8, size: Size) -> (pounds: u16)
    ensures
        pounds == spec_carrying_capacity(strength, size),
{
    let total: u16 = strength as u16 * 15;
    match size {
        Size::Tiny => total / 2,
        Size::Small => total,
        Size::Medium => total,
        Size::Large => total * 2,
        Size::Huge => total * 4,
        Size::Gargantuan => total * 8,
    }
}

/// The modifier of an ability score: half the score, rounded down, less five.
/// A score above 127 is read as the signed byte with the same bits, and its
/// half is rounded towards zero.
pub open spec fn spec_modifier(ability: u8) -> int {
    if ability < 128 {
        ability / 2 - 5
    } else {
        -((256 - ability) / 2) - 5
    }
}

pub fn modifier(ability: u8) -> (bonus: i8)
    ensures
        bonus == spec_modifier(ability),
{
    if ability < 128 {
        let half: u8 = ability / 2;
        half as i8 - 5
    } else {
        let magnitude: u8 = (255 - ability) + 1;
        let half: u8 = magnitude / 2;
        -(half as i8) - 5
    }
}

/// The weight in pounds that a creature can push, drag or lift: twice what it
/// can carry, computed before any halving.
pub open spec fn spec_move_capacity(strength: u8, size: Size) -> int {
    let total = strength * 15;
    match size {
        Size::Tiny => total,
        Size::Small => total * 2,
        Size::Medium => total * 2,
        Size::Large => total * 4,
        Size::Huge => total * 8,
        Size::Gargantuan => total * 16,
    }
}

pub fn move_capacity(strength: u8, size: Size) -> (pounds: u16)
    ensures
        pounds == spec_move_capacity(strength, size),
{
    let total: u16 = strength as u16 * 15;
    match size {
        Size::Tiny => total,
        Size::Small => total * 2,
        Size::Medium => total * 2,
        Size::Large => total * 4,
        Size::Huge => total * 8,
        Size::Gargantuan => total * 16,
    }
}

/// What advantage adds to a passive score.
pub open spec fn advantage_bonus(advantage: AdvantageStatus) -> int {
    match advantage {
        AdvantageStatus::Advantage => 5,
        AdvantageStatus::Normal => 0,
        AdvantageStatus::Disadvantage => -5,
    }
}

/// A passive score: ten, plus the modifiers, plus the bonus of advantage.
/// The sum is built from left to right in a signed byte, so ten plus the
/// modifiers has to fit as well as the result.
pub fn passive_score(modifiers: i8, advantage: AdvantageStatus) -> (score: i8)
    requires
        10 + modifiers <= i8::MAX,
        10 + modifiers + advantage_bonus(advantage) <= i8::MAX,
    ensures
        score == 10 + modifiers + advantage_bonus(advantage),
{
    let advantage_mod: i8 = match advantage {
        AdvantageStatus::Advantage => 5,
        AdvantageStatus::Normal => 0,
        AdvantageStatus::Disadvantage => -5,
    };
    10 + modifiers + advantage_mod
}

pub const POINT_BUY_MAX: u8 = 15;

pub const POINT_BUY_MIN: u8 = 8;

pub const POINT_BUY_POINTS: u8 = 27;

/// The points that raising a score to `stat` costs, and that lowering it from
/// `stat` gives back.
pub open spec fn spec_point_buy_cost(stat: int) -> int {
    if stat >= 14 {
        2
    } else {
        1
    }
}

pub fn point_buy_cost(stat: u8) -> (cost: u8)
    ensures
        cost == spec_point_buy_cost(stat as int),
{
    if stat >= 14 {
        2
    } else {
        1
    }
}

/// Whether a score can be lowered by one: it is above the minimum.
pub open spec fn can_decrease(stat: u8) -> bool {
    stat > POINT_BUY_MIN
}

/// Whether a score can be raised by one: it is below the maximum and the
/// points left pay for the next value.
pub open spec fn can_increase(stat: u8, points_left: u8) -> bool {
    stat < POINT_BUY_MAX && spec_point_buy_cost(stat + 1) <= points_left
}

/// The score after an attempt to lower it.
pub open spec fn decreased_stat(stat: u8) -> int {
    if can_decrease(stat) {
        stat - 1
    } else {
        stat as int
    }
}

/// The points left after an attempt to lower a score.
pub open spec fn points_after_decrease(stat: u8, points_left: u8) -> int {
    if can_decrease(stat) {
        points_left + spec_point_buy_cost(stat as int)
    } else {
        points_left as int
    }
}

/// The score after an attempt to raise it.
pub open spec fn increased_stat(stat: u8, points_left: u8) -> int {
    if can_increase(stat, points_left) {
        stat + 1
    } else {
        stat as int
    }
}

/// The points left after an attempt to raise a score.
pub open spec fn points_after_increase(stat: u8, points_left: u8) -> int {
    if can_increase(stat, points_left) {
        points_left - spec_point_buy_cost(stat + 1)
    } else {
        points_left as int
    }
}

/// Lowers a score by one and gives its cost back, unless the score is at the
/// minimum already. The refund has to fit in the byte that counts the points.
pub fn point_buy_attempt_decrease(stat: &mut u8, points_left: &mut u8)
    requires
        points_after_decrease(*old(stat), *old(points_left)) <= u8::MAX,
    ensures
        *final(stat) == decreased_stat(*old(stat)),
        *final(points_left) == points_after_decrease(*old(stat), *old(points_left)),
{
    if *stat <= POINT_BUY_MIN {
        return ;
    }
    let cost = point_buy_cost(*stat);
    *points_left = *points_left + cost;
    *stat = *stat - 1;
}

/// Raises a score by one and pays its cost, unless the score is at the
/// maximum or the points left do not pay for it.
pub fn point_buy_attempt_increase(stat: &mut u8, points_left: &mut u8)
    ensures
        *final(stat) == increased_stat(*old(stat), *old(points_left)),
        *final(points_left) == points_after_increase(*old(stat), *old(points_left)),
{
    if *stat >= POINT_BUY_MAX {
        return ;
    }
    let cost = point_buy_cost(*stat + 1);
    if cost > *points_left {
        return ;
    }
    *points_left = *points_left - cost;
    *stat = *stat + 1;
}

/// The ability that a skill is checked against.
pub open spec fn spec_skill_stat(skill: Skill) -> Stat {
    match skill {
        Skill::Acrobatics => Stat::Dexterity,
        Skill::AnimalHandling => Stat::Wisdom,
        Skill::Arcana => Stat::Intelligence,
        Skill::Athletics => Stat::Strength,
        Skill::Deception => Stat::Charisma,
        Skill::History => Stat::Intelligence,
        Skill::Insight => Stat::Wisdom,
        Skill::Intimidation => Stat::Charisma,
        Skill::Investigation => Stat::Intelligence,
        Skill::Medicine => Stat::Wisdom,
        Skill::Nature => Stat::Intelligence,
        Skill::Perception => Stat::Wisdom,
        Skill::Performance => Stat::Charisma,
        Skill::Persuasion => Stat::Charisma,
        Skill::Religion => Stat::Intelligence,
        Skill::SleightOfHand => Stat::Dexterity,
        Skill::Stealth => Stat::Dexterity,
        Skill::Survival => Stat::Wisdom,
    }
}

pub fn skill_stat(skill: Skill) -> (stat: Stat)
    ensures
        stat == spec_skill_stat(skill),
{
    match skill {
        Skill::Acrobatics => Stat::Dexterity,
        Skill::AnimalHandling => Stat::Wisdom,
        Skill::Arcana => Stat::Intelligence,
        Skill::Athletics => Stat::Strength,
        Skill::Deception => Stat::Charisma,
        Skill::History => Stat::Intelligence,
        Skill::Insight => Stat::Wisdom,
        Skill::Intimidation => Stat::Charisma,
        Skill::Investigation => Stat::Intelligence,
        Skill::Medicine => Stat::Wisdom,
        Skill::Nature => Stat::Intelligence,
        Skill::Perception => Stat::Wisdom,
        Skill::Performance => Stat::Charisma,
        Skill::Persuasion => Stat::Charisma,
        Skill::Religion => Stat::Intelligence,
        Skill::SleightOfHand => Stat::Dexterity,
        Skill::Stealth => Stat::Dexterity,
        Skill::Survival => Stat::Wisdom,
    }
}

} // verus!
