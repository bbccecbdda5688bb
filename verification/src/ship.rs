//! The record model: the `Ship` entity, its class, armor tier, sort keys,
//! and the total mapping from class to tactical line.

use vstd::prelude::*;

verus! {

/// One of the three tactical lines a unit can belong to. Membership is a
/// total, disjoint function of the unit's class alone: see [`line_of`].
#[derive(Debug, Clone, Copy, PartialEq, Eq, Structural)]
pub enum Line {
    Back,
    Front,
    Sub,
}

/// The closed set of unit types. The three `IX` sub-variants are distinct
/// classes that share the `IX` display label.
#[derive(Debug, Clone, Copy, PartialEq, Eq, Structural)]
pub enum Class {
    AE,
    AM,
    AR,
    BB,
    BBV,
    BC,
    BM,
    CA,
    CB,
    CL,
    CV,
    CVL,
    DD,
    IX,
    IXs,
    IXv,
    IXm,
    SS,
    SSV,
}

/// Armor tier. The ordinal used by "sort by armor" is declaration order:
/// `Heavy` ranks below `Medium`, which ranks below `Light`.
#[derive(Debug, Clone, Copy, PartialEq, Eq, Structural)]
pub enum Armor {
    Heavy,
    Medium,
    Light,
}

/// The attributes a line can be ordered by.
#[derive(Debug, Clone, Copy, PartialEq, Eq, Structural)]
pub enum SortChoice {
    Luck,
    Armor,
    Speed,
    HP,
    Firepower,
    AntiAir,
    Torpedo,
    Evasion,
    Cost,
    Reload,
    AntiSubmarine,
    Oxygen,
    Ammunition,
    Accuracy,
}

/// The four stat-snapshot levels a scrape can target.
#[derive(Debug, Clone, Copy, PartialEq, Eq, Structural)]
pub enum ValidLevel {
    Level1,
    Level100,
    Level120,
    Level125,
}

/// The total mapping from class to line. Every class variant is mapped to
/// exactly one line; this function is the authoritative membership table.
pub open spec fn line_of(c: Class) -> Line {
    match c {
        Class::BB | Class::BBV | Class::BC | Class::BM | Class::CV | Class::CVL | Class::AR
        | Class::AE => Line::Back,
        Class::CL | Class::CA | Class::CB | Class::DD => Line::Front,
        Class::SS | Class::AM | Class::SSV | Class::IX | Class::IXs | Class::IXv
        | Class::IXm => Line::Sub,
    }
}

/// The ordinal that "sort by armor" compares: declaration order of [`Armor`].
pub open spec fn armor_rank_of(a: Armor) -> u32 {
    match a {
        Armor::Heavy => 0,
        Armor::Medium => 1,
        Armor::Light => 2,
    }
}

impl Class {
    /// The line this class belongs to.
    pub fn line(&self) -> (r: Line)
        ensures
            r == line_of(*self),
    {
        match self {
            Class::BB | Class::BBV | Class::BC | Class::BM | Class::CV | Class::CVL | Class::AR
            | Class::AE => Line::Back,
            Class::CL | Class::CA | Class::CB | Class::DD => Line::Front,
            Class::SS | Class::AM | Class::SSV | Class::IX | Class::IXs | Class::IXv
            | Class::IXm => Line::Sub,
        }
    }
}

impl Armor {
    /// The ordinal used as the armor sort key.
    pub fn rank(&self) -> (r: u32)
        ensures
            r == armor_rank_of(*self),
    {
        match self {
            Armor::Heavy => 0,
            Armor::Medium => 1,
            Armor::Light => 2,
        }
    }
}

/// The membership table in full: every class variant, its line. Stated once
/// so a reader can check the partition against the catalog's documentation.
pub proof fn lemma_line_membership_table()
    ensures
        line_of(Class::BB) == Line::Back,
        line_of(Class::BBV) == Line::Back,
        line_of(Class::BC) == Line::Back,
        line_of(Class::BM) == Line::Back,
        line_of(Class::CV) == Line::Back,
        line_of(Class::CVL) == Line::Back,
        line_of(Class::AR) == Line::Back,
        line_of(Class::AE) == Line::Back,
        line_of(Class::CL) == Line::Front,
        line_of(Class::CA) == Line::Front,
        line_of(Class::CB) == Line::Front,
        line_of(Class::DD) == Line::Front,
        line_of(Class::SS) == Line::Sub,
        line_of(Class::AM) == Line::Sub,
        line_of(Class::SSV) == Line::Sub,
        line_of(Class::IX) == Line::Sub,
        line_of(Class::IXs) == Line::Sub,
        line_of(Class::IXv) == Line::Sub,
        line_of(Class::IXm) == Line::Sub,
{
}

/// A unit record. Numeric attributes are non-negative integers; a cell that
/// failed to parse as a number during a scrape holds 0.
#[derive(Debug, PartialEq, Eq)]
pub struct Ship {
    pub id: String,
    pub name: String,
    pub rarity: String,
    pub nation: String,
    pub class: Class,
    pub luck: u32,
    pub armor: Armor,
    pub speed: u32,
    pub hp: u32,
    pub firepower: u32,
    pub antiair: u32,
    pub torpedo: u32,
    pub evasion: u32,
    pub aviation: u32,
    pub cost: u32,
    pub reload: u32,
    pub antisubmarine: u32,
    pub oxygen: u32,
    pub ammunition: u32,
    pub accuracy: u32,
    pub image: String,
}

impl Clone for Ship {
    fn clone(&self) -> (r: Self)
        ensures
            r == *self,
    {
        Ship {
            id: self.id.clone(),
            name: self.name.clone(),
            rarity: self.rarity.clone(),
            nation: self.nation.clone(),
            class: self.class,
            luck: self.luck,
            armor: self.armor,
            speed: self.speed,
            hp: self.hp,
            firepower: self.firepower,
            antiair: self.antiair,
            torpedo: self.torpedo,
            evasion: self.evasion,
            aviation: self.aviation,
            cost: self.cost,
            reload: self.reload,
            antisubmarine: self.antisubmarine,
            oxygen: self.oxygen,
            ammunition: self.ammunition,
            accuracy: self.accuracy,
            image: self.image.clone(),
        }
    }
}

/// The numeric value a sort choice reads from a record; for `Armor` it is
/// the tier's ordinal.
pub open spec fn key_of(s: Ship, c: SortChoice) -> u32 {
    match c {
        SortChoice::Luck => s.luck,
        SortChoice::Armor => armor_rank_of(s.armor),
        SortChoice::Speed => s.speed,
        SortChoice::HP => s.hp,
        SortChoice::Firepower => s.firepower,
        SortChoice::AntiAir => s.antiair,
        SortChoice::Torpedo => s.torpedo,
        SortChoice::Evasion => s.evasion,
        SortChoice::Cost => s.cost,
        SortChoice::Reload => s.reload,
        SortChoice::AntiSubmarine => s.antisubmarine,
        SortChoice::Oxygen => s.oxygen,
        SortChoice::Ammunition => s.ammunition,
        SortChoice::Accuracy => s.accuracy,
    }
}

impl Ship {
    /// The attribute value that `choice` selects.
    pub fn stat(&self, choice: SortChoice) -> (r: u32)
        ensures
            r == key_of(*self, choice),
    {
        match choice {
            SortChoice::Luck => self.luck,
            SortChoice::Armor => self.armor.rank(),
            SortChoice::Speed => self.speed,
            SortChoice::HP => self.hp,
            SortChoice::Firepower => self.firepower,
            SortChoice::AntiAir => self.antiair,
            SortChoice::Torpedo => self.torpedo,
            SortChoice::Evasion => self.evasion,
            SortChoice::Cost => self.cost,
            SortChoice::Reload => self.reload,
            SortChoice::AntiSubmarine => self.antisubmarine,
            SortChoice::Oxygen => self.oxygen,
            SortChoice::Ammunition => self.ammunition,
            SortChoice::Accuracy => self.accuracy,
        }
    }
}

impl Ship {
    /// The display form of a record: its name alone.
    pub fn display_name(&self) -> (r: String)
        ensures
            r@ == self.name@,
    {
        self.name.clone()
    }
}

impl SortChoice {
    /// Every sort choice once, in the order the presentation layer offers them.
    pub fn all() -> (r: [SortChoice; 14])
        ensures
            r@ == seq![
                SortChoice::HP,
                SortChoice::Luck,
                SortChoice::Armor,
                SortChoice::Speed,
                SortChoice::Firepower,
                SortChoice::AntiAir,
                SortChoice::Torpedo,
                SortChoice::Evasion,
                SortChoice::Cost,
                SortChoice::Reload,
                SortChoice::AntiSubmarine,
                SortChoice::Oxygen,
                SortChoice::Ammunition,
                SortChoice::Accuracy,
            ],
    {
        let r = [
            SortChoice::HP,
            SortChoice::Luck,
            SortChoice::Armor,
            SortChoice::Speed,
            SortChoice::Firepower,
            SortChoice::AntiAir,
            SortChoice::Torpedo,
            SortChoice::Evasion,
            SortChoice::Cost,
            SortChoice::Reload,
            SortChoice::AntiSubmarine,
            SortChoice::Oxygen,
            SortChoice::Ammunition,
            SortChoice::Accuracy,
        ];
        proof {
            assert(r@ =~= seq![
                SortChoice::HP,
                SortChoice::Luck,
                SortChoice::Armor,
                SortChoice::Speed,
                SortChoice::Firepower,
                SortChoice::AntiAir,
                SortChoice::Torpedo,
                SortChoice::Evasion,
                SortChoice::Cost,
                SortChoice::Reload,
                SortChoice::AntiSubmarine,
                SortChoice::Oxygen,
                SortChoice::Ammunition,
                SortChoice::Accuracy,
            ]);
        }
        r
    }
}

} // verus!
