//! Text labels of the closed enums: parsing a scraped or persisted label
//! into a variant, and rendering a variant for the presentation layer.

use vstd::prelude::*;

use crate::ship::{Armor, Class, SortChoice, ValidLevel};
use crate::text::str_eq;

verus! {

/// The class a label denotes, if any. Labels are the variant names; the
/// three `IX` sub-variants have their own labels.
pub open spec fn class_of_label(s: Seq<char>) -> Option<Class> {
    if s == "AE"@ {
        Some(Class::AE)
    } else if s == "AM"@ {
        Some(Class::AM)
    } else if s == "AR"@ {
        Some(Class::AR)
    } else if s == "BB"@ {
        Some(Class::BB)
    } else if s == "BBV"@ {
        Some(Class::BBV)
    } else if s == "BC"@ {
        Some(Class::BC)
    } else if s == "BM"@ {
        Some(Class::BM)
    } else if s == "CA"@ {
        Some(Class::CA)
    } else if s == "CB"@ {
        Some(Class::CB)
    } else if s == "CL"@ {
        Some(Class::CL)
    } else if s == "CV"@ {
        Some(Class::CV)
    } else if s == "CVL"@ {
        Some(Class::CVL)
    } else if s == "DD"@ {
        Some(Class::DD)
    } else if s == "IX"@ {
        Some(Class::IX)
    } else if s == "IXs"@ {
        Some(Class::IXs)
    } else if s == "IXv"@ {
        Some(Class::IXv)
    } else if s == "IXm"@ {
        Some(Class::IXm)
    } else if s == "SS"@ {
        Some(Class::SS)
    } else if s == "SSV"@ {
        Some(Class::SSV)
    } else {
        None
    }
}

/// The armor tier a label denotes, if any.
pub open spec fn armor_of_label(s: Seq<char>) -> Option<Armor> {
    if s == "Heavy"@ {
        Some(Armor::Heavy)
    } else if s == "Medium"@ {
        Some(Armor::Medium)
    } else if s == "Light"@ {
        Some(Armor::Light)
    } else {
        None
    }
}

/// The display label of a class. The `IX` sub-variants all render as `IX`,
/// and `BC` renders as `BBC`, as the presentation layer shows them.
pub open spec fn class_label_of(c: Class) -> Seq<char> {
    match c {
        Class::AE => "AE"@,
        Class::AM => "AM"@,
        Class::AR => "AR"@,
        Class::BB => "BB"@,
        Class::BBV => "BBV"@,
        Class::BC => "BBC"@,
        Class::BM => "BM"@,
        Class::CA => "CA"@,
        Class::CB => "CB"@,
        Class::CL => "CL"@,
        Class::CV => "CV"@,
        Class::CVL => "CVL"@,
        Class::DD => "DD"@,
        Class::IX => "IX"@,
        Class::IXs => "IX"@,
        Class::IXv => "IX"@,
        Class::IXm => "IX"@,
        Class::SS => "SS"@,
        Class::SSV => "SSV"@,
    }
}

/// The label of a sort choice, as the presentation layer names it.
pub open spec fn sort_label_of(c: SortChoice) -> Seq<char> {
    match c {
        SortChoice::HP => "HP"@,
        SortChoice::Luck => "Luck"@,
        SortChoice::Armor => "Armor"@,
        SortChoice::Speed => "Speed"@,
        SortChoice::Firepower => "Firepower"@,
        SortChoice::AntiAir => "AntiAir"@,
        SortChoice::Torpedo => "Torpedo"@,
        SortChoice::Evasion => "Evasion"@,
        SortChoice::Cost => "Cost"@,
        SortChoice::Reload => "Reload"@,
        SortChoice::AntiSubmarine => "AntiSubmarine"@,
        SortChoice::Oxygen => "Oxygen"@,
        SortChoice::Ammunition => "Ammunition"@,
        SortChoice::Accuracy => "Accuracy"@,
    }
}

/// The sort choice a label denotes, if any.
pub open spec fn sort_of_label(s: Seq<char>) -> Option<SortChoice> {
    if s == "HP"@ {
        Some(SortChoice::HP)
    } else if s == "Luck"@ {
        Some(SortChoice::Luck)
    } else if s == "Armor"@ {
        Some(SortChoice::Armor)
    } else if s == "Speed"@ {
        Some(SortChoice::Speed)
    } else if s == "Firepower"@ {
        Some(SortChoice::Firepower)
    } else if s == "AntiAir"@ {
        Some(SortChoice::AntiAir)
    } else if s == "Torpedo"@ {
        Some(SortChoice::Torpedo)
    } else if s == "Evasion"@ {
        Some(SortChoice::Evasion)
    } else if s == "Cost"@ {
        Some(SortChoice::Cost)
    } else if s == "Reload"@ {
        Some(SortChoice::Reload)
    } else if s == "AntiSubmarine"@ {
        Some(SortChoice::AntiSubmarine)
    } else if s == "Oxygen"@ {
        Some(SortChoice::Oxygen)
    } else if s == "Ammunition"@ {
        Some(SortChoice::Ammunition)
    } else if s == "Accuracy"@ {
        Some(SortChoice::Accuracy)
    } else {
        None
    }
}

/// The label of an armor tier, as the persisted format writes it.
pub open spec fn armor_label_of(a: Armor) -> Seq<char> {
    match a {
        Armor::Heavy => "Heavy"@,
        Armor::Medium => "Medium"@,
        Armor::Light => "Light"@,
    }
}

/// The level a label denotes, if any.
pub open spec fn level_of_label(s: Seq<char>) -> Option<ValidLevel> {
    if s == "Level1"@ {
        Some(ValidLevel::Level1)
    } else if s == "Level100"@ {
        Some(ValidLevel::Level100)
    } else if s == "Level120"@ {
        Some(ValidLevel::Level120)
    } else if s == "Level125"@ {
        Some(ValidLevel::Level125)
    } else {
        None
    }
}

/// The numeric selector of a level.
pub open spec fn level_number_of(l: ValidLevel) -> i32 {
    match l {
        ValidLevel::Level1 => 1,
        ValidLevel::Level100 => 100,
        ValidLevel::Level120 => 120,
        ValidLevel::Level125 => 125,
    }
}

impl Class {
    /// Parses a class label, as the scraped table and the persisted format
    /// write it. Returns `None` on an unrecognized label.
    pub fn from_label(s: &str) -> (r: Option<Class>)
        ensures
            r == class_of_label(s@),
    {
        if str_eq(s, "AE") {
            Some(Class::AE)
        } else if str_eq(s, "AM") {
            Some(Class::AM)
        } else if str_eq(s, "AR") {
            Some(Class::AR)
        } else if str_eq(s, "BB") {
            Some(Class::BB)
        } else if str_eq(s, "BBV") {
            Some(Class::BBV)
        } else if str_eq(s, "BC") {
            Some(Class::BC)
        } else if str_eq(s, "BM") {
            Some(Class::BM)
        } else if str_eq(s, "CA") {
            Some(Class::CA)
        } else if str_eq(s, "CB") {
            Some(Class::CB)
        } else if str_eq(s, "CL") {
            Some(Class::CL)
        } else if str_eq(s, "CV") {
            Some(Class::CV)
        } else if str_eq(s, "CVL") {
            Some(Class::CVL)
        } else if str_eq(s, "DD") {
            Some(Class::DD)
        } else if str_eq(s, "IX") {
            Some(Class::IX)
        } else if str_eq(s, "IXs") {
            Some(Class::IXs)
        } else if str_eq(s, "IXv") {
            Some(Class::IXv)
        } else if str_eq(s, "IXm") {
            Some(Class::IXm)
        } else if str_eq(s, "SS") {
            Some(Class::SS)
        } else if str_eq(s, "SSV") {
            Some(Class::SSV)
        } else {
            None
        }
    }

    /// The display label of this class.
    pub fn label(&self) -> (r: String)
        ensures
            r@ == class_label_of(*self),
    {
        match self {
            Class::AE => "AE".to_owned(),
            Class::AM => "AM".to_owned(),
            Class::AR => "AR".to_owned(),
            Class::BB => "BB".to_owned(),
            Class::BBV => "BBV".to_owned(),
            Class::BC => "BBC".to_owned(),
            Class::BM => "BM".to_owned(),
            Class::CA => "CA".to_owned(),
            Class::CB => "CB".to_owned(),
            Class::CL => "CL".to_owned(),
            Class::CV => "CV".to_owned(),
            Class::CVL => "CVL".to_owned(),
            Class::DD => "DD".to_owned(),
            Class::IX => "IX".to_owned(),
            Class::IXs => "IX".to_owned(),
            Class::IXv => "IX".to_owned(),
            Class::IXm => "IX".to_owned(),
            Class::SS => "SS".to_owned(),
            Class::SSV => "SSV".to_owned(),
        }
    }
}

impl Armor {
    /// Parses an armor label. Returns `None` on an unrecognized label.
    pub fn from_label(s: &str) -> (r: Option<Armor>)
        ensures
            r == armor_of_label(s@),
    {
        if str_eq(s, "Heavy") {
            Some(Armor::Heavy)
        } else if str_eq(s, "Medium") {
            Some(Armor::Medium)
        } else if str_eq(s, "Light") {
            Some(Armor::Light)
        } else {
            None
        }
    }

    /// The label of this armor tier, as the persisted format writes it.
    pub fn label(&self) -> (r: String)
        ensures
            r@ == armor_label_of(*self),
    {
        match self {
            Armor::Heavy => "Heavy".to_owned(),
            Armor::Medium => "Medium".to_owned(),
            Armor::Light => "Light".to_owned(),
        }
    }
}

impl SortChoice {
    /// Parses a sort-choice label. Returns `None` on an unrecognized label.
    pub fn from_label(s: &str) -> (r: Option<SortChoice>)
        ensures
            r == sort_of_label(s@),
    {
        if str_eq(s, "HP") {
            Some(SortChoice::HP)
        } else if str_eq(s, "Luck") {
            Some(SortChoice::Luck)
        } else if str_eq(s, "Armor") {
            Some(SortChoice::Armor)
        } else if str_eq(s, "Speed") {
            Some(SortChoice::Speed)
        } else if str_eq(s, "Firepower") {
            Some(SortChoice::Firepower)
        } else if str_eq(s, "AntiAir") {
            Some(SortChoice::AntiAir)
        } else if str_eq(s, "Torpedo") {
            Some(SortChoice::Torpedo)
        } else if str_eq(s, "Evasion") {
            Some(SortChoice::Evasion)
        } else if str_eq(s, "Cost") {
            Some(SortChoice::Cost)
        } else if str_eq(s, "Reload") {
            Some(SortChoice::Reload)
        } else if str_eq(s, "AntiSubmarine") {
            Some(SortChoice::AntiSubmarine)
        } else if str_eq(s, "Oxygen") {
            Some(SortChoice::Oxygen)
        } else if str_eq(s, "Ammunition") {
            Some(SortChoice::Ammunition)
        } else if str_eq(s, "Accuracy") {
            Some(SortChoice::Accuracy)
        } else {
            None
        }
    }

    /// The label of this sort choice.
    pub fn label(&self) -> (r: String)
        ensures
            r@ == sort_label_of(*self),
    {
        match self {
            SortChoice::HP => "HP".to_owned(),
            SortChoice::Luck => "Luck".to_owned(),
            SortChoice::Armor => "Armor".to_owned(),
            SortChoice::Speed => "Speed".to_owned(),
            SortChoice::Firepower => "Firepower".to_owned(),
            SortChoice::AntiAir => "AntiAir".to_owned(),
            SortChoice::Torpedo => "Torpedo".to_owned(),
            SortChoice::Evasion => "Evasion".to_owned(),
            SortChoice::Cost => "Cost".to_owned(),
            SortChoice::Reload => "Reload".to_owned(),
            SortChoice::AntiSubmarine => "AntiSubmarine".to_owned(),
            SortChoice::Oxygen => "Oxygen".to_owned(),
            SortChoice::Ammunition => "Ammunition".to_owned(),
            SortChoice::Accuracy => "Accuracy".to_owned(),
        }
    }
}

impl ValidLevel {
    /// Parses a level label. Returns `None` on an unrecognized label.
    pub fn from_label(s: &str) -> (r: Option<ValidLevel>)
        ensures
            r == level_of_label(s@),
    {
        if str_eq(s, "Level1") {
            Some(ValidLevel::Level1)
        } else if str_eq(s, "Level100") {
            Some(ValidLevel::Level100)
        } else if str_eq(s, "Level120") {
            Some(ValidLevel::Level120)
        } else if str_eq(s, "Level125") {
            Some(ValidLevel::Level125)
        } else {
            None
        }
    }

    /// The numeric selector of this level.
    pub fn number(&self) -> (r: i32)
        ensures
            r == level_number_of(*self),
    {
        match self {
            ValidLevel::Level1 => 1,
            ValidLevel::Level100 => 100,
            ValidLevel::Level120 => 120,
            ValidLevel::Level125 => 125,
        }
    }
}

} // verus!
