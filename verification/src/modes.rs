//! The mode registry: the closed set of supported game variants, each with
//! a stable storage key and a display name.

use vstd::prelude::*;

use crate::strutil::upper_seq;
use crate::strutil::eq_ignore_ascii_case_upper;

verus! {

/// A supported game variant.  The set is closed: adding a mode means adding
/// a registry entry and an extension handler at compile time.
#[derive(Clone, Copy, PartialEq, Eq, Structural, Debug)]
pub enum GameMode {
    CAI,
    TIMV,
    BP,
    GRAV,
    BED,
    Halloween2023,
    Halloween2024,
}

/// The human-readable display name of `m`.
pub open spec fn spec_full_name(m: GameMode) -> Seq<char> {
    match m {
        GameMode::CAI => "Cowboys and Indians"@,
        GameMode::TIMV => "Trouble in Mineville"@,
        GameMode::BP => "BlockParty"@,
        GameMode::GRAV => "Gravity"@,
        GameMode::BED => "Bed Wars"@,
        GameMode::Halloween2023 => "Kig-o'-ween (2023)"@,
        GameMode::Halloween2024 => "Kig-o'-ween (2024)"@,
    }
}

/// The stable lowercase storage key of `m`, used as a partition key for
/// lookups.
pub open spec fn spec_database_id(m: GameMode) -> Seq<char> {
    match m {
        GameMode::CAI => "cai"@,
        GameMode::TIMV => "timv"@,
        GameMode::BP => "bp"@,
        GameMode::GRAV => "grav"@,
        GameMode::BED => "bed"@,
        GameMode::Halloween2023 => "halloween2023"@,
        GameMode::Halloween2024 => "halloween2024"@,
    }
}

/// The mode whose registry name is the uppercase key `s`, if any.
pub open spec fn spec_mode_from_key(s: Seq<char>) -> Option<GameMode> {
    if s == "CAI"@ {
        Some(GameMode::CAI)
    } else if s == "TIMV"@ {
        Some(GameMode::TIMV)
    } else if s == "BP"@ {
        Some(GameMode::BP)
    } else if s == "GRAV"@ {
        Some(GameMode::GRAV)
    } else if s == "BED"@ {
        Some(GameMode::BED)
    } else if s == "HALLOWEEN2023"@ {
        Some(GameMode::Halloween2023)
    } else if s == "HALLOWEEN2024"@ {
        Some(GameMode::Halloween2024)
    } else {
        None
    }
}

impl GameMode {
    /// The human-readable display name.
    pub fn get_full_name(self) -> (r: &'static str)
        ensures
            r@ == spec_full_name(self),
    {
        match self {
            GameMode::CAI => "Cowboys and Indians",
            GameMode::TIMV => "Trouble in Mineville",
            GameMode::BP => "BlockParty",
            GameMode::GRAV => "Gravity",
            GameMode::BED => "Bed Wars",
            GameMode::Halloween2023 => "Kig-o'-ween (2023)",
            GameMode::Halloween2024 => "Kig-o'-ween (2024)",
        }
    }

    /// The stable lowercase storage key.
    pub fn get_database_id(self) -> (r: &'static str)
        ensures
            r@ == spec_database_id(self),
    {
        match self {
            GameMode::CAI => "cai",
            GameMode::TIMV => "timv",
            GameMode::BP => "bp",
            GameMode::GRAV => "grav",
            GameMode::BED => "bed",
            GameMode::Halloween2023 => "halloween2023",
            GameMode::Halloween2024 => "halloween2024",
        }
    }

    /// Registry lookup: resolves a mode key, ignoring ASCII case; `None`
    /// stands for an unsupported mode.
    pub fn from_key(key: &str) -> (r: Option<GameMode>)
        ensures
            r == spec_mode_from_key(upper_seq(key@)),
    {
        if eq_ignore_ascii_case_upper(key, "CAI") {
            Some(GameMode::CAI)
        } else if eq_ignore_ascii_case_upper(key, "TIMV") {
            Some(GameMode::TIMV)
        } else if eq_ignore_ascii_case_upper(key, "BP") {
            Some(GameMode::BP)
        } else if eq_ignore_ascii_case_upper(key, "GRAV") {
            Some(GameMode::GRAV)
        } else if eq_ignore_ascii_case_upper(key, "BED") {
            Some(GameMode::BED)
        } else if eq_ignore_ascii_case_upper(key, "HALLOWEEN2023") {
            Some(GameMode::Halloween2023)
        } else if eq_ignore_ascii_case_upper(key, "HALLOWEEN2024") {
            Some(GameMode::Halloween2024)
        } else {
            None
        }
    }
}

} // verus!
