//! The ammunition catalog: a fixed table of ballistic constants.
//!
//! Every round shares the same drag coefficient; the mortar stone flies
//! under a lower gravitational constant.  Constants are held in hundredths,
//! so that a drag of 0.01 is 1 and a gravity of 10 is 1000; the caller
//! divides by one hundred when it evaluates the trajectory equation.

use vstd::prelude::*;
use crate::text::str_eq;

verus! {

/// The closed set of round types the catalog knows.
#[derive(Clone, Copy, PartialEq, Eq, Structural, Debug)]
pub enum AmmoKind {
    Shot,
    ApShot,
    ApShell,
    HeShell,
    MortarStone,
    SmokeShell,
}

/// A round type with its ballistic constants, in hundredths.
#[derive(Debug)]
pub struct Ammo {
    pub kind: AmmoKind,
    pub drag_hundredths: u32,
    pub gravity_hundredths: u32,
    pub name: String,
}

/// The display name of each round type.
pub open spec fn kind_name(kind: AmmoKind) -> Seq<char> {
    match kind {
        AmmoKind::Shot => "Shot"@,
        AmmoKind::ApShot => "AP Shot"@,
        AmmoKind::ApShell => "AP Shell"@,
        AmmoKind::HeShell => "HE Shell"@,
        AmmoKind::MortarStone => "Mortar Stone"@,
        AmmoKind::SmokeShell => "Smoke Shell"@,
    }
}

/// The gravitational constant of each round type, in hundredths: 500 for
/// the mortar stone, 1000 for everything else.
pub open spec fn kind_gravity_hundredths(kind: AmmoKind) -> u32 {
    if kind is MortarStone {
        500u32
    } else {
        1000u32
    }
}

/// A catalog entry is well formed when its constants and name are the ones
/// the table assigns to its kind.  Every round shares a drag of one
/// hundredth.
pub open spec fn ammo_wf(a: Ammo) -> bool {
    &&& a.drag_hundredths == 1
    &&& a.gravity_hundredths == kind_gravity_hundredths(a.kind)
    &&& a.name@ == kind_name(a.kind)
}

/// The kind whose name is `s`; an unknown name falls back to plain shot.
pub open spec fn selected_kind(s: Seq<char>) -> AmmoKind {
    if s == "Shot"@ {
        AmmoKind::Shot
    } else if s == "AP Shot"@ {
        AmmoKind::ApShot
    } else if s == "AP Shell"@ {
        AmmoKind::ApShell
    } else if s == "HE Shell"@ {
        AmmoKind::HeShell
    } else if s == "Mortar Stone"@ {
        AmmoKind::MortarStone
    } else if s == "Smoke Shell"@ {
        AmmoKind::SmokeShell
    } else {
        AmmoKind::Shot
    }
}

impl Ammo {
    /// The catalog entry for `kind`.
    pub fn of_kind(kind: AmmoKind) -> (a: Ammo)
        ensures
            a.kind == kind,
            ammo_wf(a),
    {
        let name: &str = match kind {
            AmmoKind::Shot => "Shot",
            AmmoKind::ApShot => "AP Shot",
            AmmoKind::ApShell => "AP Shell",
            AmmoKind::HeShell => "HE Shell",
            AmmoKind::MortarStone => "Mortar Stone",
            AmmoKind::SmokeShell => "Smoke Shell",
        };
        let gravity_hundredths: u32 = match kind {
            AmmoKind::MortarStone => 500,
            _ => 1000,
        };
        Ammo { kind, drag_hundredths: 1, gravity_hundredths, name: String::from_str(name) }
    }

    /// Plain shot.
    pub fn shot() -> (a: Ammo)
        ensures
            a.kind == AmmoKind::Shot,
            ammo_wf(a),
    {
        Self::of_kind(AmmoKind::Shot)
    }

    /// Armor-piercing shot.
    pub fn ap_shot() -> (a: Ammo)
        ensures
            a.kind == AmmoKind::ApShot,
            ammo_wf(a),
    {
        Self::of_kind(AmmoKind::ApShot)
    }

    /// Armor-piercing shell.
    pub fn ap_shell() -> (a: Ammo)
        ensures
            a.kind == AmmoKind::ApShell,
            ammo_wf(a),
    {
        Self::of_kind(AmmoKind::ApShell)
    }

    /// High-explosive shell.
    pub fn he_shell() -> (a: Ammo)
        ensures
            a.kind == AmmoKind::HeShell,
            ammo_wf(a),
    {
        Self::of_kind(AmmoKind::HeShell)
    }

    /// Mortar stone; the one round with a lower gravitational constant.
    pub fn mortar_stone() -> (a: Ammo)
        ensures
            a.kind == AmmoKind::MortarStone,
            ammo_wf(a),
    {
        Self::of_kind(AmmoKind::MortarStone)
    }

    /// Smoke shell.
    pub fn smoke_shell() -> (a: Ammo)
        ensures
            a.kind == AmmoKind::SmokeShell,
            ammo_wf(a),
    {
        Self::of_kind(AmmoKind::SmokeShell)
    }

    /// The entry whose display name is `ammo_type`; an unknown name falls
    /// back to plain shot, the catalog's first entry.
    pub fn select(ammo_type: &str) -> (a: Ammo)
        ensures
            a.kind == selected_kind(ammo_type@),
            ammo_wf(a),
    {
        if str_eq(ammo_type, "Shot") {
            Self::shot()
        } else if str_eq(ammo_type, "AP Shot") {
            Self::ap_shot()
        } else if str_eq(ammo_type, "AP Shell") {
            Self::ap_shell()
        } else if str_eq(ammo_type, "HE Shell") {
            Self::he_shell()
        } else if str_eq(ammo_type, "Mortar Stone") {
            Self::mortar_stone()
        } else if str_eq(ammo_type, "Smoke Shell") {
            Self::smoke_shell()
        } else {
            Self::shot()
        }
    }
}

/// Catalog entries compare by name alone.
impl PartialEq for Ammo {
    fn eq(&self, other: &Self) -> (r: bool) {
        str_eq(self.name.as_str(), other.name.as_str())
    }
}

impl vstd::std_specs::cmp::PartialEqSpecImpl for Ammo {
    open spec fn obeys_eq_spec() -> bool {
        true
    }

    open spec fn eq_spec(&self, other: &Self) -> bool {
        self.name@ == other.name@
    }
}

} // verus!
