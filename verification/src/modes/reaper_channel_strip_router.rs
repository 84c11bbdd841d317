//! The channel strip's controls as the surface shows them, and what routes them to the
//! plugins of a track.
use vstd::prelude::*;

use crate::modes::guid::TrackGuid;
use crate::modes::reaper_fx::FxId;
use crate::modes::track_data::DataMsg;
use crate::table::{
    assoc_insert, entry_pos, find_guid, has_entry, lemma_assoc_insert_unique, lookup, same_str,
    unique_keys,
};
use crate::modes::reaper_fx_adapters::rea_eq::ReaEqAdapter;
use crate::modes::reaper_fx_adapters::tdr_molotok::TdrMolotokAdapter;
use crate::modes::reaper_fx_adapters::tdrvos_slick_eq::TdrvosSlickEqAdapter;
use vstd::string::StringSliceAdditionalSpecFns;
use crate::modes::widget::EncoderTurn;

verus! {

// | #  | Normal      | Pressed                          | Shift            | Shift+Pressed  | Click          | Shift+Click     |
// |----|-------------|----------------------------------|------------------|----------------|--------------- |-----------------|
// | 1  | HP filter   | slope                            | EQ type          |                |                |                 |
// | 2  | Low freq    | Low Q (bell) / slope (shelf)     | bell/shelf       |                |                |                 |
// | 3  | Low gain    |                                  |                  |                | zero Low gain  |                 |
// | 4  | LM freq     | LM Q                             |                  |                |                |                 |
// | 5  | LM gain     |                                  |                  |                | zero LM gain   |                 |
// | 6  | HM freq     | HM Q                             |                  |                |                |                 |
// | 7  | HM gain     |                                  |                  |                | zero HM gain   |                 |
// | 8  | High freq   | High Q (bell) / slope (slope)    | bell/shelf       |                |                |                 |
// | 9  | High gain   |                                  | sides gain       |                | zero High gain | zero sides gain |
// | 10 | EQ pos      |                                  | Comp order       |                | bypass EQ      |                 |
// | 11 | Comp thresh | Comp SC filter                   | Comp2  thresh    | Comp2 SC filt  |                |                 |
// | 12 | Comp ratio  | Comp attack                      | Comp2  ratio     | Comp2 attack   |                |                 |
// | 13 | Comp makeup | Comp release                     | Comp2  makeup    | Comp2 release  |                |                 |
// | 14 | Comp type   |                                  | Comp2  type      |                | bypass Comp    | bypass Comp2    |
// | 15 | Saturation  |                                  | Saturation type  |                | bypass Sat     |                 |
// | 16 | Gain        | Interface gain (only if armed)   | Trim             |                |                |                 |

/// Bundle of user-facing enums that provide scribble strip labels.
#[derive(Debug, Clone, Copy, PartialEq, Eq, Structural)]
pub enum FxUi {
    Eq(EqType),
    Comp(CompType),
    Saturation(SaturationType),
    Gain,
    Trim,
    InterfaceGain,
}

// The following are UI representation of the channel strip concepts, which are mapped to
// actual FX parameters by the router. By design, these do not need to have a 1:1 mapping to
// the internal logic.
#[derive(Debug, Clone, Copy, PartialEq, Eq, Structural)]
pub enum BandMode {
    Bell,
    Shelf,
}

impl BandMode {
    /// Where the setting stands in the cycle an encoder steps through.
    pub open spec fn spec_index(self) -> int {
        match self {
            BandMode::Bell => 0,
            BandMode::Shelf => 1,
        }
    }

    /// The setting at position `i` of the cycle.
    pub open spec fn spec_at(i: int) -> Self {
        if i == 0 {
            BandMode::Bell
        } else {
            BandMode::Shelf
        }
    }

    /// The label shown for the setting.
    pub open spec fn spec_label(self) -> Seq<char> {
        match self {
            BandMode::Bell => "bell"@,
            BandMode::Shelf => "shelf"@,
        }
    }

    /// The next setting, wrapping from the last to the first.
    pub fn next(self) -> (r: Self)
        ensures
            r == Self::spec_at((self.spec_index() + 1) % 2),
    {
        match self {
            BandMode::Bell => BandMode::Shelf,
            BandMode::Shelf => BandMode::Bell,
        }
    }

    /// The previous setting, wrapping from the first to the last.
    pub fn prev(self) -> (r: Self)
        ensures
            r == Self::spec_at((self.spec_index() + 1) % 2),
    {
        match self {
            BandMode::Bell => BandMode::Shelf,
            BandMode::Shelf => BandMode::Bell,
        }
    }

    /// One step in the direction the encoder turned.
    pub fn step(self, dir: EncoderTurn) -> (r: Self)
        ensures
            r == match dir {
                EncoderTurn::Inc { .. } => Self::spec_at((self.spec_index() + 1) % 2),
                EncoderTurn::Dec { .. } => Self::spec_at((self.spec_index() + 1) % 2),
            },
    {
        match dir {
            EncoderTurn::Inc { .. } => self.next(),
            EncoderTurn::Dec { .. } => self.prev(),
        }
    }

    pub fn as_str(self) -> (r: &'static str)
        ensures
            r@ == self.spec_label(),
    {
        match self {
            BandMode::Bell => "bell",
            BandMode::Shelf => "shelf",
        }
    }

    /// A step forward and a step back, in either order, leave the setting as it was.
    pub proof fn law_step_round_trip(self)
        ensures
            Self::spec_at((Self::spec_at((self.spec_index() + 1) % 2).spec_index() + 1) % 2) == self,
            Self::spec_at((Self::spec_at((self.spec_index() + 1) % 2).spec_index() + 1) % 2) == self,
            0 <= self.spec_index() < 2,
            Self::spec_at(self.spec_index()) == self,
    {
    }
}

#[derive(Debug, Clone, Copy, PartialEq, Eq, Structural)]
pub enum EqType {
    Digital,
    SSL,
    Neve,
}

impl EqType {
    /// Where the setting stands in the cycle an encoder steps through.
    pub open spec fn spec_index(self) -> int {
        match self {
            EqType::Digital => 0,
            EqType::SSL => 1,
            EqType::Neve => 2,
        }
    }

    /// The setting at position `i` of the cycle.
    pub open spec fn spec_at(i: int) -> Self {
        if i == 0 {
            EqType::Digital
        } else if i == 1 {
            EqType::SSL
        } else {
            EqType::Neve
        }
    }

    /// The label shown for the setting.
    pub open spec fn spec_label(self) -> Seq<char> {
        match self {
            EqType::Digital => "Digital"@,
            EqType::SSL => "SSL"@,
            EqType::Neve => "Neve"@,
        }
    }

    /// The next setting, wrapping from the last to the first.
    pub fn next(self) -> (r: Self)
        ensures
            r == Self::spec_at((self.spec_index() + 1) % 3),
    {
        match self {
            EqType::Digital => EqType::SSL,
            EqType::SSL => EqType::Neve,
            EqType::Neve => EqType::Digital,
        }
    }

    /// The previous setting, wrapping from the first to the last.
    pub fn prev(self) -> (r: Self)
        ensures
            r == Self::spec_at((self.spec_index() + 2) % 3),
    {
        match self {
            EqType::Digital => EqType::Neve,
            EqType::SSL => EqType::Digital,
            EqType::Neve => EqType::SSL,
        }
    }

    /// One step in the direction the encoder turned.
    pub fn step(self, dir: EncoderTurn) -> (r: Self)
        ensures
            r == match dir {
                EncoderTurn::Inc { .. } => Self::spec_at((self.spec_index() + 1) % 3),
                EncoderTurn::Dec { .. } => Self::spec_at((self.spec_index() + 2) % 3),
            },
    {
        match dir {
            EncoderTurn::Inc { .. } => self.next(),
            EncoderTurn::Dec { .. } => self.prev(),
        }
    }

    pub fn as_str(self) -> (r: &'static str)
        ensures
            r@ == self.spec_label(),
    {
        match self {
            EqType::Digital => "Digital",
            EqType::SSL => "SSL",
            EqType::Neve => "Neve",
        }
    }

    /// A step forward and a step back, in either order, leave the setting as it was.
    pub proof fn law_step_round_trip(self)
        ensures
            Self::spec_at((Self::spec_at((self.spec_index() + 1) % 3).spec_index() + 2) % 3) == self,
            Self::spec_at((Self::spec_at((self.spec_index() + 2) % 3).spec_index() + 1) % 3) == self,
            0 <= self.spec_index() < 3,
            Self::spec_at(self.spec_index()) == self,
    {
    }
}

#[derive(Debug, Clone, Copy, PartialEq, Eq, Structural)]
pub enum EqPosition {
    First,
    Middle,
    Last,
}

impl EqPosition {
    /// Where the setting stands in the cycle an encoder steps through.
    pub open spec fn spec_index(self) -> int {
        match self {
            EqPosition::First => 0,
            EqPosition::Middle => 1,
            EqPosition::Last => 2,
        }
    }

    /// The setting at position `i` of the cycle.
    pub open spec fn spec_at(i: int) -> Self {
        if i == 0 {
            EqPosition::First
        } else if i == 1 {
            EqPosition::Middle
        } else {
            EqPosition::Last
        }
    }

    /// The label shown for the setting.
    pub open spec fn spec_label(self) -> Seq<char> {
        match self {
            EqPosition::First => "E>C>C>S"@,
            EqPosition::Middle => "C>C>E>S"@,
            EqPosition::Last => "C>C>S>E"@,
        }
    }

    /// The next setting, wrapping from the last to the first.
    pub fn next(self) -> (r: Self)
        ensures
            r == Self::spec_at((self.spec_index() + 1) % 3),
    {
        match self {
            EqPosition::First => EqPosition::Middle,
            EqPosition::Middle => EqPosition::Last,
            EqPosition::Last => EqPosition::First,
        }
    }

    /// The previous setting, wrapping from the first to the last.
    pub fn prev(self) -> (r: Self)
        ensures
            r == Self::spec_at((self.spec_index() + 2) % 3),
    {
        match self {
            EqPosition::First => EqPosition::Last,
            EqPosition::Middle => EqPosition::First,
            EqPosition::Last => EqPosition::Middle,
        }
    }

    /// One step in the direction the encoder turned.
    pub fn step(self, dir: EncoderTurn) -> (r: Self)
        ensures
            r == match dir {
                EncoderTurn::Inc { .. } => Self::spec_at((self.spec_index() + 1) % 3),
                EncoderTurn::Dec { .. } => Self::spec_at((self.spec_index() + 2) % 3),
            },
    {
        match dir {
            EncoderTurn::Inc { .. } => self.next(),
            EncoderTurn::Dec { .. } => self.prev(),
        }
    }

    pub fn as_str(self) -> (r: &'static str)
        ensures
            r@ == self.spec_label(),
    {
        match self {
            EqPosition::First => "E>C>C>S",
            EqPosition::Middle => "C>C>E>S",
            EqPosition::Last => "C>C>S>E",
        }
    }

    /// A step forward and a step back, in either order, leave the setting as it was.
    pub proof fn law_step_round_trip(self)
        ensures
            Self::spec_at((Self::spec_at((self.spec_index() + 1) % 3).spec_index() + 2) % 3) == self,
            Self::spec_at((Self::spec_at((self.spec_index() + 2) % 3).spec_index() + 1) % 3) == self,
            0 <= self.spec_index() < 3,
            Self::spec_at(self.spec_index()) == self,
    {
    }
}

#[derive(Debug, Clone, Copy, PartialEq, Eq, Structural)]
pub enum CompOrder {
    C1toC2,
    C2toC1,
}

impl CompOrder {
    /// Where the setting stands in the cycle an encoder steps through.
    pub open spec fn spec_index(self) -> int {
        match self {
            CompOrder::C1toC2 => 0,
            CompOrder::C2toC1 => 1,
        }
    }

    /// The setting at position `i` of the cycle.
    pub open spec fn spec_at(i: int) -> Self {
        if i == 0 {
            CompOrder::C1toC2
        } else {
            CompOrder::C2toC1
        }
    }

    /// The label shown for the setting.
    pub open spec fn spec_label(self) -> Seq<char> {
        match self {
            CompOrder::C1toC2 => "Cmp1->2"@,
            CompOrder::C2toC1 => "Cmp2->1"@,
        }
    }

    /// The next setting, wrapping from the last to the first.
    pub fn next(self) -> (r: Self)
        ensures
            r == Self::spec_at((self.spec_index() + 1) % 2),
    {
        match self {
            CompOrder::C1toC2 => CompOrder::C2toC1,
            CompOrder::C2toC1 => CompOrder::C1toC2,
        }
    }

    /// The previous setting, wrapping from the first to the last.
    pub fn prev(self) -> (r: Self)
        ensures
            r == Self::spec_at((self.spec_index() + 1) % 2),
    {
        match self {
            CompOrder::C1toC2 => CompOrder::C2toC1,
            CompOrder::C2toC1 => CompOrder::C1toC2,
        }
    }

    /// One step in the direction the encoder turned.
    pub fn step(self, dir: EncoderTurn) -> (r: Self)
        ensures
            r == match dir {
                EncoderTurn::Inc { .. } => Self::spec_at((self.spec_index() + 1) % 2),
                EncoderTurn::Dec { .. } => Self::spec_at((self.spec_index() + 1) % 2),
            },
    {
        match dir {
            EncoderTurn::Inc { .. } => self.next(),
            EncoderTurn::Dec { .. } => self.prev(),
        }
    }

    pub fn as_str(self) -> (r: &'static str)
        ensures
            r@ == self.spec_label(),
    {
        match self {
            CompOrder::C1toC2 => "Cmp1->2",
            CompOrder::C2toC1 => "Cmp2->1",
        }
    }

    /// A step forward and a step back, in either order, leave the setting as it was.
    pub proof fn law_step_round_trip(self)
        ensures
            Self::spec_at((Self::spec_at((self.spec_index() + 1) % 2).spec_index() + 1) % 2) == self,
            Self::spec_at((Self::spec_at((self.spec_index() + 1) % 2).spec_index() + 1) % 2) == self,
            0 <= self.spec_index() < 2,
            Self::spec_at(self.spec_index()) == self,
    {
    }
}

#[derive(Debug, Clone, Copy, PartialEq, Eq, Structural)]
pub enum CompType {
    Digital,
    Eleven76,
    LA2A,
    Distressor,
    LA3A,
    VariMu,
}

impl CompType {
    /// Where the setting stands in the cycle an encoder steps through.
    pub open spec fn spec_index(self) -> int {
        match self {
            CompType::Digital => 0,
            CompType::Eleven76 => 1,
            CompType::LA2A => 2,
            CompType::Distressor => 3,
            CompType::LA3A => 4,
            CompType::VariMu => 5,
        }
    }

    /// The setting at position `i` of the cycle.
    pub open spec fn spec_at(i: int) -> Self {
        if i == 0 {
            CompType::Digital
        } else if i == 1 {
            CompType::Eleven76
        } else if i == 2 {
            CompType::LA2A
        } else if i == 3 {
            CompType::Distressor
        } else if i == 4 {
            CompType::LA3A
        } else {
            CompType::VariMu
        }
    }

    /// The label shown for the setting.
    pub open spec fn spec_label(self) -> Seq<char> {
        match self {
            CompType::Digital => "Digital"@,
            CompType::Eleven76 => "1176"@,
            CompType::LA2A => "LA2A"@,
            CompType::Distressor => "Distrsr"@,
            CompType::LA3A => "LA3A"@,
            CompType::VariMu => "VariMu"@,
        }
    }

    /// The next setting, wrapping from the last to the first.
    pub fn next(self) -> (r: Self)
        ensures
            r == Self::spec_at((self.spec_index() + 1) % 6),
    {
        match self {
            CompType::Digital => CompType::Eleven76,
            CompType::Eleven76 => CompType::LA2A,
            CompType::LA2A => CompType::Distressor,
            CompType::Distressor => CompType::LA3A,
            CompType::LA3A => CompType::VariMu,
            CompType::VariMu => CompType::Digital,
        }
    }

    /// The previous setting, wrapping from the first to the last.
    pub fn prev(self) -> (r: Self)
        ensures
            r == Self::spec_at((self.spec_index() + 5) % 6),
    {
        match self {
            CompType::Digital => CompType::VariMu,
            CompType::Eleven76 => CompType::Digital,
            CompType::LA2A => CompType::Eleven76,
            CompType::Distressor => CompType::LA2A,
            CompType::LA3A => CompType::Distressor,
            CompType::VariMu => CompType::LA3A,
        }
    }

    /// One step in the direction the encoder turned.
    pub fn step(self, dir: EncoderTurn) -> (r: Self)
        ensures
            r == match dir {
                EncoderTurn::Inc { .. } => Self::spec_at((self.spec_index() + 1) % 6),
                EncoderTurn::Dec { .. } => Self::spec_at((self.spec_index() + 5) % 6),
            },
    {
        match dir {
            EncoderTurn::Inc { .. } => self.next(),
            EncoderTurn::Dec { .. } => self.prev(),
        }
    }

    pub fn as_str(self) -> (r: &'static str)
        ensures
            r@ == self.spec_label(),
    {
        match self {
            CompType::Digital => "Digital",
            CompType::Eleven76 => "1176",
            CompType::LA2A => "LA2A",
            CompType::Distressor => "Distrsr",
            CompType::LA3A => "LA3A",
            CompType::VariMu => "VariMu",
        }
    }

    /// A step forward and a step back, in either order, leave the setting as it was.
    pub proof fn law_step_round_trip(self)
        ensures
            Self::spec_at((Self::spec_at((self.spec_index() + 1) % 6).spec_index() + 5) % 6) == self,
            Self::spec_at((Self::spec_at((self.spec_index() + 5) % 6).spec_index() + 1) % 6) == self,
            0 <= self.spec_index() < 6,
            Self::spec_at(self.spec_index()) == self,
    {
    }
}

#[derive(Debug, Clone, Copy, PartialEq, Eq, Structural)]
pub enum EqBypass {
    IN,
    OUT,
}

impl EqBypass {
    /// Where the setting stands in the cycle an encoder steps through.
    pub open spec fn spec_index(self) -> int {
        match self {
            EqBypass::IN => 0,
            EqBypass::OUT => 1,
        }
    }

    /// The setting at position `i` of the cycle.
    pub open spec fn spec_at(i: int) -> Self {
        if i == 0 {
            EqBypass::IN
        } else {
            EqBypass::OUT
        }
    }

    /// The label shown for the setting.
    pub open spec fn spec_label(self) -> Seq<char> {
        match self {
            EqBypass::IN => "EqIN"@,
            EqBypass::OUT => "EqOUT"@,
        }
    }

    /// The next setting, wrapping from the last to the first.
    pub fn next(self) -> (r: Self)
        ensures
            r == Self::spec_at((self.spec_index() + 1) % 2),
    {
        match self {
            EqBypass::IN => EqBypass::OUT,
            EqBypass::OUT => EqBypass::IN,
        }
    }

    /// The previous setting, wrapping from the first to the last.
    pub fn prev(self) -> (r: Self)
        ensures
            r == Self::spec_at((self.spec_index() + 1) % 2),
    {
        match self {
            EqBypass::IN => EqBypass::OUT,
            EqBypass::OUT => EqBypass::IN,
        }
    }

    /// One step in the direction the encoder turned.
    pub fn step(self, dir: EncoderTurn) -> (r: Self)
        ensures
            r == match dir {
                EncoderTurn::Inc { .. } => Self::spec_at((self.spec_index() + 1) % 2),
                EncoderTurn::Dec { .. } => Self::spec_at((self.spec_index() + 1) % 2),
            },
    {
        match dir {
            EncoderTurn::Inc { .. } => self.next(),
            EncoderTurn::Dec { .. } => self.prev(),
        }
    }

    pub fn as_str(self) -> (r: &'static str)
        ensures
            r@ == self.spec_label(),
    {
        match self {
            EqBypass::IN => "EqIN",
            EqBypass::OUT => "EqOUT",
        }
    }

    /// A step forward and a step back, in either order, leave the setting as it was.
    pub proof fn law_step_round_trip(self)
        ensures
            Self::spec_at((Self::spec_at((self.spec_index() + 1) % 2).spec_index() + 1) % 2) == self,
            Self::spec_at((Self::spec_at((self.spec_index() + 1) % 2).spec_index() + 1) % 2) == self,
            0 <= self.spec_index() < 2,
            Self::spec_at(self.spec_index()) == self,
    {
    }
}

#[derive(Debug, Clone, Copy, PartialEq, Eq, Structural)]
pub enum CompBypass {
    IN,
    OUT,
}

impl CompBypass {
    /// Where the setting stands in the cycle an encoder steps through.
    pub open spec fn spec_index(self) -> int {
        match self {
            CompBypass::IN => 0,
            CompBypass::OUT => 1,
        }
    }

    /// The setting at position `i` of the cycle.
    pub open spec fn spec_at(i: int) -> Self {
        if i == 0 {
            CompBypass::IN
        } else {
            CompBypass::OUT
        }
    }

    /// The label shown for the setting.
    pub open spec fn spec_label(self) -> Seq<char> {
        match self {
            CompBypass::IN => "CompIN"@,
            CompBypass::OUT => "CompOUT"@,
        }
    }

    /// The next setting, wrapping from the last to the first.
    pub fn next(self) -> (r: Self)
        ensures
            r == Self::spec_at((self.spec_index() + 1) % 2),
    {
        match self {
            CompBypass::IN => CompBypass::OUT,
            CompBypass::OUT => CompBypass::IN,
        }
    }

    /// The previous setting, wrapping from the first to the last.
    pub fn prev(self) -> (r: Self)
        ensures
            r == Self::spec_at((self.spec_index() + 1) % 2),
    {
        match self {
            CompBypass::IN => CompBypass::OUT,
            CompBypass::OUT => CompBypass::IN,
        }
    }

    /// One step in the direction the encoder turned.
    pub fn step(self, dir: EncoderTurn) -> (r: Self)
        ensures
            r == match dir {
                EncoderTurn::Inc { .. } => Self::spec_at((self.spec_index() + 1) % 2),
                EncoderTurn::Dec { .. } => Self::spec_at((self.spec_index() + 1) % 2),
            },
    {
        match dir {
            EncoderTurn::Inc { .. } => self.next(),
            EncoderTurn::Dec { .. } => self.prev(),
        }
    }

    pub fn as_str(self) -> (r: &'static str)
        ensures
            r@ == self.spec_label(),
    {
        match self {
            CompBypass::IN => "CompIN",
            CompBypass::OUT => "CompOUT",
        }
    }

    /// A step forward and a step back, in either order, leave the setting as it was.
    pub proof fn law_step_round_trip(self)
        ensures
            Self::spec_at((Self::spec_at((self.spec_index() + 1) % 2).spec_index() + 1) % 2) == self,
            Self::spec_at((Self::spec_at((self.spec_index() + 1) % 2).spec_index() + 1) % 2) == self,
            0 <= self.spec_index() < 2,
            Self::spec_at(self.spec_index()) == self,
    {
    }
}

#[derive(Debug, Clone, Copy, PartialEq, Eq, Structural)]
pub enum Cmp2Bypass {
    Engaged,
    Bypassed,
}

impl Cmp2Bypass {
    /// Where the setting stands in the cycle an encoder steps through.
    pub open spec fn spec_index(self) -> int {
        match self {
            Cmp2Bypass::Engaged => 0,
            Cmp2Bypass::Bypassed => 1,
        }
    }

    /// The setting at position `i` of the cycle.
    pub open spec fn spec_at(i: int) -> Self {
        if i == 0 {
            Cmp2Bypass::Engaged
        } else {
            Cmp2Bypass::Bypassed
        }
    }

    /// The label shown for the setting.
    pub open spec fn spec_label(self) -> Seq<char> {
        match self {
            Cmp2Bypass::Engaged => "Cmp2IN"@,
            Cmp2Bypass::Bypassed => "Cmp2OUT"@,
        }
    }

    /// The next setting, wrapping from the last to the first.
    pub fn next(self) -> (r: Self)
        ensures
            r == Self::spec_at((self.spec_index() + 1) % 2),
    {
        match self {
            Cmp2Bypass::Engaged => Cmp2Bypass::Bypassed,
            Cmp2Bypass::Bypassed => Cmp2Bypass::Engaged,
        }
    }

    /// The previous setting, wrapping from the first to the last.
    pub fn prev(self) -> (r: Self)
        ensures
            r == Self::spec_at((self.spec_index() + 1) % 2),
    {
        match self {
            Cmp2Bypass::Engaged => Cmp2Bypass::Bypassed,
            Cmp2Bypass::Bypassed => Cmp2Bypass::Engaged,
        }
    }

    /// One step in the direction the encoder turned.
    pub fn step(self, dir: EncoderTurn) -> (r: Self)
        ensures
            r == match dir {
                EncoderTurn::Inc { .. } => Self::spec_at((self.spec_index() + 1) % 2),
                EncoderTurn::Dec { .. } => Self::spec_at((self.spec_index() + 1) % 2),
            },
    {
        match dir {
            EncoderTurn::Inc { .. } => self.next(),
            EncoderTurn::Dec { .. } => self.prev(),
        }
    }

    pub fn as_str(self) -> (r: &'static str)
        ensures
            r@ == self.spec_label(),
    {
        match self {
            Cmp2Bypass::Engaged => "Cmp2IN",
            Cmp2Bypass::Bypassed => "Cmp2OUT",
        }
    }

    /// A step forward and a step back, in either order, leave the setting as it was.
    pub proof fn law_step_round_trip(self)
        ensures
            Self::spec_at((Self::spec_at((self.spec_index() + 1) % 2).spec_index() + 1) % 2) == self,
            Self::spec_at((Self::spec_at((self.spec_index() + 1) % 2).spec_index() + 1) % 2) == self,
            0 <= self.spec_index() < 2,
            Self::spec_at(self.spec_index()) == self,
    {
    }
}

#[derive(Debug, Clone, Copy, PartialEq, Eq, Structural)]
pub enum SaturationBypass {
    IN,
    OUT,
}

impl SaturationBypass {
    /// Where the setting stands in the cycle an encoder steps through.
    pub open spec fn spec_index(self) -> int {
        match self {
            SaturationBypass::IN => 0,
            SaturationBypass::OUT => 1,
        }
    }

    /// The setting at position `i` of the cycle.
    pub open spec fn spec_at(i: int) -> Self {
        if i == 0 {
            SaturationBypass::IN
        } else {
            SaturationBypass::OUT
        }
    }

    /// The label shown for the setting.
    pub open spec fn spec_label(self) -> Seq<char> {
        match self {
            SaturationBypass::IN => "SatIN"@,
            SaturationBypass::OUT => "SatOUT"@,
        }
    }

    /// The next setting, wrapping from the last to the first.
    pub fn next(self) -> (r: Self)
        ensures
            r == Self::spec_at((self.spec_index() + 1) % 2),
    {
        match self {
            SaturationBypass::IN => SaturationBypass::OUT,
            SaturationBypass::OUT => SaturationBypass::IN,
        }
    }

    /// The previous setting, wrapping from the first to the last.
    pub fn prev(self) -> (r: Self)
        ensures
            r == Self::spec_at((self.spec_index() + 1) % 2),
    {
        match self {
            SaturationBypass::IN => SaturationBypass::OUT,
            SaturationBypass::OUT => SaturationBypass::IN,
        }
    }

    /// One step in the direction the encoder turned.
    pub fn step(self, dir: EncoderTurn) -> (r: Self)
        ensures
            r == match dir {
                EncoderTurn::Inc { .. } => Self::spec_at((self.spec_index() + 1) % 2),
                EncoderTurn::Dec { .. } => Self::spec_at((self.spec_index() + 1) % 2),
            },
    {
        match dir {
            EncoderTurn::Inc { .. } => self.next(),
            EncoderTurn::Dec { .. } => self.prev(),
        }
    }

    pub fn as_str(self) -> (r: &'static str)
        ensures
            r@ == self.spec_label(),
    {
        match self {
            SaturationBypass::IN => "SatIN",
            SaturationBypass::OUT => "SatOUT",
        }
    }

    /// A step forward and a step back, in either order, leave the setting as it was.
    pub proof fn law_step_round_trip(self)
        ensures
            Self::spec_at((Self::spec_at((self.spec_index() + 1) % 2).spec_index() + 1) % 2) == self,
            Self::spec_at((Self::spec_at((self.spec_index() + 1) % 2).spec_index() + 1) % 2) == self,
            0 <= self.spec_index() < 2,
            Self::spec_at(self.spec_index()) == self,
    {
    }
}

#[derive(Debug, Clone, Copy, PartialEq, Eq, Structural)]
pub enum SaturationType {
    Console,
    Tape,
    Decapitator,
    BitCrush,
}

impl SaturationType {
    /// Where the setting stands in the cycle an encoder steps through.
    pub open spec fn spec_index(self) -> int {
        match self {
            SaturationType::Console => 0,
            SaturationType::Tape => 1,
            SaturationType::Decapitator => 2,
            SaturationType::BitCrush => 3,
        }
    }

    /// The setting at position `i` of the cycle.
    pub open spec fn spec_at(i: int) -> Self {
        if i == 0 {
            SaturationType::Console
        } else if i == 1 {
            SaturationType::Tape
        } else if i == 2 {
            SaturationType::Decapitator
        } else {
            SaturationType::BitCrush
        }
    }

    /// The label shown for the setting.
    pub open spec fn spec_label(self) -> Seq<char> {
        match self {
            SaturationType::Console => "Console"@,
            SaturationType::Tape => "Tape"@,
            SaturationType::Decapitator => "Decap"@,
            SaturationType::BitCrush => "BitCrsh"@,
        }
    }

    /// The next setting, wrapping from the last to the first.
    pub fn next(self) -> (r: Self)
        ensures
            r == Self::spec_at((self.spec_index() + 1) % 4),
    {
        match self {
            SaturationType::Console => SaturationType::Tape,
            SaturationType::Tape => SaturationType::Decapitator,
            SaturationType::Decapitator => SaturationType::BitCrush,
            SaturationType::BitCrush => SaturationType::Console,
        }
    }

    /// The previous setting, wrapping from the first to the last.
    pub fn prev(self) -> (r: Self)
        ensures
            r == Self::spec_at((self.spec_index() + 3) % 4),
    {
        match self {
            SaturationType::Console => SaturationType::BitCrush,
            SaturationType::Tape => SaturationType::Console,
            SaturationType::Decapitator => SaturationType::Tape,
            SaturationType::BitCrush => SaturationType::Decapitator,
        }
    }

    /// One step in the direction the encoder turned.
    pub fn step(self, dir: EncoderTurn) -> (r: Self)
        ensures
            r == match dir {
                EncoderTurn::Inc { .. } => Self::spec_at((self.spec_index() + 1) % 4),
                EncoderTurn::Dec { .. } => Self::spec_at((self.spec_index() + 3) % 4),
            },
    {
        match dir {
            EncoderTurn::Inc { .. } => self.next(),
            EncoderTurn::Dec { .. } => self.prev(),
        }
    }

    pub fn as_str(self) -> (r: &'static str)
        ensures
            r@ == self.spec_label(),
    {
        match self {
            SaturationType::Console => "Console",
            SaturationType::Tape => "Tape",
            SaturationType::Decapitator => "Decap",
            SaturationType::BitCrush => "BitCrsh",
        }
    }

    /// A step forward and a step back, in either order, leave the setting as it was.
    pub proof fn law_step_round_trip(self)
        ensures
            Self::spec_at((Self::spec_at((self.spec_index() + 1) % 4).spec_index() + 3) % 4) == self,
            Self::spec_at((Self::spec_at((self.spec_index() + 3) % 4).spec_index() + 1) % 4) == self,
            0 <= self.spec_index() < 4,
            Self::spec_at(self.spec_index()) == self,
    {
    }
}

/// Represents messages sent between the router and channel strip widgets (which define the
/// UI). Continuous values carry the bits of their `f32`.
#[derive(Debug, Clone, Copy, PartialEq, Eq, Structural)]
pub enum ChannelStripMsg {
    EnableEq(EqType),
    DisableEq,
    EnableComp1(CompType),
    DisableComp1,
    EnableComp2(CompType),
    DisableComp2,
    EnableSaturation(SaturationType),
    DisableSaturation,
    EnableGain,
    DisableGain,
    EnableTrim,
    DisableTrim,
    EnableInterfaceGain,
    DisableInterfaceGain,
    HpfFreq(u32),
    HpfSlope(u32),
    EqType(EqType),
    LowFreq(u32),
    LowQ(u32),
    LowSlope(u32),
    LowBandMode(BandMode),
    LowGain(u32),
    LmFreq(u32),
    LmQ(u32),
    LmGain(u32),
    HmFreq(u32),
    HmQ(u32),
    HmGain(u32),
    HighFreq(u32),
    HighQ(u32),
    HighSlope(u32),
    HighBandMode(BandMode),
    HighGain(u32),
    HighSidesGain(u32),
    EqPos(EqPosition),
    CompOrder(CompOrder),
    EqBypass(EqBypass),
    CompThresh(u32),
    CompScFilter(u32),
    Comp2Thresh(u32),
    Comp2ScFilter(u32),
    CompRatio(u32),
    CompAttack(u32),
    Comp2Ratio(u32),
    Comp2Attack(u32),
    CompMakeup(u32),
    CompRelease(u32),
    Comp2Makeup(u32),
    Comp2Release(u32),
    CompType(CompType),
    Comp2Type(CompType),
    CompBypass(CompBypass),
    Comp2Bypass(Cmp2Bypass),
    Saturation(u32),
    SaturationType(SaturationType),
    SaturationBypass(SaturationBypass),
    Gain(u32),
    Trim(u32),
    InterfaceGain(u32),
}

/// Specifies which kind of adapter is fit to serve a given ChannelStripMsg.
#[derive(Debug, Clone, Copy, PartialEq, Eq, Structural)]
pub enum FxCategory {
    Eq,
    Comp,
    Saturation,
    Gain,
    Trim,
    InterfaceGain,
}

impl ChannelStripMsg {
    /// The kind of plugin that serves the message; `None` for messages that no plugin
    /// parameter carries.
    pub open spec fn spec_kind(self) -> Option<FxCategory> {
        match self {
            ChannelStripMsg::LowFreq(_) | ChannelStripMsg::LowGain(_) | ChannelStripMsg::HighFreq(_)
            | ChannelStripMsg::EqType(_) | ChannelStripMsg::EqBypass(_) => Some(FxCategory::Eq),
            ChannelStripMsg::CompThresh(_) | ChannelStripMsg::CompRatio(_)
            | ChannelStripMsg::CompType(_) | ChannelStripMsg::CompBypass(_) => Some(FxCategory::Comp),
            ChannelStripMsg::Saturation(_) | ChannelStripMsg::SaturationType(_)
            | ChannelStripMsg::SaturationBypass(_) => Some(FxCategory::Saturation),
            ChannelStripMsg::Gain(_) => Some(FxCategory::Gain),
            ChannelStripMsg::Trim(_) => Some(FxCategory::Trim),
            ChannelStripMsg::InterfaceGain(_) => Some(FxCategory::InterfaceGain),
            _ => None,
        }
    }

    /// Returns the kind of FX that this message is associated with, if any. This is used to
    /// route messages to the appropriate FX adapter.
    pub fn kind(&self) -> (r: Option<FxCategory>)
        ensures
            r == self.spec_kind(),
    {
        match self {
            ChannelStripMsg::LowFreq(_) | ChannelStripMsg::LowGain(_) | ChannelStripMsg::HighFreq(_)
            | ChannelStripMsg::EqType(_) | ChannelStripMsg::EqBypass(_) => Some(FxCategory::Eq),
            ChannelStripMsg::CompThresh(_) | ChannelStripMsg::CompRatio(_)
            | ChannelStripMsg::CompType(_) | ChannelStripMsg::CompBypass(_) => Some(FxCategory::Comp),
            ChannelStripMsg::Saturation(_) | ChannelStripMsg::SaturationType(_)
            | ChannelStripMsg::SaturationBypass(_) => Some(FxCategory::Saturation),
            ChannelStripMsg::Gain(_) => Some(FxCategory::Gain),
            ChannelStripMsg::Trim(_) => Some(FxCategory::Trim),
            ChannelStripMsg::InterfaceGain(_) => Some(FxCategory::InterfaceGain),
            _ => None,
        }
    }
}

#[derive(Debug, Clone, Copy, PartialEq, Eq, Structural)]
pub enum TranslationErr {
    Dummy,
}

// ----
// These structs define actual routing logic
// ----

/// Enumerates the different slots in the channel strip. Each slot has a specific role and
/// accepts certain FxCategories.
#[derive(Debug, Clone, Copy, PartialEq, Eq, Structural)]
pub enum SlotRole {
    Eq,
    Comp1,
    Comp2,
    Saturation,
    Gain,
}

/// Specifies which slot a given FxCategory can be routed to.
#[derive(Debug, Clone, Copy)]
pub struct SlotSpec {
    pub role: SlotRole,
    pub accepts: &'static [FxCategory],
}

/// The adapter that translates for a plugin.
#[derive(Debug, Clone, Copy, PartialEq, Eq, Structural)]
pub enum FxAdapterKind {
    ReaEq,
    TdrvosSlickEq,
    TdrMolotok,
}

/// The DAW messages adapter `kind` writes for a widget message; `above_half` says
/// whether the message's value is above 0.5.
pub open spec fn adapter_writes(kind: FxAdapterKind, track: TrackGuid, fx_index: i32, msg: ChannelStripMsg, above_half: bool) -> Seq<DataMsg> {
    match kind {
        FxAdapterKind::ReaEq => match crate::modes::reaper_fx_adapters::rea_eq::param_for(msg) {
            Some(p) => seq![crate::modes::reaper_fx_adapters::rea_eq::set_msg(track, fx_index, p)],
            None => Seq::empty(),
        },
        FxAdapterKind::TdrvosSlickEq => match crate::modes::reaper_fx_adapters::tdrvos_slick_eq::param_for(
            msg,
            above_half,
        ) {
            Some(p) => seq![crate::modes::reaper_fx_adapters::tdrvos_slick_eq::set_msg(track, fx_index, p)],
            None => Seq::empty(),
        },
        FxAdapterKind::TdrMolotok => match crate::modes::reaper_fx_adapters::tdr_molotok::param_for(msg) {
            Some(p) => seq![crate::modes::reaper_fx_adapters::tdr_molotok::set_msg(track, fx_index, p)],
            None => Seq::empty(),
        },
    }
}

/// The widget messages adapter `kind` reads from a reported parameter value.
pub open spec fn adapter_reads(kind: FxAdapterKind, param_index: i32, value: u32, at_least_half: bool, rounded: isize) -> Seq<ChannelStripMsg> {
    let m = match kind {
        FxAdapterKind::ReaEq => match crate::modes::reaper_fx::rea_eq::spec_decode(param_index, value, false, 0) {
            Some(p) => crate::modes::reaper_fx_adapters::rea_eq::msg_for(p),
            None => None,
        },
        FxAdapterKind::TdrvosSlickEq => match crate::modes::reaper_fx::tdrvos_slick_eq_au::spec_decode(
            param_index,
            value,
            at_least_half,
            rounded,
        ) {
            Some(p) => crate::modes::reaper_fx_adapters::tdrvos_slick_eq::msg_for(p),
            None => None,
        },
        FxAdapterKind::TdrMolotok => match crate::modes::reaper_fx::tdr_molotok_au::spec_decode(
            param_index,
            value,
            at_least_half,
            rounded,
        ) {
            Some(p) => crate::modes::reaper_fx_adapters::tdr_molotok::msg_for(p),
            None => None,
        },
    };
    match m {
        Some(x) => seq![x],
        None => Seq::empty(),
    }
}

impl FxAdapterKind {
    /// The DAW messages that carry out a widget message, written by this adapter.
    pub fn to_track(self, track: TrackGuid, fx_index: i32, msg: ChannelStripMsg, above_half: bool) -> (r: Vec<DataMsg>)
        ensures
            r@ == adapter_writes(self, track, fx_index, msg, above_half),
    {
        match self {
            FxAdapterKind::ReaEq => ReaEqAdapter.to_track_typed(track, fx_index, msg),
            FxAdapterKind::TdrvosSlickEq => TdrvosSlickEqAdapter.to_track_typed(track, fx_index, msg, above_half),
            FxAdapterKind::TdrMolotok => TdrMolotokAdapter.to_track_typed(track, fx_index, msg),
        }
    }

    /// The widget messages a reported parameter value shows as, read by this adapter;
    /// `at_least_half` and `rounded` are what the decoders read of the value.
    pub fn from_track(self, param_index: i32, value: u32, at_least_half: bool, rounded: isize) -> (r: Vec<ChannelStripMsg>)
        ensures
            r@ == adapter_reads(self, param_index, value, at_least_half, rounded),
    {
        match self {
            FxAdapterKind::ReaEq => ReaEqAdapter.from_track_typed(param_index, value),
            FxAdapterKind::TdrvosSlickEq => TdrvosSlickEqAdapter.from_track_typed(
                param_index,
                value,
                at_least_half,
                rounded,
            ),
            FxAdapterKind::TdrMolotok => TdrMolotokAdapter.from_track_typed(
                param_index,
                value,
                at_least_half,
                rounded,
            ),
        }
    }

    /// The plugin names the adapter serves.
    pub fn fx_names(self) -> (r: &'static [&'static str])
        ensures
            r@.map_values(|n: &'static str| n@) == adapter_names(self),
    {
        match self {
            FxAdapterKind::ReaEq => ReaEqAdapter.fx_names(),
            FxAdapterKind::TdrvosSlickEq => TdrvosSlickEqAdapter.fx_names(),
            FxAdapterKind::TdrMolotok => TdrMolotokAdapter.fx_names(),
        }
    }
}

#[derive(Debug, Clone, Copy)]
pub struct FxSpec {
    pub id: FxId,
    pub ui_type: FxUi,
    pub categories: &'static [FxCategory],
    pub adapter: FxAdapterKind,
}

/// Whether a plugin of `spec` can fill `slot`: one of its categories is one the slot
/// accepts.
pub open spec fn fits(spec: FxSpec, slot: SlotSpec) -> bool {
    exists|i: int, j: int|
        0 <= i < spec.categories@.len() && 0 <= j < slot.accepts@.len()
            && #[trigger] spec.categories@[i] == #[trigger] slot.accepts@[j]
}

/// The roles of the slots, in table order, that a plugin of `spec` can fill.
pub open spec fn roles_for(spec: FxSpec, slots: Seq<SlotSpec>) -> Seq<SlotRole>
    decreases slots.len(),
{
    if slots.len() == 0 {
        seq![]
    } else if fits(spec, slots.last()) {
        roles_for(spec, slots.drop_last()).push(slots.last().role)
    } else {
        roles_for(spec, slots.drop_last())
    }
}

/// The table after `role` is appended to the list of `k`, which starts empty.
pub open spec fn assoc_append(m: Seq<(FxId, Seq<SlotRole>)>, k: FxId, role: SlotRole) -> Seq<
    (FxId, Seq<SlotRole>),
> {
    if has_entry(m, k) {
        m.update(entry_pos(m, k), (k, m[entry_pos(m, k)].1.push(role)))
    } else {
        m.push((k, seq![role]))
    }
}

/// `m` with each of `roles` appended to the list of `k`.
pub open spec fn append_all(m: Seq<(FxId, Seq<SlotRole>)>, k: FxId, roles: Seq<SlotRole>) -> Seq<
    (FxId, Seq<SlotRole>),
>
    decreases roles.len(),
{
    if roles.len() == 0 {
        m
    } else {
        assoc_append(append_all(m, k, roles.drop_last()), k, roles.last())
    }
}

/// For each plugin, the slots it can fill; a plugin that fits no slot has no entry.
pub open spec fn fx_to_slots_of(specs: Seq<FxSpec>, slots: Seq<SlotSpec>) -> Seq<
    (FxId, Seq<SlotRole>),
>
    decreases specs.len(),
{
    if specs.len() == 0 {
        seq![]
    } else {
        append_all(
            fx_to_slots_of(specs.drop_last(), slots),
            specs.last().id,
            roles_for(specs.last(), slots),
        )
    }
}

/// Each plugin id with its spec; a later spec of the same id replaces an earlier one.
pub open spec fn by_fx_id_of(specs: Seq<FxSpec>) -> Seq<(FxId, FxSpec)>
    decreases specs.len(),
{
    if specs.len() == 0 {
        seq![]
    } else {
        assoc_insert(by_fx_id_of(specs.drop_last()), specs.last().id, specs.last())
    }
}

/// `m` with each of `names` mapped to `id`.
pub open spec fn insert_names(m: Seq<(Seq<char>, FxId)>, names: Seq<Seq<char>>, id: FxId) -> Seq<
    (Seq<char>, FxId),
>
    decreases names.len(),
{
    if names.len() == 0 {
        m
    } else {
        assoc_insert(insert_names(m, names.drop_last(), id), names.last(), id)
    }
}

/// The names an adapter serves, as `FxAdapterKind::fx_names` returns them.
pub open spec fn adapter_names(a: FxAdapterKind) -> Seq<Seq<char>> {
    seq![
        match a {
            FxAdapterKind::ReaEq => crate::modes::reaper_fx::rea_eq::FX_NAME@,
            FxAdapterKind::TdrvosSlickEq => crate::modes::reaper_fx::tdrvos_slick_eq_au::FX_NAME@,
            FxAdapterKind::TdrMolotok => crate::modes::reaper_fx::tdr_molotok_au::FX_NAME@,
        },
    ]
}

/// The plugin names each spec's adapter serves, mapped to the spec's id; a later mapping
/// of a name replaces an earlier one.
pub open spec fn names_of(specs: Seq<FxSpec>) -> Seq<(Seq<char>, FxId)>
    decreases specs.len(),
{
    if specs.len() == 0 {
        seq![]
    } else {
        insert_names(names_of(specs.drop_last()), adapter_names(specs.last().adapter), specs.last().id)
    }
}

/// Find the entry of plugin `k` in a table whose keys are unique.
fn find_id<V>(m: &Vec<(FxId, V)>, k: FxId) -> (r: Option<usize>)
    requires
        unique_keys(m@),
    ensures
        r is Some <==> has_entry(m@, k),
        r matches Some(j) ==> j as int == entry_pos(m@, k),
{
    let mut j: usize = 0;
    while j < m.len()
        invariant
            0 <= j <= m.len(),
            unique_keys(m@),
            forall|q: int| 0 <= q < j ==> m@[q].0 != k,
        decreases m.len() - j,
    {
        if m[j].0 == k {
            proof {
                let p = entry_pos(m@, k);
                assert(m@[j as int].0 == k);
                if p != j {
                    if p < j {
                        assert(m@[p].0 != m@[j as int].0);
                    } else {
                        assert(m@[j as int].0 != m@[p].0);
                    }
                }
            }
            return Some(j);
        }
        j = j + 1;
    }
    None
}

proof fn lemma_assoc_append_unique(m: Seq<(FxId, Seq<SlotRole>)>, k: FxId, role: SlotRole)
    requires
        unique_keys(m),
    ensures
        unique_keys(assoc_append(m, k, role)),
{
    if has_entry(m, k) {
        lemma_assoc_insert_unique(m, k, m[entry_pos(m, k)].1.push(role));
        assert(assoc_append(m, k, role) == assoc_insert(m, k, m[entry_pos(m, k)].1.push(role)));
    } else {
        lemma_assoc_insert_unique(m, k, seq![role]);
        assert(assoc_append(m, k, role) == assoc_insert(m, k, seq![role]));
    }
}

/// Whether a plugin of `spec` can fill `slot`.
fn fits_exec(spec: &FxSpec, slot: &SlotSpec) -> (r: bool)
    ensures
        r == fits(*spec, *slot),
{
    let mut i: usize = 0;
    while i < spec.categories.len()
        invariant
            0 <= i <= spec.categories@.len(),
            forall|a: int, b: int|
                0 <= a < i && 0 <= b < slot.accepts@.len() ==> spec.categories@[a]
                    != slot.accepts@[b],
        decreases spec.categories.len() - i,
    {
        let mut j: usize = 0;
        while j < slot.accepts.len()
            invariant
                0 <= i < spec.categories@.len(),
                0 <= j <= slot.accepts@.len(),
                forall|b: int| 0 <= b < j ==> spec.categories@[i as int] != slot.accepts@[b],
            decreases slot.accepts.len() - j,
        {
            if spec.categories[i] == slot.accepts[j] {
                assert(spec.categories@[i as int] == slot.accepts@[j as int]);
                return true;
            }
            j = j + 1;
        }
        i = i + 1;
    }
    false
}

fn build_by_fx_id(specs: &'static [FxSpec]) -> (r: Vec<(FxId, FxSpec)>)
    ensures
        r@ == by_fx_id_of(specs@),
        unique_keys(r@),
{
    let mut r: Vec<(FxId, FxSpec)> = Vec::new();
    let mut i: usize = 0;
    while i < specs.len()
        invariant
            0 <= i <= specs@.len(),
            r@ == by_fx_id_of(specs@.take(i as int)),
            unique_keys(r@),
        decreases specs.len() - i,
    {
        let spec = specs[i];
        proof {
            assert(specs@.take(i + 1).drop_last() =~= specs@.take(i as int));
            lemma_assoc_insert_unique(r@, spec.id, spec);
        }
        match find_id(&r, spec.id) {
            Some(j) => {
                r.set(j, (spec.id, spec));
            },
            None => {
                r.push((spec.id, spec));
            },
        }
        i = i + 1;
    }
    assert(specs@.take(specs@.len() as int) =~= specs@);
    r
}

spec fn roles_view(m: Seq<(FxId, Vec<SlotRole>)>) -> Seq<(FxId, Seq<SlotRole>)> {
    m.map_values(|e: (FxId, Vec<SlotRole>)| (e.0, e.1@))
}

/// Append `role` to the list of `k`.
fn append_role(m: &mut Vec<(FxId, Vec<SlotRole>)>, k: FxId, role: SlotRole)
    requires
        unique_keys(roles_view(old(m)@)),
    ensures
        roles_view(final(m)@) == assoc_append(roles_view(old(m)@), k, role),
        unique_keys(roles_view(final(m)@)),
{
    let ghost before = roles_view(m@);
    proof {
        lemma_assoc_append_unique(before, k, role);
        assert forall|i: int, j: int| 0 <= i < j < m@.len() implies #[trigger] m@[i].0
            != #[trigger] m@[j].0 by {
            assert(before[i].0 == m@[i].0 && before[j].0 == m@[j].0);
        }
    }
    match find_id(m, k) {
        Some(j) => {
            proof {
                assert(has_entry(before, k)) by {
                    assert(before[j as int].0 == k);
                }
                let p = entry_pos(before, k);
                assert(before[p].0 == m@[p].0);
                if p != j {
                    if p < j {
                        assert(before[p].0 != before[j as int].0);
                    } else {
                        assert(before[j as int].0 != before[p].0);
                    }
                }
            }
            let mut roles: Vec<SlotRole> = Vec::new();
            std::mem::swap(&mut roles, &mut m[j].1);
            roles.push(role);
            m.set(j, (k, roles));
            assert(roles_view(m@) =~= assoc_append(before, k, role));
        },
        None => {
            proof {
                if has_entry(before, k) {
                    let p = entry_pos(before, k);
                    assert(m@[p].0 == before[p].0);
                }
            }
            let mut roles: Vec<SlotRole> = Vec::new();
            roles.push(role);
            m.push((k, roles));
            assert(roles_view(m@) =~= assoc_append(before, k, role));
        },
    }
}

fn build_fx_to_slots(specs: &'static [FxSpec], slots: &'static [SlotSpec]) -> (r: Vec<
    (FxId, Vec<SlotRole>),
>)
    ensures
        roles_view(r@) == fx_to_slots_of(specs@, slots@),
        unique_keys(roles_view(r@)),
{
    let mut r: Vec<(FxId, Vec<SlotRole>)> = Vec::new();
    assert(roles_view(r@) =~= Seq::<(FxId, Seq<SlotRole>)>::empty());
    let mut i: usize = 0;
    while i < specs.len()
        invariant
            0 <= i <= specs@.len(),
            roles_view(r@) == fx_to_slots_of(specs@.take(i as int), slots@),
            unique_keys(roles_view(r@)),
        decreases specs.len() - i,
    {
        let spec = specs[i];
        let ghost start = roles_view(r@);
        let mut k: usize = 0;
        while k < slots.len()
            invariant
                0 <= k <= slots@.len(),
                spec == specs@[i as int],
                roles_view(r@) == append_all(start, spec.id, roles_for(spec, slots@.take(k as int))),
                unique_keys(roles_view(r@)),
            decreases slots.len() - k,
        {
            let slot = slots[k];
            let ghost prev_roles = roles_for(spec, slots@.take(k as int));
            assert(slots@.take(k + 1).drop_last() =~= slots@.take(k as int));
            assert(slots@.take(k + 1).last() == slot);
            if fits_exec(&spec, &slot) {
                append_role(&mut r, spec.id, slot.role);
                assert(prev_roles.push(slot.role).drop_last() =~= prev_roles);
            }
            k = k + 1;
        }
        assert(slots@.take(slots@.len() as int) =~= slots@);
        assert(specs@.take(i + 1).drop_last() =~= specs@.take(i as int));
        i = i + 1;
    }
    assert(specs@.take(specs@.len() as int) =~= specs@);
    r
}

spec fn names_view_of(m: Seq<(&'static str, FxId)>) -> Seq<(Seq<char>, FxId)> {
    m.map_values(|e: (&'static str, FxId)| (e.0@, e.1))
}

/// Find the entry of `name` in a table whose names are unique.
fn find_name(m: &Vec<(&'static str, FxId)>, name: &str) -> (r: Option<usize>)
    requires
        unique_keys(names_view_of(m@)),
    ensures
        r is Some <==> has_entry(names_view_of(m@), name@),
        r matches Some(j) ==> j as int == entry_pos(names_view_of(m@), name@),
{
    let ghost v = names_view_of(m@);
    let mut j: usize = 0;
    while j < m.len()
        invariant
            0 <= j <= m.len(),
            v == names_view_of(m@),
            unique_keys(v),
            forall|q: int| 0 <= q < j ==> v[q].0 != name@,
        decreases m.len() - j,
    {
        if same_str(m[j].0, name) {
            proof {
                let p = entry_pos(v, name@);
                assert(v[j as int].0 == name@);
                if p != j {
                    if p < j {
                        assert(v[p].0 != v[j as int].0);
                    } else {
                        assert(v[j as int].0 != v[p].0);
                    }
                }
            }
            return Some(j);
        }
        j = j + 1;
    }
    proof {
        if has_entry(v, name@) {
            let p = entry_pos(v, name@);
            assert(v[p].0 == name@);
        }
    }
    None
}

fn build_names(specs: &'static [FxSpec]) -> (r: Vec<(&'static str, FxId)>)
    ensures
        names_view_of(r@) == names_of(specs@),
        unique_keys(names_view_of(r@)),
{
    let mut r: Vec<(&'static str, FxId)> = Vec::new();
    assert(names_view_of(r@) =~= Seq::<(Seq<char>, FxId)>::empty());
    let mut i: usize = 0;
    while i < specs.len()
        invariant
            0 <= i <= specs@.len(),
            names_view_of(r@) == names_of(specs@.take(i as int)),
            unique_keys(names_view_of(r@)),
        decreases specs.len() - i,
    {
        let spec = specs[i];
        let names = spec.adapter.fx_names();
        let ghost all = names@.map_values(|n: &'static str| n@);
        let ghost start = names_view_of(r@);
        let mut k: usize = 0;
        while k < names.len()
            invariant
                0 <= k <= names@.len(),
                all == names@.map_values(|n: &'static str| n@),
                names_view_of(r@) == insert_names(start, all.take(k as int), spec.id),
                unique_keys(names_view_of(r@)),
            decreases names.len() - k,
        {
            let name = names[k];
            let ghost before = names_view_of(r@);
            assert(all.take(k + 1).drop_last() =~= all.take(k as int));
            assert(all.take(k + 1).last() == name@);
            proof {
                lemma_assoc_insert_unique(before, name@, spec.id);
            }
            match find_name(&r, name) {
                Some(j) => {
                    r.set(j, (name, spec.id));
                },
                None => {
                    r.push((name, spec.id));
                },
            }
            assert(names_view_of(r@) =~= assoc_insert(before, name@, spec.id));
            k = k + 1;
        }
        assert(all.take(all.len() as int) =~= all);
        assert(specs@.take(i + 1).drop_last() =~= specs@.take(i as int));
        i = i + 1;
    }
    assert(specs@.take(specs@.len() as int) =~= specs@);
    r
}

/// The registry of slots and plugins. Known at compile-time, doesn't change at runtime.
pub struct RoutingRegistry {
    pub slots: &'static [SlotSpec],
    pub fx_specs: &'static [FxSpec],
    /// Each plugin id with its spec.
    pub by_fx_id: Vec<(FxId, FxSpec)>,
    /// Each plugin id with the slots it can fill (derived).
    pub fx_to_slots: Vec<(FxId, Vec<SlotRole>)>,
    /// Each plugin name REAPER shows with the plugin's id (derived).
    pub name_to_fx_id: Vec<(&'static str, FxId)>,
}

impl RoutingRegistry {
    pub open spec fn fx_to_slots_view(&self) -> Seq<(FxId, Seq<SlotRole>)> {
        self.fx_to_slots@.map_values(|e: (FxId, Vec<SlotRole>)| (e.0, e.1@))
    }

    pub open spec fn names_view(&self) -> Seq<(Seq<char>, FxId)> {
        self.name_to_fx_id@.map_values(|e: (&'static str, FxId)| (e.0@, e.1))
    }

    /// Whether the derived tables are what the slots and specs give.
    pub open spec fn wf(&self) -> bool {
        &&& self.by_fx_id@ == by_fx_id_of(self.fx_specs@)
        &&& self.fx_to_slots_view() == fx_to_slots_of(self.fx_specs@, self.slots@)
        &&& self.names_view() == names_of(self.fx_specs@)
        &&& unique_keys(self.by_fx_id@)
        &&& unique_keys(self.fx_to_slots_view())
        &&& unique_keys(self.names_view())
    }

    pub fn new() -> (r: Self)
        ensures
            r.wf(),
            r.slots@.len() == 5,
            r.slots@[0].role == SlotRole::Eq && r.slots@[0].accepts@ == seq![FxCategory::Eq],
            r.slots@[1].role == SlotRole::Comp1 && r.slots@[1].accepts@ == seq![FxCategory::Comp],
            r.slots@[2].role == SlotRole::Comp2 && r.slots@[2].accepts@ == seq![FxCategory::Comp],
            r.slots@[3].role == SlotRole::Saturation && r.slots@[3].accepts@ == seq![
                FxCategory::Saturation,
            ],
            r.slots@[4].role == SlotRole::Gain && r.slots@[4].accepts@ == seq![FxCategory::Gain],
            r.fx_specs@.len() == 1,
            r.fx_specs@[0].id == FxId::ReaEQ,
            r.fx_specs@[0].ui_type == FxUi::Eq(EqType::Digital),
            r.fx_specs@[0].categories@ == seq![FxCategory::Eq],
            r.fx_specs@[0].adapter == FxAdapterKind::ReaEq,
            r.by_fx_id@ == seq![(FxId::ReaEQ, r.fx_specs@[0])],
            r.fx_to_slots_view() == seq![(FxId::ReaEQ, seq![SlotRole::Eq])],
            r.names_view() == seq![(crate::modes::reaper_fx::rea_eq::FX_NAME@, FxId::ReaEQ)],
    {
        let slots: &'static [SlotSpec] = &[
            SlotSpec { role: SlotRole::Eq, accepts: &[FxCategory::Eq] },
            SlotSpec { role: SlotRole::Comp1, accepts: &[FxCategory::Comp] },
            SlotSpec { role: SlotRole::Comp2, accepts: &[FxCategory::Comp] },
            SlotSpec { role: SlotRole::Saturation, accepts: &[FxCategory::Saturation] },
            SlotSpec { role: SlotRole::Gain, accepts: &[FxCategory::Gain] },
        ];
        let fx_specs: &'static [FxSpec] = &[
            FxSpec {
                id: FxId::ReaEQ,
                ui_type: FxUi::Eq(EqType::Digital),
                categories: &[FxCategory::Eq],
                adapter: FxAdapterKind::ReaEq,
            },
        ];
        let by_fx_id = build_by_fx_id(fx_specs);
        let fx_to_slots = build_fx_to_slots(fx_specs, slots);
        let name_to_fx_id = build_names(fx_specs);
        let r = RoutingRegistry { slots, fx_specs, by_fx_id, fx_to_slots, name_to_fx_id };
        proof {
            let spec = fx_specs@[0];
            let sl = slots@;
            assert(fits(spec, sl[0])) by {
                assert(spec.categories@[0] == sl[0].accepts@[0]);
            }
            assert(sl.take(5) =~= sl);
            assert(sl.take(5).drop_last() =~= sl.take(4));
            assert(sl.take(4).drop_last() =~= sl.take(3));
            assert(sl.take(3).drop_last() =~= sl.take(2));
            assert(sl.take(2).drop_last() =~= sl.take(1));
            assert(sl.take(1).drop_last() =~= sl.take(0));
            assert(roles_for(spec, sl.take(0)) =~= Seq::<SlotRole>::empty());
            assert(roles_for(spec, sl.take(1)) =~= seq![SlotRole::Eq]);
            assert(roles_for(spec, sl.take(2)) =~= seq![SlotRole::Eq]);
            assert(roles_for(spec, sl.take(3)) =~= seq![SlotRole::Eq]);
            assert(roles_for(spec, sl.take(4)) =~= seq![SlotRole::Eq]);
            assert(roles_for(spec, sl) =~= seq![SlotRole::Eq]);
            assert(fx_specs@.drop_last() =~= Seq::<FxSpec>::empty());
            assert(seq![SlotRole::Eq].drop_last() =~= Seq::<SlotRole>::empty());
            let e = Seq::<(FxId, Seq<SlotRole>)>::empty();
            assert(!has_entry(e, FxId::ReaEQ));
            assert(append_all(e, FxId::ReaEQ, Seq::<SlotRole>::empty()) == e);
            assert(assoc_append(e, FxId::ReaEQ, SlotRole::Eq) =~= seq![
                (FxId::ReaEQ, seq![SlotRole::Eq]),
            ]);
            assert(fx_to_slots_of(fx_specs@.drop_last(), sl) == e);
            assert(!has_entry(Seq::<(FxId, FxSpec)>::empty(), FxId::ReaEQ));
            assert(by_fx_id_of(fx_specs@.drop_last()) =~= Seq::<(FxId, FxSpec)>::empty());
            assert(by_fx_id_of(fx_specs@) =~= seq![(FxId::ReaEQ, spec)]);
            let names = adapter_names(FxAdapterKind::ReaEq);
            assert(names.drop_last() =~= Seq::<Seq<char>>::empty());
            let en = Seq::<(Seq<char>, FxId)>::empty();
            assert(!has_entry(en, names[0]));
            assert(names_of(fx_specs@.drop_last()) =~= en);
            assert(insert_names(en, names.drop_last(), FxId::ReaEQ) == en);
            assert(assoc_insert(en, names[0], FxId::ReaEQ) =~= seq![(names[0], FxId::ReaEQ)]);
            assert(names_of(fx_specs@) =~= seq![
                (crate::modes::reaper_fx::rea_eq::FX_NAME@, FxId::ReaEQ),
            ]);
        }
        r
    }

    /// The spec of the plugin that REAPER shows as `name`, if the registry knows it.
    pub fn get_spec_by_name(&self, name: &str) -> (r: Option<&FxSpec>)
        requires
            self.wf(),
        ensures
            r is Some <==> (lookup(self.names_view(), name@) matches Some(id) && lookup(
                self.by_fx_id@,
                id,
            ) is Some),
            r matches Some(spec) ==> Some(*spec) == lookup(
                self.by_fx_id@,
                lookup(self.names_view(), name@).unwrap(),
            ),
    {
        assert(self.names_view() =~= names_view_of(self.name_to_fx_id@));
        match find_name(&self.name_to_fx_id, name) {
            None => None,
            Some(j) => {
                let id = self.name_to_fx_id[j].1;
                assert(names_view_of(self.name_to_fx_id@)[j as int].1 == id);
                match find_id(&self.by_fx_id, id) {
                    None => None,
                    Some(k) => Some(&self.by_fx_id[k].1),
                }
            },
        }
    }
}

/// A plugin's GUID.
pub type FxGuid = TrackGuid;

/// A plugin on the track, of a kind the registry knows.
#[derive(Debug, Clone, Copy)]
pub struct FxInstance {
    pub spec: FxSpec,
    pub guid: FxGuid,
}

/// One slot of the channel strip: the plugin it is bound to, if any, and every plugin
/// that was ever given to it, oldest first.
pub struct SlotBinding {
    pub role: SlotRole,
    pub active_instance: Option<FxInstance>,
    pub owned_instances: Vec<FxInstance>,
}

/// The plain values of a slot.
pub struct SlotState {
    pub role: SlotRole,
    pub active: Option<FxInstance>,
    pub owned: Seq<FxInstance>,
}

impl SlotBinding {
    pub open spec fn state(&self) -> SlotState {
        SlotState { role: self.role, active: self.active_instance, owned: self.owned_instances@ }
    }

    fn new(role: SlotRole) -> (r: Self)
        ensures
            r.state() == (SlotState { role, active: None, owned: Seq::empty() }),
    {
        SlotBinding { role, active_instance: None, owned_instances: Vec::new() }
    }
}

/// The slots of the channel strip, in the order they are searched: EQ, first
/// compressor, second compressor, saturation, gain.
pub struct Slots {
    pub eq: SlotBinding,
    pub comp1: SlotBinding,
    pub comp2: SlotBinding,
    pub saturation: SlotBinding,
    pub gain: SlotBinding,
}

impl Slots {
    pub open spec fn states(&self) -> Seq<SlotState> {
        seq![
            self.eq.state(),
            self.comp1.state(),
            self.comp2.state(),
            self.saturation.state(),
            self.gain.state(),
        ]
    }

    fn new() -> (r: Self)
        ensures
            r.states() == seq![
                SlotState { role: SlotRole::Eq, active: None, owned: Seq::empty() },
                SlotState { role: SlotRole::Comp1, active: None, owned: Seq::empty() },
                SlotState { role: SlotRole::Comp2, active: None, owned: Seq::empty() },
                SlotState { role: SlotRole::Saturation, active: None, owned: Seq::empty() },
                SlotState { role: SlotRole::Gain, active: None, owned: Seq::empty() },
            ],
    {
        Slots {
            eq: SlotBinding::new(SlotRole::Eq),
            comp1: SlotBinding::new(SlotRole::Comp1),
            comp2: SlotBinding::new(SlotRole::Comp2),
            saturation: SlotBinding::new(SlotRole::Saturation),
            gain: SlotBinding::new(SlotRole::Gain),
        }
    }
}

/// Where the slot of `role` stands in the search order.
pub open spec fn slot_index(role: SlotRole) -> int {
    match role {
        SlotRole::Eq => 0,
        SlotRole::Comp1 => 1,
        SlotRole::Comp2 => 2,
        SlotRole::Saturation => 3,
        SlotRole::Gain => 4,
    }
}

/// What the router knows of any plugin on the track: its name, its position in the
/// chain, and whether it is on.
pub struct PluginInfo {
    pub name: String,
    pub fx_idx: usize,
    pub enabled: bool,
}

/// The plain values of a table of plugins.
pub open spec fn plugins_view(m: Seq<(FxGuid, PluginInfo)>) -> Seq<(FxGuid, (Seq<char>, usize, bool))> {
    m.map_values(|e: (FxGuid, PluginInfo)| (e.0, (e.1.name@, e.1.fx_idx, e.1.enabled)))
}

/// The message that tells the widgets a slot was filled by a plugin found by name.
pub open spec fn filled_msg(role: SlotRole) -> ChannelStripMsg {
    match role {
        SlotRole::Eq => ChannelStripMsg::EnableEq(EqType::Digital),
        SlotRole::Comp1 => ChannelStripMsg::EnableComp1(CompType::Digital),
        SlotRole::Comp2 => ChannelStripMsg::EnableComp2(CompType::Digital),
        SlotRole::Saturation => ChannelStripMsg::EnableSaturation(SaturationType::Console),
        SlotRole::Gain => ChannelStripMsg::EnableGain,
    }
}

/// The message that tells the widgets a slot lost its plugin.
pub open spec fn emptied_msg(role: SlotRole) -> ChannelStripMsg {
    match role {
        SlotRole::Eq => ChannelStripMsg::DisableEq,
        SlotRole::Comp1 => ChannelStripMsg::DisableComp1,
        SlotRole::Comp2 => ChannelStripMsg::DisableComp2,
        SlotRole::Saturation => ChannelStripMsg::DisableSaturation,
        SlotRole::Gain => ChannelStripMsg::DisableGain,
    }
}

/// The message a plugin owned by the slot of `role` gives when a plugin is turned on:
/// its kind of UI, shown in that slot.
pub open spec fn shown_msg(role: SlotRole, inst: FxInstance) -> Option<ChannelStripMsg> {
    match inst.spec.ui_type {
        FxUi::Eq(t) => Some(ChannelStripMsg::EnableEq(t)),
        FxUi::Comp(t) => if role == SlotRole::Comp1 {
            Some(ChannelStripMsg::EnableComp1(t))
        } else if role == SlotRole::Comp2 {
            Some(ChannelStripMsg::EnableComp2(t))
        } else {
            None
        },
        FxUi::Saturation(t) => Some(ChannelStripMsg::EnableSaturation(t)),
        FxUi::Gain => Some(ChannelStripMsg::EnableGain),
        _ => None,
    }
}

/// The walk over the first `n` plugins a slot owns when plugin `g` is turned on: each
/// one that is `g` becomes the slot's active plugin, and the walk stops at the first
/// one that gives a message. The slot's active plugin after the walk, and that message.
pub open spec fn enable_walk(s: SlotState, g: FxGuid, n: int) -> (Option<FxInstance>, Option<ChannelStripMsg>)
    decreases n,
{
    if n <= 0 {
        (s.active, None)
    } else {
        let (a, m) = enable_walk(s, g, n - 1);
        if m is Some {
            (a, m)
        } else {
            let inst = s.owned[n - 1];
            (if inst.guid == g { Some(inst) } else { a }, shown_msg(s.role, inst))
        }
    }
}

/// The slots from the `k`-th on after plugin `g` is turned on, walking slot by slot
/// until one gives a message; with that message.
pub open spec fn enable_slots(states: Seq<SlotState>, g: FxGuid, k: int) -> (Seq<SlotState>, Option<ChannelStripMsg>)
    decreases states.len() - k,
{
    if k < 0 || k >= states.len() {
        (states, None)
    } else {
        let s = states[k];
        let (a, m) = enable_walk(s, g, s.owned.len() as int);
        let next = states.update(k, SlotState { active: a, ..s });
        if m is Some {
            (next, m)
        } else {
            enable_slots(next, g, k + 1)
        }
    }
}

/// The slots from the `k`-th on after plugin `g` is turned off: the first slot whose
/// active plugin is `g` loses it; with the message that says so.
pub open spec fn disable_slots(states: Seq<SlotState>, g: FxGuid, k: int) -> (Seq<SlotState>, Option<ChannelStripMsg>)
    decreases states.len() - k,
{
    if k < 0 || k >= states.len() {
        (states, None)
    } else {
        let s = states[k];
        if s.active matches Some(i) && i.guid == g {
            (states.update(k, SlotState { active: None, ..s }), Some(emptied_msg(s.role)))
        } else {
            disable_slots(states, g, k + 1)
        }
    }
}

/// The adapter of slot `s`, if its active plugin is `g`.
pub open spec fn slot_adapter(s: SlotState, g: FxGuid) -> Seq<FxAdapterKind> {
    match s.active {
        Some(i) => if i.guid == g {
            seq![i.spec.adapter]
        } else {
            Seq::empty()
        },
        None => Seq::empty(),
    }
}

/// The adapters of the first `n` slots, in order, whose active plugin is `g`.
pub open spec fn adapters_for(states: Seq<SlotState>, g: FxGuid, n: int) -> Seq<FxAdapterKind>
    decreases n,
{
    if n <= 0 {
        Seq::empty()
    } else {
        adapters_for(states, g, n - 1) + slot_adapter(states[n - 1], g)
    }
}

/// The singleton or empty sequence of an optional message.
pub open spec fn msgs_of(m: Option<ChannelStripMsg>) -> Seq<ChannelStripMsg> {
    match m {
        Some(x) => seq![x],
        None => Seq::empty(),
    }
}

/// What a report from the DAW gives the channel strip.
#[derive(Debug)]
pub enum UpstreamTranslation {
    /// Messages for the widgets.
    Msgs(Vec<ChannelStripMsg>),
    /// A parameter value of a plugin active in some slots: the adapters of those slots,
    /// in slot order; the first of them that reads the value gives the message.
    ForAdapters(Vec<FxAdapterKind>),
}

/// Routes between the widgets of a track's channel strip and the plugins on that track.
pub struct ChannelStripRouter {
    track_guid: TrackGuid,
    routing_registry: RoutingRegistry,
    slots: Slots,
    plugins: Vec<(FxGuid, PluginInfo)>,
}

impl RoutingRegistry {
    /// Whether every name the registry knows leads to the spec of a plugin.
    pub open spec fn names_resolve(&self) -> bool {
        forall|i: int|
            0 <= i < self.names_view().len() ==> #[trigger] has_entry(
                self.by_fx_id@,
                self.names_view()[i].1,
            )
    }

    /// Where the slots plugin `id` can fill stand in the table of them.
    fn roles_of(&self, id: FxId) -> (r: Option<usize>)
        requires
            self.wf(),
        ensures
            r is Some <==> has_entry(self.fx_to_slots_view(), id),
            r matches Some(j) ==> j < self.fx_to_slots@.len() && lookup(self.fx_to_slots_view(), id)
                == Some(self.fx_to_slots@[j as int].1@),
    {
        let ghost m = self.fx_to_slots@;
        let ghost v = self.fx_to_slots_view();
        assert(forall|q: int| 0 <= q < m.len() ==> #[trigger] v[q].0 == m[q].0);
        assert forall|a: int, b: int| 0 <= a < b < m.len() implies #[trigger] m[a].0 != #[trigger] m[b].0 by {
            assert(v[a].0 != v[b].0);
        }
        let r = find_id(&self.fx_to_slots, id);
        proof {
            match r {
                Some(j) => {
                    assert(v[j as int].0 == id);
                    let p = entry_pos(v, id);
                    if p != j {
                        if p < j {
                            assert(v[p].0 != v[j as int].0);
                        } else {
                            assert(v[j as int].0 != v[p].0);
                        }
                    }
                },
                None => {
                    if has_entry(v, id) {
                        let p = entry_pos(v, id);
                        assert(m[p].0 == id);
                    }
                },
            }
        }
        r
    }

    /// The spec of plugin `id`, if the registry has it.
    fn spec_of(&self, id: FxId) -> (r: Option<FxSpec>)
        requires
            self.wf(),
        ensures
            r == lookup(self.by_fx_id@, id),
    {
        match find_id(&self.by_fx_id, id) {
            Some(k) => Some(self.by_fx_id[k].1),
            None => None,
        }
    }
}

/// Put `inst` in a slot and make it the slot's active plugin.
fn adopt(b: &mut SlotBinding, inst: FxInstance)
    ensures
        final(b).state() == (SlotState {
            active: Some(inst),
            owned: old(b).state().owned.push(inst),
            ..old(b).state()
        }),
{
    b.owned_instances.push(inst);
    b.active_instance = Some(inst);
}

/// The message a plugin owned by the slot of `role` gives when a plugin is turned on.
fn shown_msg_exec(role: SlotRole, inst: &FxInstance) -> (r: Option<ChannelStripMsg>)
    ensures
        r == shown_msg(role, *inst),
{
    match inst.spec.ui_type {
        FxUi::Eq(t) => Some(ChannelStripMsg::EnableEq(t)),
        FxUi::Comp(t) => {
            if role == SlotRole::Comp1 {
                Some(ChannelStripMsg::EnableComp1(t))
            } else if role == SlotRole::Comp2 {
                Some(ChannelStripMsg::EnableComp2(t))
            } else {
                None
            }
        },
        FxUi::Saturation(t) => Some(ChannelStripMsg::EnableSaturation(t)),
        FxUi::Gain => Some(ChannelStripMsg::EnableGain),
        _ => None,
    }
}

/// Walk a slot's plugins when plugin `g` is turned on.
fn enable_in(b: &mut SlotBinding, g: FxGuid) -> (r: Option<ChannelStripMsg>)
    ensures
        (final(b).state().active, r) == enable_walk(
            old(b).state(),
            g,
            old(b).state().owned.len() as int,
        ),
        final(b).role == old(b).role,
        final(b).owned_instances@ == old(b).owned_instances@,
{
    let ghost s0 = b.state();
    let mut i: usize = 0;
    while i < b.owned_instances.len()
        invariant
            0 <= i <= b.owned_instances.len(),
            s0 == old(b).state(),
            b.role == s0.role,
            b.owned_instances@ == s0.owned,
            (b.active_instance, None::<ChannelStripMsg>) == enable_walk(s0, g, i as int),
        decreases b.owned_instances.len() - i,
    {
        let inst = b.owned_instances[i];
        if inst.guid == g {
            b.active_instance = Some(inst);
        }
        let m = shown_msg_exec(b.role, &inst);
        assert(enable_walk(s0, g, i + 1) == (b.active_instance, m));
        if m.is_some() {
            proof {
                let n = s0.owned.len() as int;
                lemma_enable_walk_stops(s0, g, i + 1, n);
            }
            return m;
        }
        i = i + 1;
    }
    None
}

/// Once the walk has given a message, walking further changes nothing.
proof fn lemma_enable_walk_stops(s: SlotState, g: FxGuid, i: int, n: int)
    requires
        0 <= i <= n,
        enable_walk(s, g, i).1 is Some,
    ensures
        enable_walk(s, g, n) == enable_walk(s, g, i),
    decreases n - i,
{
    if i < n {
        lemma_enable_walk_stops(s, g, i, n - 1);
    }
}

/// Add the adapter of slot `b` to `v`, if its active plugin is `g`.
fn push_adapter(v: &mut Vec<FxAdapterKind>, b: &SlotBinding, g: FxGuid)
    ensures
        final(v)@ == old(v)@ + slot_adapter(b.state(), g),
{
    if let Some(i) = b.active_instance {
        if i.guid == g {
            v.push(i.spec.adapter);
        }
    }
}

/// Take plugin `g` out of a slot, if it is the slot's active plugin.
fn disable_in(b: &mut SlotBinding, g: FxGuid) -> (r: Option<ChannelStripMsg>)
    ensures
        old(b).state().active matches Some(i) && i.guid == g ==> final(b).state() == (SlotState {
            active: None,
            ..old(b).state()
        }) && r == Some(emptied_msg(old(b).role)),
        !(old(b).state().active matches Some(i) && i.guid == g) ==> final(b).state() == old(
            b,
        ).state() && r is None,
{
    match b.active_instance {
        Some(i) => {
            if i.guid == g {
                b.active_instance = None;
                Some(match b.role {
                    SlotRole::Eq => ChannelStripMsg::DisableEq,
                    SlotRole::Comp1 => ChannelStripMsg::DisableComp1,
                    SlotRole::Comp2 => ChannelStripMsg::DisableComp2,
                    SlotRole::Saturation => ChannelStripMsg::DisableSaturation,
                    SlotRole::Gain => ChannelStripMsg::DisableGain,
                })
            } else {
                None
            }
        },
        None => None,
    }
}

/// The slots after plugin `inst` found by name is put in the slot of `role`.
pub open spec fn adopted(states: Seq<SlotState>, role: SlotRole, inst: FxInstance) -> Seq<SlotState> {
    let k = slot_index(role);
    states.update(k, SlotState { active: Some(inst), owned: states[k].owned.push(inst), ..states[k] })
}

/// The plugins after a name and position are reported for plugin `g`: both are kept; a
/// plugin seen for the first time counts as on.
pub open spec fn named(plugins: Seq<(FxGuid, (Seq<char>, usize, bool))>, g: FxGuid, name: Seq<char>, idx: usize) -> Seq<(FxGuid, (Seq<char>, usize, bool))> {
    let enabled = match lookup(plugins, g) {
        Some(info) => info.2,
        None => true,
    };
    assoc_insert(plugins, g, (name, idx, enabled))
}

impl ChannelStripRouter {
    pub closed spec fn track(&self) -> TrackGuid {
        self.track_guid
    }

    /// The registry the router routes by.
    pub closed spec fn registry(&self) -> RoutingRegistry {
        self.routing_registry
    }

    /// The slots, in search order.
    pub closed spec fn slot_states(&self) -> Seq<SlotState> {
        self.slots.states()
    }

    /// Every plugin seen on the track: name, position and whether it is on.
    pub closed spec fn plugins(&self) -> Seq<(FxGuid, (Seq<char>, usize, bool))> {
        plugins_view(self.plugins@)
    }

    pub closed spec fn wf(&self) -> bool {
        &&& self.routing_registry.wf()
        &&& self.routing_registry.names_resolve()
        &&& unique_keys(self.plugins@)
        &&& self.slots.eq.role == SlotRole::Eq
        &&& self.slots.comp1.role == SlotRole::Comp1
        &&& self.slots.comp2.role == SlotRole::Comp2
        &&& self.slots.saturation.role == SlotRole::Saturation
        &&& self.slots.gain.role == SlotRole::Gain
    }

    /// A router for track `track_guid`: empty slots, no plugin seen.
    pub fn new(track_guid: TrackGuid) -> (r: Self)
        ensures
            r.wf(),
            r.track() == track_guid,
            r.slot_states() == seq![
                SlotState { role: SlotRole::Eq, active: None, owned: Seq::empty() },
                SlotState { role: SlotRole::Comp1, active: None, owned: Seq::empty() },
                SlotState { role: SlotRole::Comp2, active: None, owned: Seq::empty() },
                SlotState { role: SlotRole::Saturation, active: None, owned: Seq::empty() },
                SlotState { role: SlotRole::Gain, active: None, owned: Seq::empty() },
            ],
            r.plugins() == Seq::<(FxGuid, (Seq<char>, usize, bool))>::empty(),
            r.registry().names_view() == seq![(crate::modes::reaper_fx::rea_eq::FX_NAME@, FxId::ReaEQ)],
            r.registry().by_fx_id@ == seq![(FxId::ReaEQ, r.registry().fx_specs@[0])],
            r.registry().fx_to_slots_view() == seq![(FxId::ReaEQ, seq![SlotRole::Eq])],
            r.registry().fx_specs@[0].ui_type == FxUi::Eq(EqType::Digital),
            r.registry().fx_specs@[0].adapter == FxAdapterKind::ReaEq,
    {
        let routing_registry = RoutingRegistry::new();
        proof {
            let bv = routing_registry.by_fx_id@;
            assert(bv[0].0 == FxId::ReaEQ);
            assert(has_entry(bv, FxId::ReaEQ));
        }
        let r = ChannelStripRouter { track_guid, routing_registry, slots: Slots::new(), plugins: Vec::new() };
        assert(r.plugins() =~= Seq::<(FxGuid, (Seq<char>, usize, bool))>::empty());
        r
    }

    /// Turn the plugin `plugin_guid` on or off in what the router knows, if it knows it.
    pub fn set_plugin_enable(&mut self, plugin_guid: FxGuid, enabled: bool)
        requires
            old(self).wf(),
        ensures
            final(self).wf(),
            final(self).slot_states() == old(self).slot_states(),
            final(self).track() == old(self).track(),
            final(self).registry() == old(self).registry(),
            final(self).plugins() == match lookup(old(self).plugins(), plugin_guid) {
                Some(info) => assoc_insert(old(self).plugins(), plugin_guid, (info.0, info.1, enabled)),
                None => old(self).plugins(),
            },
    {
        let ghost pv = self.plugins();
        match find_guid(&self.plugins, plugin_guid) {
            Some(j) => {
                let ghost before = self.plugins@;
                let info = PluginInfo {
                    name: self.plugins[j].1.name.clone(),
                    fx_idx: self.plugins[j].1.fx_idx,
                    enabled,
                };
                self.plugins.set(j, (plugin_guid, info));
                proof {
                    lemma_plugins_view_set(before, j as int, plugin_guid, self.plugins@[j as int].1);
                }
            },
            None => {
                proof {
                    lemma_plugins_view_has_entry(self.plugins@, plugin_guid);
                }
            },
        }
    }

    /// The plugin at position `fx_index` of the chain, if one is known there.
    fn get_fx_guid_from_index(&self, fx_index: i32) -> (r: Option<FxGuid>)
        ensures
            r matches Some(g) ==> exists|j: int|
                0 <= j < self.plugins().len() && #[trigger] self.plugins()[j].0 == g
                    && self.plugins()[j].1.1 == fx_index as usize,
            r is None ==> forall|j: int|
                0 <= j < self.plugins().len() ==> #[trigger] self.plugins()[j].1.1 != fx_index as usize,
    {
        let want = fx_index as usize;
        let mut j: usize = 0;
        while j < self.plugins.len()
            invariant
                0 <= j <= self.plugins.len(),
                want == fx_index as usize,
                forall|q: int| 0 <= q < j ==> #[trigger] self.plugins()[q].1.1 != want,
            decreases self.plugins.len() - j,
        {
            if self.plugins[j].1.fx_idx == want {
                assert(self.plugins()[j as int].1.1 == want);
                assert(self.plugins()[j as int].0 == self.plugins@[j as int].0);
                return Some(self.plugins[j].0);
            }
            j = j + 1;
        }
        None
    }

    /// Keep the name and position reported for plugin `plugin_guid`; a plugin seen for
    /// the first time counts as on.
    pub fn update_plugin_state(&mut self, plugin_guid: FxGuid, plugin_name: &str, fx_index: i32)
        requires
            old(self).wf(),
        ensures
            final(self).wf(),
            final(self).slot_states() == old(self).slot_states(),
            final(self).track() == old(self).track(),
            final(self).registry() == old(self).registry(),
            final(self).plugins() == named(old(self).plugins(), plugin_guid, plugin_name@, fx_index as usize),
    {
        let ghost before = self.plugins@;
        let fx_idx = fx_index as usize;
        proof {
            lemma_plugins_view_has_entry(before, plugin_guid);
        }
        match find_guid(&self.plugins, plugin_guid) {
            Some(j) => {
                let info = PluginInfo {
                    name: plugin_name.to_owned(),
                    fx_idx,
                    enabled: self.plugins[j].1.enabled,
                };
                self.plugins.set(j, (plugin_guid, info));
                proof {
                    lemma_plugins_view_set(before, j as int, plugin_guid, self.plugins@[j as int].1);
                }
            },
            None => {
                let info = PluginInfo { name: plugin_name.to_owned(), fx_idx, enabled: true };
                self.plugins.push((plugin_guid, info));
                proof {
                    lemma_assoc_insert_unique(before, plugin_guid, self.plugins@[before.len() as int].1);
                    assert(plugins_view(self.plugins@) =~= plugins_view(before).push(
                        (plugin_guid, (plugin_name@, fx_idx, true)),
                    ));
                }
            },
        }
    }
}

/// The plain values of a table of plugins have an entry for `g` just when the table has.
proof fn lemma_plugins_view_has_entry(m: Seq<(FxGuid, PluginInfo)>, g: FxGuid)
    ensures
        has_entry(plugins_view(m), g) <==> has_entry(m, g),
        unique_keys(m) ==> unique_keys(plugins_view(m)),
        unique_keys(m) && has_entry(m, g) ==> entry_pos(plugins_view(m), g) == entry_pos(m, g),
{
    let v = plugins_view(m);
    assert(forall|q: int| 0 <= q < m.len() ==> #[trigger] v[q].0 == m[q].0);
    if has_entry(m, g) {
        let p = entry_pos(m, g);
        assert(v[p].0 == g);
    }
    if has_entry(v, g) {
        let p = entry_pos(v, g);
        assert(m[p].0 == g);
    }
    if unique_keys(m) {
        assert forall|a: int, b: int| 0 <= a < b < v.len() implies #[trigger] v[a].0 != #[trigger] v[b].0 by {
            assert(m[a].0 != m[b].0);
        }
        if has_entry(m, g) {
            let p = entry_pos(m, g);
            let q = entry_pos(v, g);
            if p != q {
                if p < q {
                    assert(m[p].0 != m[q].0);
                } else {
                    assert(m[q].0 != m[p].0);
                }
            }
        }
    }
}

/// Replacing the entry of `g` at its place in a table of plugins replaces it in the
/// plain values.
proof fn lemma_plugins_view_set(m: Seq<(FxGuid, PluginInfo)>, j: int, g: FxGuid, info: PluginInfo)
    requires
        unique_keys(m),
        0 <= j < m.len(),
        j == entry_pos(m, g),
        m[j].0 == g,
    ensures
        unique_keys(m.update(j, (g, info))),
        plugins_view(m.update(j, (g, info))) == assoc_insert(
            plugins_view(m),
            g,
            (info.name@, info.fx_idx, info.enabled),
        ),
        lookup(plugins_view(m), g) == Some((m[j].1.name@, m[j].1.fx_idx, m[j].1.enabled)),
{
    lemma_plugins_view_has_entry(m, g);
    lemma_assoc_insert_unique(m, g, info);
    assert(has_entry(m, g));
    assert(m.update(j, (g, info)) == assoc_insert(m, g, info));
    assert(plugins_view(m.update(j, (g, info))) =~= plugins_view(m).update(
        j,
        (g, (info.name@, info.fx_idx, info.enabled)),
    ));
}

/// Whether `f` is router `o` after a report from the DAW, with `r` what it gave.
pub open spec fn after_translation(o: ChannelStripRouter, msg: DataMsg, f: ChannelStripRouter, r: UpstreamTranslation) -> bool {
    let states = o.slot_states();
    let reg = o.registry();
    let none = r matches UpstreamTranslation::Msgs(v) && v@.len() == 0;
    &&& f.track() == o.track()
    &&& f.registry() == reg
    &&& match msg {
        DataMsg::FXName { fx_guid, fx_index, name, .. } => {
            &&& f.plugins() == named(o.plugins(), fx_guid, name@, fx_index as usize)
            &&& match lookup(reg.names_view(), name@) {
                Some(id) => match lookup(reg.fx_to_slots_view(), id) {
                    Some(roles) => if roles.len() > 0 {
                        let inst = FxInstance { spec: lookup(reg.by_fx_id@, id)->0, guid: fx_guid };
                        &&& f.slot_states() == adopted(states, roles[0], inst)
                        &&& r matches UpstreamTranslation::Msgs(v) && v@ == seq![filled_msg(roles[0])]
                    } else {
                        f.slot_states() == states && none
                    },
                    None => f.slot_states() == states && none,
                },
                None => f.slot_states() == states && none,
            }
        },
        DataMsg::FXEnabled { fx_guid, enabled, .. } => {
            let (after, m) = if enabled {
                enable_slots(states, fx_guid, 0)
            } else {
                disable_slots(states, fx_guid, 0)
            };
            &&& f.plugins() == o.plugins()
            &&& f.slot_states() == after
            &&& r matches UpstreamTranslation::Msgs(v) && v@ == msgs_of(m)
        },
        DataMsg::FXParamValue { fx_index, .. } => {
            let ps = o.plugins();
            &&& f.plugins() == ps
            &&& f.slot_states() == states
            &&& r matches UpstreamTranslation::ForAdapters(v) && ((exists|j: int|
                0 <= j < ps.len() && ps[j].1.1 == fx_index as usize && v@ == adapters_for(
                    states,
                    #[trigger] ps[j].0,
                    states.len() as int,
                )) || ((forall|j: int| 0 <= j < ps.len() ==> #[trigger] ps[j].1.1 != fx_index as usize)
                && v@.len() == 0))
        },
        _ => f.plugins() == o.plugins() && f.slot_states() == states && none,
    }
}

impl ChannelStripRouter {
    /// Put `inst` in the slot of `role` and make it active there.
    fn adopt_in(&mut self, role: SlotRole, inst: FxInstance)
        requires
            old(self).wf(),
        ensures
            final(self).wf(),
            final(self).slot_states() == adopted(old(self).slot_states(), role, inst),
            final(self).plugins() == old(self).plugins(),
            final(self).track() == old(self).track(),
            final(self).registry() == old(self).registry(),
    {
        let ghost s0 = self.slot_states();
        match role {
            SlotRole::Eq => adopt(&mut self.slots.eq, inst),
            SlotRole::Comp1 => adopt(&mut self.slots.comp1, inst),
            SlotRole::Comp2 => adopt(&mut self.slots.comp2, inst),
            SlotRole::Saturation => adopt(&mut self.slots.saturation, inst),
            SlotRole::Gain => adopt(&mut self.slots.gain, inst),
        }
        assert(self.slot_states() =~= adopted(s0, role, inst));
    }

    /// Walk the slots in order when plugin `g` is turned on, stopping at the first that
    /// gives a message.
    fn enable_all(&mut self, g: FxGuid) -> (r: Option<ChannelStripMsg>)
        requires
            old(self).wf(),
        ensures
            final(self).wf(),
            (final(self).slot_states(), r) == enable_slots(old(self).slot_states(), g, 0),
            final(self).plugins() == old(self).plugins(),
            final(self).track() == old(self).track(),
            final(self).registry() == old(self).registry(),
    {
        let ghost s0 = self.slot_states();
        let m = enable_in(&mut self.slots.eq, g);
        let ghost s1 = self.slot_states();
        assert(s1 =~= s0.update(0, SlotState { active: s1[0].active, ..s0[0] }));
        assert(enable_slots(s0, g, 0) == if m is Some { (s1, m) } else { enable_slots(s1, g, 1) });
        if m.is_some() {
            return m;
        }
        let m = enable_in(&mut self.slots.comp1, g);
        let ghost s2 = self.slot_states();
        assert(s2 =~= s1.update(1, SlotState { active: s2[1].active, ..s1[1] }));
        assert(enable_slots(s1, g, 1) == if m is Some { (s2, m) } else { enable_slots(s2, g, 2) });
        if m.is_some() {
            return m;
        }
        let m = enable_in(&mut self.slots.comp2, g);
        let ghost s3 = self.slot_states();
        assert(s3 =~= s2.update(2, SlotState { active: s3[2].active, ..s2[2] }));
        assert(enable_slots(s2, g, 2) == if m is Some { (s3, m) } else { enable_slots(s3, g, 3) });
        if m.is_some() {
            return m;
        }
        let m = enable_in(&mut self.slots.saturation, g);
        let ghost s4 = self.slot_states();
        assert(s4 =~= s3.update(3, SlotState { active: s4[3].active, ..s3[3] }));
        assert(enable_slots(s3, g, 3) == if m is Some { (s4, m) } else { enable_slots(s4, g, 4) });
        if m.is_some() {
            return m;
        }
        let m = enable_in(&mut self.slots.gain, g);
        let ghost s5 = self.slot_states();
        assert(s5 =~= s4.update(4, SlotState { active: s5[4].active, ..s4[4] }));
        assert(enable_slots(s4, g, 4) == if m is Some { (s5, m) } else { enable_slots(s5, g, 5) });
        m
    }

    /// Take plugin `g` out of the first slot, in order, where it is active.
    fn disable_all(&mut self, g: FxGuid) -> (r: Option<ChannelStripMsg>)
        requires
            old(self).wf(),
        ensures
            final(self).wf(),
            (final(self).slot_states(), r) == disable_slots(old(self).slot_states(), g, 0),
            final(self).plugins() == old(self).plugins(),
            final(self).track() == old(self).track(),
            final(self).registry() == old(self).registry(),
    {
        let ghost s0 = self.slot_states();
        let m = disable_in(&mut self.slots.eq, g);
        if m.is_some() {
            assert(self.slot_states() =~= s0.update(0, SlotState { active: None, ..s0[0] }));
            assert(disable_slots(s0, g, 0) == (self.slot_states(), m));
            return m;
        }
        assert(self.slot_states() =~= s0);
        assert(disable_slots(s0, g, 0) == disable_slots(s0, g, 1));
        let m = disable_in(&mut self.slots.comp1, g);
        if m.is_some() {
            assert(self.slot_states() =~= s0.update(1, SlotState { active: None, ..s0[1] }));
            assert(disable_slots(s0, g, 1) == (self.slot_states(), m));
            return m;
        }
        assert(self.slot_states() =~= s0);
        assert(disable_slots(s0, g, 1) == disable_slots(s0, g, 2));
        let m = disable_in(&mut self.slots.comp2, g);
        if m.is_some() {
            assert(self.slot_states() =~= s0.update(2, SlotState { active: None, ..s0[2] }));
            assert(disable_slots(s0, g, 2) == (self.slot_states(), m));
            return m;
        }
        assert(self.slot_states() =~= s0);
        assert(disable_slots(s0, g, 2) == disable_slots(s0, g, 3));
        let m = disable_in(&mut self.slots.saturation, g);
        if m.is_some() {
            assert(self.slot_states() =~= s0.update(3, SlotState { active: None, ..s0[3] }));
            assert(disable_slots(s0, g, 3) == (self.slot_states(), m));
            return m;
        }
        assert(self.slot_states() =~= s0);
        assert(disable_slots(s0, g, 3) == disable_slots(s0, g, 4));
        let m = disable_in(&mut self.slots.gain, g);
        if m.is_some() {
            assert(self.slot_states() =~= s0.update(4, SlotState { active: None, ..s0[4] }));
            assert(disable_slots(s0, g, 4) == (self.slot_states(), m));
            return m;
        }
        assert(self.slot_states() =~= s0);
        assert(disable_slots(s0, g, 4) == disable_slots(s0, g, 5));
        assert(disable_slots(s0, g, 5) == (s0, None::<ChannelStripMsg>));
        m
    }

    /// The adapters of the slots, in order, whose active plugin is `g`.
    fn active_adapters(&self, g: FxGuid) -> (r: Vec<FxAdapterKind>)
        ensures
            r@ == adapters_for(self.slot_states(), g, 5),
    {
        let ghost st = self.slot_states();
        let mut v: Vec<FxAdapterKind> = Vec::new();
        assert(v@ =~= adapters_for(st, g, 0));
        push_adapter(&mut v, &self.slots.eq, g);
        assert(v@ == adapters_for(st, g, 1));
        push_adapter(&mut v, &self.slots.comp1, g);
        assert(v@ == adapters_for(st, g, 2));
        push_adapter(&mut v, &self.slots.comp2, g);
        assert(v@ == adapters_for(st, g, 3));
        push_adapter(&mut v, &self.slots.saturation, g);
        assert(v@ == adapters_for(st, g, 4));
        push_adapter(&mut v, &self.slots.gain, g);
        v
    }

    /// Handle a report from the DAW about the track's plugins: a plugin name the registry
    /// knows fills the first slot the plugin can fill; turning a plugin on or off shows
    /// or empties slots; a parameter value goes to the adapters of the slots where its
    /// plugin is active.
    pub fn translate_message_from_upstream(&mut self, msg: DataMsg) -> (r: UpstreamTranslation)
        requires
            old(self).wf(),
        ensures
            final(self).wf(),
            after_translation(*old(self), msg, *final(self), r),
    {
        match msg {
            DataMsg::FXName { fx_guid, fx_index, name, .. } => {
                self.update_plugin_state(fx_guid, name.as_str(), fx_index);
                let ghost reg = self.routing_registry;
                assert(reg.names_view() =~= names_view_of(reg.name_to_fx_id@));
                match find_name(&self.routing_registry.name_to_fx_id, name.as_str()) {
                    Some(j) => {
                        let fx_id = self.routing_registry.name_to_fx_id[j].1;
                        assert(names_view_of(reg.name_to_fx_id@)[j as int].1 == fx_id);
                        match self.routing_registry.roles_of(fx_id) {
                            Some(k) => {
                                if self.routing_registry.fx_to_slots[k].1.len() == 0 {
                                    return UpstreamTranslation::Msgs(Vec::new());
                                }
                                let role = self.routing_registry.fx_to_slots[k].1[0];
                                assert(has_entry(reg.by_fx_id@, reg.names_view()[j as int].1));
                                match self.routing_registry.spec_of(fx_id) {
                                    Some(spec) => {
                                        let inst = FxInstance { spec, guid: fx_guid };
                                        self.adopt_in(role, inst);
                                        let msg = match role {
                                            SlotRole::Eq => ChannelStripMsg::EnableEq(EqType::Digital),
                                            SlotRole::Comp1 => ChannelStripMsg::EnableComp1(CompType::Digital),
                                            SlotRole::Comp2 => ChannelStripMsg::EnableComp2(CompType::Digital),
                                            SlotRole::Saturation => ChannelStripMsg::EnableSaturation(
                                                SaturationType::Console,
                                            ),
                                            SlotRole::Gain => ChannelStripMsg::EnableGain,
                                        };
                                        let mut v = Vec::new();
                                        v.push(msg);
                                        assert(v@ =~= seq![filled_msg(role)]);
                                        UpstreamTranslation::Msgs(v)
                                    },
                                    None => UpstreamTranslation::Msgs(Vec::new()),
                                }
                            },
                            None => UpstreamTranslation::Msgs(Vec::new()),
                        }
                    },
                    None => UpstreamTranslation::Msgs(Vec::new()),
                }
            },
            DataMsg::FXEnabled { fx_guid, enabled, .. } => {
                let m = if enabled {
                    self.enable_all(fx_guid)
                } else {
                    self.disable_all(fx_guid)
                };
                let mut v = Vec::new();
                if let Some(x) = m {
                    v.push(x);
                }
                assert(v@ =~= msgs_of(m));
                UpstreamTranslation::Msgs(v)
            },
            DataMsg::FXParamValue { fx_index, .. } => {
                match self.get_fx_guid_from_index(fx_index) {
                    Some(g) => UpstreamTranslation::ForAdapters(self.active_adapters(g)),
                    None => UpstreamTranslation::ForAdapters(Vec::new()),
                }
            },
            _ => UpstreamTranslation::Msgs(Vec::new()),
        }
    }

    /// The plugin adapter a message from the widgets goes to, with the track and chain
    /// position to hand it: only EQ messages are routed, to the plugin active in the EQ
    /// slot, at position 0.
    pub fn translate_message_from_downstream(&self, msg: ChannelStripMsg) -> (r: Option<(FxAdapterKind, TrackGuid, i32)>)
        ensures
            r == if msg.spec_kind() == Some(FxCategory::Eq) {
                match self.slot_states()[0].active {
                    Some(i) => Some((i.spec.adapter, self.track(), 0i32)),
                    None => None,
                }
            } else {
                None
            },
    {
        match msg.kind() {
            Some(FxCategory::Eq) => match self.slots.eq.active_instance {
                Some(i) => Some((i.spec.adapter, self.track_guid, 0)),
                None => None,
            },
            _ => None,
        }
    }
}

/// Turning off a plugin active in one of the slots from the `k`-th on empties a slot.
proof fn lemma_disable_finds(states: Seq<SlotState>, g: FxGuid, k: int, k0: int)
    requires
        0 <= k <= k0 < states.len(),
        states[k0].active matches Some(i) && i.guid == g,
    ensures
        disable_slots(states, g, k).1 is Some,
    decreases k0 - k,
{
    if k < k0 {
        let s = states[k];
        if !(s.active matches Some(i) && i.guid == g) {
            lemma_disable_finds(states, g, k + 1, k0);
        }
    }
}

/// A plugin whose name the registry knows becomes the active plugin of the first slot it
/// can fill, and turning it off afterwards empties a slot.
pub proof fn law_named_plugin_fills_slot(
    o: ChannelStripRouter,
    f: ChannelStripRouter,
    track_guid: TrackGuid,
    fx_guid: FxGuid,
    fx_index: i32,
    name: String,
    r: UpstreamTranslation,
)
    requires
        after_translation(o, DataMsg::FXName { track_guid, fx_guid, fx_index, name }, f, r),
        lookup(o.registry().names_view(), name@) matches Some(id) && lookup(
            o.registry().fx_to_slots_view(),
            id,
        ) matches Some(roles) && roles.len() > 0,
    ensures
        ({
            let id = lookup(o.registry().names_view(), name@)->0;
            let roles = lookup(o.registry().fx_to_slots_view(), id)->0;
            &&& f.slot_states()[slot_index(roles[0])].active matches Some(i) && i.guid == fx_guid
            &&& disable_slots(f.slot_states(), fx_guid, 0).1 is Some
        }),
{
    let id = lookup(o.registry().names_view(), name@)->0;
    let roles = lookup(o.registry().fx_to_slots_view(), id)->0;
    assert(f.slot_states().len() == 5);
    lemma_disable_finds(f.slot_states(), fx_guid, 0, slot_index(roles[0]));
}

/// An encoder steps through the `BandMode` settings in the order Bell ("bell"), Shelf ("shelf"), wrapping
/// around, and each shows its label.
pub proof fn law_band_mode_cycle()
    ensures
        BandMode::spec_at(0) == BandMode::Bell,
        BandMode::spec_at(1) == BandMode::Shelf,
        BandMode::Bell.spec_index() == 0,
        BandMode::Shelf.spec_index() == 1,
        BandMode::Bell.spec_label() == "bell"@,
        BandMode::Shelf.spec_label() == "shelf"@,
{
}

/// An encoder steps through the `EqType` settings in the order Digital ("Digital"), SSL ("SSL"), Neve ("Neve"), wrapping
/// around, and each shows its label.
pub proof fn law_eq_type_cycle()
    ensures
        EqType::spec_at(0) == EqType::Digital,
        EqType::spec_at(1) == EqType::SSL,
        EqType::spec_at(2) == EqType::Neve,
        EqType::Digital.spec_index() == 0,
        EqType::SSL.spec_index() == 1,
        EqType::Neve.spec_index() == 2,
        EqType::Digital.spec_label() == "Digital"@,
        EqType::SSL.spec_label() == "SSL"@,
        EqType::Neve.spec_label() == "Neve"@,
{
}

/// An encoder steps through the `EqPosition` settings in the order First ("E>C>C>S"), Middle ("C>C>E>S"), Last ("C>C>S>E"), wrapping
/// around, and each shows its label.
pub proof fn law_eq_position_cycle()
    ensures
        EqPosition::spec_at(0) == EqPosition::First,
        EqPosition::spec_at(1) == EqPosition::Middle,
        EqPosition::spec_at(2) == EqPosition::Last,
        EqPosition::First.spec_index() == 0,
        EqPosition::Middle.spec_index() == 1,
        EqPosition::Last.spec_index() == 2,
        EqPosition::First.spec_label() == "E>C>C>S"@,
        EqPosition::Middle.spec_label() == "C>C>E>S"@,
        EqPosition::Last.spec_label() == "C>C>S>E"@,
{
}

/// An encoder steps through the `CompOrder` settings in the order C1toC2 ("Cmp1->2"), C2toC1 ("Cmp2->1"), wrapping
/// around, and each shows its label.
pub proof fn law_comp_order_cycle()
    ensures
        CompOrder::spec_at(0) == CompOrder::C1toC2,
        CompOrder::spec_at(1) == CompOrder::C2toC1,
        CompOrder::C1toC2.spec_index() == 0,
        CompOrder::C2toC1.spec_index() == 1,
        CompOrder::C1toC2.spec_label() == "Cmp1->2"@,
        CompOrder::C2toC1.spec_label() == "Cmp2->1"@,
{
}

/// An encoder steps through the `CompType` settings in the order Digital ("Digital"), Eleven76 ("1176"), LA2A ("LA2A"), Distressor ("Distrsr"), LA3A ("LA3A"), VariMu ("VariMu"), wrapping
/// around, and each shows its label.
pub proof fn law_comp_type_cycle()
    ensures
        CompType::spec_at(0) == CompType::Digital,
        CompType::spec_at(1) == CompType::Eleven76,
        CompType::spec_at(2) == CompType::LA2A,
        CompType::spec_at(3) == CompType::Distressor,
        CompType::spec_at(4) == CompType::LA3A,
        CompType::spec_at(5) == CompType::VariMu,
        CompType::Digital.spec_index() == 0,
        CompType::Eleven76.spec_index() == 1,
        CompType::LA2A.spec_index() == 2,
        CompType::Distressor.spec_index() == 3,
        CompType::LA3A.spec_index() == 4,
        CompType::VariMu.spec_index() == 5,
        CompType::Digital.spec_label() == "Digital"@,
        CompType::Eleven76.spec_label() == "1176"@,
        CompType::LA2A.spec_label() == "LA2A"@,
        CompType::Distressor.spec_label() == "Distrsr"@,
        CompType::LA3A.spec_label() == "LA3A"@,
        CompType::VariMu.spec_label() == "VariMu"@,
{
}

/// An encoder steps through the `EqBypass` settings in the order IN ("EqIN"), OUT ("EqOUT"), wrapping
/// around, and each shows its label.
pub proof fn law_eq_bypass_cycle()
    ensures
        EqBypass::spec_at(0) == EqBypass::IN,
        EqBypass::spec_at(1) == EqBypass::OUT,
        EqBypass::IN.spec_index() == 0,
        EqBypass::OUT.spec_index() == 1,
        EqBypass::IN.spec_label() == "EqIN"@,
        EqBypass::OUT.spec_label() == "EqOUT"@,
{
}

/// An encoder steps through the `CompBypass` settings in the order IN ("CompIN"), OUT ("CompOUT"), wrapping
/// around, and each shows its label.
pub proof fn law_comp_bypass_cycle()
    ensures
        CompBypass::spec_at(0) == CompBypass::IN,
        CompBypass::spec_at(1) == CompBypass::OUT,
        CompBypass::IN.spec_index() == 0,
        CompBypass::OUT.spec_index() == 1,
        CompBypass::IN.spec_label() == "CompIN"@,
        CompBypass::OUT.spec_label() == "CompOUT"@,
{
}

/// An encoder steps through the `Cmp2Bypass` settings in the order Engaged ("Cmp2IN"), Bypassed ("Cmp2OUT"), wrapping
/// around, and each shows its label.
pub proof fn law_cmp2_bypass_cycle()
    ensures
        Cmp2Bypass::spec_at(0) == Cmp2Bypass::Engaged,
        Cmp2Bypass::spec_at(1) == Cmp2Bypass::Bypassed,
        Cmp2Bypass::Engaged.spec_index() == 0,
        Cmp2Bypass::Bypassed.spec_index() == 1,
        Cmp2Bypass::Engaged.spec_label() == "Cmp2IN"@,
        Cmp2Bypass::Bypassed.spec_label() == "Cmp2OUT"@,
{
}

/// An encoder steps through the `SaturationBypass` settings in the order IN ("SatIN"), OUT ("SatOUT"), wrapping
/// around, and each shows its label.
pub proof fn law_saturation_bypass_cycle()
    ensures
        SaturationBypass::spec_at(0) == SaturationBypass::IN,
        SaturationBypass::spec_at(1) == SaturationBypass::OUT,
        SaturationBypass::IN.spec_index() == 0,
        SaturationBypass::OUT.spec_index() == 1,
        SaturationBypass::IN.spec_label() == "SatIN"@,
        SaturationBypass::OUT.spec_label() == "SatOUT"@,
{
}

/// An encoder steps through the `SaturationType` settings in the order Console ("Console"), Tape ("Tape"), Decapitator ("Decap"), BitCrush ("BitCrsh"), wrapping
/// around, and each shows its label.
pub proof fn law_saturation_type_cycle()
    ensures
        SaturationType::spec_at(0) == SaturationType::Console,
        SaturationType::spec_at(1) == SaturationType::Tape,
        SaturationType::spec_at(2) == SaturationType::Decapitator,
        SaturationType::spec_at(3) == SaturationType::BitCrush,
        SaturationType::Console.spec_index() == 0,
        SaturationType::Tape.spec_index() == 1,
        SaturationType::Decapitator.spec_index() == 2,
        SaturationType::BitCrush.spec_index() == 3,
        SaturationType::Console.spec_label() == "Console"@,
        SaturationType::Tape.spec_label() == "Tape"@,
        SaturationType::Decapitator.spec_label() == "Decap"@,
        SaturationType::BitCrush.spec_label() == "BitCrsh"@,
{
}

} // verus!
