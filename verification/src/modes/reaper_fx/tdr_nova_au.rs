//! Parameter settings of the TDR Nova equalizer (AU).
use vstd::prelude::*;

use crate::modes::guid::TrackGuid;
use crate::modes::reaper_fx::{switch_bits, switch_value_bits, whole_bits, whole_number_bits};
use crate::modes::track_data::DataMsg;

verus! {

pub const FX_NAME: &'static str = "AU: TDR Nova (Tokyo Dawn Labs)";

#[derive(Debug, Clone, Copy, PartialEq, Eq, Structural)]
pub enum Band1Type {
    LowS,
    Bell,
}

impl Band1Type {
    /// The plugin parameter value that selects this setting.
    pub open spec fn spec_raw_index(self) -> int {
        match self {
            Band1Type::LowS => 0,
            Band1Type::Bell => 1,
        }
    }

    /// The setting that a rounded plugin parameter value selects, if any.
    pub open spec fn spec_from_raw_index(rounded: int) -> Option<Self> {
        if rounded == 0 {
            Some(Band1Type::LowS)
        } else if rounded == 1 {
            Some(Band1Type::Bell)
        } else {
            None
        }
    }

    pub fn raw_index(self) -> (r: u8)
        ensures
            r == self.spec_raw_index(),
            r < 2,
    {
        match self {
            Band1Type::LowS => 0,
            Band1Type::Bell => 1,
        }
    }

    pub fn from_raw_index(rounded: isize) -> (r: Option<Self>)
        ensures
            r == Self::spec_from_raw_index(rounded as int),
    {
        match rounded {
            0 => Some(Band1Type::LowS),
            1 => Some(Band1Type::Bell),
            _ => None,
        }
    }

    /// The value the DAW takes for this setting: its index as a `f32`, in bits.
    pub fn raw_bits(self) -> (r: u32)
        ensures
            r == whole_bits(self.spec_raw_index()),
    {
        whole_number_bits(self.raw_index())
    }

    /// Reading back the value of a setting gives that setting, and a value that selects
    /// a setting is that setting's value.
    pub proof fn law_raw_index_round_trip(self, rounded: int)
        ensures
            Self::spec_from_raw_index(self.spec_raw_index()) == Some(self),
            Self::spec_from_raw_index(rounded) matches Some(v) ==> v.spec_raw_index() == rounded,
    {
    }
}

#[derive(Debug, Clone, Copy, PartialEq, Eq, Structural)]
pub enum Band1Dyn {
    Off,
    On,
}

impl Band1Dyn {
    /// The plugin parameter value that selects this setting.
    pub open spec fn spec_raw_index(self) -> int {
        match self {
            Band1Dyn::Off => 0,
            Band1Dyn::On => 1,
        }
    }

    /// The setting that a rounded plugin parameter value selects, if any.
    pub open spec fn spec_from_raw_index(rounded: int) -> Option<Self> {
        if rounded == 0 {
            Some(Band1Dyn::Off)
        } else if rounded == 1 {
            Some(Band1Dyn::On)
        } else {
            None
        }
    }

    pub fn raw_index(self) -> (r: u8)
        ensures
            r == self.spec_raw_index(),
            r < 2,
    {
        match self {
            Band1Dyn::Off => 0,
            Band1Dyn::On => 1,
        }
    }

    pub fn from_raw_index(rounded: isize) -> (r: Option<Self>)
        ensures
            r == Self::spec_from_raw_index(rounded as int),
    {
        match rounded {
            0 => Some(Band1Dyn::Off),
            1 => Some(Band1Dyn::On),
            _ => None,
        }
    }

    /// The value the DAW takes for this setting: its index as a `f32`, in bits.
    pub fn raw_bits(self) -> (r: u32)
        ensures
            r == whole_bits(self.spec_raw_index()),
    {
        whole_number_bits(self.raw_index())
    }

    /// Reading back the value of a setting gives that setting, and a value that selects
    /// a setting is that setting's value.
    pub proof fn law_raw_index_round_trip(self, rounded: int)
        ensures
            Self::spec_from_raw_index(self.spec_raw_index()) == Some(self),
            Self::spec_from_raw_index(rounded) matches Some(v) ==> v.spec_raw_index() == rounded,
    {
    }
}

#[derive(Debug, Clone, Copy, PartialEq, Eq, Structural)]
pub enum Band2Type {
    LowS,
    Bell,
}

impl Band2Type {
    /// The plugin parameter value that selects this setting.
    pub open spec fn spec_raw_index(self) -> int {
        match self {
            Band2Type::LowS => 0,
            Band2Type::Bell => 1,
        }
    }

    /// The setting that a rounded plugin parameter value selects, if any.
    pub open spec fn spec_from_raw_index(rounded: int) -> Option<Self> {
        if rounded == 0 {
            Some(Band2Type::LowS)
        } else if rounded == 1 {
            Some(Band2Type::Bell)
        } else {
            None
        }
    }

    pub fn raw_index(self) -> (r: u8)
        ensures
            r == self.spec_raw_index(),
            r < 2,
    {
        match self {
            Band2Type::LowS => 0,
            Band2Type::Bell => 1,
        }
    }

    pub fn from_raw_index(rounded: isize) -> (r: Option<Self>)
        ensures
            r == Self::spec_from_raw_index(rounded as int),
    {
        match rounded {
            0 => Some(Band2Type::LowS),
            1 => Some(Band2Type::Bell),
            _ => None,
        }
    }

    /// The value the DAW takes for this setting: its index as a `f32`, in bits.
    pub fn raw_bits(self) -> (r: u32)
        ensures
            r == whole_bits(self.spec_raw_index()),
    {
        whole_number_bits(self.raw_index())
    }

    /// Reading back the value of a setting gives that setting, and a value that selects
    /// a setting is that setting's value.
    pub proof fn law_raw_index_round_trip(self, rounded: int)
        ensures
            Self::spec_from_raw_index(self.spec_raw_index()) == Some(self),
            Self::spec_from_raw_index(rounded) matches Some(v) ==> v.spec_raw_index() == rounded,
    {
    }
}

#[derive(Debug, Clone, Copy, PartialEq, Eq, Structural)]
pub enum Band2Dyn {
    Off,
    On,
}

impl Band2Dyn {
    /// The plugin parameter value that selects this setting.
    pub open spec fn spec_raw_index(self) -> int {
        match self {
            Band2Dyn::Off => 0,
            Band2Dyn::On => 1,
        }
    }

    /// The setting that a rounded plugin parameter value selects, if any.
    pub open spec fn spec_from_raw_index(rounded: int) -> Option<Self> {
        if rounded == 0 {
            Some(Band2Dyn::Off)
        } else if rounded == 1 {
            Some(Band2Dyn::On)
        } else {
            None
        }
    }

    pub fn raw_index(self) -> (r: u8)
        ensures
            r == self.spec_raw_index(),
            r < 2,
    {
        match self {
            Band2Dyn::Off => 0,
            Band2Dyn::On => 1,
        }
    }

    pub fn from_raw_index(rounded: isize) -> (r: Option<Self>)
        ensures
            r == Self::spec_from_raw_index(rounded as int),
    {
        match rounded {
            0 => Some(Band2Dyn::Off),
            1 => Some(Band2Dyn::On),
            _ => None,
        }
    }

    /// The value the DAW takes for this setting: its index as a `f32`, in bits.
    pub fn raw_bits(self) -> (r: u32)
        ensures
            r == whole_bits(self.spec_raw_index()),
    {
        whole_number_bits(self.raw_index())
    }

    /// Reading back the value of a setting gives that setting, and a value that selects
    /// a setting is that setting's value.
    pub proof fn law_raw_index_round_trip(self, rounded: int)
        ensures
            Self::spec_from_raw_index(self.spec_raw_index()) == Some(self),
            Self::spec_from_raw_index(rounded) matches Some(v) ==> v.spec_raw_index() == rounded,
    {
    }
}

#[derive(Debug, Clone, Copy, PartialEq, Eq, Structural)]
pub enum Band3Type {
    LowS,
    Bell,
}

impl Band3Type {
    /// The plugin parameter value that selects this setting.
    pub open spec fn spec_raw_index(self) -> int {
        match self {
            Band3Type::LowS => 0,
            Band3Type::Bell => 1,
        }
    }

    /// The setting that a rounded plugin parameter value selects, if any.
    pub open spec fn spec_from_raw_index(rounded: int) -> Option<Self> {
        if rounded == 0 {
            Some(Band3Type::LowS)
        } else if rounded == 1 {
            Some(Band3Type::Bell)
        } else {
            None
        }
    }

    pub fn raw_index(self) -> (r: u8)
        ensures
            r == self.spec_raw_index(),
            r < 2,
    {
        match self {
            Band3Type::LowS => 0,
            Band3Type::Bell => 1,
        }
    }

    pub fn from_raw_index(rounded: isize) -> (r: Option<Self>)
        ensures
            r == Self::spec_from_raw_index(rounded as int),
    {
        match rounded {
            0 => Some(Band3Type::LowS),
            1 => Some(Band3Type::Bell),
            _ => None,
        }
    }

    /// The value the DAW takes for this setting: its index as a `f32`, in bits.
    pub fn raw_bits(self) -> (r: u32)
        ensures
            r == whole_bits(self.spec_raw_index()),
    {
        whole_number_bits(self.raw_index())
    }

    /// Reading back the value of a setting gives that setting, and a value that selects
    /// a setting is that setting's value.
    pub proof fn law_raw_index_round_trip(self, rounded: int)
        ensures
            Self::spec_from_raw_index(self.spec_raw_index()) == Some(self),
            Self::spec_from_raw_index(rounded) matches Some(v) ==> v.spec_raw_index() == rounded,
    {
    }
}

#[derive(Debug, Clone, Copy, PartialEq, Eq, Structural)]
pub enum Band3Dyn {
    Off,
    On,
}

impl Band3Dyn {
    /// The plugin parameter value that selects this setting.
    pub open spec fn spec_raw_index(self) -> int {
        match self {
            Band3Dyn::Off => 0,
            Band3Dyn::On => 1,
        }
    }

    /// The setting that a rounded plugin parameter value selects, if any.
    pub open spec fn spec_from_raw_index(rounded: int) -> Option<Self> {
        if rounded == 0 {
            Some(Band3Dyn::Off)
        } else if rounded == 1 {
            Some(Band3Dyn::On)
        } else {
            None
        }
    }

    pub fn raw_index(self) -> (r: u8)
        ensures
            r == self.spec_raw_index(),
            r < 2,
    {
        match self {
            Band3Dyn::Off => 0,
            Band3Dyn::On => 1,
        }
    }

    pub fn from_raw_index(rounded: isize) -> (r: Option<Self>)
        ensures
            r == Self::spec_from_raw_index(rounded as int),
    {
        match rounded {
            0 => Some(Band3Dyn::Off),
            1 => Some(Band3Dyn::On),
            _ => None,
        }
    }

    /// The value the DAW takes for this setting: its index as a `f32`, in bits.
    pub fn raw_bits(self) -> (r: u32)
        ensures
            r == whole_bits(self.spec_raw_index()),
    {
        whole_number_bits(self.raw_index())
    }

    /// Reading back the value of a setting gives that setting, and a value that selects
    /// a setting is that setting's value.
    pub proof fn law_raw_index_round_trip(self, rounded: int)
        ensures
            Self::spec_from_raw_index(self.spec_raw_index()) == Some(self),
            Self::spec_from_raw_index(rounded) matches Some(v) ==> v.spec_raw_index() == rounded,
    {
    }
}

#[derive(Debug, Clone, Copy, PartialEq, Eq, Structural)]
pub enum Band4Type {
    LowS,
    Bell,
}

impl Band4Type {
    /// The plugin parameter value that selects this setting.
    pub open spec fn spec_raw_index(self) -> int {
        match self {
            Band4Type::LowS => 0,
            Band4Type::Bell => 1,
        }
    }

    /// The setting that a rounded plugin parameter value selects, if any.
    pub open spec fn spec_from_raw_index(rounded: int) -> Option<Self> {
        if rounded == 0 {
            Some(Band4Type::LowS)
        } else if rounded == 1 {
            Some(Band4Type::Bell)
        } else {
            None
        }
    }

    pub fn raw_index(self) -> (r: u8)
        ensures
            r == self.spec_raw_index(),
            r < 2,
    {
        match self {
            Band4Type::LowS => 0,
            Band4Type::Bell => 1,
        }
    }

    pub fn from_raw_index(rounded: isize) -> (r: Option<Self>)
        ensures
            r == Self::spec_from_raw_index(rounded as int),
    {
        match rounded {
            0 => Some(Band4Type::LowS),
            1 => Some(Band4Type::Bell),
            _ => None,
        }
    }

    /// The value the DAW takes for this setting: its index as a `f32`, in bits.
    pub fn raw_bits(self) -> (r: u32)
        ensures
            r == whole_bits(self.spec_raw_index()),
    {
        whole_number_bits(self.raw_index())
    }

    /// Reading back the value of a setting gives that setting, and a value that selects
    /// a setting is that setting's value.
    pub proof fn law_raw_index_round_trip(self, rounded: int)
        ensures
            Self::spec_from_raw_index(self.spec_raw_index()) == Some(self),
            Self::spec_from_raw_index(rounded) matches Some(v) ==> v.spec_raw_index() == rounded,
    {
    }
}

#[derive(Debug, Clone, Copy, PartialEq, Eq, Structural)]
pub enum Band4Dyn {
    Off,
    On,
}

impl Band4Dyn {
    /// The plugin parameter value that selects this setting.
    pub open spec fn spec_raw_index(self) -> int {
        match self {
            Band4Dyn::Off => 0,
            Band4Dyn::On => 1,
        }
    }

    /// The setting that a rounded plugin parameter value selects, if any.
    pub open spec fn spec_from_raw_index(rounded: int) -> Option<Self> {
        if rounded == 0 {
            Some(Band4Dyn::Off)
        } else if rounded == 1 {
            Some(Band4Dyn::On)
        } else {
            None
        }
    }

    pub fn raw_index(self) -> (r: u8)
        ensures
            r == self.spec_raw_index(),
            r < 2,
    {
        match self {
            Band4Dyn::Off => 0,
            Band4Dyn::On => 1,
        }
    }

    pub fn from_raw_index(rounded: isize) -> (r: Option<Self>)
        ensures
            r == Self::spec_from_raw_index(rounded as int),
    {
        match rounded {
            0 => Some(Band4Dyn::Off),
            1 => Some(Band4Dyn::On),
            _ => None,
        }
    }

    /// The value the DAW takes for this setting: its index as a `f32`, in bits.
    pub fn raw_bits(self) -> (r: u32)
        ensures
            r == whole_bits(self.spec_raw_index()),
    {
        whole_number_bits(self.raw_index())
    }

    /// Reading back the value of a setting gives that setting, and a value that selects
    /// a setting is that setting's value.
    pub proof fn law_raw_index_round_trip(self, rounded: int)
        ensures
            Self::spec_from_raw_index(self.spec_raw_index()) == Some(self),
            Self::spec_from_raw_index(rounded) matches Some(v) ==> v.spec_raw_index() == rounded,
    {
    }
}

#[derive(Debug, Clone, Copy, PartialEq, Eq, Structural)]
pub enum HPType {
    _6dBOct,
    _12dBOct,
    _24dBOct,
}

impl HPType {
    /// The plugin parameter value that selects this setting.
    pub open spec fn spec_raw_index(self) -> int {
        match self {
            HPType::_6dBOct => 0,
            HPType::_12dBOct => 1,
            HPType::_24dBOct => 2,
        }
    }

    /// The setting that a rounded plugin parameter value selects, if any.
    pub open spec fn spec_from_raw_index(rounded: int) -> Option<Self> {
        if rounded == 0 {
            Some(HPType::_6dBOct)
        } else if rounded == 1 {
            Some(HPType::_12dBOct)
        } else if rounded == 2 {
            Some(HPType::_24dBOct)
        } else {
            None
        }
    }

    pub fn raw_index(self) -> (r: u8)
        ensures
            r == self.spec_raw_index(),
            r < 3,
    {
        match self {
            HPType::_6dBOct => 0,
            HPType::_12dBOct => 1,
            HPType::_24dBOct => 2,
        }
    }

    pub fn from_raw_index(rounded: isize) -> (r: Option<Self>)
        ensures
            r == Self::spec_from_raw_index(rounded as int),
    {
        match rounded {
            0 => Some(HPType::_6dBOct),
            1 => Some(HPType::_12dBOct),
            2 => Some(HPType::_24dBOct),
            _ => None,
        }
    }

    /// The value the DAW takes for this setting: its index as a `f32`, in bits.
    pub fn raw_bits(self) -> (r: u32)
        ensures
            r == whole_bits(self.spec_raw_index()),
    {
        whole_number_bits(self.raw_index())
    }

    /// Reading back the value of a setting gives that setting, and a value that selects
    /// a setting is that setting's value.
    pub proof fn law_raw_index_round_trip(self, rounded: int)
        ensures
            Self::spec_from_raw_index(self.spec_raw_index()) == Some(self),
            Self::spec_from_raw_index(rounded) matches Some(v) ==> v.spec_raw_index() == rounded,
    {
    }
}

#[derive(Debug, Clone, Copy, PartialEq, Eq, Structural)]
pub enum LPType {
    _6dBOct,
    _12dBOct,
    _24dBOct,
}

impl LPType {
    /// The plugin parameter value that selects this setting.
    pub open spec fn spec_raw_index(self) -> int {
        match self {
            LPType::_6dBOct => 0,
            LPType::_12dBOct => 1,
            LPType::_24dBOct => 2,
        }
    }

    /// The setting that a rounded plugin parameter value selects, if any.
    pub open spec fn spec_from_raw_index(rounded: int) -> Option<Self> {
        if rounded == 0 {
            Some(LPType::_6dBOct)
        } else if rounded == 1 {
            Some(LPType::_12dBOct)
        } else if rounded == 2 {
            Some(LPType::_24dBOct)
        } else {
            None
        }
    }

    pub fn raw_index(self) -> (r: u8)
        ensures
            r == self.spec_raw_index(),
            r < 3,
    {
        match self {
            LPType::_6dBOct => 0,
            LPType::_12dBOct => 1,
            LPType::_24dBOct => 2,
        }
    }

    pub fn from_raw_index(rounded: isize) -> (r: Option<Self>)
        ensures
            r == Self::spec_from_raw_index(rounded as int),
    {
        match rounded {
            0 => Some(LPType::_6dBOct),
            1 => Some(LPType::_12dBOct),
            2 => Some(LPType::_24dBOct),
            _ => None,
        }
    }

    /// The value the DAW takes for this setting: its index as a `f32`, in bits.
    pub fn raw_bits(self) -> (r: u32)
        ensures
            r == whole_bits(self.spec_raw_index()),
    {
        whole_number_bits(self.raw_index())
    }

    /// Reading back the value of a setting gives that setting, and a value that selects
    /// a setting is that setting's value.
    pub proof fn law_raw_index_round_trip(self, rounded: int)
        ensures
            Self::spec_from_raw_index(self.spec_raw_index()) == Some(self),
            Self::spec_from_raw_index(rounded) matches Some(v) ==> v.spec_raw_index() == rounded,
    {
    }
}

#[derive(Debug, Clone, Copy, PartialEq, Eq, Structural)]
pub enum Quality {
    Eco,
    Precise,
}

impl Quality {
    /// The plugin parameter value that selects this setting.
    pub open spec fn spec_raw_index(self) -> int {
        match self {
            Quality::Eco => 0,
            Quality::Precise => 1,
        }
    }

    /// The setting that a rounded plugin parameter value selects, if any.
    pub open spec fn spec_from_raw_index(rounded: int) -> Option<Self> {
        if rounded == 0 {
            Some(Quality::Eco)
        } else if rounded == 1 {
            Some(Quality::Precise)
        } else {
            None
        }
    }

    pub fn raw_index(self) -> (r: u8)
        ensures
            r == self.spec_raw_index(),
            r < 2,
    {
        match self {
            Quality::Eco => 0,
            Quality::Precise => 1,
        }
    }

    pub fn from_raw_index(rounded: isize) -> (r: Option<Self>)
        ensures
            r == Self::spec_from_raw_index(rounded as int),
    {
        match rounded {
            0 => Some(Quality::Eco),
            1 => Some(Quality::Precise),
            _ => None,
        }
    }

    /// The value the DAW takes for this setting: its index as a `f32`, in bits.
    pub fn raw_bits(self) -> (r: u32)
        ensures
            r == whole_bits(self.spec_raw_index()),
    {
        whole_number_bits(self.raw_index())
    }

    /// Reading back the value of a setting gives that setting, and a value that selects
    /// a setting is that setting's value.
    pub proof fn law_raw_index_round_trip(self, rounded: int)
        ensures
            Self::spec_from_raw_index(self.spec_raw_index()) == Some(self),
            Self::spec_from_raw_index(rounded) matches Some(v) ==> v.spec_raw_index() == rounded,
    {
    }
}

#[derive(Debug, Clone, Copy, PartialEq, Eq, Structural)]
pub enum Channels {
    Mono,
    Stereo,
    Sum,
    Diff,
    Left,
    Right,
}

impl Channels {
    /// The plugin parameter value that selects this setting.
    pub open spec fn spec_raw_index(self) -> int {
        match self {
            Channels::Mono => 0,
            Channels::Stereo => 1,
            Channels::Sum => 2,
            Channels::Diff => 3,
            Channels::Left => 4,
            Channels::Right => 5,
        }
    }

    /// The setting that a rounded plugin parameter value selects, if any.
    pub open spec fn spec_from_raw_index(rounded: int) -> Option<Self> {
        if rounded == 0 {
            Some(Channels::Mono)
        } else if rounded == 1 {
            Some(Channels::Stereo)
        } else if rounded == 2 {
            Some(Channels::Sum)
        } else if rounded == 3 {
            Some(Channels::Diff)
        } else if rounded == 4 {
            Some(Channels::Left)
        } else if rounded == 5 {
            Some(Channels::Right)
        } else {
            None
        }
    }

    pub fn raw_index(self) -> (r: u8)
        ensures
            r == self.spec_raw_index(),
            r < 6,
    {
        match self {
            Channels::Mono => 0,
            Channels::Stereo => 1,
            Channels::Sum => 2,
            Channels::Diff => 3,
            Channels::Left => 4,
            Channels::Right => 5,
        }
    }

    pub fn from_raw_index(rounded: isize) -> (r: Option<Self>)
        ensures
            r == Self::spec_from_raw_index(rounded as int),
    {
        match rounded {
            0 => Some(Channels::Mono),
            1 => Some(Channels::Stereo),
            2 => Some(Channels::Sum),
            3 => Some(Channels::Diff),
            4 => Some(Channels::Left),
            5 => Some(Channels::Right),
            _ => None,
        }
    }

    /// The value the DAW takes for this setting: its index as a `f32`, in bits.
    pub fn raw_bits(self) -> (r: u32)
        ensures
            r == whole_bits(self.spec_raw_index()),
    {
        whole_number_bits(self.raw_index())
    }

    /// Reading back the value of a setting gives that setting, and a value that selects
    /// a setting is that setting's value.
    pub proof fn law_raw_index_round_trip(self, rounded: int)
        ensures
            Self::spec_from_raw_index(self.spec_raw_index()) == Some(self),
            Self::spec_from_raw_index(rounded) matches Some(v) ==> v.spec_raw_index() == rounded,
    {
    }
}

#[derive(Debug, Clone, Copy, PartialEq, Eq, Structural)]
pub enum AnalyzerMode {
    AnalyzerIn,
    AnalyzerOut,
    AnalyzerSC,
    AnalyzerOff,
}

impl AnalyzerMode {
    /// The plugin parameter value that selects this setting.
    pub open spec fn spec_raw_index(self) -> int {
        match self {
            AnalyzerMode::AnalyzerIn => 0,
            AnalyzerMode::AnalyzerOut => 1,
            AnalyzerMode::AnalyzerSC => 2,
            AnalyzerMode::AnalyzerOff => 3,
        }
    }

    /// The setting that a rounded plugin parameter value selects, if any.
    pub open spec fn spec_from_raw_index(rounded: int) -> Option<Self> {
        if rounded == 0 {
            Some(AnalyzerMode::AnalyzerIn)
        } else if rounded == 1 {
            Some(AnalyzerMode::AnalyzerOut)
        } else if rounded == 2 {
            Some(AnalyzerMode::AnalyzerSC)
        } else if rounded == 3 {
            Some(AnalyzerMode::AnalyzerOff)
        } else {
            None
        }
    }

    pub fn raw_index(self) -> (r: u8)
        ensures
            r == self.spec_raw_index(),
            r < 4,
    {
        match self {
            AnalyzerMode::AnalyzerIn => 0,
            AnalyzerMode::AnalyzerOut => 1,
            AnalyzerMode::AnalyzerSC => 2,
            AnalyzerMode::AnalyzerOff => 3,
        }
    }

    pub fn from_raw_index(rounded: isize) -> (r: Option<Self>)
        ensures
            r == Self::spec_from_raw_index(rounded as int),
    {
        match rounded {
            0 => Some(AnalyzerMode::AnalyzerIn),
            1 => Some(AnalyzerMode::AnalyzerOut),
            2 => Some(AnalyzerMode::AnalyzerSC),
            3 => Some(AnalyzerMode::AnalyzerOff),
            _ => None,
        }
    }

    /// The value the DAW takes for this setting: its index as a `f32`, in bits.
    pub fn raw_bits(self) -> (r: u32)
        ensures
            r == whole_bits(self.spec_raw_index()),
    {
        whole_number_bits(self.raw_index())
    }

    /// Reading back the value of a setting gives that setting, and a value that selects
    /// a setting is that setting's value.
    pub proof fn law_raw_index_round_trip(self, rounded: int)
        ensures
            Self::spec_from_raw_index(self.spec_raw_index()) == Some(self),
            Self::spec_from_raw_index(rounded) matches Some(v) ==> v.spec_raw_index() == rounded,
    {
    }
}

#[derive(Debug, Clone, Copy, PartialEq, Eq, Structural)]
pub enum SidechainMode {
    IntSC,
    ExtSC,
}

impl SidechainMode {
    /// The plugin parameter value that selects this setting.
    pub open spec fn spec_raw_index(self) -> int {
        match self {
            SidechainMode::IntSC => 0,
            SidechainMode::ExtSC => 1,
        }
    }

    /// The setting that a rounded plugin parameter value selects, if any.
    pub open spec fn spec_from_raw_index(rounded: int) -> Option<Self> {
        if rounded == 0 {
            Some(SidechainMode::IntSC)
        } else if rounded == 1 {
            Some(SidechainMode::ExtSC)
        } else {
            None
        }
    }

    pub fn raw_index(self) -> (r: u8)
        ensures
            r == self.spec_raw_index(),
            r < 2,
    {
        match self {
            SidechainMode::IntSC => 0,
            SidechainMode::ExtSC => 1,
        }
    }

    pub fn from_raw_index(rounded: isize) -> (r: Option<Self>)
        ensures
            r == Self::spec_from_raw_index(rounded as int),
    {
        match rounded {
            0 => Some(SidechainMode::IntSC),
            1 => Some(SidechainMode::ExtSC),
            _ => None,
        }
    }

    /// The value the DAW takes for this setting: its index as a `f32`, in bits.
    pub fn raw_bits(self) -> (r: u32)
        ensures
            r == whole_bits(self.spec_raw_index()),
    {
        whole_number_bits(self.raw_index())
    }

    /// Reading back the value of a setting gives that setting, and a value that selects
    /// a setting is that setting's value.
    pub proof fn law_raw_index_round_trip(self, rounded: int)
        ensures
            Self::spec_from_raw_index(self.spec_raw_index()) == Some(self),
            Self::spec_from_raw_index(rounded) matches Some(v) ==> v.spec_raw_index() == rounded,
    {
    }
}

#[derive(Debug, Clone, Copy, PartialEq, Eq, Structural)]
pub enum AnalyzerSpeed {
    Fast,
    Normal,
}

impl AnalyzerSpeed {
    /// The plugin parameter value that selects this setting.
    pub open spec fn spec_raw_index(self) -> int {
        match self {
            AnalyzerSpeed::Fast => 0,
            AnalyzerSpeed::Normal => 1,
        }
    }

    /// The setting that a rounded plugin parameter value selects, if any.
    pub open spec fn spec_from_raw_index(rounded: int) -> Option<Self> {
        if rounded == 0 {
            Some(AnalyzerSpeed::Fast)
        } else if rounded == 1 {
            Some(AnalyzerSpeed::Normal)
        } else {
            None
        }
    }

    pub fn raw_index(self) -> (r: u8)
        ensures
            r == self.spec_raw_index(),
            r < 2,
    {
        match self {
            AnalyzerSpeed::Fast => 0,
            AnalyzerSpeed::Normal => 1,
        }
    }

    pub fn from_raw_index(rounded: isize) -> (r: Option<Self>)
        ensures
            r == Self::spec_from_raw_index(rounded as int),
    {
        match rounded {
            0 => Some(AnalyzerSpeed::Fast),
            1 => Some(AnalyzerSpeed::Normal),
            _ => None,
        }
    }

    /// The value the DAW takes for this setting: its index as a `f32`, in bits.
    pub fn raw_bits(self) -> (r: u32)
        ensures
            r == whole_bits(self.spec_raw_index()),
    {
        whole_number_bits(self.raw_index())
    }

    /// Reading back the value of a setting gives that setting, and a value that selects
    /// a setting is that setting's value.
    pub proof fn law_raw_index_round_trip(self, rounded: int)
        ensures
            Self::spec_from_raw_index(self.spec_raw_index()) == Some(self),
            Self::spec_from_raw_index(rounded) matches Some(v) ==> v.spec_raw_index() == rounded,
    {
    }
}

/// A parameter of the plugin with its value: continuous values hold the bits of their
/// `f32`, switches are on or off, stepped parameters hold a setting.
#[derive(Debug, Clone, Copy, PartialEq, Eq, Structural)]
#[allow(non_camel_case_types)]
pub enum Param {
    Band1Selected(bool),
    Band1Active(bool),
    Band1Gain(u32),
    Band1Q(u32),
    Band1Frequency(u32),
    Band1Type(Band1Type),
    Band1Dyn(Band1Dyn),
    Band1Threshold(u32),
    Band1Ratio(u32),
    Band1Split(bool),
    Band1Attack(u32),
    Band1Release(u32),
    Band2Selected(bool),
    Band2Active(bool),
    Band2Gain(u32),
    Band2Q(u32),
    Band2Frequency(u32),
    Band2Type(Band2Type),
    Band2Dyn(Band2Dyn),
    Band2Threshold(u32),
    Band2Ratio(u32),
    Band2Split(bool),
    Band2Attack(u32),
    Band2Release(u32),
    Band3Selected(bool),
    Band3Active(bool),
    Band3Gain(u32),
    Band3Q(u32),
    Band3Frequency(u32),
    Band3Type(Band3Type),
    Band3Dyn(Band3Dyn),
    Band3Threshold(u32),
    Band3Ratio(u32),
    Band3Split(bool),
    Band3Attack(u32),
    Band3Release(u32),
    Band4Selected(bool),
    Band4Active(bool),
    Band4Gain(u32),
    Band4Q(u32),
    Band4Frequency(u32),
    Band4Type(Band4Type),
    Band4Dyn(Band4Dyn),
    Band4Threshold(u32),
    Band4Ratio(u32),
    Band4Split(bool),
    Band4Attack(u32),
    Band4Release(u32),
    HPSelected(bool),
    HPActive(bool),
    HPFrequency(u32),
    HPType(HPType),
    LPSelected(bool),
    LPActive(bool),
    LPFrequency(u32),
    LPType(LPType),
    WideBandGain(u32),
    WideBandDyn(bool),
    WideBandThreshold(u32),
    WideBandRatio(u32),
    WideBandAttack(u32),
    WideBandRelease(u32),
    MasterBypass(bool),
    DynamicDelta(bool),
    DryMix(u32),
    OutputGain(u32),
    EQAutoGain(bool),
    Quality(Quality),
    Channels(Channels),
    AnalyzerMode(AnalyzerMode),
    DisplayEQRange(bool),
    DisplayFFTFloor(bool),
    SidechainMode(SidechainMode),
    AnalyzerSpeed(AnalyzerSpeed),
    Solo(bool),
    Bypass(u32),
    Wet(u32),
    Delta(u32),
}

impl Param {
    /// The parameter's index in the plugin.
    pub open spec fn spec_param_index(self) -> i32 {
        match self {
            Param::Band1Selected(_) => 0,
            Param::Band1Active(_) => 1,
            Param::Band1Gain(_) => 2,
            Param::Band1Q(_) => 3,
            Param::Band1Frequency(_) => 4,
            Param::Band1Type(_) => 5,
            Param::Band1Dyn(_) => 6,
            Param::Band1Threshold(_) => 7,
            Param::Band1Ratio(_) => 8,
            Param::Band1Split(_) => 9,
            Param::Band1Attack(_) => 10,
            Param::Band1Release(_) => 11,
            Param::Band2Selected(_) => 12,
            Param::Band2Active(_) => 13,
            Param::Band2Gain(_) => 14,
            Param::Band2Q(_) => 15,
            Param::Band2Frequency(_) => 16,
            Param::Band2Type(_) => 17,
            Param::Band2Dyn(_) => 18,
            Param::Band2Threshold(_) => 19,
            Param::Band2Ratio(_) => 20,
            Param::Band2Split(_) => 21,
            Param::Band2Attack(_) => 22,
            Param::Band2Release(_) => 23,
            Param::Band3Selected(_) => 24,
            Param::Band3Active(_) => 25,
            Param::Band3Gain(_) => 26,
            Param::Band3Q(_) => 27,
            Param::Band3Frequency(_) => 28,
            Param::Band3Type(_) => 29,
            Param::Band3Dyn(_) => 30,
            Param::Band3Threshold(_) => 31,
            Param::Band3Ratio(_) => 32,
            Param::Band3Split(_) => 33,
            Param::Band3Attack(_) => 34,
            Param::Band3Release(_) => 35,
            Param::Band4Selected(_) => 36,
            Param::Band4Active(_) => 37,
            Param::Band4Gain(_) => 38,
            Param::Band4Q(_) => 39,
            Param::Band4Frequency(_) => 40,
            Param::Band4Type(_) => 41,
            Param::Band4Dyn(_) => 42,
            Param::Band4Threshold(_) => 43,
            Param::Band4Ratio(_) => 44,
            Param::Band4Split(_) => 45,
            Param::Band4Attack(_) => 46,
            Param::Band4Release(_) => 47,
            Param::HPSelected(_) => 48,
            Param::HPActive(_) => 49,
            Param::HPFrequency(_) => 50,
            Param::HPType(_) => 51,
            Param::LPSelected(_) => 52,
            Param::LPActive(_) => 53,
            Param::LPFrequency(_) => 54,
            Param::LPType(_) => 55,
            Param::WideBandGain(_) => 56,
            Param::WideBandDyn(_) => 57,
            Param::WideBandThreshold(_) => 58,
            Param::WideBandRatio(_) => 59,
            Param::WideBandAttack(_) => 60,
            Param::WideBandRelease(_) => 61,
            Param::MasterBypass(_) => 62,
            Param::DynamicDelta(_) => 63,
            Param::DryMix(_) => 64,
            Param::OutputGain(_) => 65,
            Param::EQAutoGain(_) => 66,
            Param::Quality(_) => 67,
            Param::Channels(_) => 68,
            Param::AnalyzerMode(_) => 69,
            Param::DisplayEQRange(_) => 70,
            Param::DisplayFFTFloor(_) => 71,
            Param::SidechainMode(_) => 72,
            Param::AnalyzerSpeed(_) => 73,
            Param::Solo(_) => 74,
            Param::Bypass(_) => 75,
            Param::Wet(_) => 76,
            Param::Delta(_) => 77,
        }
    }

    /// The value as the DAW takes it, the bits of a `f32`: a switch is 1.0 or 0.0, a
    /// setting its index as a whole number.
    pub open spec fn spec_value_bits(self) -> u32 {
        match self {
            Param::Band1Selected(on) => switch_bits(on),
            Param::Band1Active(on) => switch_bits(on),
            Param::Band1Gain(v) => v,
            Param::Band1Q(v) => v,
            Param::Band1Frequency(v) => v,
            Param::Band1Type(s) => whole_bits(s.spec_raw_index()),
            Param::Band1Dyn(s) => whole_bits(s.spec_raw_index()),
            Param::Band1Threshold(v) => v,
            Param::Band1Ratio(v) => v,
            Param::Band1Split(on) => switch_bits(on),
            Param::Band1Attack(v) => v,
            Param::Band1Release(v) => v,
            Param::Band2Selected(on) => switch_bits(on),
            Param::Band2Active(on) => switch_bits(on),
            Param::Band2Gain(v) => v,
            Param::Band2Q(v) => v,
            Param::Band2Frequency(v) => v,
            Param::Band2Type(s) => whole_bits(s.spec_raw_index()),
            Param::Band2Dyn(s) => whole_bits(s.spec_raw_index()),
            Param::Band2Threshold(v) => v,
            Param::Band2Ratio(v) => v,
            Param::Band2Split(on) => switch_bits(on),
            Param::Band2Attack(v) => v,
            Param::Band2Release(v) => v,
            Param::Band3Selected(on) => switch_bits(on),
            Param::Band3Active(on) => switch_bits(on),
            Param::Band3Gain(v) => v,
            Param::Band3Q(v) => v,
            Param::Band3Frequency(v) => v,
            Param::Band3Type(s) => whole_bits(s.spec_raw_index()),
            Param::Band3Dyn(s) => whole_bits(s.spec_raw_index()),
            Param::Band3Threshold(v) => v,
            Param::Band3Ratio(v) => v,
            Param::Band3Split(on) => switch_bits(on),
            Param::Band3Attack(v) => v,
            Param::Band3Release(v) => v,
            Param::Band4Selected(on) => switch_bits(on),
            Param::Band4Active(on) => switch_bits(on),
            Param::Band4Gain(v) => v,
            Param::Band4Q(v) => v,
            Param::Band4Frequency(v) => v,
            Param::Band4Type(s) => whole_bits(s.spec_raw_index()),
            Param::Band4Dyn(s) => whole_bits(s.spec_raw_index()),
            Param::Band4Threshold(v) => v,
            Param::Band4Ratio(v) => v,
            Param::Band4Split(on) => switch_bits(on),
            Param::Band4Attack(v) => v,
            Param::Band4Release(v) => v,
            Param::HPSelected(on) => switch_bits(on),
            Param::HPActive(on) => switch_bits(on),
            Param::HPFrequency(v) => v,
            Param::HPType(s) => whole_bits(s.spec_raw_index()),
            Param::LPSelected(on) => switch_bits(on),
            Param::LPActive(on) => switch_bits(on),
            Param::LPFrequency(v) => v,
            Param::LPType(s) => whole_bits(s.spec_raw_index()),
            Param::WideBandGain(v) => v,
            Param::WideBandDyn(on) => switch_bits(on),
            Param::WideBandThreshold(v) => v,
            Param::WideBandRatio(v) => v,
            Param::WideBandAttack(v) => v,
            Param::WideBandRelease(v) => v,
            Param::MasterBypass(on) => switch_bits(on),
            Param::DynamicDelta(on) => switch_bits(on),
            Param::DryMix(v) => v,
            Param::OutputGain(v) => v,
            Param::EQAutoGain(on) => switch_bits(on),
            Param::Quality(s) => whole_bits(s.spec_raw_index()),
            Param::Channels(s) => whole_bits(s.spec_raw_index()),
            Param::AnalyzerMode(s) => whole_bits(s.spec_raw_index()),
            Param::DisplayEQRange(on) => switch_bits(on),
            Param::DisplayFFTFloor(on) => switch_bits(on),
            Param::SidechainMode(s) => whole_bits(s.spec_raw_index()),
            Param::AnalyzerSpeed(s) => whole_bits(s.spec_raw_index()),
            Param::Solo(on) => switch_bits(on),
            Param::Bypass(v) => v,
            Param::Wet(v) => v,
            Param::Delta(v) => v,
        }
    }

    /// The parameter's index in the plugin.
    pub fn param_index(&self) -> (r: i32)
        ensures
            r == self.spec_param_index(),
    {
        match self {
            Param::Band1Selected(_) => 0,
            Param::Band1Active(_) => 1,
            Param::Band1Gain(_) => 2,
            Param::Band1Q(_) => 3,
            Param::Band1Frequency(_) => 4,
            Param::Band1Type(_) => 5,
            Param::Band1Dyn(_) => 6,
            Param::Band1Threshold(_) => 7,
            Param::Band1Ratio(_) => 8,
            Param::Band1Split(_) => 9,
            Param::Band1Attack(_) => 10,
            Param::Band1Release(_) => 11,
            Param::Band2Selected(_) => 12,
            Param::Band2Active(_) => 13,
            Param::Band2Gain(_) => 14,
            Param::Band2Q(_) => 15,
            Param::Band2Frequency(_) => 16,
            Param::Band2Type(_) => 17,
            Param::Band2Dyn(_) => 18,
            Param::Band2Threshold(_) => 19,
            Param::Band2Ratio(_) => 20,
            Param::Band2Split(_) => 21,
            Param::Band2Attack(_) => 22,
            Param::Band2Release(_) => 23,
            Param::Band3Selected(_) => 24,
            Param::Band3Active(_) => 25,
            Param::Band3Gain(_) => 26,
            Param::Band3Q(_) => 27,
            Param::Band3Frequency(_) => 28,
            Param::Band3Type(_) => 29,
            Param::Band3Dyn(_) => 30,
            Param::Band3Threshold(_) => 31,
            Param::Band3Ratio(_) => 32,
            Param::Band3Split(_) => 33,
            Param::Band3Attack(_) => 34,
            Param::Band3Release(_) => 35,
            Param::Band4Selected(_) => 36,
            Param::Band4Active(_) => 37,
            Param::Band4Gain(_) => 38,
            Param::Band4Q(_) => 39,
            Param::Band4Frequency(_) => 40,
            Param::Band4Type(_) => 41,
            Param::Band4Dyn(_) => 42,
            Param::Band4Threshold(_) => 43,
            Param::Band4Ratio(_) => 44,
            Param::Band4Split(_) => 45,
            Param::Band4Attack(_) => 46,
            Param::Band4Release(_) => 47,
            Param::HPSelected(_) => 48,
            Param::HPActive(_) => 49,
            Param::HPFrequency(_) => 50,
            Param::HPType(_) => 51,
            Param::LPSelected(_) => 52,
            Param::LPActive(_) => 53,
            Param::LPFrequency(_) => 54,
            Param::LPType(_) => 55,
            Param::WideBandGain(_) => 56,
            Param::WideBandDyn(_) => 57,
            Param::WideBandThreshold(_) => 58,
            Param::WideBandRatio(_) => 59,
            Param::WideBandAttack(_) => 60,
            Param::WideBandRelease(_) => 61,
            Param::MasterBypass(_) => 62,
            Param::DynamicDelta(_) => 63,
            Param::DryMix(_) => 64,
            Param::OutputGain(_) => 65,
            Param::EQAutoGain(_) => 66,
            Param::Quality(_) => 67,
            Param::Channels(_) => 68,
            Param::AnalyzerMode(_) => 69,
            Param::DisplayEQRange(_) => 70,
            Param::DisplayFFTFloor(_) => 71,
            Param::SidechainMode(_) => 72,
            Param::AnalyzerSpeed(_) => 73,
            Param::Solo(_) => 74,
            Param::Bypass(_) => 75,
            Param::Wet(_) => 76,
            Param::Delta(_) => 77,
        }
    }

    /// The value as the DAW takes it (see `spec_value_bits`).
    #[verifier::spinoff_prover]
    #[verifier::rlimit(100)]
    pub fn value_bits(&self) -> (r: u32)
        ensures
            r == self.spec_value_bits(),
    {
        match self {
            Param::Band1Selected(on) => switch_value_bits(*on),
            Param::Band1Active(on) => switch_value_bits(*on),
            Param::Band1Gain(v) => *v,
            Param::Band1Q(v) => *v,
            Param::Band1Frequency(v) => *v,
            Param::Band1Type(s) => s.raw_bits(),
            Param::Band1Dyn(s) => s.raw_bits(),
            Param::Band1Threshold(v) => *v,
            Param::Band1Ratio(v) => *v,
            Param::Band1Split(on) => switch_value_bits(*on),
            Param::Band1Attack(v) => *v,
            Param::Band1Release(v) => *v,
            Param::Band2Selected(on) => switch_value_bits(*on),
            Param::Band2Active(on) => switch_value_bits(*on),
            Param::Band2Gain(v) => *v,
            Param::Band2Q(v) => *v,
            Param::Band2Frequency(v) => *v,
            Param::Band2Type(s) => s.raw_bits(),
            Param::Band2Dyn(s) => s.raw_bits(),
            Param::Band2Threshold(v) => *v,
            Param::Band2Ratio(v) => *v,
            Param::Band2Split(on) => switch_value_bits(*on),
            Param::Band2Attack(v) => *v,
            Param::Band2Release(v) => *v,
            Param::Band3Selected(on) => switch_value_bits(*on),
            Param::Band3Active(on) => switch_value_bits(*on),
            Param::Band3Gain(v) => *v,
            Param::Band3Q(v) => *v,
            Param::Band3Frequency(v) => *v,
            Param::Band3Type(s) => s.raw_bits(),
            Param::Band3Dyn(s) => s.raw_bits(),
            Param::Band3Threshold(v) => *v,
            Param::Band3Ratio(v) => *v,
            Param::Band3Split(on) => switch_value_bits(*on),
            Param::Band3Attack(v) => *v,
            Param::Band3Release(v) => *v,
            Param::Band4Selected(on) => switch_value_bits(*on),
            Param::Band4Active(on) => switch_value_bits(*on),
            Param::Band4Gain(v) => *v,
            Param::Band4Q(v) => *v,
            Param::Band4Frequency(v) => *v,
            Param::Band4Type(s) => s.raw_bits(),
            Param::Band4Dyn(s) => s.raw_bits(),
            Param::Band4Threshold(v) => *v,
            Param::Band4Ratio(v) => *v,
            Param::Band4Split(on) => switch_value_bits(*on),
            Param::Band4Attack(v) => *v,
            Param::Band4Release(v) => *v,
            Param::HPSelected(on) => switch_value_bits(*on),
            Param::HPActive(on) => switch_value_bits(*on),
            Param::HPFrequency(v) => *v,
            Param::HPType(s) => s.raw_bits(),
            Param::LPSelected(on) => switch_value_bits(*on),
            Param::LPActive(on) => switch_value_bits(*on),
            Param::LPFrequency(v) => *v,
            Param::LPType(s) => s.raw_bits(),
            Param::WideBandGain(v) => *v,
            Param::WideBandDyn(on) => switch_value_bits(*on),
            Param::WideBandThreshold(v) => *v,
            Param::WideBandRatio(v) => *v,
            Param::WideBandAttack(v) => *v,
            Param::WideBandRelease(v) => *v,
            Param::MasterBypass(on) => switch_value_bits(*on),
            Param::DynamicDelta(on) => switch_value_bits(*on),
            Param::DryMix(v) => *v,
            Param::OutputGain(v) => *v,
            Param::EQAutoGain(on) => switch_value_bits(*on),
            Param::Quality(s) => s.raw_bits(),
            Param::Channels(s) => s.raw_bits(),
            Param::AnalyzerMode(s) => s.raw_bits(),
            Param::DisplayEQRange(on) => switch_value_bits(*on),
            Param::DisplayFFTFloor(on) => switch_value_bits(*on),
            Param::SidechainMode(s) => s.raw_bits(),
            Param::AnalyzerSpeed(s) => s.raw_bits(),
            Param::Solo(on) => switch_value_bits(*on),
            Param::Bypass(v) => *v,
            Param::Wet(v) => *v,
            Param::Delta(v) => *v,
        }
    }
}

/// Whether `at_least_half` and `rounded` are what the value of `p` gives: a switch's value
/// is at least 0.5 when it is on, a setting's value rounds to its index.
pub open spec fn read_back_of(p: Param, at_least_half: bool, rounded: isize) -> bool {
    match p {
        Param::Band1Selected(on) => at_least_half == on,
        Param::Band1Active(on) => at_least_half == on,
        Param::Band1Gain(_) => true,
        Param::Band1Q(_) => true,
        Param::Band1Frequency(_) => true,
        Param::Band1Type(s) => rounded == s.spec_raw_index(),
        Param::Band1Dyn(s) => rounded == s.spec_raw_index(),
        Param::Band1Threshold(_) => true,
        Param::Band1Ratio(_) => true,
        Param::Band1Split(on) => at_least_half == on,
        Param::Band1Attack(_) => true,
        Param::Band1Release(_) => true,
        Param::Band2Selected(on) => at_least_half == on,
        Param::Band2Active(on) => at_least_half == on,
        Param::Band2Gain(_) => true,
        Param::Band2Q(_) => true,
        Param::Band2Frequency(_) => true,
        Param::Band2Type(s) => rounded == s.spec_raw_index(),
        Param::Band2Dyn(s) => rounded == s.spec_raw_index(),
        Param::Band2Threshold(_) => true,
        Param::Band2Ratio(_) => true,
        Param::Band2Split(on) => at_least_half == on,
        Param::Band2Attack(_) => true,
        Param::Band2Release(_) => true,
        Param::Band3Selected(on) => at_least_half == on,
        Param::Band3Active(on) => at_least_half == on,
        Param::Band3Gain(_) => true,
        Param::Band3Q(_) => true,
        Param::Band3Frequency(_) => true,
        Param::Band3Type(s) => rounded == s.spec_raw_index(),
        Param::Band3Dyn(s) => rounded == s.spec_raw_index(),
        Param::Band3Threshold(_) => true,
        Param::Band3Ratio(_) => true,
        Param::Band3Split(on) => at_least_half == on,
        Param::Band3Attack(_) => true,
        Param::Band3Release(_) => true,
        Param::Band4Selected(on) => at_least_half == on,
        Param::Band4Active(on) => at_least_half == on,
        Param::Band4Gain(_) => true,
        Param::Band4Q(_) => true,
        Param::Band4Frequency(_) => true,
        Param::Band4Type(s) => rounded == s.spec_raw_index(),
        Param::Band4Dyn(s) => rounded == s.spec_raw_index(),
        Param::Band4Threshold(_) => true,
        Param::Band4Ratio(_) => true,
        Param::Band4Split(on) => at_least_half == on,
        Param::Band4Attack(_) => true,
        Param::Band4Release(_) => true,
        Param::HPSelected(on) => at_least_half == on,
        Param::HPActive(on) => at_least_half == on,
        Param::HPFrequency(_) => true,
        Param::HPType(s) => rounded == s.spec_raw_index(),
        Param::LPSelected(on) => at_least_half == on,
        Param::LPActive(on) => at_least_half == on,
        Param::LPFrequency(_) => true,
        Param::LPType(s) => rounded == s.spec_raw_index(),
        Param::WideBandGain(_) => true,
        Param::WideBandDyn(on) => at_least_half == on,
        Param::WideBandThreshold(_) => true,
        Param::WideBandRatio(_) => true,
        Param::WideBandAttack(_) => true,
        Param::WideBandRelease(_) => true,
        Param::MasterBypass(on) => at_least_half == on,
        Param::DynamicDelta(on) => at_least_half == on,
        Param::DryMix(_) => true,
        Param::OutputGain(_) => true,
        Param::EQAutoGain(on) => at_least_half == on,
        Param::Quality(s) => rounded == s.spec_raw_index(),
        Param::Channels(s) => rounded == s.spec_raw_index(),
        Param::AnalyzerMode(s) => rounded == s.spec_raw_index(),
        Param::DisplayEQRange(on) => at_least_half == on,
        Param::DisplayFFTFloor(on) => at_least_half == on,
        Param::SidechainMode(s) => rounded == s.spec_raw_index(),
        Param::AnalyzerSpeed(s) => rounded == s.spec_raw_index(),
        Param::Solo(on) => at_least_half == on,
        Param::Bypass(_) => true,
        Param::Wet(_) => true,
        Param::Delta(_) => true,
    }
}

/// The parameter that value `value` (the bits of a `f32`) of parameter `param_index`
/// sets; `at_least_half` says whether the value is at least 0.5, `rounded` is the value
/// rounded to a whole number.
pub open spec fn spec_decode(param_index: i32, value: u32, at_least_half: bool, rounded: isize) -> Option<
    Param,
> {
    if param_index == 0 {
        Some(Param::Band1Selected(at_least_half))
    } else if param_index == 1 {
        Some(Param::Band1Active(at_least_half))
    } else if param_index == 2 {
        Some(Param::Band1Gain(value))
    } else if param_index == 3 {
        Some(Param::Band1Q(value))
    } else if param_index == 4 {
        Some(Param::Band1Frequency(value))
    } else if param_index == 5 {
        match Band1Type::spec_from_raw_index(rounded as int) {
            Some(s) => Some(Param::Band1Type(s)),
            None => None,
        }
    } else if param_index == 6 {
        match Band1Dyn::spec_from_raw_index(rounded as int) {
            Some(s) => Some(Param::Band1Dyn(s)),
            None => None,
        }
    } else if param_index == 7 {
        Some(Param::Band1Threshold(value))
    } else if param_index == 8 {
        Some(Param::Band1Ratio(value))
    } else if param_index == 9 {
        Some(Param::Band1Split(at_least_half))
    } else if param_index == 10 {
        Some(Param::Band1Attack(value))
    } else if param_index == 11 {
        Some(Param::Band1Release(value))
    } else if param_index == 12 {
        Some(Param::Band2Selected(at_least_half))
    } else if param_index == 13 {
        Some(Param::Band2Active(at_least_half))
    } else if param_index == 14 {
        Some(Param::Band2Gain(value))
    } else if param_index == 15 {
        Some(Param::Band2Q(value))
    } else if param_index == 16 {
        Some(Param::Band2Frequency(value))
    } else if param_index == 17 {
        match Band2Type::spec_from_raw_index(rounded as int) {
            Some(s) => Some(Param::Band2Type(s)),
            None => None,
        }
    } else if param_index == 18 {
        match Band2Dyn::spec_from_raw_index(rounded as int) {
            Some(s) => Some(Param::Band2Dyn(s)),
            None => None,
        }
    } else if param_index == 19 {
        Some(Param::Band2Threshold(value))
    } else if param_index == 20 {
        Some(Param::Band2Ratio(value))
    } else if param_index == 21 {
        Some(Param::Band2Split(at_least_half))
    } else if param_index == 22 {
        Some(Param::Band2Attack(value))
    } else if param_index == 23 {
        Some(Param::Band2Release(value))
    } else if param_index == 24 {
        Some(Param::Band3Selected(at_least_half))
    } else if param_index == 25 {
        Some(Param::Band3Active(at_least_half))
    } else if param_index == 26 {
        Some(Param::Band3Gain(value))
    } else if param_index == 27 {
        Some(Param::Band3Q(value))
    } else if param_index == 28 {
        Some(Param::Band3Frequency(value))
    } else if param_index == 29 {
        match Band3Type::spec_from_raw_index(rounded as int) {
            Some(s) => Some(Param::Band3Type(s)),
            None => None,
        }
    } else if param_index == 30 {
        match Band3Dyn::spec_from_raw_index(rounded as int) {
            Some(s) => Some(Param::Band3Dyn(s)),
            None => None,
        }
    } else if param_index == 31 {
        Some(Param::Band3Threshold(value))
    } else if param_index == 32 {
        Some(Param::Band3Ratio(value))
    } else if param_index == 33 {
        Some(Param::Band3Split(at_least_half))
    } else if param_index == 34 {
        Some(Param::Band3Attack(value))
    } else if param_index == 35 {
        Some(Param::Band3Release(value))
    } else if param_index == 36 {
        Some(Param::Band4Selected(at_least_half))
    } else if param_index == 37 {
        Some(Param::Band4Active(at_least_half))
    } else if param_index == 38 {
        Some(Param::Band4Gain(value))
    } else if param_index == 39 {
        Some(Param::Band4Q(value))
    } else if param_index == 40 {
        Some(Param::Band4Frequency(value))
    } else if param_index == 41 {
        match Band4Type::spec_from_raw_index(rounded as int) {
            Some(s) => Some(Param::Band4Type(s)),
            None => None,
        }
    } else if param_index == 42 {
        match Band4Dyn::spec_from_raw_index(rounded as int) {
            Some(s) => Some(Param::Band4Dyn(s)),
            None => None,
        }
    } else if param_index == 43 {
        Some(Param::Band4Threshold(value))
    } else if param_index == 44 {
        Some(Param::Band4Ratio(value))
    } else if param_index == 45 {
        Some(Param::Band4Split(at_least_half))
    } else if param_index == 46 {
        Some(Param::Band4Attack(value))
    } else if param_index == 47 {
        Some(Param::Band4Release(value))
    } else if param_index == 48 {
        Some(Param::HPSelected(at_least_half))
    } else if param_index == 49 {
        Some(Param::HPActive(at_least_half))
    } else if param_index == 50 {
        Some(Param::HPFrequency(value))
    } else if param_index == 51 {
        match HPType::spec_from_raw_index(rounded as int) {
            Some(s) => Some(Param::HPType(s)),
            None => None,
        }
    } else if param_index == 52 {
        Some(Param::LPSelected(at_least_half))
    } else if param_index == 53 {
        Some(Param::LPActive(at_least_half))
    } else if param_index == 54 {
        Some(Param::LPFrequency(value))
    } else if param_index == 55 {
        match LPType::spec_from_raw_index(rounded as int) {
            Some(s) => Some(Param::LPType(s)),
            None => None,
        }
    } else if param_index == 56 {
        Some(Param::WideBandGain(value))
    } else if param_index == 57 {
        Some(Param::WideBandDyn(at_least_half))
    } else if param_index == 58 {
        Some(Param::WideBandThreshold(value))
    } else if param_index == 59 {
        Some(Param::WideBandRatio(value))
    } else if param_index == 60 {
        Some(Param::WideBandAttack(value))
    } else if param_index == 61 {
        Some(Param::WideBandRelease(value))
    } else if param_index == 62 {
        Some(Param::MasterBypass(at_least_half))
    } else if param_index == 63 {
        Some(Param::DynamicDelta(at_least_half))
    } else if param_index == 64 {
        Some(Param::DryMix(value))
    } else if param_index == 65 {
        Some(Param::OutputGain(value))
    } else if param_index == 66 {
        Some(Param::EQAutoGain(at_least_half))
    } else if param_index == 67 {
        match Quality::spec_from_raw_index(rounded as int) {
            Some(s) => Some(Param::Quality(s)),
            None => None,
        }
    } else if param_index == 68 {
        match Channels::spec_from_raw_index(rounded as int) {
            Some(s) => Some(Param::Channels(s)),
            None => None,
        }
    } else if param_index == 69 {
        match AnalyzerMode::spec_from_raw_index(rounded as int) {
            Some(s) => Some(Param::AnalyzerMode(s)),
            None => None,
        }
    } else if param_index == 70 {
        Some(Param::DisplayEQRange(at_least_half))
    } else if param_index == 71 {
        Some(Param::DisplayFFTFloor(at_least_half))
    } else if param_index == 72 {
        match SidechainMode::spec_from_raw_index(rounded as int) {
            Some(s) => Some(Param::SidechainMode(s)),
            None => None,
        }
    } else if param_index == 73 {
        match AnalyzerSpeed::spec_from_raw_index(rounded as int) {
            Some(s) => Some(Param::AnalyzerSpeed(s)),
            None => None,
        }
    } else if param_index == 74 {
        Some(Param::Solo(at_least_half))
    } else if param_index == 75 {
        Some(Param::Bypass(value))
    } else if param_index == 76 {
        Some(Param::Wet(value))
    } else if param_index == 77 {
        Some(Param::Delta(value))
    } else {
        None
    }
}

/// The DAW message that sets `param` on the plugin at `fx_index` of a track.
pub fn encode_trackmsg(track_guid: TrackGuid, fx_index: i32, param: Param) -> (r: DataMsg)
    ensures
        r == (DataMsg::FXParamValue {
            track_guid,
            fx_index,
            param_index: param.spec_param_index(),
            value: param.spec_value_bits(),
        }),
{
    DataMsg::FXParamValue {
        track_guid,
        fx_index,
        param_index: param.param_index(),
        value: param.value_bits(),
    }
}

/// The parameter a reported value sets, if `param_index` names one (see `spec_decode`).
pub fn decode_trackmsg(param_index: i32, value: u32, at_least_half: bool, rounded: isize) -> (r:
    Option<Param>)
    ensures
        r == spec_decode(param_index, value, at_least_half, rounded),
{
    match param_index {
        0 => Some(Param::Band1Selected(at_least_half)),
        1 => Some(Param::Band1Active(at_least_half)),
        2 => Some(Param::Band1Gain(value)),
        3 => Some(Param::Band1Q(value)),
        4 => Some(Param::Band1Frequency(value)),
        5 => match Band1Type::from_raw_index(rounded) {
            Some(s) => Some(Param::Band1Type(s)),
            None => None,
        },
        6 => match Band1Dyn::from_raw_index(rounded) {
            Some(s) => Some(Param::Band1Dyn(s)),
            None => None,
        },
        7 => Some(Param::Band1Threshold(value)),
        8 => Some(Param::Band1Ratio(value)),
        9 => Some(Param::Band1Split(at_least_half)),
        10 => Some(Param::Band1Attack(value)),
        11 => Some(Param::Band1Release(value)),
        12 => Some(Param::Band2Selected(at_least_half)),
        13 => Some(Param::Band2Active(at_least_half)),
        14 => Some(Param::Band2Gain(value)),
        15 => Some(Param::Band2Q(value)),
        16 => Some(Param::Band2Frequency(value)),
        17 => match Band2Type::from_raw_index(rounded) {
            Some(s) => Some(Param::Band2Type(s)),
            None => None,
        },
        18 => match Band2Dyn::from_raw_index(rounded) {
            Some(s) => Some(Param::Band2Dyn(s)),
            None => None,
        },
        19 => Some(Param::Band2Threshold(value)),
        20 => Some(Param::Band2Ratio(value)),
        21 => Some(Param::Band2Split(at_least_half)),
        22 => Some(Param::Band2Attack(value)),
        23 => Some(Param::Band2Release(value)),
        24 => Some(Param::Band3Selected(at_least_half)),
        25 => Some(Param::Band3Active(at_least_half)),
        26 => Some(Param::Band3Gain(value)),
        27 => Some(Param::Band3Q(value)),
        28 => Some(Param::Band3Frequency(value)),
        29 => match Band3Type::from_raw_index(rounded) {
            Some(s) => Some(Param::Band3Type(s)),
            None => None,
        },
        30 => match Band3Dyn::from_raw_index(rounded) {
            Some(s) => Some(Param::Band3Dyn(s)),
            None => None,
        },
        31 => Some(Param::Band3Threshold(value)),
        32 => Some(Param::Band3Ratio(value)),
        33 => Some(Param::Band3Split(at_least_half)),
        34 => Some(Param::Band3Attack(value)),
        35 => Some(Param::Band3Release(value)),
        36 => Some(Param::Band4Selected(at_least_half)),
        37 => Some(Param::Band4Active(at_least_half)),
        38 => Some(Param::Band4Gain(value)),
        39 => Some(Param::Band4Q(value)),
        40 => Some(Param::Band4Frequency(value)),
        41 => match Band4Type::from_raw_index(rounded) {
            Some(s) => Some(Param::Band4Type(s)),
            None => None,
        },
        42 => match Band4Dyn::from_raw_index(rounded) {
            Some(s) => Some(Param::Band4Dyn(s)),
            None => None,
        },
        43 => Some(Param::Band4Threshold(value)),
        44 => Some(Param::Band4Ratio(value)),
        45 => Some(Param::Band4Split(at_least_half)),
        46 => Some(Param::Band4Attack(value)),
        47 => Some(Param::Band4Release(value)),
        48 => Some(Param::HPSelected(at_least_half)),
        49 => Some(Param::HPActive(at_least_half)),
        50 => Some(Param::HPFrequency(value)),
        51 => match HPType::from_raw_index(rounded) {
            Some(s) => Some(Param::HPType(s)),
            None => None,
        },
        52 => Some(Param::LPSelected(at_least_half)),
        53 => Some(Param::LPActive(at_least_half)),
        54 => Some(Param::LPFrequency(value)),
        55 => match LPType::from_raw_index(rounded) {
            Some(s) => Some(Param::LPType(s)),
            None => None,
        },
        56 => Some(Param::WideBandGain(value)),
        57 => Some(Param::WideBandDyn(at_least_half)),
        58 => Some(Param::WideBandThreshold(value)),
        59 => Some(Param::WideBandRatio(value)),
        60 => Some(Param::WideBandAttack(value)),
        61 => Some(Param::WideBandRelease(value)),
        62 => Some(Param::MasterBypass(at_least_half)),
        63 => Some(Param::DynamicDelta(at_least_half)),
        64 => Some(Param::DryMix(value)),
        65 => Some(Param::OutputGain(value)),
        66 => Some(Param::EQAutoGain(at_least_half)),
        67 => match Quality::from_raw_index(rounded) {
            Some(s) => Some(Param::Quality(s)),
            None => None,
        },
        68 => match Channels::from_raw_index(rounded) {
            Some(s) => Some(Param::Channels(s)),
            None => None,
        },
        69 => match AnalyzerMode::from_raw_index(rounded) {
            Some(s) => Some(Param::AnalyzerMode(s)),
            None => None,
        },
        70 => Some(Param::DisplayEQRange(at_least_half)),
        71 => Some(Param::DisplayFFTFloor(at_least_half)),
        72 => match SidechainMode::from_raw_index(rounded) {
            Some(s) => Some(Param::SidechainMode(s)),
            None => None,
        },
        73 => match AnalyzerSpeed::from_raw_index(rounded) {
            Some(s) => Some(Param::AnalyzerSpeed(s)),
            None => None,
        },
        74 => Some(Param::Solo(at_least_half)),
        75 => Some(Param::Bypass(value)),
        76 => Some(Param::Wet(value)),
        77 => Some(Param::Delta(value)),
        _ => None,
    }
}

/// Reading back the message that sets a parameter gives that parameter.
pub proof fn law_decode_encode(p: Param, at_least_half: bool, rounded: isize)
    requires
        read_back_of(p, at_least_half, rounded),
    ensures
        spec_decode(p.spec_param_index(), p.spec_value_bits(), at_least_half, rounded) == Some(p),
{
}

/// Each `Band1Type` setting is chosen by its fixed whole-number value of the plugin
/// parameter.
pub proof fn law_band1_type_values(s: Band1Type)
    ensures
        s is LowS ==> s.spec_raw_index() == 0,
        s is Bell ==> s.spec_raw_index() == 1,
{
}

/// Each `Band1Dyn` setting is chosen by its fixed whole-number value of the plugin
/// parameter.
pub proof fn law_band1_dyn_values(s: Band1Dyn)
    ensures
        s is Off ==> s.spec_raw_index() == 0,
        s is On ==> s.spec_raw_index() == 1,
{
}

/// Each `Band2Type` setting is chosen by its fixed whole-number value of the plugin
/// parameter.
pub proof fn law_band2_type_values(s: Band2Type)
    ensures
        s is LowS ==> s.spec_raw_index() == 0,
        s is Bell ==> s.spec_raw_index() == 1,
{
}

/// Each `Band2Dyn` setting is chosen by its fixed whole-number value of the plugin
/// parameter.
pub proof fn law_band2_dyn_values(s: Band2Dyn)
    ensures
        s is Off ==> s.spec_raw_index() == 0,
        s is On ==> s.spec_raw_index() == 1,
{
}

/// Each `Band3Type` setting is chosen by its fixed whole-number value of the plugin
/// parameter.
pub proof fn law_band3_type_values(s: Band3Type)
    ensures
        s is LowS ==> s.spec_raw_index() == 0,
        s is Bell ==> s.spec_raw_index() == 1,
{
}

/// Each `Band3Dyn` setting is chosen by its fixed whole-number value of the plugin
/// parameter.
pub proof fn law_band3_dyn_values(s: Band3Dyn)
    ensures
        s is Off ==> s.spec_raw_index() == 0,
        s is On ==> s.spec_raw_index() == 1,
{
}

/// Each `Band4Type` setting is chosen by its fixed whole-number value of the plugin
/// parameter.
pub proof fn law_band4_type_values(s: Band4Type)
    ensures
        s is LowS ==> s.spec_raw_index() == 0,
        s is Bell ==> s.spec_raw_index() == 1,
{
}

/// Each `Band4Dyn` setting is chosen by its fixed whole-number value of the plugin
/// parameter.
pub proof fn law_band4_dyn_values(s: Band4Dyn)
    ensures
        s is Off ==> s.spec_raw_index() == 0,
        s is On ==> s.spec_raw_index() == 1,
{
}

/// Each `HPType` setting is chosen by its fixed whole-number value of the plugin
/// parameter.
pub proof fn law_hp_type_values(s: HPType)
    ensures
        s is _6dBOct ==> s.spec_raw_index() == 0,
        s is _12dBOct ==> s.spec_raw_index() == 1,
        s is _24dBOct ==> s.spec_raw_index() == 2,
{
}

/// Each `LPType` setting is chosen by its fixed whole-number value of the plugin
/// parameter.
pub proof fn law_lp_type_values(s: LPType)
    ensures
        s is _6dBOct ==> s.spec_raw_index() == 0,
        s is _12dBOct ==> s.spec_raw_index() == 1,
        s is _24dBOct ==> s.spec_raw_index() == 2,
{
}

/// Each `Quality` setting is chosen by its fixed whole-number value of the plugin
/// parameter.
pub proof fn law_quality_values(s: Quality)
    ensures
        s is Eco ==> s.spec_raw_index() == 0,
        s is Precise ==> s.spec_raw_index() == 1,
{
}

/// Each `Channels` setting is chosen by its fixed whole-number value of the plugin
/// parameter.
pub proof fn law_channels_values(s: Channels)
    ensures
        s is Mono ==> s.spec_raw_index() == 0,
        s is Stereo ==> s.spec_raw_index() == 1,
        s is Sum ==> s.spec_raw_index() == 2,
        s is Diff ==> s.spec_raw_index() == 3,
        s is Left ==> s.spec_raw_index() == 4,
        s is Right ==> s.spec_raw_index() == 5,
{
}

/// Each `AnalyzerMode` setting is chosen by its fixed whole-number value of the plugin
/// parameter.
pub proof fn law_analyzer_mode_values(s: AnalyzerMode)
    ensures
        s is AnalyzerIn ==> s.spec_raw_index() == 0,
        s is AnalyzerOut ==> s.spec_raw_index() == 1,
        s is AnalyzerSC ==> s.spec_raw_index() == 2,
        s is AnalyzerOff ==> s.spec_raw_index() == 3,
{
}

/// Each `SidechainMode` setting is chosen by its fixed whole-number value of the plugin
/// parameter.
pub proof fn law_sidechain_mode_values(s: SidechainMode)
    ensures
        s is IntSC ==> s.spec_raw_index() == 0,
        s is ExtSC ==> s.spec_raw_index() == 1,
{
}

/// Each `AnalyzerSpeed` setting is chosen by its fixed whole-number value of the plugin
/// parameter.
pub proof fn law_analyzer_speed_values(s: AnalyzerSpeed)
    ensures
        s is Fast ==> s.spec_raw_index() == 0,
        s is Normal ==> s.spec_raw_index() == 1,
{
}

/// Each parameter is written to its fixed index in the plugin.
pub proof fn law_parameter_indices(p: Param)
    ensures
        p is Band1Selected ==> p.spec_param_index() == 0,
        p is Band1Active ==> p.spec_param_index() == 1,
        p is Band1Gain ==> p.spec_param_index() == 2,
        p is Band1Q ==> p.spec_param_index() == 3,
        p is Band1Frequency ==> p.spec_param_index() == 4,
        p is Band1Type ==> p.spec_param_index() == 5,
        p is Band1Dyn ==> p.spec_param_index() == 6,
        p is Band1Threshold ==> p.spec_param_index() == 7,
        p is Band1Ratio ==> p.spec_param_index() == 8,
        p is Band1Split ==> p.spec_param_index() == 9,
        p is Band1Attack ==> p.spec_param_index() == 10,
        p is Band1Release ==> p.spec_param_index() == 11,
        p is Band2Selected ==> p.spec_param_index() == 12,
        p is Band2Active ==> p.spec_param_index() == 13,
        p is Band2Gain ==> p.spec_param_index() == 14,
        p is Band2Q ==> p.spec_param_index() == 15,
        p is Band2Frequency ==> p.spec_param_index() == 16,
        p is Band2Type ==> p.spec_param_index() == 17,
        p is Band2Dyn ==> p.spec_param_index() == 18,
        p is Band2Threshold ==> p.spec_param_index() == 19,
        p is Band2Ratio ==> p.spec_param_index() == 20,
        p is Band2Split ==> p.spec_param_index() == 21,
        p is Band2Attack ==> p.spec_param_index() == 22,
        p is Band2Release ==> p.spec_param_index() == 23,
        p is Band3Selected ==> p.spec_param_index() == 24,
        p is Band3Active ==> p.spec_param_index() == 25,
        p is Band3Gain ==> p.spec_param_index() == 26,
        p is Band3Q ==> p.spec_param_index() == 27,
        p is Band3Frequency ==> p.spec_param_index() == 28,
        p is Band3Type ==> p.spec_param_index() == 29,
        p is Band3Dyn ==> p.spec_param_index() == 30,
        p is Band3Threshold ==> p.spec_param_index() == 31,
        p is Band3Ratio ==> p.spec_param_index() == 32,
        p is Band3Split ==> p.spec_param_index() == 33,
        p is Band3Attack ==> p.spec_param_index() == 34,
        p is Band3Release ==> p.spec_param_index() == 35,
        p is Band4Selected ==> p.spec_param_index() == 36,
        p is Band4Active ==> p.spec_param_index() == 37,
        p is Band4Gain ==> p.spec_param_index() == 38,
        p is Band4Q ==> p.spec_param_index() == 39,
        p is Band4Frequency ==> p.spec_param_index() == 40,
        p is Band4Type ==> p.spec_param_index() == 41,
        p is Band4Dyn ==> p.spec_param_index() == 42,
        p is Band4Threshold ==> p.spec_param_index() == 43,
        p is Band4Ratio ==> p.spec_param_index() == 44,
        p is Band4Split ==> p.spec_param_index() == 45,
        p is Band4Attack ==> p.spec_param_index() == 46,
        p is Band4Release ==> p.spec_param_index() == 47,
        p is HPSelected ==> p.spec_param_index() == 48,
        p is HPActive ==> p.spec_param_index() == 49,
        p is HPFrequency ==> p.spec_param_index() == 50,
        p is HPType ==> p.spec_param_index() == 51,
        p is LPSelected ==> p.spec_param_index() == 52,
        p is LPActive ==> p.spec_param_index() == 53,
        p is LPFrequency ==> p.spec_param_index() == 54,
        p is LPType ==> p.spec_param_index() == 55,
        p is WideBandGain ==> p.spec_param_index() == 56,
        p is WideBandDyn ==> p.spec_param_index() == 57,
        p is WideBandThreshold ==> p.spec_param_index() == 58,
        p is WideBandRatio ==> p.spec_param_index() == 59,
        p is WideBandAttack ==> p.spec_param_index() == 60,
        p is WideBandRelease ==> p.spec_param_index() == 61,
        p is MasterBypass ==> p.spec_param_index() == 62,
        p is DynamicDelta ==> p.spec_param_index() == 63,
        p is DryMix ==> p.spec_param_index() == 64,
        p is OutputGain ==> p.spec_param_index() == 65,
        p is EQAutoGain ==> p.spec_param_index() == 66,
        p is Quality ==> p.spec_param_index() == 67,
        p is Channels ==> p.spec_param_index() == 68,
        p is AnalyzerMode ==> p.spec_param_index() == 69,
        p is DisplayEQRange ==> p.spec_param_index() == 70,
        p is DisplayFFTFloor ==> p.spec_param_index() == 71,
        p is SidechainMode ==> p.spec_param_index() == 72,
        p is AnalyzerSpeed ==> p.spec_param_index() == 73,
        p is Solo ==> p.spec_param_index() == 74,
        p is Bypass ==> p.spec_param_index() == 75,
        p is Wet ==> p.spec_param_index() == 76,
        p is Delta ==> p.spec_param_index() == 77,
{
}

} // verus!
