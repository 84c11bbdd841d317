//! Parameter settings of the TDR VOS SlickEQ (AU).
use vstd::prelude::*;

use crate::modes::guid::TrackGuid;
use crate::modes::reaper_fx::{switch_bits, switch_value_bits, whole_bits, whole_number_bits};
use crate::modes::track_data::DataMsg;

verus! {

pub const FX_NAME: &'static str = "AU: TDR VOS SlickEQ (Tokyo Dawn Labs)";

#[derive(Debug, Clone, Copy, PartialEq, Eq, Structural)]
pub enum EQModel {
    American,
    British,
    German,
}

impl EQModel {
    /// The plugin parameter value that selects this setting.
    pub open spec fn spec_raw_index(self) -> int {
        match self {
            EQModel::American => 0,
            EQModel::British => 1,
            EQModel::German => 2,
        }
    }

    /// The setting that a rounded plugin parameter value selects, if any.
    pub open spec fn spec_from_raw_index(rounded: int) -> Option<Self> {
        if rounded == 0 {
            Some(EQModel::American)
        } else if rounded == 1 {
            Some(EQModel::British)
        } else if rounded == 2 {
            Some(EQModel::German)
        } else {
            None
        }
    }

    pub fn raw_index(self) -> (r: u8)
        ensures
            r == self.spec_raw_index(),
            r < 3,
    {
        match self {
            EQModel::American => 0,
            EQModel::British => 1,
            EQModel::German => 2,
        }
    }

    pub fn from_raw_index(rounded: isize) -> (r: Option<Self>)
        ensures
            r == Self::spec_from_raw_index(rounded as int),
    {
        match rounded {
            0 => Some(EQModel::American),
            1 => Some(EQModel::British),
            2 => Some(EQModel::German),
            _ => None,
        }
    }

    /// The value the DAW takes for this setting: its index as a `f32`, in bits.
    pub fn raw_bits(self) -> (r: u32)
        ensures
            r == whole_bits(self.spec_raw_index()),
    {
        whole_number_bits(self.raw_index())
    }

    /// Reading back the value of a setting gives that setting, and a value that selects
    /// a setting is that setting's value.
    pub proof fn law_raw_index_round_trip(self, rounded: int)
        ensures
            Self::spec_from_raw_index(self.spec_raw_index()) == Some(self),
            Self::spec_from_raw_index(rounded) matches Some(v) ==> v.spec_raw_index() == rounded,
    {
    }
}

#[derive(Debug, Clone, Copy, PartialEq, Eq, Structural)]
pub enum OUTStage {
    Linear,
    Silky,
    Mellow,
    Deep,
}

impl OUTStage {
    /// The plugin parameter value that selects this setting.
    pub open spec fn spec_raw_index(self) -> int {
        match self {
            OUTStage::Linear => 0,
            OUTStage::Silky => 1,
            OUTStage::Mellow => 2,
            OUTStage::Deep => 3,
        }
    }

    /// The setting that a rounded plugin parameter value selects, if any.
    pub open spec fn spec_from_raw_index(rounded: int) -> Option<Self> {
        if rounded == 0 {
            Some(OUTStage::Linear)
        } else if rounded == 1 {
            Some(OUTStage::Silky)
        } else if rounded == 2 {
            Some(OUTStage::Mellow)
        } else if rounded == 3 {
            Some(OUTStage::Deep)
        } else {
            None
        }
    }

    pub fn raw_index(self) -> (r: u8)
        ensures
            r == self.spec_raw_index(),
            r < 4,
    {
        match self {
            OUTStage::Linear => 0,
            OUTStage::Silky => 1,
            OUTStage::Mellow => 2,
            OUTStage::Deep => 3,
        }
    }

    pub fn from_raw_index(rounded: isize) -> (r: Option<Self>)
        ensures
            r == Self::spec_from_raw_index(rounded as int),
    {
        match rounded {
            0 => Some(OUTStage::Linear),
            1 => Some(OUTStage::Silky),
            2 => Some(OUTStage::Mellow),
            3 => Some(OUTStage::Deep),
            _ => None,
        }
    }

    /// The value the DAW takes for this setting: its index as a `f32`, in bits.
    pub fn raw_bits(self) -> (r: u32)
        ensures
            r == whole_bits(self.spec_raw_index()),
    {
        whole_number_bits(self.raw_index())
    }

    /// Reading back the value of a setting gives that setting, and a value that selects
    /// a setting is that setting's value.
    pub proof fn law_raw_index_round_trip(self, rounded: int)
        ensures
            Self::spec_from_raw_index(self.spec_raw_index()) == Some(self),
            Self::spec_from_raw_index(rounded) matches Some(v) ==> v.spec_raw_index() == rounded,
    {
    }
}

#[derive(Debug, Clone, Copy, PartialEq, Eq, Structural)]
pub enum Mode {
    Mono,
    Stereo,
    Sum,
    Diff,
    Left,
}

impl Mode {
    /// The plugin parameter value that selects this setting.
    pub open spec fn spec_raw_index(self) -> int {
        match self {
            Mode::Mono => 0,
            Mode::Stereo => 1,
            Mode::Sum => 2,
            Mode::Diff => 3,
            Mode::Left => 4,
        }
    }

    /// The setting that a rounded plugin parameter value selects, if any.
    pub open spec fn spec_from_raw_index(rounded: int) -> Option<Self> {
        if rounded == 0 {
            Some(Mode::Mono)
        } else if rounded == 1 {
            Some(Mode::Stereo)
        } else if rounded == 2 {
            Some(Mode::Sum)
        } else if rounded == 3 {
            Some(Mode::Diff)
        } else if rounded == 4 {
            Some(Mode::Left)
        } else {
            None
        }
    }

    pub fn raw_index(self) -> (r: u8)
        ensures
            r == self.spec_raw_index(),
            r < 5,
    {
        match self {
            Mode::Mono => 0,
            Mode::Stereo => 1,
            Mode::Sum => 2,
            Mode::Diff => 3,
            Mode::Left => 4,
        }
    }

    pub fn from_raw_index(rounded: isize) -> (r: Option<Self>)
        ensures
            r == Self::spec_from_raw_index(rounded as int),
    {
        match rounded {
            0 => Some(Mode::Mono),
            1 => Some(Mode::Stereo),
            2 => Some(Mode::Sum),
            3 => Some(Mode::Diff),
            4 => Some(Mode::Left),
            _ => None,
        }
    }

    /// The value the DAW takes for this setting: its index as a `f32`, in bits.
    pub fn raw_bits(self) -> (r: u32)
        ensures
            r == whole_bits(self.spec_raw_index()),
    {
        whole_number_bits(self.raw_index())
    }

    /// Reading back the value of a setting gives that setting, and a value that selects
    /// a setting is that setting's value.
    pub proof fn law_raw_index_round_trip(self, rounded: int)
        ensures
            Self::spec_from_raw_index(self.spec_raw_index()) == Some(self),
            Self::spec_from_raw_index(rounded) matches Some(v) ==> v.spec_raw_index() == rounded,
    {
    }
}

#[derive(Debug, Clone, Copy, PartialEq, Eq, Structural)]
pub enum Quality {
    Full,
    Eco,
}

impl Quality {
    /// The plugin parameter value that selects this setting.
    pub open spec fn spec_raw_index(self) -> int {
        match self {
            Quality::Full => 0,
            Quality::Eco => 1,
        }
    }

    /// The setting that a rounded plugin parameter value selects, if any.
    pub open spec fn spec_from_raw_index(rounded: int) -> Option<Self> {
        if rounded == 0 {
            Some(Quality::Full)
        } else if rounded == 1 {
            Some(Quality::Eco)
        } else {
            None
        }
    }

    pub fn raw_index(self) -> (r: u8)
        ensures
            r == self.spec_raw_index(),
            r < 2,
    {
        match self {
            Quality::Full => 0,
            Quality::Eco => 1,
        }
    }

    pub fn from_raw_index(rounded: isize) -> (r: Option<Self>)
        ensures
            r == Self::spec_from_raw_index(rounded as int),
    {
        match rounded {
            0 => Some(Quality::Full),
            1 => Some(Quality::Eco),
            _ => None,
        }
    }

    /// The value the DAW takes for this setting: its index as a `f32`, in bits.
    pub fn raw_bits(self) -> (r: u32)
        ensures
            r == whole_bits(self.spec_raw_index()),
    {
        whole_number_bits(self.raw_index())
    }

    /// Reading back the value of a setting gives that setting, and a value that selects
    /// a setting is that setting's value.
    pub proof fn law_raw_index_round_trip(self, rounded: int)
        ensures
            Self::spec_from_raw_index(self.spec_raw_index()) == Some(self),
            Self::spec_from_raw_index(rounded) matches Some(v) ==> v.spec_raw_index() == rounded,
    {
    }
}

/// A parameter of the plugin with its value: continuous values hold the bits of their
/// `f32`, switches are on or off, stepped parameters hold a setting.
#[derive(Debug, Clone, Copy, PartialEq, Eq, Structural)]
#[allow(non_camel_case_types)]
pub enum Param {
    LOWGain(u32),
    LOWFreq(u32),
    LOWShape(bool),
    MIDGain(u32),
    MIDFreq(u32),
    HIGHGain(u32),
    HIGHFreq(u32),
    HIGHShape(bool),
    EQModel(EQModel),
    EQSat(bool),
    HPFreq(u32),
    OUTStage(OUTStage),
    OUTDrive(u32),
    OUTGain(u32),
    Bypass(bool),
    Mode(Mode),
    LOWBypass(bool),
    MIDBypass(bool),
    HIGHBypass(bool),
    AutoGain(bool),
    Quality(Quality),
    Bypass_2(u32),
    Wet(u32),
    Delta(u32),
}

impl Param {
    /// The parameter's index in the plugin.
    pub open spec fn spec_param_index(self) -> i32 {
        match self {
            Param::LOWGain(_) => 0,
            Param::LOWFreq(_) => 1,
            Param::LOWShape(_) => 2,
            Param::MIDGain(_) => 3,
            Param::MIDFreq(_) => 4,
            Param::HIGHGain(_) => 5,
            Param::HIGHFreq(_) => 6,
            Param::HIGHShape(_) => 7,
            Param::EQModel(_) => 8,
            Param::EQSat(_) => 9,
            Param::HPFreq(_) => 10,
            Param::OUTStage(_) => 11,
            Param::OUTDrive(_) => 12,
            Param::OUTGain(_) => 13,
            Param::Bypass(_) => 14,
            Param::Mode(_) => 15,
            Param::LOWBypass(_) => 16,
            Param::MIDBypass(_) => 17,
            Param::HIGHBypass(_) => 18,
            Param::AutoGain(_) => 19,
            Param::Quality(_) => 20,
            Param::Bypass_2(_) => 21,
            Param::Wet(_) => 22,
            Param::Delta(_) => 23,
        }
    }

    /// The value as the DAW takes it, the bits of a `f32`: a switch is 1.0 or 0.0, a
    /// setting its index as a whole number.
    pub open spec fn spec_value_bits(self) -> u32 {
        match self {
            Param::LOWGain(v) => v,
            Param::LOWFreq(v) => v,
            Param::LOWShape(on) => switch_bits(on),
            Param::MIDGain(v) => v,
            Param::MIDFreq(v) => v,
            Param::HIGHGain(v) => v,
            Param::HIGHFreq(v) => v,
            Param::HIGHShape(on) => switch_bits(on),
            Param::EQModel(s) => whole_bits(s.spec_raw_index()),
            Param::EQSat(on) => switch_bits(on),
            Param::HPFreq(v) => v,
            Param::OUTStage(s) => whole_bits(s.spec_raw_index()),
            Param::OUTDrive(v) => v,
            Param::OUTGain(v) => v,
            Param::Bypass(on) => switch_bits(on),
            Param::Mode(s) => whole_bits(s.spec_raw_index()),
            Param::LOWBypass(on) => switch_bits(on),
            Param::MIDBypass(on) => switch_bits(on),
            Param::HIGHBypass(on) => switch_bits(on),
            Param::AutoGain(on) => switch_bits(on),
            Param::Quality(s) => whole_bits(s.spec_raw_index()),
            Param::Bypass_2(v) => v,
            Param::Wet(v) => v,
            Param::Delta(v) => v,
        }
    }

    /// The parameter's index in the plugin.
    pub fn param_index(&self) -> (r: i32)
        ensures
            r == self.spec_param_index(),
    {
        match self {
            Param::LOWGain(_) => 0,
            Param::LOWFreq(_) => 1,
            Param::LOWShape(_) => 2,
            Param::MIDGain(_) => 3,
            Param::MIDFreq(_) => 4,
            Param::HIGHGain(_) => 5,
            Param::HIGHFreq(_) => 6,
            Param::HIGHShape(_) => 7,
            Param::EQModel(_) => 8,
            Param::EQSat(_) => 9,
            Param::HPFreq(_) => 10,
            Param::OUTStage(_) => 11,
            Param::OUTDrive(_) => 12,
            Param::OUTGain(_) => 13,
            Param::Bypass(_) => 14,
            Param::Mode(_) => 15,
            Param::LOWBypass(_) => 16,
            Param::MIDBypass(_) => 17,
            Param::HIGHBypass(_) => 18,
            Param::AutoGain(_) => 19,
            Param::Quality(_) => 20,
            Param::Bypass_2(_) => 21,
            Param::Wet(_) => 22,
            Param::Delta(_) => 23,
        }
    }

    /// The value as the DAW takes it (see `spec_value_bits`).
    pub fn value_bits(&self) -> (r: u32)
        ensures
            r == self.spec_value_bits(),
    {
        match self {
            Param::LOWGain(v) => *v,
            Param::LOWFreq(v) => *v,
            Param::LOWShape(on) => switch_value_bits(*on),
            Param::MIDGain(v) => *v,
            Param::MIDFreq(v) => *v,
            Param::HIGHGain(v) => *v,
            Param::HIGHFreq(v) => *v,
            Param::HIGHShape(on) => switch_value_bits(*on),
            Param::EQModel(s) => s.raw_bits(),
            Param::EQSat(on) => switch_value_bits(*on),
            Param::HPFreq(v) => *v,
            Param::OUTStage(s) => s.raw_bits(),
            Param::OUTDrive(v) => *v,
            Param::OUTGain(v) => *v,
            Param::Bypass(on) => switch_value_bits(*on),
            Param::Mode(s) => s.raw_bits(),
            Param::LOWBypass(on) => switch_value_bits(*on),
            Param::MIDBypass(on) => switch_value_bits(*on),
            Param::HIGHBypass(on) => switch_value_bits(*on),
            Param::AutoGain(on) => switch_value_bits(*on),
            Param::Quality(s) => s.raw_bits(),
            Param::Bypass_2(v) => *v,
            Param::Wet(v) => *v,
            Param::Delta(v) => *v,
        }
    }
}

/// Whether `at_least_half` and `rounded` are what the value of `p` gives: a switch's value
/// is at least 0.5 when it is on, a setting's value rounds to its index.
pub open spec fn read_back_of(p: Param, at_least_half: bool, rounded: isize) -> bool {
    match p {
        Param::LOWGain(_) => true,
        Param::LOWFreq(_) => true,
        Param::LOWShape(on) => at_least_half == on,
        Param::MIDGain(_) => true,
        Param::MIDFreq(_) => true,
        Param::HIGHGain(_) => true,
        Param::HIGHFreq(_) => true,
        Param::HIGHShape(on) => at_least_half == on,
        Param::EQModel(s) => rounded == s.spec_raw_index(),
        Param::EQSat(on) => at_least_half == on,
        Param::HPFreq(_) => true,
        Param::OUTStage(s) => rounded == s.spec_raw_index(),
        Param::OUTDrive(_) => true,
        Param::OUTGain(_) => true,
        Param::Bypass(on) => at_least_half == on,
        Param::Mode(s) => rounded == s.spec_raw_index(),
        Param::LOWBypass(on) => at_least_half == on,
        Param::MIDBypass(on) => at_least_half == on,
        Param::HIGHBypass(on) => at_least_half == on,
        Param::AutoGain(on) => at_least_half == on,
        Param::Quality(s) => rounded == s.spec_raw_index(),
        Param::Bypass_2(_) => true,
        Param::Wet(_) => true,
        Param::Delta(_) => true,
    }
}

/// The parameter that value `value` (the bits of a `f32`) of parameter `param_index`
/// sets; `at_least_half` says whether the value is at least 0.5, `rounded` is the value
/// rounded to a whole number.
pub open spec fn spec_decode(param_index: i32, value: u32, at_least_half: bool, rounded: isize) -> Option<
    Param,
> {
    if param_index == 0 {
        Some(Param::LOWGain(value))
    } else if param_index == 1 {
        Some(Param::LOWFreq(value))
    } else if param_index == 2 {
        Some(Param::LOWShape(at_least_half))
    } else if param_index == 3 {
        Some(Param::MIDGain(value))
    } else if param_index == 4 {
        Some(Param::MIDFreq(value))
    } else if param_index == 5 {
        Some(Param::HIGHGain(value))
    } else if param_index == 6 {
        Some(Param::HIGHFreq(value))
    } else if param_index == 7 {
        Some(Param::HIGHShape(at_least_half))
    } else if param_index == 8 {
        match EQModel::spec_from_raw_index(rounded as int) {
            Some(s) => Some(Param::EQModel(s)),
            None => None,
        }
    } else if param_index == 9 {
        Some(Param::EQSat(at_least_half))
    } else if param_index == 10 {
        Some(Param::HPFreq(value))
    } else if param_index == 11 {
        match OUTStage::spec_from_raw_index(rounded as int) {
            Some(s) => Some(Param::OUTStage(s)),
            None => None,
        }
    } else if param_index == 12 {
        Some(Param::OUTDrive(value))
    } else if param_index == 13 {
        Some(Param::OUTGain(value))
    } else if param_index == 14 {
        Some(Param::Bypass(at_least_half))
    } else if param_index == 15 {
        match Mode::spec_from_raw_index(rounded as int) {
            Some(s) => Some(Param::Mode(s)),
            None => None,
        }
    } else if param_index == 16 {
        Some(Param::LOWBypass(at_least_half))
    } else if param_index == 17 {
        Some(Param::MIDBypass(at_least_half))
    } else if param_index == 18 {
        Some(Param::HIGHBypass(at_least_half))
    } else if param_index == 19 {
        Some(Param::AutoGain(at_least_half))
    } else if param_index == 20 {
        match Quality::spec_from_raw_index(rounded as int) {
            Some(s) => Some(Param::Quality(s)),
            None => None,
        }
    } else if param_index == 21 {
        Some(Param::Bypass_2(value))
    } else if param_index == 22 {
        Some(Param::Wet(value))
    } else if param_index == 23 {
        Some(Param::Delta(value))
    } else {
        None
    }
}

/// The DAW message that sets `param` on the plugin at `fx_index` of a track.
pub fn encode_trackmsg(track_guid: TrackGuid, fx_index: i32, param: Param) -> (r: DataMsg)
    ensures
        r == (DataMsg::FXParamValue {
            track_guid,
            fx_index,
            param_index: param.spec_param_index(),
            value: param.spec_value_bits(),
        }),
{
    DataMsg::FXParamValue {
        track_guid,
        fx_index,
        param_index: param.param_index(),
        value: param.value_bits(),
    }
}

/// The parameter a reported value sets, if `param_index` names one (see `spec_decode`).
pub fn decode_trackmsg(param_index: i32, value: u32, at_least_half: bool, rounded: isize) -> (r:
    Option<Param>)
    ensures
        r == spec_decode(param_index, value, at_least_half, rounded),
{
    match param_index {
        0 => Some(Param::LOWGain(value)),
        1 => Some(Param::LOWFreq(value)),
        2 => Some(Param::LOWShape(at_least_half)),
        3 => Some(Param::MIDGain(value)),
        4 => Some(Param::MIDFreq(value)),
        5 => Some(Param::HIGHGain(value)),
        6 => Some(Param::HIGHFreq(value)),
        7 => Some(Param::HIGHShape(at_least_half)),
        8 => match EQModel::from_raw_index(rounded) {
            Some(s) => Some(Param::EQModel(s)),
            None => None,
        },
        9 => Some(Param::EQSat(at_least_half)),
        10 => Some(Param::HPFreq(value)),
        11 => match OUTStage::from_raw_index(rounded) {
            Some(s) => Some(Param::OUTStage(s)),
            None => None,
        },
        12 => Some(Param::OUTDrive(value)),
        13 => Some(Param::OUTGain(value)),
        14 => Some(Param::Bypass(at_least_half)),
        15 => match Mode::from_raw_index(rounded) {
            Some(s) => Some(Param::Mode(s)),
            None => None,
        },
        16 => Some(Param::LOWBypass(at_least_half)),
        17 => Some(Param::MIDBypass(at_least_half)),
        18 => Some(Param::HIGHBypass(at_least_half)),
        19 => Some(Param::AutoGain(at_least_half)),
        20 => match Quality::from_raw_index(rounded) {
            Some(s) => Some(Param::Quality(s)),
            None => None,
        },
        21 => Some(Param::Bypass_2(value)),
        22 => Some(Param::Wet(value)),
        23 => Some(Param::Delta(value)),
        _ => None,
    }
}

/// Reading back the message that sets a parameter gives that parameter.
pub proof fn law_decode_encode(p: Param, at_least_half: bool, rounded: isize)
    requires
        read_back_of(p, at_least_half, rounded),
    ensures
        spec_decode(p.spec_param_index(), p.spec_value_bits(), at_least_half, rounded) == Some(p),
{
}

/// Each `EQModel` setting is chosen by its fixed whole-number value of the plugin
/// parameter.
pub proof fn law_eq_model_values(s: EQModel)
    ensures
        s is American ==> s.spec_raw_index() == 0,
        s is British ==> s.spec_raw_index() == 1,
        s is German ==> s.spec_raw_index() == 2,
{
}

/// Each `OUTStage` setting is chosen by its fixed whole-number value of the plugin
/// parameter.
pub proof fn law_out_stage_values(s: OUTStage)
    ensures
        s is Linear ==> s.spec_raw_index() == 0,
        s is Silky ==> s.spec_raw_index() == 1,
        s is Mellow ==> s.spec_raw_index() == 2,
        s is Deep ==> s.spec_raw_index() == 3,
{
}

/// Each `Mode` setting is chosen by its fixed whole-number value of the plugin
/// parameter.
pub proof fn law_mode_values(s: Mode)
    ensures
        s is Mono ==> s.spec_raw_index() == 0,
        s is Stereo ==> s.spec_raw_index() == 1,
        s is Sum ==> s.spec_raw_index() == 2,
        s is Diff ==> s.spec_raw_index() == 3,
        s is Left ==> s.spec_raw_index() == 4,
{
}

/// Each `Quality` setting is chosen by its fixed whole-number value of the plugin
/// parameter.
pub proof fn law_quality_values(s: Quality)
    ensures
        s is Full ==> s.spec_raw_index() == 0,
        s is Eco ==> s.spec_raw_index() == 1,
{
}

/// Each parameter is written to its fixed index in the plugin.
pub proof fn law_parameter_indices(p: Param)
    ensures
        p is LOWGain ==> p.spec_param_index() == 0,
        p is LOWFreq ==> p.spec_param_index() == 1,
        p is LOWShape ==> p.spec_param_index() == 2,
        p is MIDGain ==> p.spec_param_index() == 3,
        p is MIDFreq ==> p.spec_param_index() == 4,
        p is HIGHGain ==> p.spec_param_index() == 5,
        p is HIGHFreq ==> p.spec_param_index() == 6,
        p is HIGHShape ==> p.spec_param_index() == 7,
        p is EQModel ==> p.spec_param_index() == 8,
        p is EQSat ==> p.spec_param_index() == 9,
        p is HPFreq ==> p.spec_param_index() == 10,
        p is OUTStage ==> p.spec_param_index() == 11,
        p is OUTDrive ==> p.spec_param_index() == 12,
        p is OUTGain ==> p.spec_param_index() == 13,
        p is Bypass ==> p.spec_param_index() == 14,
        p is Mode ==> p.spec_param_index() == 15,
        p is LOWBypass ==> p.spec_param_index() == 16,
        p is MIDBypass ==> p.spec_param_index() == 17,
        p is HIGHBypass ==> p.spec_param_index() == 18,
        p is AutoGain ==> p.spec_param_index() == 19,
        p is Quality ==> p.spec_param_index() == 20,
        p is Bypass_2 ==> p.spec_param_index() == 21,
        p is Wet ==> p.spec_param_index() == 22,
        p is Delta ==> p.spec_param_index() == 23,
{
}

} // verus!
