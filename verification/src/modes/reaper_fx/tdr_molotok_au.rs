//! Parameter settings of the TDR Molotok compressor (AU).
use vstd::prelude::*;

use crate::modes::guid::TrackGuid;
use crate::modes::reaper_fx::{switch_bits, switch_value_bits, whole_bits, whole_number_bits};
use crate::modes::track_data::DataMsg;

verus! {

pub const FX_NAME: &'static str = "AU: TDR Molotok (Tokyo Dawn Labs)";

#[derive(Debug, Clone, Copy, PartialEq, Eq, Structural)]
pub enum Mode {
    _00,
    _01,
    _02,
    _03,
    _04,
    _05,
    _06,
    _07,
    _08,
    _09,
}

impl Mode {
    /// The plugin parameter value that selects this setting.
    pub open spec fn spec_raw_index(self) -> int {
        match self {
            Mode::_00 => 0,
            Mode::_01 => 1,
            Mode::_02 => 2,
            Mode::_03 => 3,
            Mode::_04 => 4,
            Mode::_05 => 5,
            Mode::_06 => 6,
            Mode::_07 => 7,
            Mode::_08 => 8,
            Mode::_09 => 9,
        }
    }

    /// The setting that a rounded plugin parameter value selects, if any.
    pub open spec fn spec_from_raw_index(rounded: int) -> Option<Self> {
        if rounded == 0 {
            Some(Mode::_00)
        } else if rounded == 1 {
            Some(Mode::_01)
        } else if rounded == 2 {
            Some(Mode::_02)
        } else if rounded == 3 {
            Some(Mode::_03)
        } else if rounded == 4 {
            Some(Mode::_04)
        } else if rounded == 5 {
            Some(Mode::_05)
        } else if rounded == 6 {
            Some(Mode::_06)
        } else if rounded == 7 {
            Some(Mode::_07)
        } else if rounded == 8 {
            Some(Mode::_08)
        } else if rounded == 9 {
            Some(Mode::_09)
        } else {
            None
        }
    }

    pub fn raw_index(self) -> (r: u8)
        ensures
            r == self.spec_raw_index(),
            r < 10,
    {
        match self {
            Mode::_00 => 0,
            Mode::_01 => 1,
            Mode::_02 => 2,
            Mode::_03 => 3,
            Mode::_04 => 4,
            Mode::_05 => 5,
            Mode::_06 => 6,
            Mode::_07 => 7,
            Mode::_08 => 8,
            Mode::_09 => 9,
        }
    }

    pub fn from_raw_index(rounded: isize) -> (r: Option<Self>)
        ensures
            r == Self::spec_from_raw_index(rounded as int),
    {
        match rounded {
            0 => Some(Mode::_00),
            1 => Some(Mode::_01),
            2 => Some(Mode::_02),
            3 => Some(Mode::_03),
            4 => Some(Mode::_04),
            5 => Some(Mode::_05),
            6 => Some(Mode::_06),
            7 => Some(Mode::_07),
            8 => Some(Mode::_08),
            9 => Some(Mode::_09),
            _ => None,
        }
    }

    /// The value the DAW takes for this setting: its index as a `f32`, in bits.
    pub fn raw_bits(self) -> (r: u32)
        ensures
            r == whole_bits(self.spec_raw_index()),
    {
        whole_number_bits(self.raw_index())
    }

    /// Reading back the value of a setting gives that setting, and a value that selects
    /// a setting is that setting's value.
    pub proof fn law_raw_index_round_trip(self, rounded: int)
        ensures
            Self::spec_from_raw_index(self.spec_raw_index()) == Some(self),
            Self::spec_from_raw_index(rounded) matches Some(v) ==> v.spec_raw_index() == rounded,
    {
    }
}

#[derive(Debug, Clone, Copy, PartialEq, Eq, Structural)]
pub enum Quality {
    Live,
    Eco,
}

impl Quality {
    /// The plugin parameter value that selects this setting.
    pub open spec fn spec_raw_index(self) -> int {
        match self {
            Quality::Live => 0,
            Quality::Eco => 1,
        }
    }

    /// The setting that a rounded plugin parameter value selects, if any.
    pub open spec fn spec_from_raw_index(rounded: int) -> Option<Self> {
        if rounded == 0 {
            Some(Quality::Live)
        } else if rounded == 1 {
            Some(Quality::Eco)
        } else {
            None
        }
    }

    pub fn raw_index(self) -> (r: u8)
        ensures
            r == self.spec_raw_index(),
            r < 2,
    {
        match self {
            Quality::Live => 0,
            Quality::Eco => 1,
        }
    }

    pub fn from_raw_index(rounded: isize) -> (r: Option<Self>)
        ensures
            r == Self::spec_from_raw_index(rounded as int),
    {
        match rounded {
            0 => Some(Quality::Live),
            1 => Some(Quality::Eco),
            _ => None,
        }
    }

    /// The value the DAW takes for this setting: its index as a `f32`, in bits.
    pub fn raw_bits(self) -> (r: u32)
        ensures
            r == whole_bits(self.spec_raw_index()),
    {
        whole_number_bits(self.raw_index())
    }

    /// Reading back the value of a setting gives that setting, and a value that selects
    /// a setting is that setting's value.
    pub proof fn law_raw_index_round_trip(self, rounded: int)
        ensures
            Self::spec_from_raw_index(self.spec_raw_index()) == Some(self),
            Self::spec_from_raw_index(rounded) matches Some(v) ==> v.spec_raw_index() == rounded,
    {
    }
}

#[derive(Debug, Clone, Copy, PartialEq, Eq, Structural)]
pub enum MeterRange {
    _2DB,
    _3DB,
    _4DB,
    _6DB,
    _9DB,
    _12DB,
    _18DB,
    _24DB,
}

impl MeterRange {
    /// The plugin parameter value that selects this setting.
    pub open spec fn spec_raw_index(self) -> int {
        match self {
            MeterRange::_2DB => 0,
            MeterRange::_3DB => 1,
            MeterRange::_4DB => 2,
            MeterRange::_6DB => 3,
            MeterRange::_9DB => 4,
            MeterRange::_12DB => 5,
            MeterRange::_18DB => 6,
            MeterRange::_24DB => 7,
        }
    }

    /// The setting that a rounded plugin parameter value selects, if any.
    pub open spec fn spec_from_raw_index(rounded: int) -> Option<Self> {
        if rounded == 0 {
            Some(MeterRange::_2DB)
        } else if rounded == 1 {
            Some(MeterRange::_3DB)
        } else if rounded == 2 {
            Some(MeterRange::_4DB)
        } else if rounded == 3 {
            Some(MeterRange::_6DB)
        } else if rounded == 4 {
            Some(MeterRange::_9DB)
        } else if rounded == 5 {
            Some(MeterRange::_12DB)
        } else if rounded == 6 {
            Some(MeterRange::_18DB)
        } else if rounded == 7 {
            Some(MeterRange::_24DB)
        } else {
            None
        }
    }

    pub fn raw_index(self) -> (r: u8)
        ensures
            r == self.spec_raw_index(),
            r < 8,
    {
        match self {
            MeterRange::_2DB => 0,
            MeterRange::_3DB => 1,
            MeterRange::_4DB => 2,
            MeterRange::_6DB => 3,
            MeterRange::_9DB => 4,
            MeterRange::_12DB => 5,
            MeterRange::_18DB => 6,
            MeterRange::_24DB => 7,
        }
    }

    pub fn from_raw_index(rounded: isize) -> (r: Option<Self>)
        ensures
            r == Self::spec_from_raw_index(rounded as int),
    {
        match rounded {
            0 => Some(MeterRange::_2DB),
            1 => Some(MeterRange::_3DB),
            2 => Some(MeterRange::_4DB),
            3 => Some(MeterRange::_6DB),
            4 => Some(MeterRange::_9DB),
            5 => Some(MeterRange::_12DB),
            6 => Some(MeterRange::_18DB),
            7 => Some(MeterRange::_24DB),
            _ => None,
        }
    }

    /// The value the DAW takes for this setting: its index as a `f32`, in bits.
    pub fn raw_bits(self) -> (r: u32)
        ensures
            r == whole_bits(self.spec_raw_index()),
    {
        whole_number_bits(self.raw_index())
    }

    /// Reading back the value of a setting gives that setting, and a value that selects
    /// a setting is that setting's value.
    pub proof fn law_raw_index_round_trip(self, rounded: int)
        ensures
            Self::spec_from_raw_index(self.spec_raw_index()) == Some(self),
            Self::spec_from_raw_index(rounded) matches Some(v) ==> v.spec_raw_index() == rounded,
    {
    }
}

/// A parameter of the plugin with its value: continuous values hold the bits of their
/// `f32`, switches are on or off, stepped parameters hold a setting.
#[derive(Debug, Clone, Copy, PartialEq, Eq, Structural)]
#[allow(non_camel_case_types)]
pub enum Param {
    SCFilterFreq(u32),
    SCFilterOn(bool),
    Attack(u32),
    Mode(Mode),
    Release(u32),
    Ratio(u32),
    Thresh(u32),
    Knee(u32),
    Makeup(u32),
    DryMix(u32),
    Output(u32),
    StereoMode(bool),
    Quality(Quality),
    Bypass(bool),
    SidechainMode(bool),
    Delta(bool),
    MeterRange(MeterRange),
    MeterMode(bool),
    MeterSource(bool),
    MeterSpeed(bool),
    Bypass_2(u32),
    Wet(u32),
    Delta_2(u32),
}

impl Param {
    /// The parameter's index in the plugin.
    pub open spec fn spec_param_index(self) -> i32 {
        match self {
            Param::SCFilterFreq(_) => 0,
            Param::SCFilterOn(_) => 1,
            Param::Attack(_) => 2,
            Param::Mode(_) => 3,
            Param::Release(_) => 4,
            Param::Ratio(_) => 5,
            Param::Thresh(_) => 6,
            Param::Knee(_) => 7,
            Param::Makeup(_) => 8,
            Param::DryMix(_) => 9,
            Param::Output(_) => 10,
            Param::StereoMode(_) => 11,
            Param::Quality(_) => 12,
            Param::Bypass(_) => 13,
            Param::SidechainMode(_) => 14,
            Param::Delta(_) => 15,
            Param::MeterRange(_) => 16,
            Param::MeterMode(_) => 17,
            Param::MeterSource(_) => 18,
            Param::MeterSpeed(_) => 19,
            Param::Bypass_2(_) => 20,
            Param::Wet(_) => 21,
            Param::Delta_2(_) => 22,
        }
    }

    /// The value as the DAW takes it, the bits of a `f32`: a switch is 1.0 or 0.0, a
    /// setting its index as a whole number.
    pub open spec fn spec_value_bits(self) -> u32 {
        match self {
            Param::SCFilterFreq(v) => v,
            Param::SCFilterOn(on) => switch_bits(on),
            Param::Attack(v) => v,
            Param::Mode(s) => whole_bits(s.spec_raw_index()),
            Param::Release(v) => v,
            Param::Ratio(v) => v,
            Param::Thresh(v) => v,
            Param::Knee(v) => v,
            Param::Makeup(v) => v,
            Param::DryMix(v) => v,
            Param::Output(v) => v,
            Param::StereoMode(on) => switch_bits(on),
            Param::Quality(s) => whole_bits(s.spec_raw_index()),
            Param::Bypass(on) => switch_bits(on),
            Param::SidechainMode(on) => switch_bits(on),
            Param::Delta(on) => switch_bits(on),
            Param::MeterRange(s) => whole_bits(s.spec_raw_index()),
            Param::MeterMode(on) => switch_bits(on),
            Param::MeterSource(on) => switch_bits(on),
            Param::MeterSpeed(on) => switch_bits(on),
            Param::Bypass_2(v) => v,
            Param::Wet(v) => v,
            Param::Delta_2(v) => v,
        }
    }

    /// The parameter's index in the plugin.
    pub fn param_index(&self) -> (r: i32)
        ensures
            r == self.spec_param_index(),
    {
        match self {
            Param::SCFilterFreq(_) => 0,
            Param::SCFilterOn(_) => 1,
            Param::Attack(_) => 2,
            Param::Mode(_) => 3,
            Param::Release(_) => 4,
            Param::Ratio(_) => 5,
            Param::Thresh(_) => 6,
            Param::Knee(_) => 7,
            Param::Makeup(_) => 8,
            Param::DryMix(_) => 9,
            Param::Output(_) => 10,
            Param::StereoMode(_) => 11,
            Param::Quality(_) => 12,
            Param::Bypass(_) => 13,
            Param::SidechainMode(_) => 14,
            Param::Delta(_) => 15,
            Param::MeterRange(_) => 16,
            Param::MeterMode(_) => 17,
            Param::MeterSource(_) => 18,
            Param::MeterSpeed(_) => 19,
            Param::Bypass_2(_) => 20,
            Param::Wet(_) => 21,
            Param::Delta_2(_) => 22,
        }
    }

    /// The value as the DAW takes it (see `spec_value_bits`).
    pub fn value_bits(&self) -> (r: u32)
        ensures
            r == self.spec_value_bits(),
    {
        match self {
            Param::SCFilterFreq(v) => *v,
            Param::SCFilterOn(on) => switch_value_bits(*on),
            Param::Attack(v) => *v,
            Param::Mode(s) => s.raw_bits(),
            Param::Release(v) => *v,
            Param::Ratio(v) => *v,
            Param::Thresh(v) => *v,
            Param::Knee(v) => *v,
            Param::Makeup(v) => *v,
            Param::DryMix(v) => *v,
            Param::Output(v) => *v,
            Param::StereoMode(on) => switch_value_bits(*on),
            Param::Quality(s) => s.raw_bits(),
            Param::Bypass(on) => switch_value_bits(*on),
            Param::SidechainMode(on) => switch_value_bits(*on),
            Param::Delta(on) => switch_value_bits(*on),
            Param::MeterRange(s) => s.raw_bits(),
            Param::MeterMode(on) => switch_value_bits(*on),
            Param::MeterSource(on) => switch_value_bits(*on),
            Param::MeterSpeed(on) => switch_value_bits(*on),
            Param::Bypass_2(v) => *v,
            Param::Wet(v) => *v,
            Param::Delta_2(v) => *v,
        }
    }
}

/// Whether `at_least_half` and `rounded` are what the value of `p` gives: a switch's value
/// is at least 0.5 when it is on, a setting's value rounds to its index.
pub open spec fn read_back_of(p: Param, at_least_half: bool, rounded: isize) -> bool {
    match p {
        Param::SCFilterFreq(_) => true,
        Param::SCFilterOn(on) => at_least_half == on,
        Param::Attack(_) => true,
        Param::Mode(s) => rounded == s.spec_raw_index(),
        Param::Release(_) => true,
        Param::Ratio(_) => true,
        Param::Thresh(_) => true,
        Param::Knee(_) => true,
        Param::Makeup(_) => true,
        Param::DryMix(_) => true,
        Param::Output(_) => true,
        Param::StereoMode(on) => at_least_half == on,
        Param::Quality(s) => rounded == s.spec_raw_index(),
        Param::Bypass(on) => at_least_half == on,
        Param::SidechainMode(on) => at_least_half == on,
        Param::Delta(on) => at_least_half == on,
        Param::MeterRange(s) => rounded == s.spec_raw_index(),
        Param::MeterMode(on) => at_least_half == on,
        Param::MeterSource(on) => at_least_half == on,
        Param::MeterSpeed(on) => at_least_half == on,
        Param::Bypass_2(_) => true,
        Param::Wet(_) => true,
        Param::Delta_2(_) => true,
    }
}

/// The parameter that value `value` (the bits of a `f32`) of parameter `param_index`
/// sets; `at_least_half` says whether the value is at least 0.5, `rounded` is the value
/// rounded to a whole number.
pub open spec fn spec_decode(param_index: i32, value: u32, at_least_half: bool, rounded: isize) -> Option<
    Param,
> {
    if param_index == 0 {
        Some(Param::SCFilterFreq(value))
    } else if param_index == 1 {
        Some(Param::SCFilterOn(at_least_half))
    } else if param_index == 2 {
        Some(Param::Attack(value))
    } else if param_index == 3 {
        match Mode::spec_from_raw_index(rounded as int) {
            Some(s) => Some(Param::Mode(s)),
            None => None,
        }
    } else if param_index == 4 {
        Some(Param::Release(value))
    } else if param_index == 5 {
        Some(Param::Ratio(value))
    } else if param_index == 6 {
        Some(Param::Thresh(value))
    } else if param_index == 7 {
        Some(Param::Knee(value))
    } else if param_index == 8 {
        Some(Param::Makeup(value))
    } else if param_index == 9 {
        Some(Param::DryMix(value))
    } else if param_index == 10 {
        Some(Param::Output(value))
    } else if param_index == 11 {
        Some(Param::StereoMode(at_least_half))
    } else if param_index == 12 {
        match Quality::spec_from_raw_index(rounded as int) {
            Some(s) => Some(Param::Quality(s)),
            None => None,
        }
    } else if param_index == 13 {
        Some(Param::Bypass(at_least_half))
    } else if param_index == 14 {
        Some(Param::SidechainMode(at_least_half))
    } else if param_index == 15 {
        Some(Param::Delta(at_least_half))
    } else if param_index == 16 {
        match MeterRange::spec_from_raw_index(rounded as int) {
            Some(s) => Some(Param::MeterRange(s)),
            None => None,
        }
    } else if param_index == 17 {
        Some(Param::MeterMode(at_least_half))
    } else if param_index == 18 {
        Some(Param::MeterSource(at_least_half))
    } else if param_index == 19 {
        Some(Param::MeterSpeed(at_least_half))
    } else if param_index == 20 {
        Some(Param::Bypass_2(value))
    } else if param_index == 21 {
        Some(Param::Wet(value))
    } else if param_index == 22 {
        Some(Param::Delta_2(value))
    } else {
        None
    }
}

/// The DAW message that sets `param` on the plugin at `fx_index` of a track.
pub fn encode_trackmsg(track_guid: TrackGuid, fx_index: i32, param: Param) -> (r: DataMsg)
    ensures
        r == (DataMsg::FXParamValue {
            track_guid,
            fx_index,
            param_index: param.spec_param_index(),
            value: param.spec_value_bits(),
        }),
{
    DataMsg::FXParamValue {
        track_guid,
        fx_index,
        param_index: param.param_index(),
        value: param.value_bits(),
    }
}

/// The parameter a reported value sets, if `param_index` names one (see `spec_decode`).
pub fn decode_trackmsg(param_index: i32, value: u32, at_least_half: bool, rounded: isize) -> (r:
    Option<Param>)
    ensures
        r == spec_decode(param_index, value, at_least_half, rounded),
{
    match param_index {
        0 => Some(Param::SCFilterFreq(value)),
        1 => Some(Param::SCFilterOn(at_least_half)),
        2 => Some(Param::Attack(value)),
        3 => match Mode::from_raw_index(rounded) {
            Some(s) => Some(Param::Mode(s)),
            None => None,
        },
        4 => Some(Param::Release(value)),
        5 => Some(Param::Ratio(value)),
        6 => Some(Param::Thresh(value)),
        7 => Some(Param::Knee(value)),
        8 => Some(Param::Makeup(value)),
        9 => Some(Param::DryMix(value)),
        10 => Some(Param::Output(value)),
        11 => Some(Param::StereoMode(at_least_half)),
        12 => match Quality::from_raw_index(rounded) {
            Some(s) => Some(Param::Quality(s)),
            None => None,
        },
        13 => Some(Param::Bypass(at_least_half)),
        14 => Some(Param::SidechainMode(at_least_half)),
        15 => Some(Param::Delta(at_least_half)),
        16 => match MeterRange::from_raw_index(rounded) {
            Some(s) => Some(Param::MeterRange(s)),
            None => None,
        },
        17 => Some(Param::MeterMode(at_least_half)),
        18 => Some(Param::MeterSource(at_least_half)),
        19 => Some(Param::MeterSpeed(at_least_half)),
        20 => Some(Param::Bypass_2(value)),
        21 => Some(Param::Wet(value)),
        22 => Some(Param::Delta_2(value)),
        _ => None,
    }
}

/// Reading back the message that sets a parameter gives that parameter.
pub proof fn law_decode_encode(p: Param, at_least_half: bool, rounded: isize)
    requires
        read_back_of(p, at_least_half, rounded),
    ensures
        spec_decode(p.spec_param_index(), p.spec_value_bits(), at_least_half, rounded) == Some(p),
{
}

/// Each `Mode` setting is chosen by its fixed whole-number value of the plugin
/// parameter.
pub proof fn law_mode_values(s: Mode)
    ensures
        s is _00 ==> s.spec_raw_index() == 0,
        s is _01 ==> s.spec_raw_index() == 1,
        s is _02 ==> s.spec_raw_index() == 2,
        s is _03 ==> s.spec_raw_index() == 3,
        s is _04 ==> s.spec_raw_index() == 4,
        s is _05 ==> s.spec_raw_index() == 5,
        s is _06 ==> s.spec_raw_index() == 6,
        s is _07 ==> s.spec_raw_index() == 7,
        s is _08 ==> s.spec_raw_index() == 8,
        s is _09 ==> s.spec_raw_index() == 9,
{
}

/// Each `Quality` setting is chosen by its fixed whole-number value of the plugin
/// parameter.
pub proof fn law_quality_values(s: Quality)
    ensures
        s is Live ==> s.spec_raw_index() == 0,
        s is Eco ==> s.spec_raw_index() == 1,
{
}

/// Each `MeterRange` setting is chosen by its fixed whole-number value of the plugin
/// parameter.
pub proof fn law_meter_range_values(s: MeterRange)
    ensures
        s is _2DB ==> s.spec_raw_index() == 0,
        s is _3DB ==> s.spec_raw_index() == 1,
        s is _4DB ==> s.spec_raw_index() == 2,
        s is _6DB ==> s.spec_raw_index() == 3,
        s is _9DB ==> s.spec_raw_index() == 4,
        s is _12DB ==> s.spec_raw_index() == 5,
        s is _18DB ==> s.spec_raw_index() == 6,
        s is _24DB ==> s.spec_raw_index() == 7,
{
}

/// Each parameter is written to its fixed index in the plugin.
pub proof fn law_parameter_indices(p: Param)
    ensures
        p is SCFilterFreq ==> p.spec_param_index() == 0,
        p is SCFilterOn ==> p.spec_param_index() == 1,
        p is Attack ==> p.spec_param_index() == 2,
        p is Mode ==> p.spec_param_index() == 3,
        p is Release ==> p.spec_param_index() == 4,
        p is Ratio ==> p.spec_param_index() == 5,
        p is Thresh ==> p.spec_param_index() == 6,
        p is Knee ==> p.spec_param_index() == 7,
        p is Makeup ==> p.spec_param_index() == 8,
        p is DryMix ==> p.spec_param_index() == 9,
        p is Output ==> p.spec_param_index() == 10,
        p is StereoMode ==> p.spec_param_index() == 11,
        p is Quality ==> p.spec_param_index() == 12,
        p is Bypass ==> p.spec_param_index() == 13,
        p is SidechainMode ==> p.spec_param_index() == 14,
        p is Delta ==> p.spec_param_index() == 15,
        p is MeterRange ==> p.spec_param_index() == 16,
        p is MeterMode ==> p.spec_param_index() == 17,
        p is MeterSource ==> p.spec_param_index() == 18,
        p is MeterSpeed ==> p.spec_param_index() == 19,
        p is Bypass_2 ==> p.spec_param_index() == 20,
        p is Wet ==> p.spec_param_index() == 21,
        p is Delta_2 ==> p.spec_param_index() == 22,
{
}

} // verus!
