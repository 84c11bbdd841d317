//! Parameter settings of the JS 1175 Compressor.
use vstd::prelude::*;

use crate::modes::guid::TrackGuid;
use crate::modes::reaper_fx::{whole_bits, whole_number_bits};
use crate::modes::track_data::DataMsg;

verus! {

/// The name REAPER shows for this plugin.
pub fn name() -> (r: &'static str)
    ensures
        r@ == "JS: 1175 Compressor"@,
{
    "JS: 1175 Compressor"
}

#[derive(Debug, Clone, Copy, PartialEq, Eq, Structural)]
pub enum Ratio {
    BlownCapacitor4,
    BlownCapacitor8,
    BlownCapacitor12,
    BlownCapacitor20,
    BlownCapacitorAll,
    _4,
    _8,
    _12,
    _20,
}

impl Ratio {
    /// The plugin parameter value that selects this setting.
    pub open spec fn spec_raw_index(self) -> int {
        match self {
            Ratio::BlownCapacitor4 => 0,
            Ratio::BlownCapacitor8 => 1,
            Ratio::BlownCapacitor12 => 2,
            Ratio::BlownCapacitor20 => 3,
            Ratio::BlownCapacitorAll => 4,
            Ratio::_4 => 5,
            Ratio::_8 => 6,
            Ratio::_12 => 7,
            Ratio::_20 => 8,
        }
    }

    /// The setting that a rounded plugin parameter value selects, if any.
    pub open spec fn spec_from_raw_index(rounded: int) -> Option<Self> {
        if rounded == 0 {
            Some(Ratio::BlownCapacitor4)
        } else if rounded == 1 {
            Some(Ratio::BlownCapacitor8)
        } else if rounded == 2 {
            Some(Ratio::BlownCapacitor12)
        } else if rounded == 3 {
            Some(Ratio::BlownCapacitor20)
        } else if rounded == 4 {
            Some(Ratio::BlownCapacitorAll)
        } else if rounded == 5 {
            Some(Ratio::_4)
        } else if rounded == 6 {
            Some(Ratio::_8)
        } else if rounded == 7 {
            Some(Ratio::_12)
        } else if rounded == 8 {
            Some(Ratio::_20)
        } else {
            None
        }
    }

    pub fn raw_index(self) -> (r: u8)
        ensures
            r == self.spec_raw_index(),
            r < 9,
    {
        match self {
            Ratio::BlownCapacitor4 => 0,
            Ratio::BlownCapacitor8 => 1,
            Ratio::BlownCapacitor12 => 2,
            Ratio::BlownCapacitor20 => 3,
            Ratio::BlownCapacitorAll => 4,
            Ratio::_4 => 5,
            Ratio::_8 => 6,
            Ratio::_12 => 7,
            Ratio::_20 => 8,
        }
    }

    pub fn from_raw_index(rounded: isize) -> (r: Option<Self>)
        ensures
            r == Self::spec_from_raw_index(rounded as int),
    {
        match rounded {
            0 => Some(Ratio::BlownCapacitor4),
            1 => Some(Ratio::BlownCapacitor8),
            2 => Some(Ratio::BlownCapacitor12),
            3 => Some(Ratio::BlownCapacitor20),
            4 => Some(Ratio::BlownCapacitorAll),
            5 => Some(Ratio::_4),
            6 => Some(Ratio::_8),
            7 => Some(Ratio::_12),
            8 => Some(Ratio::_20),
            _ => None,
        }
    }

    /// The value the DAW takes for this setting: its index as a `f32`, in bits.
    pub fn raw_bits(self) -> (r: u32)
        ensures
            r == whole_bits(self.spec_raw_index()),
    {
        whole_number_bits(self.raw_index())
    }

    /// Reading back the value of a setting gives that setting, and a value that selects
    /// a setting is that setting's value.
    pub proof fn law_raw_index_round_trip(self, rounded: int)
        ensures
            Self::spec_from_raw_index(self.spec_raw_index()) == Some(self),
            Self::spec_from_raw_index(rounded) matches Some(v) ==> v.spec_raw_index() == rounded,
    {
    }
}

/// A parameter of the plugin with its value: continuous values hold the bits of their
/// `f32`, switches are on or off, stepped parameters hold a setting.
#[derive(Debug, Clone, Copy, PartialEq, Eq, Structural)]
#[allow(non_camel_case_types)]
pub enum Param {
    Threshold(u32),
    Ratio(Ratio),
    Gain(u32),
    Attack(u32),
    Release(u32),
    Mix(u32),
    Bypass(u32),
    Wet(u32),
    Delta(u32),
}

impl Param {
    /// The parameter's index in the plugin.
    pub open spec fn spec_param_index(self) -> i32 {
        match self {
            Param::Threshold(_) => 0,
            Param::Ratio(_) => 1,
            Param::Gain(_) => 2,
            Param::Attack(_) => 3,
            Param::Release(_) => 4,
            Param::Mix(_) => 5,
            Param::Bypass(_) => 6,
            Param::Wet(_) => 7,
            Param::Delta(_) => 8,
        }
    }

    /// The value as the DAW takes it, the bits of a `f32`: a switch is 1.0 or 0.0, a
    /// setting its index as a whole number.
    pub open spec fn spec_value_bits(self) -> u32 {
        match self {
            Param::Threshold(v) => v,
            Param::Ratio(s) => whole_bits(s.spec_raw_index()),
            Param::Gain(v) => v,
            Param::Attack(v) => v,
            Param::Release(v) => v,
            Param::Mix(v) => v,
            Param::Bypass(v) => v,
            Param::Wet(v) => v,
            Param::Delta(v) => v,
        }
    }

    /// The parameter's index in the plugin.
    pub fn param_index(&self) -> (r: i32)
        ensures
            r == self.spec_param_index(),
    {
        match self {
            Param::Threshold(_) => 0,
            Param::Ratio(_) => 1,
            Param::Gain(_) => 2,
            Param::Attack(_) => 3,
            Param::Release(_) => 4,
            Param::Mix(_) => 5,
            Param::Bypass(_) => 6,
            Param::Wet(_) => 7,
            Param::Delta(_) => 8,
        }
    }

    /// The value as the DAW takes it (see `spec_value_bits`).
    pub fn value_bits(&self) -> (r: u32)
        ensures
            r == self.spec_value_bits(),
    {
        match self {
            Param::Threshold(v) => *v,
            Param::Ratio(s) => s.raw_bits(),
            Param::Gain(v) => *v,
            Param::Attack(v) => *v,
            Param::Release(v) => *v,
            Param::Mix(v) => *v,
            Param::Bypass(v) => *v,
            Param::Wet(v) => *v,
            Param::Delta(v) => *v,
        }
    }
}

/// Whether `at_least_half` and `rounded` are what the value of `p` gives: a switch's value
/// is at least 0.5 when it is on, a setting's value rounds to its index.
pub open spec fn read_back_of(p: Param, at_least_half: bool, rounded: isize) -> bool {
    match p {
        Param::Threshold(_) => true,
        Param::Ratio(s) => rounded == s.spec_raw_index(),
        Param::Gain(_) => true,
        Param::Attack(_) => true,
        Param::Release(_) => true,
        Param::Mix(_) => true,
        Param::Bypass(_) => true,
        Param::Wet(_) => true,
        Param::Delta(_) => true,
    }
}

/// The parameter that value `value` (the bits of a `f32`) of parameter `param_index`
/// sets; `at_least_half` says whether the value is at least 0.5, `rounded` is the value
/// rounded to a whole number.
pub open spec fn spec_decode(param_index: i32, value: u32, at_least_half: bool, rounded: isize) -> Option<
    Param,
> {
    if param_index == 0 {
        Some(Param::Threshold(value))
    } else if param_index == 1 {
        match Ratio::spec_from_raw_index(rounded as int) {
            Some(s) => Some(Param::Ratio(s)),
            None => None,
        }
    } else if param_index == 2 {
        Some(Param::Gain(value))
    } else if param_index == 3 {
        Some(Param::Attack(value))
    } else if param_index == 4 {
        Some(Param::Release(value))
    } else if param_index == 5 {
        Some(Param::Mix(value))
    } else if param_index == 6 {
        Some(Param::Bypass(value))
    } else if param_index == 7 {
        Some(Param::Wet(value))
    } else if param_index == 8 {
        Some(Param::Delta(value))
    } else {
        None
    }
}

/// The DAW message that sets `param` on the plugin at `fx_index` of a track.
pub fn encode_trackmsg(track_guid: TrackGuid, fx_index: i32, param: Param) -> (r: DataMsg)
    ensures
        r == (DataMsg::FXParamValue {
            track_guid,
            fx_index,
            param_index: param.spec_param_index(),
            value: param.spec_value_bits(),
        }),
{
    DataMsg::FXParamValue {
        track_guid,
        fx_index,
        param_index: param.param_index(),
        value: param.value_bits(),
    }
}

/// The parameter a reported value sets, if `param_index` names one (see `spec_decode`).
pub fn decode_trackmsg(param_index: i32, value: u32, at_least_half: bool, rounded: isize) -> (r:
    Option<Param>)
    ensures
        r == spec_decode(param_index, value, at_least_half, rounded),
{
    match param_index {
        0 => Some(Param::Threshold(value)),
        1 => match Ratio::from_raw_index(rounded) {
            Some(s) => Some(Param::Ratio(s)),
            None => None,
        },
        2 => Some(Param::Gain(value)),
        3 => Some(Param::Attack(value)),
        4 => Some(Param::Release(value)),
        5 => Some(Param::Mix(value)),
        6 => Some(Param::Bypass(value)),
        7 => Some(Param::Wet(value)),
        8 => Some(Param::Delta(value)),
        _ => None,
    }
}

/// Reading back the message that sets a parameter gives that parameter.
pub proof fn law_decode_encode(p: Param, at_least_half: bool, rounded: isize)
    requires
        read_back_of(p, at_least_half, rounded),
    ensures
        spec_decode(p.spec_param_index(), p.spec_value_bits(), at_least_half, rounded) == Some(p),
{
}

/// Each `Ratio` setting is chosen by its fixed whole-number value of the plugin
/// parameter.
pub proof fn law_ratio_values(s: Ratio)
    ensures
        s is BlownCapacitor4 ==> s.spec_raw_index() == 0,
        s is BlownCapacitor8 ==> s.spec_raw_index() == 1,
        s is BlownCapacitor12 ==> s.spec_raw_index() == 2,
        s is BlownCapacitor20 ==> s.spec_raw_index() == 3,
        s is BlownCapacitorAll ==> s.spec_raw_index() == 4,
        s is _4 ==> s.spec_raw_index() == 5,
        s is _8 ==> s.spec_raw_index() == 6,
        s is _12 ==> s.spec_raw_index() == 7,
        s is _20 ==> s.spec_raw_index() == 8,
{
}

/// Each parameter is written to its fixed index in the plugin.
pub proof fn law_parameter_indices(p: Param)
    ensures
        p is Threshold ==> p.spec_param_index() == 0,
        p is Ratio ==> p.spec_param_index() == 1,
        p is Gain ==> p.spec_param_index() == 2,
        p is Attack ==> p.spec_param_index() == 3,
        p is Release ==> p.spec_param_index() == 4,
        p is Mix ==> p.spec_param_index() == 5,
        p is Bypass ==> p.spec_param_index() == 6,
        p is Wet ==> p.spec_param_index() == 7,
        p is Delta ==> p.spec_param_index() == 8,
{
}

} // verus!
