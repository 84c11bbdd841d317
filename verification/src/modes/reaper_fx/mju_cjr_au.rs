//! Parameter settings of the Klanghelm MJUCjr compressor (AU).
use vstd::prelude::*;

use crate::modes::guid::TrackGuid;
use crate::modes::reaper_fx::{switch_bits, switch_value_bits, whole_bits, whole_number_bits};
use crate::modes::track_data::DataMsg;

verus! {

/// The name REAPER shows for this plugin.
pub fn name() -> (r: &'static str)
    ensures
        r@ == "AU: MJUCjr (Klanghelm)"@,
{
    "AU: MJUCjr (Klanghelm)"
}

#[derive(Debug, Clone, Copy, PartialEq, Eq, Structural)]
pub enum Timing {
    Fast,
    Slow,
}

impl Timing {
    /// The plugin parameter value that selects this setting.
    pub open spec fn spec_raw_index(self) -> int {
        match self {
            Timing::Fast => 0,
            Timing::Slow => 1,
        }
    }

    /// The setting that a rounded plugin parameter value selects, if any.
    pub open spec fn spec_from_raw_index(rounded: int) -> Option<Self> {
        if rounded == 0 {
            Some(Timing::Fast)
        } else if rounded == 1 {
            Some(Timing::Slow)
        } else {
            None
        }
    }

    pub fn raw_index(self) -> (r: u8)
        ensures
            r == self.spec_raw_index(),
            r < 2,
    {
        match self {
            Timing::Fast => 0,
            Timing::Slow => 1,
        }
    }

    pub fn from_raw_index(rounded: isize) -> (r: Option<Self>)
        ensures
            r == Self::spec_from_raw_index(rounded as int),
    {
        match rounded {
            0 => Some(Timing::Fast),
            1 => Some(Timing::Slow),
            _ => None,
        }
    }

    /// The value the DAW takes for this setting: its index as a `f32`, in bits.
    pub fn raw_bits(self) -> (r: u32)
        ensures
            r == whole_bits(self.spec_raw_index()),
    {
        whole_number_bits(self.raw_index())
    }

    /// Reading back the value of a setting gives that setting, and a value that selects
    /// a setting is that setting's value.
    pub proof fn law_raw_index_round_trip(self, rounded: int)
        ensures
            Self::spec_from_raw_index(self.spec_raw_index()) == Some(self),
            Self::spec_from_raw_index(rounded) matches Some(v) ==> v.spec_raw_index() == rounded,
    {
    }
}

#[derive(Debug, Clone, Copy, PartialEq, Eq, Structural)]
pub enum VuMode {
    GR,
}

impl VuMode {
    /// The plugin parameter value that selects this setting.
    pub open spec fn spec_raw_index(self) -> int {
        match self {
            VuMode::GR => 0,
        }
    }

    /// The setting that a rounded plugin parameter value selects, if any.
    pub open spec fn spec_from_raw_index(rounded: int) -> Option<Self> {
        if rounded == 0 {
            Some(VuMode::GR)
        } else {
            None
        }
    }

    pub fn raw_index(self) -> (r: u8)
        ensures
            r == self.spec_raw_index(),
            r < 1,
    {
        match self {
            VuMode::GR => 0,
        }
    }

    pub fn from_raw_index(rounded: isize) -> (r: Option<Self>)
        ensures
            r == Self::spec_from_raw_index(rounded as int),
    {
        match rounded {
            0 => Some(VuMode::GR),
            _ => None,
        }
    }

    /// The value the DAW takes for this setting: its index as a `f32`, in bits.
    pub fn raw_bits(self) -> (r: u32)
        ensures
            r == whole_bits(self.spec_raw_index()),
    {
        whole_number_bits(self.raw_index())
    }

    /// Reading back the value of a setting gives that setting, and a value that selects
    /// a setting is that setting's value.
    pub proof fn law_raw_index_round_trip(self, rounded: int)
        ensures
            Self::spec_from_raw_index(self.spec_raw_index()) == Some(self),
            Self::spec_from_raw_index(rounded) matches Some(v) ==> v.spec_raw_index() == rounded,
    {
    }
}

/// A parameter of the plugin with its value: continuous values hold the bits of their
/// `f32`, switches are on or off, stepped parameters hold a setting.
#[derive(Debug, Clone, Copy, PartialEq, Eq, Structural)]
#[allow(non_camel_case_types)]
pub enum Param {
    Makeup(u32),
    Timing(Timing),
    VuMode(VuMode),
    Compress(u32),
    Bypass(bool),
    Bypass_2(u32),
    Wet(u32),
    Delta(u32),
}

impl Param {
    /// The parameter's index in the plugin.
    pub open spec fn spec_param_index(self) -> i32 {
        match self {
            Param::Makeup(_) => 0,
            Param::Timing(_) => 1,
            Param::VuMode(_) => 2,
            Param::Compress(_) => 3,
            Param::Bypass(_) => 4,
            Param::Bypass_2(_) => 5,
            Param::Wet(_) => 6,
            Param::Delta(_) => 7,
        }
    }

    /// The value as the DAW takes it, the bits of a `f32`: a switch is 1.0 or 0.0, a
    /// setting its index as a whole number.
    pub open spec fn spec_value_bits(self) -> u32 {
        match self {
            Param::Makeup(v) => v,
            Param::Timing(s) => whole_bits(s.spec_raw_index()),
            Param::VuMode(s) => whole_bits(s.spec_raw_index()),
            Param::Compress(v) => v,
            Param::Bypass(on) => switch_bits(on),
            Param::Bypass_2(v) => v,
            Param::Wet(v) => v,
            Param::Delta(v) => v,
        }
    }

    /// The parameter's index in the plugin.
    pub fn param_index(&self) -> (r: i32)
        ensures
            r == self.spec_param_index(),
    {
        match self {
            Param::Makeup(_) => 0,
            Param::Timing(_) => 1,
            Param::VuMode(_) => 2,
            Param::Compress(_) => 3,
            Param::Bypass(_) => 4,
            Param::Bypass_2(_) => 5,
            Param::Wet(_) => 6,
            Param::Delta(_) => 7,
        }
    }

    /// The value as the DAW takes it (see `spec_value_bits`).
    pub fn value_bits(&self) -> (r: u32)
        ensures
            r == self.spec_value_bits(),
    {
        match self {
            Param::Makeup(v) => *v,
            Param::Timing(s) => s.raw_bits(),
            Param::VuMode(s) => s.raw_bits(),
            Param::Compress(v) => *v,
            Param::Bypass(on) => switch_value_bits(*on),
            Param::Bypass_2(v) => *v,
            Param::Wet(v) => *v,
            Param::Delta(v) => *v,
        }
    }
}

/// Whether `at_least_half` and `rounded` are what the value of `p` gives: a switch's value
/// is at least 0.5 when it is on, a setting's value rounds to its index.
pub open spec fn read_back_of(p: Param, at_least_half: bool, rounded: isize) -> bool {
    match p {
        Param::Makeup(_) => true,
        Param::Timing(s) => rounded == s.spec_raw_index(),
        Param::VuMode(s) => rounded == s.spec_raw_index(),
        Param::Compress(_) => true,
        Param::Bypass(on) => at_least_half == on,
        Param::Bypass_2(_) => true,
        Param::Wet(_) => true,
        Param::Delta(_) => true,
    }
}

/// The parameter that value `value` (the bits of a `f32`) of parameter `param_index`
/// sets; `at_least_half` says whether the value is at least 0.5, `rounded` is the value
/// rounded to a whole number.
pub open spec fn spec_decode(param_index: i32, value: u32, at_least_half: bool, rounded: isize) -> Option<
    Param,
> {
    if param_index == 0 {
        Some(Param::Makeup(value))
    } else if param_index == 1 {
        match Timing::spec_from_raw_index(rounded as int) {
            Some(s) => Some(Param::Timing(s)),
            None => None,
        }
    } else if param_index == 2 {
        match VuMode::spec_from_raw_index(rounded as int) {
            Some(s) => Some(Param::VuMode(s)),
            None => None,
        }
    } else if param_index == 3 {
        Some(Param::Compress(value))
    } else if param_index == 4 {
        Some(Param::Bypass(at_least_half))
    } else if param_index == 5 {
        Some(Param::Bypass_2(value))
    } else if param_index == 6 {
        Some(Param::Wet(value))
    } else if param_index == 7 {
        Some(Param::Delta(value))
    } else {
        None
    }
}

/// The DAW message that sets `param` on the plugin at `fx_index` of a track.
pub fn encode_trackmsg(track_guid: TrackGuid, fx_index: i32, param: Param) -> (r: DataMsg)
    ensures
        r == (DataMsg::FXParamValue {
            track_guid,
            fx_index,
            param_index: param.spec_param_index(),
            value: param.spec_value_bits(),
        }),
{
    DataMsg::FXParamValue {
        track_guid,
        fx_index,
        param_index: param.param_index(),
        value: param.value_bits(),
    }
}

/// The parameter a reported value sets, if `param_index` names one (see `spec_decode`).
pub fn decode_trackmsg(param_index: i32, value: u32, at_least_half: bool, rounded: isize) -> (r:
    Option<Param>)
    ensures
        r == spec_decode(param_index, value, at_least_half, rounded),
{
    match param_index {
        0 => Some(Param::Makeup(value)),
        1 => match Timing::from_raw_index(rounded) {
            Some(s) => Some(Param::Timing(s)),
            None => None,
        },
        2 => match VuMode::from_raw_index(rounded) {
            Some(s) => Some(Param::VuMode(s)),
            None => None,
        },
        3 => Some(Param::Compress(value)),
        4 => Some(Param::Bypass(at_least_half)),
        5 => Some(Param::Bypass_2(value)),
        6 => Some(Param::Wet(value)),
        7 => Some(Param::Delta(value)),
        _ => None,
    }
}

/// Reading back the message that sets a parameter gives that parameter.
pub proof fn law_decode_encode(p: Param, at_least_half: bool, rounded: isize)
    requires
        read_back_of(p, at_least_half, rounded),
    ensures
        spec_decode(p.spec_param_index(), p.spec_value_bits(), at_least_half, rounded) == Some(p),
{
}

/// Each `Timing` setting is chosen by its fixed whole-number value of the plugin
/// parameter.
pub proof fn law_timing_values(s: Timing)
    ensures
        s is Fast ==> s.spec_raw_index() == 0,
        s is Slow ==> s.spec_raw_index() == 1,
{
}

/// Each `VuMode` setting is chosen by its fixed whole-number value of the plugin
/// parameter.
pub proof fn law_vu_mode_values(s: VuMode)
    ensures
        s is GR ==> s.spec_raw_index() == 0,
{
}

/// Each parameter is written to its fixed index in the plugin.
pub proof fn law_parameter_indices(p: Param)
    ensures
        p is Makeup ==> p.spec_param_index() == 0,
        p is Timing ==> p.spec_param_index() == 1,
        p is VuMode ==> p.spec_param_index() == 2,
        p is Compress ==> p.spec_param_index() == 3,
        p is Bypass ==> p.spec_param_index() == 4,
        p is Bypass_2 ==> p.spec_param_index() == 5,
        p is Wet ==> p.spec_param_index() == 6,
        p is Delta ==> p.spec_param_index() == 7,
{
}

} // verus!
