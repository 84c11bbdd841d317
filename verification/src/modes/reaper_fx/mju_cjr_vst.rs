//! The Klanghelm MJUCjr compressor (VST3).
use vstd::prelude::*;

use crate::modes::guid::TrackGuid;
use crate::modes::reaper_fx::{switch_bits, switch_value_bits};
use crate::modes::track_data::DataMsg;

verus! {

pub const FX_NAME: &'static str = "VST3: MJUCjr (Klanghelm)";


/// A parameter of the plugin with its value: continuous values hold the bits of their
/// `f32`, switches are on or off, stepped parameters hold a setting.
#[derive(Debug, Clone, Copy, PartialEq, Eq, Structural)]
#[allow(non_camel_case_types)]
pub enum Param {
    Compress(u32),
    Makeup(u32),
    Timing(u32),
    VuMode(bool),
    Bypass(bool),
    Bypass_2(bool),
    Bypass_3(u32),
    Wet(u32),
    Delta(u32),
}

impl Param {
    /// The parameter's index in the plugin.
    pub open spec fn spec_param_index(self) -> i32 {
        match self {
            Param::Compress(_) => 0,
            Param::Makeup(_) => 1,
            Param::Timing(_) => 2,
            Param::VuMode(_) => 3,
            Param::Bypass(_) => 4,
            Param::Bypass_2(_) => 5,
            Param::Bypass_3(_) => 6,
            Param::Wet(_) => 7,
            Param::Delta(_) => 8,
        }
    }

    /// The value as the DAW takes it, the bits of a `f32`: a switch is 1.0 or 0.0, a
    /// setting its index as a whole number.
    pub open spec fn spec_value_bits(self) -> u32 {
        match self {
            Param::Compress(v) => v,
            Param::Makeup(v) => v,
            Param::Timing(v) => v,
            Param::VuMode(on) => switch_bits(on),
            Param::Bypass(on) => switch_bits(on),
            Param::Bypass_2(on) => switch_bits(on),
            Param::Bypass_3(v) => v,
            Param::Wet(v) => v,
            Param::Delta(v) => v,
        }
    }

    /// The parameter's index in the plugin.
    pub fn param_index(&self) -> (r: i32)
        ensures
            r == self.spec_param_index(),
    {
        match self {
            Param::Compress(_) => 0,
            Param::Makeup(_) => 1,
            Param::Timing(_) => 2,
            Param::VuMode(_) => 3,
            Param::Bypass(_) => 4,
            Param::Bypass_2(_) => 5,
            Param::Bypass_3(_) => 6,
            Param::Wet(_) => 7,
            Param::Delta(_) => 8,
        }
    }

    /// The value as the DAW takes it (see `spec_value_bits`).
    pub fn value_bits(&self) -> (r: u32)
        ensures
            r == self.spec_value_bits(),
    {
        match self {
            Param::Compress(v) => *v,
            Param::Makeup(v) => *v,
            Param::Timing(v) => *v,
            Param::VuMode(on) => switch_value_bits(*on),
            Param::Bypass(on) => switch_value_bits(*on),
            Param::Bypass_2(on) => switch_value_bits(*on),
            Param::Bypass_3(v) => *v,
            Param::Wet(v) => *v,
            Param::Delta(v) => *v,
        }
    }
}

/// Whether `at_least_half` and `rounded` are what the value of `p` gives: a switch's value
/// is at least 0.5 when it is on, a setting's value rounds to its index.
pub open spec fn read_back_of(p: Param, at_least_half: bool, rounded: isize) -> bool {
    match p {
        Param::Compress(_) => true,
        Param::Makeup(_) => true,
        Param::Timing(_) => true,
        Param::VuMode(on) => at_least_half == on,
        Param::Bypass(on) => at_least_half == on,
        Param::Bypass_2(on) => at_least_half == on,
        Param::Bypass_3(_) => true,
        Param::Wet(_) => true,
        Param::Delta(_) => true,
    }
}

/// The parameter that value `value` (the bits of a `f32`) of parameter `param_index`
/// sets; `at_least_half` says whether the value is at least 0.5, `rounded` is the value
/// rounded to a whole number.
pub open spec fn spec_decode(param_index: i32, value: u32, at_least_half: bool, rounded: isize) -> Option<
    Param,
> {
    if param_index == 0 {
        Some(Param::Compress(value))
    } else if param_index == 1 {
        Some(Param::Makeup(value))
    } else if param_index == 2 {
        Some(Param::Timing(value))
    } else if param_index == 3 {
        Some(Param::VuMode(at_least_half))
    } else if param_index == 4 {
        Some(Param::Bypass(at_least_half))
    } else if param_index == 5 {
        Some(Param::Bypass_2(at_least_half))
    } else if param_index == 6 {
        Some(Param::Bypass_3(value))
    } else if param_index == 7 {
        Some(Param::Wet(value))
    } else if param_index == 8 {
        Some(Param::Delta(value))
    } else {
        None
    }
}

/// The DAW message that sets `param` on the plugin at `fx_index` of a track.
pub fn encode_trackmsg(track_guid: TrackGuid, fx_index: i32, param: Param) -> (r: DataMsg)
    ensures
        r == (DataMsg::FXParamValue {
            track_guid,
            fx_index,
            param_index: param.spec_param_index(),
            value: param.spec_value_bits(),
        }),
{
    DataMsg::FXParamValue {
        track_guid,
        fx_index,
        param_index: param.param_index(),
        value: param.value_bits(),
    }
}

/// The parameter a reported value sets, if `param_index` names one (see `spec_decode`).
pub fn decode_trackmsg(param_index: i32, value: u32, at_least_half: bool, rounded: isize) -> (r:
    Option<Param>)
    ensures
        r == spec_decode(param_index, value, at_least_half, rounded),
{
    match param_index {
        0 => Some(Param::Compress(value)),
        1 => Some(Param::Makeup(value)),
        2 => Some(Param::Timing(value)),
        3 => Some(Param::VuMode(at_least_half)),
        4 => Some(Param::Bypass(at_least_half)),
        5 => Some(Param::Bypass_2(at_least_half)),
        6 => Some(Param::Bypass_3(value)),
        7 => Some(Param::Wet(value)),
        8 => Some(Param::Delta(value)),
        _ => None,
    }
}

/// Reading back the message that sets a parameter gives that parameter.
pub proof fn law_decode_encode(p: Param, at_least_half: bool, rounded: isize)
    requires
        read_back_of(p, at_least_half, rounded),
    ensures
        spec_decode(p.spec_param_index(), p.spec_value_bits(), at_least_half, rounded) == Some(p),
{
}

/// Each parameter is written to its fixed index in the plugin.
pub proof fn law_parameter_indices(p: Param)
    ensures
        p is Compress ==> p.spec_param_index() == 0,
        p is Makeup ==> p.spec_param_index() == 1,
        p is Timing ==> p.spec_param_index() == 2,
        p is VuMode ==> p.spec_param_index() == 3,
        p is Bypass ==> p.spec_param_index() == 4,
        p is Bypass_2 ==> p.spec_param_index() == 5,
        p is Bypass_3 ==> p.spec_param_index() == 6,
        p is Wet ==> p.spec_param_index() == 7,
        p is Delta ==> p.spec_param_index() == 8,
{
}

} // verus!
