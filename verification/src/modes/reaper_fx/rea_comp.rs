//! The ReaComp compressor.
use vstd::prelude::*;

use crate::modes::guid::TrackGuid;
use crate::modes::reaper_fx::{switch_bits, switch_value_bits};
use crate::modes::track_data::DataMsg;

verus! {

pub const FX_NAME: &'static str = "VST: ReaComp (Cockos)";


/// A parameter of the plugin with its value: continuous values hold the bits of their
/// `f32`, switches are on or off, stepped parameters hold a setting.
#[derive(Debug, Clone, Copy, PartialEq, Eq, Structural)]
#[allow(non_camel_case_types)]
pub enum Param {
    Threshold(u32),
    Ratio(u32),
    Attack(u32),
    Release(u32),
    PreComp(u32),
    Resvd(u32),
    Lowpass(u32),
    Hipass(u32),
    SignIn(u32),
    AudIn(u32),
    Dry(u32),
    Wet(u32),
    FilterPreview(bool),
    RMSSize(u32),
    Knee(u32),
    AutoMakeUpGain(bool),
    AutoRelease(bool),
    LegacyAttackKneeOptions(u32),
    DeprecatedBrokenAntiAlias(u32),
    MultichannelMode(u32),
    MeteringIndex(u32),
    Bypass(u32),
    Wet_2(u32),
    Delta(u32),
}

impl Param {
    /// The parameter's index in the plugin.
    pub open spec fn spec_param_index(self) -> i32 {
        match self {
            Param::Threshold(_) => 0,
            Param::Ratio(_) => 1,
            Param::Attack(_) => 2,
            Param::Release(_) => 3,
            Param::PreComp(_) => 4,
            Param::Resvd(_) => 5,
            Param::Lowpass(_) => 6,
            Param::Hipass(_) => 7,
            Param::SignIn(_) => 8,
            Param::AudIn(_) => 9,
            Param::Dry(_) => 10,
            Param::Wet(_) => 11,
            Param::FilterPreview(_) => 12,
            Param::RMSSize(_) => 13,
            Param::Knee(_) => 14,
            Param::AutoMakeUpGain(_) => 15,
            Param::AutoRelease(_) => 16,
            Param::LegacyAttackKneeOptions(_) => 17,
            Param::DeprecatedBrokenAntiAlias(_) => 18,
            Param::MultichannelMode(_) => 19,
            Param::MeteringIndex(_) => 20,
            Param::Bypass(_) => 21,
            Param::Wet_2(_) => 22,
            Param::Delta(_) => 23,
        }
    }

    /// The value as the DAW takes it, the bits of a `f32`: a switch is 1.0 or 0.0, a
    /// setting its index as a whole number.
    pub open spec fn spec_value_bits(self) -> u32 {
        match self {
            Param::Threshold(v) => v,
            Param::Ratio(v) => v,
            Param::Attack(v) => v,
            Param::Release(v) => v,
            Param::PreComp(v) => v,
            Param::Resvd(v) => v,
            Param::Lowpass(v) => v,
            Param::Hipass(v) => v,
            Param::SignIn(v) => v,
            Param::AudIn(v) => v,
            Param::Dry(v) => v,
            Param::Wet(v) => v,
            Param::FilterPreview(on) => switch_bits(on),
            Param::RMSSize(v) => v,
            Param::Knee(v) => v,
            Param::AutoMakeUpGain(on) => switch_bits(on),
            Param::AutoRelease(on) => switch_bits(on),
            Param::LegacyAttackKneeOptions(v) => v,
            Param::DeprecatedBrokenAntiAlias(v) => v,
            Param::MultichannelMode(v) => v,
            Param::MeteringIndex(v) => v,
            Param::Bypass(v) => v,
            Param::Wet_2(v) => v,
            Param::Delta(v) => v,
        }
    }

    /// The parameter's index in the plugin.
    pub fn param_index(&self) -> (r: i32)
        ensures
            r == self.spec_param_index(),
    {
        match self {
            Param::Threshold(_) => 0,
            Param::Ratio(_) => 1,
            Param::Attack(_) => 2,
            Param::Release(_) => 3,
            Param::PreComp(_) => 4,
            Param::Resvd(_) => 5,
            Param::Lowpass(_) => 6,
            Param::Hipass(_) => 7,
            Param::SignIn(_) => 8,
            Param::AudIn(_) => 9,
            Param::Dry(_) => 10,
            Param::Wet(_) => 11,
            Param::FilterPreview(_) => 12,
            Param::RMSSize(_) => 13,
            Param::Knee(_) => 14,
            Param::AutoMakeUpGain(_) => 15,
            Param::AutoRelease(_) => 16,
            Param::LegacyAttackKneeOptions(_) => 17,
            Param::DeprecatedBrokenAntiAlias(_) => 18,
            Param::MultichannelMode(_) => 19,
            Param::MeteringIndex(_) => 20,
            Param::Bypass(_) => 21,
            Param::Wet_2(_) => 22,
            Param::Delta(_) => 23,
        }
    }

    /// The value as the DAW takes it (see `spec_value_bits`).
    pub fn value_bits(&self) -> (r: u32)
        ensures
            r == self.spec_value_bits(),
    {
        match self {
            Param::Threshold(v) => *v,
            Param::Ratio(v) => *v,
            Param::Attack(v) => *v,
            Param::Release(v) => *v,
            Param::PreComp(v) => *v,
            Param::Resvd(v) => *v,
            Param::Lowpass(v) => *v,
            Param::Hipass(v) => *v,
            Param::SignIn(v) => *v,
            Param::AudIn(v) => *v,
            Param::Dry(v) => *v,
            Param::Wet(v) => *v,
            Param::FilterPreview(on) => switch_value_bits(*on),
            Param::RMSSize(v) => *v,
            Param::Knee(v) => *v,
            Param::AutoMakeUpGain(on) => switch_value_bits(*on),
            Param::AutoRelease(on) => switch_value_bits(*on),
            Param::LegacyAttackKneeOptions(v) => *v,
            Param::DeprecatedBrokenAntiAlias(v) => *v,
            Param::MultichannelMode(v) => *v,
            Param::MeteringIndex(v) => *v,
            Param::Bypass(v) => *v,
            Param::Wet_2(v) => *v,
            Param::Delta(v) => *v,
        }
    }
}

/// Whether `at_least_half` and `rounded` are what the value of `p` gives: a switch's value
/// is at least 0.5 when it is on, a setting's value rounds to its index.
pub open spec fn read_back_of(p: Param, at_least_half: bool, rounded: isize) -> bool {
    match p {
        Param::Threshold(_) => true,
        Param::Ratio(_) => true,
        Param::Attack(_) => true,
        Param::Release(_) => true,
        Param::PreComp(_) => true,
        Param::Resvd(_) => true,
        Param::Lowpass(_) => true,
        Param::Hipass(_) => true,
        Param::SignIn(_) => true,
        Param::AudIn(_) => true,
        Param::Dry(_) => true,
        Param::Wet(_) => true,
        Param::FilterPreview(on) => at_least_half == on,
        Param::RMSSize(_) => true,
        Param::Knee(_) => true,
        Param::AutoMakeUpGain(on) => at_least_half == on,
        Param::AutoRelease(on) => at_least_half == on,
        Param::LegacyAttackKneeOptions(_) => true,
        Param::DeprecatedBrokenAntiAlias(_) => true,
        Param::MultichannelMode(_) => true,
        Param::MeteringIndex(_) => true,
        Param::Bypass(_) => true,
        Param::Wet_2(_) => true,
        Param::Delta(_) => true,
    }
}

/// The parameter that value `value` (the bits of a `f32`) of parameter `param_index`
/// sets; `at_least_half` says whether the value is at least 0.5, `rounded` is the value
/// rounded to a whole number.
pub open spec fn spec_decode(param_index: i32, value: u32, at_least_half: bool, rounded: isize) -> Option<
    Param,
> {
    if param_index == 0 {
        Some(Param::Threshold(value))
    } else if param_index == 1 {
        Some(Param::Ratio(value))
    } else if param_index == 2 {
        Some(Param::Attack(value))
    } else if param_index == 3 {
        Some(Param::Release(value))
    } else if param_index == 4 {
        Some(Param::PreComp(value))
    } else if param_index == 5 {
        Some(Param::Resvd(value))
    } else if param_index == 6 {
        Some(Param::Lowpass(value))
    } else if param_index == 7 {
        Some(Param::Hipass(value))
    } else if param_index == 8 {
        Some(Param::SignIn(value))
    } else if param_index == 9 {
        Some(Param::AudIn(value))
    } else if param_index == 10 {
        Some(Param::Dry(value))
    } else if param_index == 11 {
        Some(Param::Wet(value))
    } else if param_index == 12 {
        Some(Param::FilterPreview(at_least_half))
    } else if param_index == 13 {
        Some(Param::RMSSize(value))
    } else if param_index == 14 {
        Some(Param::Knee(value))
    } else if param_index == 15 {
        Some(Param::AutoMakeUpGain(at_least_half))
    } else if param_index == 16 {
        Some(Param::AutoRelease(at_least_half))
    } else if param_index == 17 {
        Some(Param::LegacyAttackKneeOptions(value))
    } else if param_index == 18 {
        Some(Param::DeprecatedBrokenAntiAlias(value))
    } else if param_index == 19 {
        Some(Param::MultichannelMode(value))
    } else if param_index == 20 {
        Some(Param::MeteringIndex(value))
    } else if param_index == 21 {
        Some(Param::Bypass(value))
    } else if param_index == 22 {
        Some(Param::Wet_2(value))
    } else if param_index == 23 {
        Some(Param::Delta(value))
    } else {
        None
    }
}

/// The DAW message that sets `param` on the plugin at `fx_index` of a track.
pub fn encode_trackmsg(track_guid: TrackGuid, fx_index: i32, param: Param) -> (r: DataMsg)
    ensures
        r == (DataMsg::FXParamValue {
            track_guid,
            fx_index,
            param_index: param.spec_param_index(),
            value: param.spec_value_bits(),
        }),
{
    DataMsg::FXParamValue {
        track_guid,
        fx_index,
        param_index: param.param_index(),
        value: param.value_bits(),
    }
}

/// The parameter a reported value sets, if `param_index` names one (see `spec_decode`).
pub fn decode_trackmsg(param_index: i32, value: u32, at_least_half: bool, rounded: isize) -> (r:
    Option<Param>)
    ensures
        r == spec_decode(param_index, value, at_least_half, rounded),
{
    match param_index {
        0 => Some(Param::Threshold(value)),
        1 => Some(Param::Ratio(value)),
        2 => Some(Param::Attack(value)),
        3 => Some(Param::Release(value)),
        4 => Some(Param::PreComp(value)),
        5 => Some(Param::Resvd(value)),
        6 => Some(Param::Lowpass(value)),
        7 => Some(Param::Hipass(value)),
        8 => Some(Param::SignIn(value)),
        9 => Some(Param::AudIn(value)),
        10 => Some(Param::Dry(value)),
        11 => Some(Param::Wet(value)),
        12 => Some(Param::FilterPreview(at_least_half)),
        13 => Some(Param::RMSSize(value)),
        14 => Some(Param::Knee(value)),
        15 => Some(Param::AutoMakeUpGain(at_least_half)),
        16 => Some(Param::AutoRelease(at_least_half)),
        17 => Some(Param::LegacyAttackKneeOptions(value)),
        18 => Some(Param::DeprecatedBrokenAntiAlias(value)),
        19 => Some(Param::MultichannelMode(value)),
        20 => Some(Param::MeteringIndex(value)),
        21 => Some(Param::Bypass(value)),
        22 => Some(Param::Wet_2(value)),
        23 => Some(Param::Delta(value)),
        _ => None,
    }
}

/// Reading back the message that sets a parameter gives that parameter.
pub proof fn law_decode_encode(p: Param, at_least_half: bool, rounded: isize)
    requires
        read_back_of(p, at_least_half, rounded),
    ensures
        spec_decode(p.spec_param_index(), p.spec_value_bits(), at_least_half, rounded) == Some(p),
{
}

/// Each parameter is written to its fixed index in the plugin.
pub proof fn law_parameter_indices(p: Param)
    ensures
        p is Threshold ==> p.spec_param_index() == 0,
        p is Ratio ==> p.spec_param_index() == 1,
        p is Attack ==> p.spec_param_index() == 2,
        p is Release ==> p.spec_param_index() == 3,
        p is PreComp ==> p.spec_param_index() == 4,
        p is Resvd ==> p.spec_param_index() == 5,
        p is Lowpass ==> p.spec_param_index() == 6,
        p is Hipass ==> p.spec_param_index() == 7,
        p is SignIn ==> p.spec_param_index() == 8,
        p is AudIn ==> p.spec_param_index() == 9,
        p is Dry ==> p.spec_param_index() == 10,
        p is Wet ==> p.spec_param_index() == 11,
        p is FilterPreview ==> p.spec_param_index() == 12,
        p is RMSSize ==> p.spec_param_index() == 13,
        p is Knee ==> p.spec_param_index() == 14,
        p is AutoMakeUpGain ==> p.spec_param_index() == 15,
        p is AutoRelease ==> p.spec_param_index() == 16,
        p is LegacyAttackKneeOptions ==> p.spec_param_index() == 17,
        p is DeprecatedBrokenAntiAlias ==> p.spec_param_index() == 18,
        p is MultichannelMode ==> p.spec_param_index() == 19,
        p is MeteringIndex ==> p.spec_param_index() == 20,
        p is Bypass ==> p.spec_param_index() == 21,
        p is Wet_2 ==> p.spec_param_index() == 22,
        p is Delta ==> p.spec_param_index() == 23,
{
}

} // verus!
