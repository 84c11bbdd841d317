//! The ReaEQ equalizer.
use vstd::prelude::*;

use crate::modes::guid::TrackGuid;
use crate::modes::track_data::DataMsg;

verus! {

pub const FX_NAME: &'static str = "VST: ReaEQ (Cockos)";


/// A parameter of the plugin with its value: continuous values hold the bits of their
/// `f32`, switches are on or off, stepped parameters hold a setting.
#[derive(Debug, Clone, Copy, PartialEq, Eq, Structural)]
#[allow(non_camel_case_types)]
pub enum Param {
    FreqLowShelf(u32),
    GainLowShelf(u32),
    BWLowShelf(u32),
    FreqBand2(u32),
    GainBand2(u32),
    BWBand2(u32),
    FreqBand3(u32),
    GainBand3(u32),
    BWBand3(u32),
    FreqHighShelf4(u32),
    GainHighShelf4(u32),
    BWHighShelf4(u32),
    FreqHighPass5(u32),
    GainHighPass5(u32),
    BWHighPass5(u32),
    GlobalGain(u32),
    Bypass(u32),
    Wet(u32),
    Delta(u32),
}

impl Param {
    /// The parameter's index in the plugin.
    pub open spec fn spec_param_index(self) -> i32 {
        match self {
            Param::FreqLowShelf(_) => 0,
            Param::GainLowShelf(_) => 1,
            Param::BWLowShelf(_) => 2,
            Param::FreqBand2(_) => 3,
            Param::GainBand2(_) => 4,
            Param::BWBand2(_) => 5,
            Param::FreqBand3(_) => 6,
            Param::GainBand3(_) => 7,
            Param::BWBand3(_) => 8,
            Param::FreqHighShelf4(_) => 9,
            Param::GainHighShelf4(_) => 10,
            Param::BWHighShelf4(_) => 11,
            Param::FreqHighPass5(_) => 12,
            Param::GainHighPass5(_) => 13,
            Param::BWHighPass5(_) => 14,
            Param::GlobalGain(_) => 15,
            Param::Bypass(_) => 16,
            Param::Wet(_) => 17,
            Param::Delta(_) => 18,
        }
    }

    /// The value as the DAW takes it, the bits of a `f32`: a switch is 1.0 or 0.0, a
    /// setting its index as a whole number.
    pub open spec fn spec_value_bits(self) -> u32 {
        match self {
            Param::FreqLowShelf(v) => v,
            Param::GainLowShelf(v) => v,
            Param::BWLowShelf(v) => v,
            Param::FreqBand2(v) => v,
            Param::GainBand2(v) => v,
            Param::BWBand2(v) => v,
            Param::FreqBand3(v) => v,
            Param::GainBand3(v) => v,
            Param::BWBand3(v) => v,
            Param::FreqHighShelf4(v) => v,
            Param::GainHighShelf4(v) => v,
            Param::BWHighShelf4(v) => v,
            Param::FreqHighPass5(v) => v,
            Param::GainHighPass5(v) => v,
            Param::BWHighPass5(v) => v,
            Param::GlobalGain(v) => v,
            Param::Bypass(v) => v,
            Param::Wet(v) => v,
            Param::Delta(v) => v,
        }
    }

    /// The parameter's index in the plugin.
    pub fn param_index(&self) -> (r: i32)
        ensures
            r == self.spec_param_index(),
    {
        match self {
            Param::FreqLowShelf(_) => 0,
            Param::GainLowShelf(_) => 1,
            Param::BWLowShelf(_) => 2,
            Param::FreqBand2(_) => 3,
            Param::GainBand2(_) => 4,
            Param::BWBand2(_) => 5,
            Param::FreqBand3(_) => 6,
            Param::GainBand3(_) => 7,
            Param::BWBand3(_) => 8,
            Param::FreqHighShelf4(_) => 9,
            Param::GainHighShelf4(_) => 10,
            Param::BWHighShelf4(_) => 11,
            Param::FreqHighPass5(_) => 12,
            Param::GainHighPass5(_) => 13,
            Param::BWHighPass5(_) => 14,
            Param::GlobalGain(_) => 15,
            Param::Bypass(_) => 16,
            Param::Wet(_) => 17,
            Param::Delta(_) => 18,
        }
    }

    /// The value as the DAW takes it (see `spec_value_bits`).
    pub fn value_bits(&self) -> (r: u32)
        ensures
            r == self.spec_value_bits(),
    {
        match self {
            Param::FreqLowShelf(v) => *v,
            Param::GainLowShelf(v) => *v,
            Param::BWLowShelf(v) => *v,
            Param::FreqBand2(v) => *v,
            Param::GainBand2(v) => *v,
            Param::BWBand2(v) => *v,
            Param::FreqBand3(v) => *v,
            Param::GainBand3(v) => *v,
            Param::BWBand3(v) => *v,
            Param::FreqHighShelf4(v) => *v,
            Param::GainHighShelf4(v) => *v,
            Param::BWHighShelf4(v) => *v,
            Param::FreqHighPass5(v) => *v,
            Param::GainHighPass5(v) => *v,
            Param::BWHighPass5(v) => *v,
            Param::GlobalGain(v) => *v,
            Param::Bypass(v) => *v,
            Param::Wet(v) => *v,
            Param::Delta(v) => *v,
        }
    }
}

/// Whether `at_least_half` and `rounded` are what the value of `p` gives: a switch's value
/// is at least 0.5 when it is on, a setting's value rounds to its index.
pub open spec fn read_back_of(p: Param, at_least_half: bool, rounded: isize) -> bool {
    match p {
        Param::FreqLowShelf(_) => true,
        Param::GainLowShelf(_) => true,
        Param::BWLowShelf(_) => true,
        Param::FreqBand2(_) => true,
        Param::GainBand2(_) => true,
        Param::BWBand2(_) => true,
        Param::FreqBand3(_) => true,
        Param::GainBand3(_) => true,
        Param::BWBand3(_) => true,
        Param::FreqHighShelf4(_) => true,
        Param::GainHighShelf4(_) => true,
        Param::BWHighShelf4(_) => true,
        Param::FreqHighPass5(_) => true,
        Param::GainHighPass5(_) => true,
        Param::BWHighPass5(_) => true,
        Param::GlobalGain(_) => true,
        Param::Bypass(_) => true,
        Param::Wet(_) => true,
        Param::Delta(_) => true,
    }
}

/// The parameter that value `value` (the bits of a `f32`) of parameter `param_index`
/// sets; `at_least_half` says whether the value is at least 0.5, `rounded` is the value
/// rounded to a whole number.
pub open spec fn spec_decode(param_index: i32, value: u32, at_least_half: bool, rounded: isize) -> Option<
    Param,
> {
    if param_index == 0 {
        Some(Param::FreqLowShelf(value))
    } else if param_index == 1 {
        Some(Param::GainLowShelf(value))
    } else if param_index == 2 {
        Some(Param::BWLowShelf(value))
    } else if param_index == 3 {
        Some(Param::FreqBand2(value))
    } else if param_index == 4 {
        Some(Param::GainBand2(value))
    } else if param_index == 5 {
        Some(Param::BWBand2(value))
    } else if param_index == 6 {
        Some(Param::FreqBand3(value))
    } else if param_index == 7 {
        Some(Param::GainBand3(value))
    } else if param_index == 8 {
        Some(Param::BWBand3(value))
    } else if param_index == 9 {
        Some(Param::FreqHighShelf4(value))
    } else if param_index == 10 {
        Some(Param::GainHighShelf4(value))
    } else if param_index == 11 {
        Some(Param::BWHighShelf4(value))
    } else if param_index == 12 {
        Some(Param::FreqHighPass5(value))
    } else if param_index == 13 {
        Some(Param::GainHighPass5(value))
    } else if param_index == 14 {
        Some(Param::BWHighPass5(value))
    } else if param_index == 15 {
        Some(Param::GlobalGain(value))
    } else if param_index == 16 {
        Some(Param::Bypass(value))
    } else if param_index == 17 {
        Some(Param::Wet(value))
    } else if param_index == 18 {
        Some(Param::Delta(value))
    } else {
        None
    }
}

/// The DAW message that sets `param` on the plugin at `fx_index` of a track.
pub fn encode_trackmsg(track_guid: TrackGuid, fx_index: i32, param: Param) -> (r: DataMsg)
    ensures
        r == (DataMsg::FXParamValue {
            track_guid,
            fx_index,
            param_index: param.spec_param_index(),
            value: param.spec_value_bits(),
        }),
{
    DataMsg::FXParamValue {
        track_guid,
        fx_index,
        param_index: param.param_index(),
        value: param.value_bits(),
    }
}

/// The parameter a reported value sets, if `param_index` names one (see `spec_decode`).
pub fn decode_trackmsg(param_index: i32, value: u32, at_least_half: bool, rounded: isize) -> (r:
    Option<Param>)
    ensures
        r == spec_decode(param_index, value, at_least_half, rounded),
{
    match param_index {
        0 => Some(Param::FreqLowShelf(value)),
        1 => Some(Param::GainLowShelf(value)),
        2 => Some(Param::BWLowShelf(value)),
        3 => Some(Param::FreqBand2(value)),
        4 => Some(Param::GainBand2(value)),
        5 => Some(Param::BWBand2(value)),
        6 => Some(Param::FreqBand3(value)),
        7 => Some(Param::GainBand3(value)),
        8 => Some(Param::BWBand3(value)),
        9 => Some(Param::FreqHighShelf4(value)),
        10 => Some(Param::GainHighShelf4(value)),
        11 => Some(Param::BWHighShelf4(value)),
        12 => Some(Param::FreqHighPass5(value)),
        13 => Some(Param::GainHighPass5(value)),
        14 => Some(Param::BWHighPass5(value)),
        15 => Some(Param::GlobalGain(value)),
        16 => Some(Param::Bypass(value)),
        17 => Some(Param::Wet(value)),
        18 => Some(Param::Delta(value)),
        _ => None,
    }
}

/// Reading back the message that sets a parameter gives that parameter.
pub proof fn law_decode_encode(p: Param, at_least_half: bool, rounded: isize)
    requires
        read_back_of(p, at_least_half, rounded),
    ensures
        spec_decode(p.spec_param_index(), p.spec_value_bits(), at_least_half, rounded) == Some(p),
{
}

/// ReaEQ numbers its parameters band by band, in the order low shelf, band 2, band 3,
/// high shelf 4 and high pass 5, each band's frequency, gain and bandwidth in turn
/// (band `b`'s from `3 * b`), then the global gain (15), bypass (16), wet (17) and delta
/// (18); a value reported for one of these indices is read as that parameter.
pub proof fn law_parameter_numbering(v: u32, at_least_half: bool, rounded: isize)
    ensures
        Param::FreqLowShelf(v).spec_param_index() == 0,
        Param::GainLowShelf(v).spec_param_index() == 1,
        Param::BWLowShelf(v).spec_param_index() == 2,
        Param::FreqBand2(v).spec_param_index() == 3,
        Param::GainBand2(v).spec_param_index() == 4,
        Param::BWBand2(v).spec_param_index() == 5,
        Param::FreqBand3(v).spec_param_index() == 6,
        Param::GainBand3(v).spec_param_index() == 7,
        Param::BWBand3(v).spec_param_index() == 8,
        Param::FreqHighShelf4(v).spec_param_index() == 9,
        Param::GainHighShelf4(v).spec_param_index() == 10,
        Param::BWHighShelf4(v).spec_param_index() == 11,
        Param::FreqHighPass5(v).spec_param_index() == 12,
        Param::GainHighPass5(v).spec_param_index() == 13,
        Param::BWHighPass5(v).spec_param_index() == 14,
        Param::GlobalGain(v).spec_param_index() == 15,
        Param::Bypass(v).spec_param_index() == 16,
        Param::Wet(v).spec_param_index() == 17,
        Param::Delta(v).spec_param_index() == 18,
        spec_decode(0, v, at_least_half, rounded) == Some(Param::FreqLowShelf(v)),
        spec_decode(1, v, at_least_half, rounded) == Some(Param::GainLowShelf(v)),
        spec_decode(2, v, at_least_half, rounded) == Some(Param::BWLowShelf(v)),
        spec_decode(3, v, at_least_half, rounded) == Some(Param::FreqBand2(v)),
        spec_decode(4, v, at_least_half, rounded) == Some(Param::GainBand2(v)),
        spec_decode(5, v, at_least_half, rounded) == Some(Param::BWBand2(v)),
        spec_decode(6, v, at_least_half, rounded) == Some(Param::FreqBand3(v)),
        spec_decode(7, v, at_least_half, rounded) == Some(Param::GainBand3(v)),
        spec_decode(8, v, at_least_half, rounded) == Some(Param::BWBand3(v)),
        spec_decode(9, v, at_least_half, rounded) == Some(Param::FreqHighShelf4(v)),
        spec_decode(10, v, at_least_half, rounded) == Some(Param::GainHighShelf4(v)),
        spec_decode(11, v, at_least_half, rounded) == Some(Param::BWHighShelf4(v)),
        spec_decode(12, v, at_least_half, rounded) == Some(Param::FreqHighPass5(v)),
        spec_decode(13, v, at_least_half, rounded) == Some(Param::GainHighPass5(v)),
        spec_decode(14, v, at_least_half, rounded) == Some(Param::BWHighPass5(v)),
        spec_decode(15, v, at_least_half, rounded) == Some(Param::GlobalGain(v)),
        spec_decode(16, v, at_least_half, rounded) == Some(Param::Bypass(v)),
        spec_decode(17, v, at_least_half, rounded) == Some(Param::Wet(v)),
        spec_decode(18, v, at_least_half, rounded) == Some(Param::Delta(v)),
{
}

} // verus!
