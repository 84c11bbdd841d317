//! The TDR VOS SlickEQ (VST3).
use vstd::prelude::*;

use crate::modes::guid::TrackGuid;
use crate::modes::reaper_fx::{switch_bits, switch_value_bits};
use crate::modes::track_data::DataMsg;

verus! {

/// The name REAPER shows for this plugin.
pub fn name() -> (r: &'static str)
    ensures
        r@ == "VST3: TDR VOS SlickEQ (Tokyo Dawn Labs)"@,
{
    "VST3: TDR VOS SlickEQ (Tokyo Dawn Labs)"
}


/// A parameter of the plugin with its value: continuous values hold the bits of their
/// `f32`, switches are on or off, stepped parameters hold a setting.
#[derive(Debug, Clone, Copy, PartialEq, Eq, Structural)]
#[allow(non_camel_case_types)]
pub enum Param {
    LOWGain(u32),
    LOWFreq(u32),
    LOWShape(bool),
    MIDGain(u32),
    MIDFreq(u32),
    HIGHGain(u32),
    HIGHFreq(u32),
    HIGHShape(bool),
    EQModel(u32),
    EQSat(bool),
    HPFreq(u32),
    OUTStage(u32),
    OUTDrive(u32),
    OUTGain(u32),
    Bypass(bool),
    Mode(u32),
    LOWBypass(bool),
    MIDBypass(bool),
    HIGHBypass(bool),
    AutoGain(bool),
    Quality(u32),
    Program(u32),
    Bypass_2(u32),
    Wet(u32),
    Delta(u32),
}

impl Param {
    /// The parameter's index in the plugin.
    pub open spec fn spec_param_index(self) -> i32 {
        match self {
            Param::LOWGain(_) => 0,
            Param::LOWFreq(_) => 1,
            Param::LOWShape(_) => 2,
            Param::MIDGain(_) => 3,
            Param::MIDFreq(_) => 4,
            Param::HIGHGain(_) => 5,
            Param::HIGHFreq(_) => 6,
            Param::HIGHShape(_) => 7,
            Param::EQModel(_) => 8,
            Param::EQSat(_) => 9,
            Param::HPFreq(_) => 10,
            Param::OUTStage(_) => 11,
            Param::OUTDrive(_) => 12,
            Param::OUTGain(_) => 13,
            Param::Bypass(_) => 14,
            Param::Mode(_) => 15,
            Param::LOWBypass(_) => 16,
            Param::MIDBypass(_) => 17,
            Param::HIGHBypass(_) => 18,
            Param::AutoGain(_) => 19,
            Param::Quality(_) => 20,
            Param::Program(_) => 21,
            Param::Bypass_2(_) => 22,
            Param::Wet(_) => 23,
            Param::Delta(_) => 24,
        }
    }

    /// The value as the DAW takes it, the bits of a `f32`: a switch is 1.0 or 0.0, a
    /// setting its index as a whole number.
    pub open spec fn spec_value_bits(self) -> u32 {
        match self {
            Param::LOWGain(v) => v,
            Param::LOWFreq(v) => v,
            Param::LOWShape(on) => switch_bits(on),
            Param::MIDGain(v) => v,
            Param::MIDFreq(v) => v,
            Param::HIGHGain(v) => v,
            Param::HIGHFreq(v) => v,
            Param::HIGHShape(on) => switch_bits(on),
            Param::EQModel(v) => v,
            Param::EQSat(on) => switch_bits(on),
            Param::HPFreq(v) => v,
            Param::OUTStage(v) => v,
            Param::OUTDrive(v) => v,
            Param::OUTGain(v) => v,
            Param::Bypass(on) => switch_bits(on),
            Param::Mode(v) => v,
            Param::LOWBypass(on) => switch_bits(on),
            Param::MIDBypass(on) => switch_bits(on),
            Param::HIGHBypass(on) => switch_bits(on),
            Param::AutoGain(on) => switch_bits(on),
            Param::Quality(v) => v,
            Param::Program(v) => v,
            Param::Bypass_2(v) => v,
            Param::Wet(v) => v,
            Param::Delta(v) => v,
        }
    }

    /// The parameter's index in the plugin.
    pub fn param_index(&self) -> (r: i32)
        ensures
            r == self.spec_param_index(),
    {
        match self {
            Param::LOWGain(_) => 0,
            Param::LOWFreq(_) => 1,
            Param::LOWShape(_) => 2,
            Param::MIDGain(_) => 3,
            Param::MIDFreq(_) => 4,
            Param::HIGHGain(_) => 5,
            Param::HIGHFreq(_) => 6,
            Param::HIGHShape(_) => 7,
            Param::EQModel(_) => 8,
            Param::EQSat(_) => 9,
            Param::HPFreq(_) => 10,
            Param::OUTStage(_) => 11,
            Param::OUTDrive(_) => 12,
            Param::OUTGain(_) => 13,
            Param::Bypass(_) => 14,
            Param::Mode(_) => 15,
            Param::LOWBypass(_) => 16,
            Param::MIDBypass(_) => 17,
            Param::HIGHBypass(_) => 18,
            Param::AutoGain(_) => 19,
            Param::Quality(_) => 20,
            Param::Program(_) => 21,
            Param::Bypass_2(_) => 22,
            Param::Wet(_) => 23,
            Param::Delta(_) => 24,
        }
    }

    /// The value as the DAW takes it (see `spec_value_bits`).
    pub fn value_bits(&self) -> (r: u32)
        ensures
            r == self.spec_value_bits(),
    {
        match self {
            Param::LOWGain(v) => *v,
            Param::LOWFreq(v) => *v,
            Param::LOWShape(on) => switch_value_bits(*on),
            Param::MIDGain(v) => *v,
            Param::MIDFreq(v) => *v,
            Param::HIGHGain(v) => *v,
            Param::HIGHFreq(v) => *v,
            Param::HIGHShape(on) => switch_value_bits(*on),
            Param::EQModel(v) => *v,
            Param::EQSat(on) => switch_value_bits(*on),
            Param::HPFreq(v) => *v,
            Param::OUTStage(v) => *v,
            Param::OUTDrive(v) => *v,
            Param::OUTGain(v) => *v,
            Param::Bypass(on) => switch_value_bits(*on),
            Param::Mode(v) => *v,
            Param::LOWBypass(on) => switch_value_bits(*on),
            Param::MIDBypass(on) => switch_value_bits(*on),
            Param::HIGHBypass(on) => switch_value_bits(*on),
            Param::AutoGain(on) => switch_value_bits(*on),
            Param::Quality(v) => *v,
            Param::Program(v) => *v,
            Param::Bypass_2(v) => *v,
            Param::Wet(v) => *v,
            Param::Delta(v) => *v,
        }
    }
}

/// Whether `at_least_half` and `rounded` are what the value of `p` gives: a switch's value
/// is at least 0.5 when it is on, a setting's value rounds to its index.
pub open spec fn read_back_of(p: Param, at_least_half: bool, rounded: isize) -> bool {
    match p {
        Param::LOWGain(_) => true,
        Param::LOWFreq(_) => true,
        Param::LOWShape(on) => at_least_half == on,
        Param::MIDGain(_) => true,
        Param::MIDFreq(_) => true,
        Param::HIGHGain(_) => true,
        Param::HIGHFreq(_) => true,
        Param::HIGHShape(on) => at_least_half == on,
        Param::EQModel(_) => true,
        Param::EQSat(on) => at_least_half == on,
        Param::HPFreq(_) => true,
        Param::OUTStage(_) => true,
        Param::OUTDrive(_) => true,
        Param::OUTGain(_) => true,
        Param::Bypass(on) => at_least_half == on,
        Param::Mode(_) => true,
        Param::LOWBypass(on) => at_least_half == on,
        Param::MIDBypass(on) => at_least_half == on,
        Param::HIGHBypass(on) => at_least_half == on,
        Param::AutoGain(on) => at_least_half == on,
        Param::Quality(_) => true,
        Param::Program(_) => true,
        Param::Bypass_2(_) => true,
        Param::Wet(_) => true,
        Param::Delta(_) => true,
    }
}

/// The parameter that value `value` (the bits of a `f32`) of parameter `param_index`
/// sets; `at_least_half` says whether the value is at least 0.5, `rounded` is the value
/// rounded to a whole number.
pub open spec fn spec_decode(param_index: i32, value: u32, at_least_half: bool, rounded: isize) -> Option<
    Param,
> {
    if param_index == 0 {
        Some(Param::LOWGain(value))
    } else if param_index == 1 {
        Some(Param::LOWFreq(value))
    } else if param_index == 2 {
        Some(Param::LOWShape(at_least_half))
    } else if param_index == 3 {
        Some(Param::MIDGain(value))
    } else if param_index == 4 {
        Some(Param::MIDFreq(value))
    } else if param_index == 5 {
        Some(Param::HIGHGain(value))
    } else if param_index == 6 {
        Some(Param::HIGHFreq(value))
    } else if param_index == 7 {
        Some(Param::HIGHShape(at_least_half))
    } else if param_index == 8 {
        Some(Param::EQModel(value))
    } else if param_index == 9 {
        Some(Param::EQSat(at_least_half))
    } else if param_index == 10 {
        Some(Param::HPFreq(value))
    } else if param_index == 11 {
        Some(Param::OUTStage(value))
    } else if param_index == 12 {
        Some(Param::OUTDrive(value))
    } else if param_index == 13 {
        Some(Param::OUTGain(value))
    } else if param_index == 14 {
        Some(Param::Bypass(at_least_half))
    } else if param_index == 15 {
        Some(Param::Mode(value))
    } else if param_index == 16 {
        Some(Param::LOWBypass(at_least_half))
    } else if param_index == 17 {
        Some(Param::MIDBypass(at_least_half))
    } else if param_index == 18 {
        Some(Param::HIGHBypass(at_least_half))
    } else if param_index == 19 {
        Some(Param::AutoGain(at_least_half))
    } else if param_index == 20 {
        Some(Param::Quality(value))
    } else if param_index == 21 {
        Some(Param::Program(value))
    } else if param_index == 22 {
        Some(Param::Bypass_2(value))
    } else if param_index == 23 {
        Some(Param::Wet(value))
    } else if param_index == 24 {
        Some(Param::Delta(value))
    } else {
        None
    }
}

/// The DAW message that sets `param` on the plugin at `fx_index` of a track.
pub fn encode_trackmsg(track_guid: TrackGuid, fx_index: i32, param: Param) -> (r: DataMsg)
    ensures
        r == (DataMsg::FXParamValue {
            track_guid,
            fx_index,
            param_index: param.spec_param_index(),
            value: param.spec_value_bits(),
        }),
{
    DataMsg::FXParamValue {
        track_guid,
        fx_index,
        param_index: param.param_index(),
        value: param.value_bits(),
    }
}

/// The parameter a reported value sets, if `param_index` names one (see `spec_decode`).
pub fn decode_trackmsg(param_index: i32, value: u32, at_least_half: bool, rounded: isize) -> (r:
    Option<Param>)
    ensures
        r == spec_decode(param_index, value, at_least_half, rounded),
{
    match param_index {
        0 => Some(Param::LOWGain(value)),
        1 => Some(Param::LOWFreq(value)),
        2 => Some(Param::LOWShape(at_least_half)),
        3 => Some(Param::MIDGain(value)),
        4 => Some(Param::MIDFreq(value)),
        5 => Some(Param::HIGHGain(value)),
        6 => Some(Param::HIGHFreq(value)),
        7 => Some(Param::HIGHShape(at_least_half)),
        8 => Some(Param::EQModel(value)),
        9 => Some(Param::EQSat(at_least_half)),
        10 => Some(Param::HPFreq(value)),
        11 => Some(Param::OUTStage(value)),
        12 => Some(Param::OUTDrive(value)),
        13 => Some(Param::OUTGain(value)),
        14 => Some(Param::Bypass(at_least_half)),
        15 => Some(Param::Mode(value)),
        16 => Some(Param::LOWBypass(at_least_half)),
        17 => Some(Param::MIDBypass(at_least_half)),
        18 => Some(Param::HIGHBypass(at_least_half)),
        19 => Some(Param::AutoGain(at_least_half)),
        20 => Some(Param::Quality(value)),
        21 => Some(Param::Program(value)),
        22 => Some(Param::Bypass_2(value)),
        23 => Some(Param::Wet(value)),
        24 => Some(Param::Delta(value)),
        _ => None,
    }
}

/// Reading back the message that sets a parameter gives that parameter.
pub proof fn law_decode_encode(p: Param, at_least_half: bool, rounded: isize)
    requires
        read_back_of(p, at_least_half, rounded),
    ensures
        spec_decode(p.spec_param_index(), p.spec_value_bits(), at_least_half, rounded) == Some(p),
{
}

/// Each parameter is written to its fixed index in the plugin.
pub proof fn law_parameter_indices(p: Param)
    ensures
        p is LOWGain ==> p.spec_param_index() == 0,
        p is LOWFreq ==> p.spec_param_index() == 1,
        p is LOWShape ==> p.spec_param_index() == 2,
        p is MIDGain ==> p.spec_param_index() == 3,
        p is MIDFreq ==> p.spec_param_index() == 4,
        p is HIGHGain ==> p.spec_param_index() == 5,
        p is HIGHFreq ==> p.spec_param_index() == 6,
        p is HIGHShape ==> p.spec_param_index() == 7,
        p is EQModel ==> p.spec_param_index() == 8,
        p is EQSat ==> p.spec_param_index() == 9,
        p is HPFreq ==> p.spec_param_index() == 10,
        p is OUTStage ==> p.spec_param_index() == 11,
        p is OUTDrive ==> p.spec_param_index() == 12,
        p is OUTGain ==> p.spec_param_index() == 13,
        p is Bypass ==> p.spec_param_index() == 14,
        p is Mode ==> p.spec_param_index() == 15,
        p is LOWBypass ==> p.spec_param_index() == 16,
        p is MIDBypass ==> p.spec_param_index() == 17,
        p is HIGHBypass ==> p.spec_param_index() == 18,
        p is AutoGain ==> p.spec_param_index() == 19,
        p is Quality ==> p.spec_param_index() == 20,
        p is Program ==> p.spec_param_index() == 21,
        p is Bypass_2 ==> p.spec_param_index() == 22,
        p is Wet ==> p.spec_param_index() == 23,
        p is Delta ==> p.spec_param_index() == 24,
{
}

} // verus!
