//! The TDR Nova equalizer (VST3).
use vstd::prelude::*;

use crate::modes::guid::TrackGuid;
use crate::modes::reaper_fx::{switch_bits, switch_value_bits};
use crate::modes::track_data::DataMsg;

verus! {

pub const FX_NAME: &'static str = "VST3: TDR Nova (Tokyo Dawn Labs)";


/// A parameter of the plugin with its value: continuous values hold the bits of their
/// `f32`, switches are on or off, stepped parameters hold a setting.
#[derive(Debug, Clone, Copy, PartialEq, Eq, Structural)]
#[allow(non_camel_case_types)]
pub enum Param {
    Band1Selected(bool),
    Band1Active(bool),
    Band1Gain(u32),
    Band1Q(u32),
    Band1Frequency(u32),
    Band1Type(u32),
    Band1Dyn(u32),
    Band1Threshold(u32),
    Band1Ratio(u32),
    Band1Split(bool),
    Band1Attack(u32),
    Band1Release(u32),
    Band2Selected(bool),
    Band2Active(bool),
    Band2Gain(u32),
    Band2Q(u32),
    Band2Frequency(u32),
    Band2Type(u32),
    Band2Dyn(u32),
    Band2Threshold(u32),
    Band2Ratio(u32),
    Band2Split(bool),
    Band2Attack(u32),
    Band2Release(u32),
    Band3Selected(bool),
    Band3Active(bool),
    Band3Gain(u32),
    Band3Q(u32),
    Band3Frequency(u32),
    Band3Type(u32),
    Band3Dyn(u32),
    Band3Threshold(u32),
    Band3Ratio(u32),
    Band3Split(bool),
    Band3Attack(u32),
    Band3Release(u32),
    Band4Selected(bool),
    Band4Active(bool),
    Band4Gain(u32),
    Band4Q(u32),
    Band4Frequency(u32),
    Band4Type(u32),
    Band4Dyn(u32),
    Band4Threshold(u32),
    Band4Ratio(u32),
    Band4Split(bool),
    Band4Attack(u32),
    Band4Release(u32),
    HPSelected(bool),
    HPActive(bool),
    HPFrequency(u32),
    HPType(u32),
    LPSelected(bool),
    LPActive(bool),
    LPFrequency(u32),
    LPType(u32),
    WideBandGain(u32),
    WideBandDyn(bool),
    WideBandThreshold(u32),
    WideBandRatio(u32),
    WideBandAttack(u32),
    WideBandRelease(u32),
    MasterBypass(bool),
    DynamicDelta(bool),
    DryMix(u32),
    OutputGain(u32),
    EQAutoGain(bool),
    Quality(u32),
    Channels(u32),
    AnalyzerMode(u32),
    DisplayEQRange(bool),
    DisplayFFTFloor(bool),
    SidechainMode(u32),
    AnalyzerSpeed(u32),
    Solo(bool),
    Program(u32),
    Bypass(u32),
    Wet(u32),
    Delta(u32),
}

impl Param {
    /// The parameter's index in the plugin.
    pub open spec fn spec_param_index(self) -> i32 {
        match self {
            Param::Band1Selected(_) => 0,
            Param::Band1Active(_) => 1,
            Param::Band1Gain(_) => 2,
            Param::Band1Q(_) => 3,
            Param::Band1Frequency(_) => 4,
            Param::Band1Type(_) => 5,
            Param::Band1Dyn(_) => 6,
            Param::Band1Threshold(_) => 7,
            Param::Band1Ratio(_) => 8,
            Param::Band1Split(_) => 9,
            Param::Band1Attack(_) => 10,
            Param::Band1Release(_) => 11,
            Param::Band2Selected(_) => 12,
            Param::Band2Active(_) => 13,
            Param::Band2Gain(_) => 14,
            Param::Band2Q(_) => 15,
            Param::Band2Frequency(_) => 16,
            Param::Band2Type(_) => 17,
            Param::Band2Dyn(_) => 18,
            Param::Band2Threshold(_) => 19,
            Param::Band2Ratio(_) => 20,
            Param::Band2Split(_) => 21,
            Param::Band2Attack(_) => 22,
            Param::Band2Release(_) => 23,
            Param::Band3Selected(_) => 24,
            Param::Band3Active(_) => 25,
            Param::Band3Gain(_) => 26,
            Param::Band3Q(_) => 27,
            Param::Band3Frequency(_) => 28,
            Param::Band3Type(_) => 29,
            Param::Band3Dyn(_) => 30,
            Param::Band3Threshold(_) => 31,
            Param::Band3Ratio(_) => 32,
            Param::Band3Split(_) => 33,
            Param::Band3Attack(_) => 34,
            Param::Band3Release(_) => 35,
            Param::Band4Selected(_) => 36,
            Param::Band4Active(_) => 37,
            Param::Band4Gain(_) => 38,
            Param::Band4Q(_) => 39,
            Param::Band4Frequency(_) => 40,
            Param::Band4Type(_) => 41,
            Param::Band4Dyn(_) => 42,
            Param::Band4Threshold(_) => 43,
            Param::Band4Ratio(_) => 44,
            Param::Band4Split(_) => 45,
            Param::Band4Attack(_) => 46,
            Param::Band4Release(_) => 47,
            Param::HPSelected(_) => 48,
            Param::HPActive(_) => 49,
            Param::HPFrequency(_) => 50,
            Param::HPType(_) => 51,
            Param::LPSelected(_) => 52,
            Param::LPActive(_) => 53,
            Param::LPFrequency(_) => 54,
            Param::LPType(_) => 55,
            Param::WideBandGain(_) => 56,
            Param::WideBandDyn(_) => 57,
            Param::WideBandThreshold(_) => 58,
            Param::WideBandRatio(_) => 59,
            Param::WideBandAttack(_) => 60,
            Param::WideBandRelease(_) => 61,
            Param::MasterBypass(_) => 62,
            Param::DynamicDelta(_) => 63,
            Param::DryMix(_) => 64,
            Param::OutputGain(_) => 65,
            Param::EQAutoGain(_) => 66,
            Param::Quality(_) => 67,
            Param::Channels(_) => 68,
            Param::AnalyzerMode(_) => 69,
            Param::DisplayEQRange(_) => 70,
            Param::DisplayFFTFloor(_) => 71,
            Param::SidechainMode(_) => 72,
            Param::AnalyzerSpeed(_) => 73,
            Param::Solo(_) => 74,
            Param::Program(_) => 75,
            Param::Bypass(_) => 76,
            Param::Wet(_) => 77,
            Param::Delta(_) => 78,
        }
    }

    /// The value as the DAW takes it, the bits of a `f32`: a switch is 1.0 or 0.0, a
    /// setting its index as a whole number.
    pub open spec fn spec_value_bits(self) -> u32 {
        match self {
            Param::Band1Selected(on) => switch_bits(on),
            Param::Band1Active(on) => switch_bits(on),
            Param::Band1Gain(v) => v,
            Param::Band1Q(v) => v,
            Param::Band1Frequency(v) => v,
            Param::Band1Type(v) => v,
            Param::Band1Dyn(v) => v,
            Param::Band1Threshold(v) => v,
            Param::Band1Ratio(v) => v,
            Param::Band1Split(on) => switch_bits(on),
            Param::Band1Attack(v) => v,
            Param::Band1Release(v) => v,
            Param::Band2Selected(on) => switch_bits(on),
            Param::Band2Active(on) => switch_bits(on),
            Param::Band2Gain(v) => v,
            Param::Band2Q(v) => v,
            Param::Band2Frequency(v) => v,
            Param::Band2Type(v) => v,
            Param::Band2Dyn(v) => v,
            Param::Band2Threshold(v) => v,
            Param::Band2Ratio(v) => v,
            Param::Band2Split(on) => switch_bits(on),
            Param::Band2Attack(v) => v,
            Param::Band2Release(v) => v,
            Param::Band3Selected(on) => switch_bits(on),
            Param::Band3Active(on) => switch_bits(on),
            Param::Band3Gain(v) => v,
            Param::Band3Q(v) => v,
            Param::Band3Frequency(v) => v,
            Param::Band3Type(v) => v,
            Param::Band3Dyn(v) => v,
            Param::Band3Threshold(v) => v,
            Param::Band3Ratio(v) => v,
            Param::Band3Split(on) => switch_bits(on),
            Param::Band3Attack(v) => v,
            Param::Band3Release(v) => v,
            Param::Band4Selected(on) => switch_bits(on),
            Param::Band4Active(on) => switch_bits(on),
            Param::Band4Gain(v) => v,
            Param::Band4Q(v) => v,
            Param::Band4Frequency(v) => v,
            Param::Band4Type(v) => v,
            Param::Band4Dyn(v) => v,
            Param::Band4Threshold(v) => v,
            Param::Band4Ratio(v) => v,
            Param::Band4Split(on) => switch_bits(on),
            Param::Band4Attack(v) => v,
            Param::Band4Release(v) => v,
            Param::HPSelected(on) => switch_bits(on),
            Param::HPActive(on) => switch_bits(on),
            Param::HPFrequency(v) => v,
            Param::HPType(v) => v,
            Param::LPSelected(on) => switch_bits(on),
            Param::LPActive(on) => switch_bits(on),
            Param::LPFrequency(v) => v,
            Param::LPType(v) => v,
            Param::WideBandGain(v) => v,
            Param::WideBandDyn(on) => switch_bits(on),
            Param::WideBandThreshold(v) => v,
            Param::WideBandRatio(v) => v,
            Param::WideBandAttack(v) => v,
            Param::WideBandRelease(v) => v,
            Param::MasterBypass(on) => switch_bits(on),
            Param::DynamicDelta(on) => switch_bits(on),
            Param::DryMix(v) => v,
            Param::OutputGain(v) => v,
            Param::EQAutoGain(on) => switch_bits(on),
            Param::Quality(v) => v,
            Param::Channels(v) => v,
            Param::AnalyzerMode(v) => v,
            Param::DisplayEQRange(on) => switch_bits(on),
            Param::DisplayFFTFloor(on) => switch_bits(on),
            Param::SidechainMode(v) => v,
            Param::AnalyzerSpeed(v) => v,
            Param::Solo(on) => switch_bits(on),
            Param::Program(v) => v,
            Param::Bypass(v) => v,
            Param::Wet(v) => v,
            Param::Delta(v) => v,
        }
    }

    /// The parameter's index in the plugin.
    pub fn param_index(&self) -> (r: i32)
        ensures
            r == self.spec_param_index(),
    {
        match self {
            Param::Band1Selected(_) => 0,
            Param::Band1Active(_) => 1,
            Param::Band1Gain(_) => 2,
            Param::Band1Q(_) => 3,
            Param::Band1Frequency(_) => 4,
            Param::Band1Type(_) => 5,
            Param::Band1Dyn(_) => 6,
            Param::Band1Threshold(_) => 7,
            Param::Band1Ratio(_) => 8,
            Param::Band1Split(_) => 9,
            Param::Band1Attack(_) => 10,
            Param::Band1Release(_) => 11,
            Param::Band2Selected(_) => 12,
            Param::Band2Active(_) => 13,
            Param::Band2Gain(_) => 14,
            Param::Band2Q(_) => 15,
            Param::Band2Frequency(_) => 16,
            Param::Band2Type(_) => 17,
            Param::Band2Dyn(_) => 18,
            Param::Band2Threshold(_) => 19,
            Param::Band2Ratio(_) => 20,
            Param::Band2Split(_) => 21,
            Param::Band2Attack(_) => 22,
            Param::Band2Release(_) => 23,
            Param::Band3Selected(_) => 24,
            Param::Band3Active(_) => 25,
            Param::Band3Gain(_) => 26,
            Param::Band3Q(_) => 27,
            Param::Band3Frequency(_) => 28,
            Param::Band3Type(_) => 29,
            Param::Band3Dyn(_) => 30,
            Param::Band3Threshold(_) => 31,
            Param::Band3Ratio(_) => 32,
            Param::Band3Split(_) => 33,
            Param::Band3Attack(_) => 34,
            Param::Band3Release(_) => 35,
            Param::Band4Selected(_) => 36,
            Param::Band4Active(_) => 37,
            Param::Band4Gain(_) => 38,
            Param::Band4Q(_) => 39,
            Param::Band4Frequency(_) => 40,
            Param::Band4Type(_) => 41,
            Param::Band4Dyn(_) => 42,
            Param::Band4Threshold(_) => 43,
            Param::Band4Ratio(_) => 44,
            Param::Band4Split(_) => 45,
            Param::Band4Attack(_) => 46,
            Param::Band4Release(_) => 47,
            Param::HPSelected(_) => 48,
            Param::HPActive(_) => 49,
            Param::HPFrequency(_) => 50,
            Param::HPType(_) => 51,
            Param::LPSelected(_) => 52,
            Param::LPActive(_) => 53,
            Param::LPFrequency(_) => 54,
            Param::LPType(_) => 55,
            Param::WideBandGain(_) => 56,
            Param::WideBandDyn(_) => 57,
            Param::WideBandThreshold(_) => 58,
            Param::WideBandRatio(_) => 59,
            Param::WideBandAttack(_) => 60,
            Param::WideBandRelease(_) => 61,
            Param::MasterBypass(_) => 62,
            Param::DynamicDelta(_) => 63,
            Param::DryMix(_) => 64,
            Param::OutputGain(_) => 65,
            Param::EQAutoGain(_) => 66,
            Param::Quality(_) => 67,
            Param::Channels(_) => 68,
            Param::AnalyzerMode(_) => 69,
            Param::DisplayEQRange(_) => 70,
            Param::DisplayFFTFloor(_) => 71,
            Param::SidechainMode(_) => 72,
            Param::AnalyzerSpeed(_) => 73,
            Param::Solo(_) => 74,
            Param::Program(_) => 75,
            Param::Bypass(_) => 76,
            Param::Wet(_) => 77,
            Param::Delta(_) => 78,
        }
    }

    /// The value as the DAW takes it (see `spec_value_bits`).
    #[verifier::spinoff_prover]
    #[verifier::rlimit(100)]
    pub fn value_bits(&self) -> (r: u32)
        ensures
            r == self.spec_value_bits(),
    {
        match self {
            Param::Band1Selected(on) => switch_value_bits(*on),
            Param::Band1Active(on) => switch_value_bits(*on),
            Param::Band1Gain(v) => *v,
            Param::Band1Q(v) => *v,
            Param::Band1Frequency(v) => *v,
            Param::Band1Type(v) => *v,
            Param::Band1Dyn(v) => *v,
            Param::Band1Threshold(v) => *v,
            Param::Band1Ratio(v) => *v,
            Param::Band1Split(on) => switch_value_bits(*on),
            Param::Band1Attack(v) => *v,
            Param::Band1Release(v) => *v,
            Param::Band2Selected(on) => switch_value_bits(*on),
            Param::Band2Active(on) => switch_value_bits(*on),
            Param::Band2Gain(v) => *v,
            Param::Band2Q(v) => *v,
            Param::Band2Frequency(v) => *v,
            Param::Band2Type(v) => *v,
            Param::Band2Dyn(v) => *v,
            Param::Band2Threshold(v) => *v,
            Param::Band2Ratio(v) => *v,
            Param::Band2Split(on) => switch_value_bits(*on),
            Param::Band2Attack(v) => *v,
            Param::Band2Release(v) => *v,
            Param::Band3Selected(on) => switch_value_bits(*on),
            Param::Band3Active(on) => switch_value_bits(*on),
            Param::Band3Gain(v) => *v,
            Param::Band3Q(v) => *v,
            Param::Band3Frequency(v) => *v,
            Param::Band3Type(v) => *v,
            Param::Band3Dyn(v) => *v,
            Param::Band3Threshold(v) => *v,
            Param::Band3Ratio(v) => *v,
            Param::Band3Split(on) => switch_value_bits(*on),
            Param::Band3Attack(v) => *v,
            Param::Band3Release(v) => *v,
            Param::Band4Selected(on) => switch_value_bits(*on),
            Param::Band4Active(on) => switch_value_bits(*on),
            Param::Band4Gain(v) => *v,
            Param::Band4Q(v) => *v,
            Param::Band4Frequency(v) => *v,
            Param::Band4Type(v) => *v,
            Param::Band4Dyn(v) => *v,
            Param::Band4Threshold(v) => *v,
            Param::Band4Ratio(v) => *v,
            Param::Band4Split(on) => switch_value_bits(*on),
            Param::Band4Attack(v) => *v,
            Param::Band4Release(v) => *v,
            Param::HPSelected(on) => switch_value_bits(*on),
            Param::HPActive(on) => switch_value_bits(*on),
            Param::HPFrequency(v) => *v,
            Param::HPType(v) => *v,
            Param::LPSelected(on) => switch_value_bits(*on),
            Param::LPActive(on) => switch_value_bits(*on),
            Param::LPFrequency(v) => *v,
            Param::LPType(v) => *v,
            Param::WideBandGain(v) => *v,
            Param::WideBandDyn(on) => switch_value_bits(*on),
            Param::WideBandThreshold(v) => *v,
            Param::WideBandRatio(v) => *v,
            Param::WideBandAttack(v) => *v,
            Param::WideBandRelease(v) => *v,
            Param::MasterBypass(on) => switch_value_bits(*on),
            Param::DynamicDelta(on) => switch_value_bits(*on),
            Param::DryMix(v) => *v,
            Param::OutputGain(v) => *v,
            Param::EQAutoGain(on) => switch_value_bits(*on),
            Param::Quality(v) => *v,
            Param::Channels(v) => *v,
            Param::AnalyzerMode(v) => *v,
            Param::DisplayEQRange(on) => switch_value_bits(*on),
            Param::DisplayFFTFloor(on) => switch_value_bits(*on),
            Param::SidechainMode(v) => *v,
            Param::AnalyzerSpeed(v) => *v,
            Param::Solo(on) => switch_value_bits(*on),
            Param::Program(v) => *v,
            Param::Bypass(v) => *v,
            Param::Wet(v) => *v,
            Param::Delta(v) => *v,
        }
    }
}

/// Whether `at_least_half` and `rounded` are what the value of `p` gives: a switch's value
/// is at least 0.5 when it is on, a setting's value rounds to its index.
pub open spec fn read_back_of(p: Param, at_least_half: bool, rounded: isize) -> bool {
    match p {
        Param::Band1Selected(on) => at_least_half == on,
        Param::Band1Active(on) => at_least_half == on,
        Param::Band1Gain(_) => true,
        Param::Band1Q(_) => true,
        Param::Band1Frequency(_) => true,
        Param::Band1Type(_) => true,
        Param::Band1Dyn(_) => true,
        Param::Band1Threshold(_) => true,
        Param::Band1Ratio(_) => true,
        Param::Band1Split(on) => at_least_half == on,
        Param::Band1Attack(_) => true,
        Param::Band1Release(_) => true,
        Param::Band2Selected(on) => at_least_half == on,
        Param::Band2Active(on) => at_least_half == on,
        Param::Band2Gain(_) => true,
        Param::Band2Q(_) => true,
        Param::Band2Frequency(_) => true,
        Param::Band2Type(_) => true,
        Param::Band2Dyn(_) => true,
        Param::Band2Threshold(_) => true,
        Param::Band2Ratio(_) => true,
        Param::Band2Split(on) => at_least_half == on,
        Param::Band2Attack(_) => true,
        Param::Band2Release(_) => true,
        Param::Band3Selected(on) => at_least_half == on,
        Param::Band3Active(on) => at_least_half == on,
        Param::Band3Gain(_) => true,
        Param::Band3Q(_) => true,
        Param::Band3Frequency(_) => true,
        Param::Band3Type(_) => true,
        Param::Band3Dyn(_) => true,
        Param::Band3Threshold(_) => true,
        Param::Band3Ratio(_) => true,
        Param::Band3Split(on) => at_least_half == on,
        Param::Band3Attack(_) => true,
        Param::Band3Release(_) => true,
        Param::Band4Selected(on) => at_least_half == on,
        Param::Band4Active(on) => at_least_half == on,
        Param::Band4Gain(_) => true,
        Param::Band4Q(_) => true,
        Param::Band4Frequency(_) => true,
        Param::Band4Type(_) => true,
        Param::Band4Dyn(_) => true,
        Param::Band4Threshold(_) => true,
        Param::Band4Ratio(_) => true,
        Param::Band4Split(on) => at_least_half == on,
        Param::Band4Attack(_) => true,
        Param::Band4Release(_) => true,
        Param::HPSelected(on) => at_least_half == on,
        Param::HPActive(on) => at_least_half == on,
        Param::HPFrequency(_) => true,
        Param::HPType(_) => true,
        Param::LPSelected(on) => at_least_half == on,
        Param::LPActive(on) => at_least_half == on,
        Param::LPFrequency(_) => true,
        Param::LPType(_) => true,
        Param::WideBandGain(_) => true,
        Param::WideBandDyn(on) => at_least_half == on,
        Param::WideBandThreshold(_) => true,
        Param::WideBandRatio(_) => true,
        Param::WideBandAttack(_) => true,
        Param::WideBandRelease(_) => true,
        Param::MasterBypass(on) => at_least_half == on,
        Param::DynamicDelta(on) => at_least_half == on,
        Param::DryMix(_) => true,
        Param::OutputGain(_) => true,
        Param::EQAutoGain(on) => at_least_half == on,
        Param::Quality(_) => true,
        Param::Channels(_) => true,
        Param::AnalyzerMode(_) => true,
        Param::DisplayEQRange(on) => at_least_half == on,
        Param::DisplayFFTFloor(on) => at_least_half == on,
        Param::SidechainMode(_) => true,
        Param::AnalyzerSpeed(_) => true,
        Param::Solo(on) => at_least_half == on,
        Param::Program(_) => true,
        Param::Bypass(_) => true,
        Param::Wet(_) => true,
        Param::Delta(_) => true,
    }
}

/// The parameter that value `value` (the bits of a `f32`) of parameter `param_index`
/// sets; `at_least_half` says whether the value is at least 0.5, `rounded` is the value
/// rounded to a whole number.
pub open spec fn spec_decode(param_index: i32, value: u32, at_least_half: bool, rounded: isize) -> Option<
    Param,
> {
    if param_index == 0 {
        Some(Param::Band1Selected(at_least_half))
    } else if param_index == 1 {
        Some(Param::Band1Active(at_least_half))
    } else if param_index == 2 {
        Some(Param::Band1Gain(value))
    } else if param_index == 3 {
        Some(Param::Band1Q(value))
    } else if param_index == 4 {
        Some(Param::Band1Frequency(value))
    } else if param_index == 5 {
        Some(Param::Band1Type(value))
    } else if param_index == 6 {
        Some(Param::Band1Dyn(value))
    } else if param_index == 7 {
        Some(Param::Band1Threshold(value))
    } else if param_index == 8 {
        Some(Param::Band1Ratio(value))
    } else if param_index == 9 {
        Some(Param::Band1Split(at_least_half))
    } else if param_index == 10 {
        Some(Param::Band1Attack(value))
    } else if param_index == 11 {
        Some(Param::Band1Release(value))
    } else if param_index == 12 {
        Some(Param::Band2Selected(at_least_half))
    } else if param_index == 13 {
        Some(Param::Band2Active(at_least_half))
    } else if param_index == 14 {
        Some(Param::Band2Gain(value))
    } else if param_index == 15 {
        Some(Param::Band2Q(value))
    } else if param_index == 16 {
        Some(Param::Band2Frequency(value))
    } else if param_index == 17 {
        Some(Param::Band2Type(value))
    } else if param_index == 18 {
        Some(Param::Band2Dyn(value))
    } else if param_index == 19 {
        Some(Param::Band2Threshold(value))
    } else if param_index == 20 {
        Some(Param::Band2Ratio(value))
    } else if param_index == 21 {
        Some(Param::Band2Split(at_least_half))
    } else if param_index == 22 {
        Some(Param::Band2Attack(value))
    } else if param_index == 23 {
        Some(Param::Band2Release(value))
    } else if param_index == 24 {
        Some(Param::Band3Selected(at_least_half))
    } else if param_index == 25 {
        Some(Param::Band3Active(at_least_half))
    } else if param_index == 26 {
        Some(Param::Band3Gain(value))
    } else if param_index == 27 {
        Some(Param::Band3Q(value))
    } else if param_index == 28 {
        Some(Param::Band3Frequency(value))
    } else if param_index == 29 {
        Some(Param::Band3Type(value))
    } else if param_index == 30 {
        Some(Param::Band3Dyn(value))
    } else if param_index == 31 {
        Some(Param::Band3Threshold(value))
    } else if param_index == 32 {
        Some(Param::Band3Ratio(value))
    } else if param_index == 33 {
        Some(Param::Band3Split(at_least_half))
    } else if param_index == 34 {
        Some(Param::Band3Attack(value))
    } else if param_index == 35 {
        Some(Param::Band3Release(value))
    } else if param_index == 36 {
        Some(Param::Band4Selected(at_least_half))
    } else if param_index == 37 {
        Some(Param::Band4Active(at_least_half))
    } else if param_index == 38 {
        Some(Param::Band4Gain(value))
    } else if param_index == 39 {
        Some(Param::Band4Q(value))
    } else if param_index == 40 {
        Some(Param::Band4Frequency(value))
    } else if param_index == 41 {
        Some(Param::Band4Type(value))
    } else if param_index == 42 {
        Some(Param::Band4Dyn(value))
    } else if param_index == 43 {
        Some(Param::Band4Threshold(value))
    } else if param_index == 44 {
        Some(Param::Band4Ratio(value))
    } else if param_index == 45 {
        Some(Param::Band4Split(at_least_half))
    } else if param_index == 46 {
        Some(Param::Band4Attack(value))
    } else if param_index == 47 {
        Some(Param::Band4Release(value))
    } else if param_index == 48 {
        Some(Param::HPSelected(at_least_half))
    } else if param_index == 49 {
        Some(Param::HPActive(at_least_half))
    } else if param_index == 50 {
        Some(Param::HPFrequency(value))
    } else if param_index == 51 {
        Some(Param::HPType(value))
    } else if param_index == 52 {
        Some(Param::LPSelected(at_least_half))
    } else if param_index == 53 {
        Some(Param::LPActive(at_least_half))
    } else if param_index == 54 {
        Some(Param::LPFrequency(value))
    } else if param_index == 55 {
        Some(Param::LPType(value))
    } else if param_index == 56 {
        Some(Param::WideBandGain(value))
    } else if param_index == 57 {
        Some(Param::WideBandDyn(at_least_half))
    } else if param_index == 58 {
        Some(Param::WideBandThreshold(value))
    } else if param_index == 59 {
        Some(Param::WideBandRatio(value))
    } else if param_index == 60 {
        Some(Param::WideBandAttack(value))
    } else if param_index == 61 {
        Some(Param::WideBandRelease(value))
    } else if param_index == 62 {
        Some(Param::MasterBypass(at_least_half))
    } else if param_index == 63 {
        Some(Param::DynamicDelta(at_least_half))
    } else if param_index == 64 {
        Some(Param::DryMix(value))
    } else if param_index == 65 {
        Some(Param::OutputGain(value))
    } else if param_index == 66 {
        Some(Param::EQAutoGain(at_least_half))
    } else if param_index == 67 {
        Some(Param::Quality(value))
    } else if param_index == 68 {
        Some(Param::Channels(value))
    } else if param_index == 69 {
        Some(Param::AnalyzerMode(value))
    } else if param_index == 70 {
        Some(Param::DisplayEQRange(at_least_half))
    } else if param_index == 71 {
        Some(Param::DisplayFFTFloor(at_least_half))
    } else if param_index == 72 {
        Some(Param::SidechainMode(value))
    } else if param_index == 73 {
        Some(Param::AnalyzerSpeed(value))
    } else if param_index == 74 {
        Some(Param::Solo(at_least_half))
    } else if param_index == 75 {
        Some(Param::Program(value))
    } else if param_index == 76 {
        Some(Param::Bypass(value))
    } else if param_index == 77 {
        Some(Param::Wet(value))
    } else if param_index == 78 {
        Some(Param::Delta(value))
    } else {
        None
    }
}

/// The DAW message that sets `param` on the plugin at `fx_index` of a track.
pub fn encode_trackmsg(track_guid: TrackGuid, fx_index: i32, param: Param) -> (r: DataMsg)
    ensures
        r == (DataMsg::FXParamValue {
            track_guid,
            fx_index,
            param_index: param.spec_param_index(),
            value: param.spec_value_bits(),
        }),
{
    DataMsg::FXParamValue {
        track_guid,
        fx_index,
        param_index: param.param_index(),
        value: param.value_bits(),
    }
}

/// The parameter a reported value sets, if `param_index` names one (see `spec_decode`).
pub fn decode_trackmsg(param_index: i32, value: u32, at_least_half: bool, rounded: isize) -> (r:
    Option<Param>)
    ensures
        r == spec_decode(param_index, value, at_least_half, rounded),
{
    match param_index {
        0 => Some(Param::Band1Selected(at_least_half)),
        1 => Some(Param::Band1Active(at_least_half)),
        2 => Some(Param::Band1Gain(value)),
        3 => Some(Param::Band1Q(value)),
        4 => Some(Param::Band1Frequency(value)),
        5 => Some(Param::Band1Type(value)),
        6 => Some(Param::Band1Dyn(value)),
        7 => Some(Param::Band1Threshold(value)),
        8 => Some(Param::Band1Ratio(value)),
        9 => Some(Param::Band1Split(at_least_half)),
        10 => Some(Param::Band1Attack(value)),
        11 => Some(Param::Band1Release(value)),
        12 => Some(Param::Band2Selected(at_least_half)),
        13 => Some(Param::Band2Active(at_least_half)),
        14 => Some(Param::Band2Gain(value)),
        15 => Some(Param::Band2Q(value)),
        16 => Some(Param::Band2Frequency(value)),
        17 => Some(Param::Band2Type(value)),
        18 => Some(Param::Band2Dyn(value)),
        19 => Some(Param::Band2Threshold(value)),
        20 => Some(Param::Band2Ratio(value)),
        21 => Some(Param::Band2Split(at_least_half)),
        22 => Some(Param::Band2Attack(value)),
        23 => Some(Param::Band2Release(value)),
        24 => Some(Param::Band3Selected(at_least_half)),
        25 => Some(Param::Band3Active(at_least_half)),
        26 => Some(Param::Band3Gain(value)),
        27 => Some(Param::Band3Q(value)),
        28 => Some(Param::Band3Frequency(value)),
        29 => Some(Param::Band3Type(value)),
        30 => Some(Param::Band3Dyn(value)),
        31 => Some(Param::Band3Threshold(value)),
        32 => Some(Param::Band3Ratio(value)),
        33 => Some(Param::Band3Split(at_least_half)),
        34 => Some(Param::Band3Attack(value)),
        35 => Some(Param::Band3Release(value)),
        36 => Some(Param::Band4Selected(at_least_half)),
        37 => Some(Param::Band4Active(at_least_half)),
        38 => Some(Param::Band4Gain(value)),
        39 => Some(Param::Band4Q(value)),
        40 => Some(Param::Band4Frequency(value)),
        41 => Some(Param::Band4Type(value)),
        42 => Some(Param::Band4Dyn(value)),
        43 => Some(Param::Band4Threshold(value)),
        44 => Some(Param::Band4Ratio(value)),
        45 => Some(Param::Band4Split(at_least_half)),
        46 => Some(Param::Band4Attack(value)),
        47 => Some(Param::Band4Release(value)),
        48 => Some(Param::HPSelected(at_least_half)),
        49 => Some(Param::HPActive(at_least_half)),
        50 => Some(Param::HPFrequency(value)),
        51 => Some(Param::HPType(value)),
        52 => Some(Param::LPSelected(at_least_half)),
        53 => Some(Param::LPActive(at_least_half)),
        54 => Some(Param::LPFrequency(value)),
        55 => Some(Param::LPType(value)),
        56 => Some(Param::WideBandGain(value)),
        57 => Some(Param::WideBandDyn(at_least_half)),
        58 => Some(Param::WideBandThreshold(value)),
        59 => Some(Param::WideBandRatio(value)),
        60 => Some(Param::WideBandAttack(value)),
        61 => Some(Param::WideBandRelease(value)),
        62 => Some(Param::MasterBypass(at_least_half)),
        63 => Some(Param::DynamicDelta(at_least_half)),
        64 => Some(Param::DryMix(value)),
        65 => Some(Param::OutputGain(value)),
        66 => Some(Param::EQAutoGain(at_least_half)),
        67 => Some(Param::Quality(value)),
        68 => Some(Param::Channels(value)),
        69 => Some(Param::AnalyzerMode(value)),
        70 => Some(Param::DisplayEQRange(at_least_half)),
        71 => Some(Param::DisplayFFTFloor(at_least_half)),
        72 => Some(Param::SidechainMode(value)),
        73 => Some(Param::AnalyzerSpeed(value)),
        74 => Some(Param::Solo(at_least_half)),
        75 => Some(Param::Program(value)),
        76 => Some(Param::Bypass(value)),
        77 => Some(Param::Wet(value)),
        78 => Some(Param::Delta(value)),
        _ => None,
    }
}

/// Reading back the message that sets a parameter gives that parameter.
pub proof fn law_decode_encode(p: Param, at_least_half: bool, rounded: isize)
    requires
        read_back_of(p, at_least_half, rounded),
    ensures
        spec_decode(p.spec_param_index(), p.spec_value_bits(), at_least_half, rounded) == Some(p),
{
}

/// Every parameter has an index from 0 to 78, and the index with the value bits, read
/// back, determine the parameter: two parameters with the same index and the same value
/// bits, read back alike, are the same parameter.
pub proof fn law_param_encoding_distinguishes(p: Param, q: Param, at_least_half: bool, rounded: isize)
    requires
        read_back_of(p, at_least_half, rounded),
        read_back_of(q, at_least_half, rounded),
        p.spec_param_index() == q.spec_param_index(),
        p.spec_value_bits() == q.spec_value_bits(),
    ensures
        p == q,
        0 <= p.spec_param_index() <= 78,
{
    law_decode_encode(p, at_least_half, rounded);
    law_decode_encode(q, at_least_half, rounded);
}

/// Decoding reads the parameter's kind from its index alone: whatever the value and its
/// read-back, a decoded parameter has the index it was decoded at, and an index from 0
/// to 78 always decodes. With `law_decode_encode`, two parameters of the same index are
/// of the same kind, so distinct kinds have distinct indices.
pub proof fn law_decode_keeps_index(param_index: i32, value: u32, at_least_half: bool, rounded: isize)
    ensures
        spec_decode(param_index, value, at_least_half, rounded) matches Some(q) ==> q.spec_param_index()
            == param_index,
        (spec_decode(param_index, value, at_least_half, rounded) is Some) <==> 0 <= param_index <= 78,
{
}

/// Each parameter is written to its fixed index in the plugin.
pub proof fn law_parameter_indices(p: Param)
    ensures
        p is Band1Selected ==> p.spec_param_index() == 0,
        p is Band1Active ==> p.spec_param_index() == 1,
        p is Band1Gain ==> p.spec_param_index() == 2,
        p is Band1Q ==> p.spec_param_index() == 3,
        p is Band1Frequency ==> p.spec_param_index() == 4,
        p is Band1Type ==> p.spec_param_index() == 5,
        p is Band1Dyn ==> p.spec_param_index() == 6,
        p is Band1Threshold ==> p.spec_param_index() == 7,
        p is Band1Ratio ==> p.spec_param_index() == 8,
        p is Band1Split ==> p.spec_param_index() == 9,
        p is Band1Attack ==> p.spec_param_index() == 10,
        p is Band1Release ==> p.spec_param_index() == 11,
        p is Band2Selected ==> p.spec_param_index() == 12,
        p is Band2Active ==> p.spec_param_index() == 13,
        p is Band2Gain ==> p.spec_param_index() == 14,
        p is Band2Q ==> p.spec_param_index() == 15,
        p is Band2Frequency ==> p.spec_param_index() == 16,
        p is Band2Type ==> p.spec_param_index() == 17,
        p is Band2Dyn ==> p.spec_param_index() == 18,
        p is Band2Threshold ==> p.spec_param_index() == 19,
        p is Band2Ratio ==> p.spec_param_index() == 20,
        p is Band2Split ==> p.spec_param_index() == 21,
        p is Band2Attack ==> p.spec_param_index() == 22,
        p is Band2Release ==> p.spec_param_index() == 23,
        p is Band3Selected ==> p.spec_param_index() == 24,
        p is Band3Active ==> p.spec_param_index() == 25,
        p is Band3Gain ==> p.spec_param_index() == 26,
        p is Band3Q ==> p.spec_param_index() == 27,
        p is Band3Frequency ==> p.spec_param_index() == 28,
        p is Band3Type ==> p.spec_param_index() == 29,
        p is Band3Dyn ==> p.spec_param_index() == 30,
        p is Band3Threshold ==> p.spec_param_index() == 31,
        p is Band3Ratio ==> p.spec_param_index() == 32,
        p is Band3Split ==> p.spec_param_index() == 33,
        p is Band3Attack ==> p.spec_param_index() == 34,
        p is Band3Release ==> p.spec_param_index() == 35,
        p is Band4Selected ==> p.spec_param_index() == 36,
        p is Band4Active ==> p.spec_param_index() == 37,
        p is Band4Gain ==> p.spec_param_index() == 38,
        p is Band4Q ==> p.spec_param_index() == 39,
        p is Band4Frequency ==> p.spec_param_index() == 40,
        p is Band4Type ==> p.spec_param_index() == 41,
        p is Band4Dyn ==> p.spec_param_index() == 42,
        p is Band4Threshold ==> p.spec_param_index() == 43,
        p is Band4Ratio ==> p.spec_param_index() == 44,
        p is Band4Split ==> p.spec_param_index() == 45,
        p is Band4Attack ==> p.spec_param_index() == 46,
        p is Band4Release ==> p.spec_param_index() == 47,
        p is HPSelected ==> p.spec_param_index() == 48,
        p is HPActive ==> p.spec_param_index() == 49,
        p is HPFrequency ==> p.spec_param_index() == 50,
        p is HPType ==> p.spec_param_index() == 51,
        p is LPSelected ==> p.spec_param_index() == 52,
        p is LPActive ==> p.spec_param_index() == 53,
        p is LPFrequency ==> p.spec_param_index() == 54,
        p is LPType ==> p.spec_param_index() == 55,
        p is WideBandGain ==> p.spec_param_index() == 56,
        p is WideBandDyn ==> p.spec_param_index() == 57,
        p is WideBandThreshold ==> p.spec_param_index() == 58,
        p is WideBandRatio ==> p.spec_param_index() == 59,
        p is WideBandAttack ==> p.spec_param_index() == 60,
        p is WideBandRelease ==> p.spec_param_index() == 61,
        p is MasterBypass ==> p.spec_param_index() == 62,
        p is DynamicDelta ==> p.spec_param_index() == 63,
        p is DryMix ==> p.spec_param_index() == 64,
        p is OutputGain ==> p.spec_param_index() == 65,
        p is EQAutoGain ==> p.spec_param_index() == 66,
        p is Quality ==> p.spec_param_index() == 67,
        p is Channels ==> p.spec_param_index() == 68,
        p is AnalyzerMode ==> p.spec_param_index() == 69,
        p is DisplayEQRange ==> p.spec_param_index() == 70,
        p is DisplayFFTFloor ==> p.spec_param_index() == 71,
        p is SidechainMode ==> p.spec_param_index() == 72,
        p is AnalyzerSpeed ==> p.spec_param_index() == 73,
        p is Solo ==> p.spec_param_index() == 74,
        p is Program ==> p.spec_param_index() == 75,
        p is Bypass ==> p.spec_param_index() == 76,
        p is Wet ==> p.spec_param_index() == 77,
        p is Delta ==> p.spec_param_index() == 78,
{
}

} // verus!
