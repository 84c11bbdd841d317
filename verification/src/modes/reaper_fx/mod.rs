//! The plugins that a channel strip can drive, and the settings of their stepped parameters.
use vstd::prelude::*;

pub mod _1175compressor;
pub mod mju_cjr_au;
pub mod mju_cjr_vst;
pub mod rea_comp;
pub mod rea_eq;
pub mod tdr_molotok_au;
pub mod tdr_molotok_vst;
pub mod tdr_nova_au;
pub mod tdr_nova_vst;
pub mod tdrvos_slick_eq_au;
pub mod tdrvos_slick_eq_vst;

verus! {

#[derive(Debug, Clone, Copy, PartialEq, Eq, Hash, Structural)]
#[allow(non_camel_case_types)]
pub enum FxId {
    MJUCjr_AU,
    MJUCjr_VST,
    ReaComp,
    ReaEQ,
    TDRMolotok_AU,
    TDRMolotok_VST,
    TDRNova_AU,
    TDRNova_VST,
    TDRVOSSlickEQ_AU,
    TDRVOSSlickEQ_VST,
    _1175Compressor,
}

/// The bits of the `f32` 1.0, the value of a switch that is on.
pub const ONE_BITS: u32 = 0x3f80_0000;

/// The bits of the `f32` whole numbers 0 to 15, the values of stepped settings.
#[verifier::opaque]
pub open spec fn whole_bits(k: int) -> u32 {
    if k == 0 {
        0
    } else if k == 1 {
        0x3f80_0000
    } else if k == 2 {
        0x4000_0000
    } else if k == 3 {
        0x4040_0000
    } else if k == 4 {
        0x4080_0000
    } else if k == 5 {
        0x40a0_0000
    } else if k == 6 {
        0x40c0_0000
    } else if k == 7 {
        0x40e0_0000
    } else if k == 8 {
        0x4100_0000
    } else if k == 9 {
        0x4110_0000
    } else if k == 10 {
        0x4120_0000
    } else if k == 11 {
        0x4130_0000
    } else if k == 12 {
        0x4140_0000
    } else if k == 13 {
        0x4150_0000
    } else if k == 14 {
        0x4160_0000
    } else if k == 15 {
        0x4170_0000
    } else {
        0
    }
}

/// The value of a switch: the bits of the `f32` 1.0 when on, of 0.0 when off.
pub open spec fn switch_bits(on: bool) -> u32 {
    if on {
        ONE_BITS
    } else {
        0
    }
}

/// The value of a switch (see `switch_bits`).
pub fn switch_value_bits(on: bool) -> (r: u32)
    ensures
        r == switch_bits(on),
{
    if on {
        ONE_BITS
    } else {
        0
    }
}

/// The bits of the `f32` whole number `k`.
pub fn whole_number_bits(k: u8) -> (r: u32)
    requires
        k < 16,
    ensures
        r == whole_bits(k as int),
{
    reveal(whole_bits);
    match k {
        0 => 0,
        1 => 0x3f80_0000,
        2 => 0x4000_0000,
        3 => 0x4040_0000,
        4 => 0x4080_0000,
        5 => 0x40a0_0000,
        6 => 0x40c0_0000,
        7 => 0x40e0_0000,
        8 => 0x4100_0000,
        9 => 0x4110_0000,
        10 => 0x4120_0000,
        11 => 0x4130_0000,
        12 => 0x4140_0000,
        13 => 0x4150_0000,
        14 => 0x4160_0000,
        _ => 0x4170_0000,
    }
}

/// `whole_bits(k)` is the IEEE 754 single-precision encoding of the whole number `k`: no
/// sign, the exponent `e` of the highest power of two in `k` biased by 127 in bits 23 to
/// 30, and the rest of `k` below that power in the top `e` bits of the fraction.
pub proof fn law_whole_bits_encode_f32(k: int)
    requires
        0 <= k <= 15,
    ensures
        k == 0 ==> whole_bits(k) == 0,
        k == 1 ==> whole_bits(k) == 127 * 0x80_0000,
        2 <= k < 4 ==> whole_bits(k) == 128 * 0x80_0000 + (k - 2) * 0x40_0000,
        4 <= k < 8 ==> whole_bits(k) == 129 * 0x80_0000 + (k - 4) * 0x20_0000,
        8 <= k < 16 ==> whole_bits(k) == 130 * 0x80_0000 + (k - 8) * 0x10_0000,
{
    reveal(whole_bits);
}

} // verus!
