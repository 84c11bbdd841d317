//! Adapter for the TDR VOS SlickEQ.
use vstd::prelude::*;

use crate::modes::guid::TrackGuid;
use crate::modes::reaper_channel_strip_router::{BandMode, ChannelStripMsg};
use crate::modes::reaper_fx::tdrvos_slick_eq_au;
use crate::modes::track_data::DataMsg;

verus! {

pub struct TdrvosSlickEqAdapter;

/// The SlickEQ parameter a widget message sets, if any; `above_half` says whether the
/// message's value is above 0.5, which a Q message reads as a shelf.
pub open spec fn param_for(msg: ChannelStripMsg, above_half: bool) -> Option<tdrvos_slick_eq_au::Param> {
    match msg {
        ChannelStripMsg::LowFreq(v) => Some(tdrvos_slick_eq_au::Param::LOWFreq(v)),
        ChannelStripMsg::LowQ(_) => Some(tdrvos_slick_eq_au::Param::LOWShape(above_half)),
        ChannelStripMsg::LowBandMode(m) => Some(tdrvos_slick_eq_au::Param::LOWShape(m == BandMode::Shelf)),
        ChannelStripMsg::LowGain(v) => Some(tdrvos_slick_eq_au::Param::LOWGain(v)),
        ChannelStripMsg::LmFreq(v) => Some(tdrvos_slick_eq_au::Param::MIDFreq(v)),
        ChannelStripMsg::LmGain(v) => Some(tdrvos_slick_eq_au::Param::MIDGain(v)),
        ChannelStripMsg::HighFreq(v) => Some(tdrvos_slick_eq_au::Param::HIGHFreq(v)),
        ChannelStripMsg::HighBandMode(m) => Some(tdrvos_slick_eq_au::Param::HIGHShape(m == BandMode::Shelf)),
        ChannelStripMsg::HighGain(v) => Some(tdrvos_slick_eq_au::Param::HIGHGain(v)),
        ChannelStripMsg::HpfFreq(v) => Some(tdrvos_slick_eq_au::Param::HPFreq(v)),
        _ => None,
    }
}

/// The band mode a shape switch shows: on is a shelf.
pub open spec fn band_mode(shelf: bool) -> BandMode {
    if shelf {
        BandMode::Shelf
    } else {
        BandMode::Bell
    }
}

/// The widget message a SlickEQ parameter shows as, if any.
pub open spec fn msg_for(p: tdrvos_slick_eq_au::Param) -> Option<ChannelStripMsg> {
    match p {
        tdrvos_slick_eq_au::Param::LOWFreq(v) => Some(ChannelStripMsg::LowFreq(v)),
        tdrvos_slick_eq_au::Param::LOWGain(v) => Some(ChannelStripMsg::LowGain(v)),
        tdrvos_slick_eq_au::Param::LOWShape(s) => Some(ChannelStripMsg::LowBandMode(band_mode(s))),
        tdrvos_slick_eq_au::Param::MIDFreq(v) => Some(ChannelStripMsg::LmFreq(v)),
        tdrvos_slick_eq_au::Param::MIDGain(v) => Some(ChannelStripMsg::LmGain(v)),
        tdrvos_slick_eq_au::Param::HIGHFreq(v) => Some(ChannelStripMsg::HighFreq(v)),
        tdrvos_slick_eq_au::Param::HIGHShape(s) => Some(ChannelStripMsg::HighBandMode(band_mode(s))),
        tdrvos_slick_eq_au::Param::HIGHGain(v) => Some(ChannelStripMsg::HighGain(v)),
        tdrvos_slick_eq_au::Param::HPFreq(v) => Some(ChannelStripMsg::HpfFreq(v)),
        _ => None,
    }
}

/// The DAW message that sets `p` on the plugin at `fx_index` of a track.
pub open spec fn set_msg(track: TrackGuid, fx_index: i32, p: tdrvos_slick_eq_au::Param) -> DataMsg {
    DataMsg::FXParamValue {
        track_guid: track,
        fx_index,
        param_index: p.spec_param_index(),
        value: p.spec_value_bits(),
    }
}

impl TdrvosSlickEqAdapter {
    /// The name the adapter goes by.
    pub fn id(&self) -> (r: &'static str)
        ensures
            r@ == tdrvos_slick_eq_au::FX_NAME@,
    {
        tdrvos_slick_eq_au::FX_NAME
    }

    /// The plugin names, as REAPER shows them, that this adapter serves.
    pub fn fx_names(&self) -> (r: &'static [&'static str])
        ensures
            r@.len() == 1,
            r@[0]@ == tdrvos_slick_eq_au::FX_NAME@,
    {
        &[tdrvos_slick_eq_au::FX_NAME]
    }

    /// The DAW messages that carry out a widget message (see `param_for`): one, or none
    /// for a control the plugin does not have.
    pub fn to_track_typed(&self, track: TrackGuid, fx_index: i32, msg: ChannelStripMsg, above_half: bool) -> (r: Vec<DataMsg>)
        ensures
            r@ == match param_for(msg, above_half) {
                Some(p) => seq![set_msg(track, fx_index, p)],
                None => Seq::empty(),
            },
    {
        let param = match msg {
            ChannelStripMsg::LowFreq(v) => Some(tdrvos_slick_eq_au::Param::LOWFreq(v)),
            ChannelStripMsg::LowQ(_) => Some(tdrvos_slick_eq_au::Param::LOWShape(above_half)),
            ChannelStripMsg::LowBandMode(m) => Some(tdrvos_slick_eq_au::Param::LOWShape(m == BandMode::Shelf)),
            ChannelStripMsg::LowGain(v) => Some(tdrvos_slick_eq_au::Param::LOWGain(v)),
            ChannelStripMsg::LmFreq(v) => Some(tdrvos_slick_eq_au::Param::MIDFreq(v)),
            ChannelStripMsg::LmGain(v) => Some(tdrvos_slick_eq_au::Param::MIDGain(v)),
            ChannelStripMsg::HighFreq(v) => Some(tdrvos_slick_eq_au::Param::HIGHFreq(v)),
            ChannelStripMsg::HighBandMode(m) => Some(tdrvos_slick_eq_au::Param::HIGHShape(m == BandMode::Shelf)),
            ChannelStripMsg::HighGain(v) => Some(tdrvos_slick_eq_au::Param::HIGHGain(v)),
            ChannelStripMsg::HpfFreq(v) => Some(tdrvos_slick_eq_au::Param::HPFreq(v)),
            _ => None,
        };
        let mut out: Vec<DataMsg> = Vec::new();
        if let Some(p) = param {
            out.push(tdrvos_slick_eq_au::encode_trackmsg(track, fx_index, p));
        }
        proof {
            match param {
                Some(p) => assert(out@ =~= seq![set_msg(track, fx_index, p)]),
                None => assert(out@ =~= Seq::<DataMsg>::empty()),
            }
        }
        out
    }

    /// The widget messages a reported parameter value shows as (see `msg_for`);
    /// `at_least_half` and `rounded` are what the decoder reads of the value.
    pub fn from_track_typed(&self, param_index: i32, value: u32, at_least_half: bool, rounded: isize) -> (r: Vec<ChannelStripMsg>)
        ensures
            r@ == match tdrvos_slick_eq_au::spec_decode(param_index, value, at_least_half, rounded) {
                Some(p) => match msg_for(p) {
                    Some(m) => seq![m],
                    None => Seq::empty(),
                },
                None => Seq::empty(),
            },
    {
        let mut out: Vec<ChannelStripMsg> = Vec::new();
        let m = match tdrvos_slick_eq_au::decode_trackmsg(param_index, value, at_least_half, rounded) {
            Some(tdrvos_slick_eq_au::Param::LOWFreq(v)) => Some(ChannelStripMsg::LowFreq(v)),
            Some(tdrvos_slick_eq_au::Param::LOWGain(v)) => Some(ChannelStripMsg::LowGain(v)),
            Some(tdrvos_slick_eq_au::Param::LOWShape(s)) => Some(
                ChannelStripMsg::LowBandMode(if s { BandMode::Shelf } else { BandMode::Bell }),
            ),
            Some(tdrvos_slick_eq_au::Param::MIDFreq(v)) => Some(ChannelStripMsg::LmFreq(v)),
            Some(tdrvos_slick_eq_au::Param::MIDGain(v)) => Some(ChannelStripMsg::LmGain(v)),
            Some(tdrvos_slick_eq_au::Param::HIGHFreq(v)) => Some(ChannelStripMsg::HighFreq(v)),
            Some(tdrvos_slick_eq_au::Param::HIGHShape(s)) => Some(
                ChannelStripMsg::HighBandMode(if s { BandMode::Shelf } else { BandMode::Bell }),
            ),
            Some(tdrvos_slick_eq_au::Param::HIGHGain(v)) => Some(ChannelStripMsg::HighGain(v)),
            Some(tdrvos_slick_eq_au::Param::HPFreq(v)) => Some(ChannelStripMsg::HpfFreq(v)),
            _ => None,
        };
        if let Some(x) = m {
            out.push(x);
        }
        proof {
            match m {
                Some(x) => assert(out@ =~= seq![x]),
                None => assert(out@ =~= Seq::<ChannelStripMsg>::empty()),
            }
        }
        out
    }
}

/// The channel strip's EQ knobs drive SlickEQ's parameters with the knob's value: low
/// gain 0, low frequency 1, mid gain 3, mid frequency 4, high gain 5, high frequency 6 and
/// the high-pass frequency 10; the low band's Q knob and band mode switch the low shape
/// (parameter 2) and the high band mode the high shape (parameter 7), to 1.0 for a shelf
/// (a Q above one half) and to 0.0 for a bell.
pub proof fn law_knobs_reach_their_parameters(track: TrackGuid, fx_index: i32, v: u32, m: BandMode, above_half: bool)
    ensures
        set_msg(track, fx_index, param_for(ChannelStripMsg::LowGain(v), above_half)->0) == (DataMsg::FXParamValue { track_guid: track, fx_index, param_index: 0, value: v }),
        set_msg(track, fx_index, param_for(ChannelStripMsg::LowFreq(v), above_half)->0) == (DataMsg::FXParamValue { track_guid: track, fx_index, param_index: 1, value: v }),
        set_msg(track, fx_index, param_for(ChannelStripMsg::LmGain(v), above_half)->0) == (DataMsg::FXParamValue { track_guid: track, fx_index, param_index: 3, value: v }),
        set_msg(track, fx_index, param_for(ChannelStripMsg::LmFreq(v), above_half)->0) == (DataMsg::FXParamValue { track_guid: track, fx_index, param_index: 4, value: v }),
        set_msg(track, fx_index, param_for(ChannelStripMsg::HighGain(v), above_half)->0) == (DataMsg::FXParamValue { track_guid: track, fx_index, param_index: 5, value: v }),
        set_msg(track, fx_index, param_for(ChannelStripMsg::HighFreq(v), above_half)->0) == (DataMsg::FXParamValue { track_guid: track, fx_index, param_index: 6, value: v }),
        set_msg(track, fx_index, param_for(ChannelStripMsg::HpfFreq(v), above_half)->0) == (DataMsg::FXParamValue { track_guid: track, fx_index, param_index: 10, value: v }),
        set_msg(track, fx_index, param_for(ChannelStripMsg::LowQ(v), above_half)->0) == (DataMsg::FXParamValue { track_guid: track, fx_index, param_index: 2, value: if above_half { 0x3f80_0000u32 } else { 0u32 } }),
        set_msg(track, fx_index, param_for(ChannelStripMsg::LowBandMode(m), above_half)->0) == (DataMsg::FXParamValue { track_guid: track, fx_index, param_index: 2, value: if m == BandMode::Shelf { 0x3f80_0000u32 } else { 0u32 } }),
        set_msg(track, fx_index, param_for(ChannelStripMsg::HighBandMode(m), above_half)->0) == (DataMsg::FXParamValue { track_guid: track, fx_index, param_index: 7, value: if m == BandMode::Shelf { 0x3f80_0000u32 } else { 0u32 } }),
{
}

} // verus!
