//! Adapter for the ReaEQ equalizer.
use vstd::prelude::*;

use crate::modes::guid::TrackGuid;
use crate::modes::reaper_channel_strip_router::ChannelStripMsg;
use crate::modes::reaper_fx::rea_eq;
use crate::modes::track_data::DataMsg;

verus! {

pub struct ReaEqAdapter;

/// The ReaEQ parameter a widget message sets, if any.
pub open spec fn param_for(msg: ChannelStripMsg) -> Option<rea_eq::Param> {
    match msg {
        ChannelStripMsg::LowFreq(v) => Some(rea_eq::Param::FreqLowShelf(v)),
        ChannelStripMsg::LowGain(v) => Some(rea_eq::Param::GainLowShelf(v)),
        ChannelStripMsg::LowQ(v) => Some(rea_eq::Param::BWLowShelf(v)),
        ChannelStripMsg::LmFreq(v) => Some(rea_eq::Param::FreqBand2(v)),
        ChannelStripMsg::LmGain(v) => Some(rea_eq::Param::GainBand2(v)),
        ChannelStripMsg::LmQ(v) => Some(rea_eq::Param::BWBand2(v)),
        ChannelStripMsg::HmFreq(v) => Some(rea_eq::Param::FreqBand3(v)),
        ChannelStripMsg::HmGain(v) => Some(rea_eq::Param::GainBand3(v)),
        ChannelStripMsg::HmQ(v) => Some(rea_eq::Param::BWBand3(v)),
        ChannelStripMsg::HighFreq(v) => Some(rea_eq::Param::FreqHighShelf4(v)),
        ChannelStripMsg::HighGain(v) => Some(rea_eq::Param::GainHighShelf4(v)),
        ChannelStripMsg::HighQ(v) => Some(rea_eq::Param::BWHighShelf4(v)),
        _ => None,
    }
}

/// The widget message a ReaEQ parameter shows as, if any.
pub open spec fn msg_for(p: rea_eq::Param) -> Option<ChannelStripMsg> {
    match p {
        rea_eq::Param::FreqLowShelf(v) => Some(ChannelStripMsg::LowFreq(v)),
        rea_eq::Param::GainLowShelf(v) => Some(ChannelStripMsg::LowGain(v)),
        rea_eq::Param::BWLowShelf(v) => Some(ChannelStripMsg::LowQ(v)),
        rea_eq::Param::FreqBand2(v) => Some(ChannelStripMsg::LmFreq(v)),
        rea_eq::Param::GainBand2(v) => Some(ChannelStripMsg::LmGain(v)),
        rea_eq::Param::BWBand2(v) => Some(ChannelStripMsg::LmQ(v)),
        rea_eq::Param::FreqBand3(v) => Some(ChannelStripMsg::HmFreq(v)),
        rea_eq::Param::GainBand3(v) => Some(ChannelStripMsg::HmGain(v)),
        rea_eq::Param::BWBand3(v) => Some(ChannelStripMsg::HmQ(v)),
        rea_eq::Param::FreqHighShelf4(v) => Some(ChannelStripMsg::HighFreq(v)),
        rea_eq::Param::GainHighShelf4(v) => Some(ChannelStripMsg::HighGain(v)),
        rea_eq::Param::BWHighShelf4(v) => Some(ChannelStripMsg::HighQ(v)),
        _ => None,
    }
}

/// The DAW message that sets `p` on the plugin at `fx_index` of a track.
pub open spec fn set_msg(track: TrackGuid, fx_index: i32, p: rea_eq::Param) -> DataMsg {
    DataMsg::FXParamValue {
        track_guid: track,
        fx_index,
        param_index: p.spec_param_index(),
        value: p.spec_value_bits(),
    }
}

impl ReaEqAdapter {
    /// The name the adapter goes by.
    pub fn id(&self) -> (r: &'static str)
        ensures
            r@ == rea_eq::FX_NAME@,
    {
        rea_eq::FX_NAME
    }

    /// The plugin names, as REAPER shows them, that this adapter serves.
    pub fn fx_names(&self) -> (r: &'static [&'static str])
        ensures
            r@.len() == 1,
            r@[0]@ == rea_eq::FX_NAME@,
    {
        &[rea_eq::FX_NAME]
    }

    /// The DAW messages that carry out a widget message: one for a band's frequency,
    /// gain or width, none for anything else.
    pub fn to_track_typed(&self, track: TrackGuid, fx_index: i32, msg: ChannelStripMsg) -> (r: Vec<DataMsg>)
        ensures
            r@ == match param_for(msg) {
                Some(p) => seq![set_msg(track, fx_index, p)],
                None => Seq::empty(),
            },
    {
        let param = match msg {
            ChannelStripMsg::LowFreq(v) => Some(rea_eq::Param::FreqLowShelf(v)),
            ChannelStripMsg::LowGain(v) => Some(rea_eq::Param::GainLowShelf(v)),
            ChannelStripMsg::LowQ(v) => Some(rea_eq::Param::BWLowShelf(v)),
            ChannelStripMsg::LmFreq(v) => Some(rea_eq::Param::FreqBand2(v)),
            ChannelStripMsg::LmGain(v) => Some(rea_eq::Param::GainBand2(v)),
            ChannelStripMsg::LmQ(v) => Some(rea_eq::Param::BWBand2(v)),
            ChannelStripMsg::HmFreq(v) => Some(rea_eq::Param::FreqBand3(v)),
            ChannelStripMsg::HmGain(v) => Some(rea_eq::Param::GainBand3(v)),
            ChannelStripMsg::HmQ(v) => Some(rea_eq::Param::BWBand3(v)),
            ChannelStripMsg::HighFreq(v) => Some(rea_eq::Param::FreqHighShelf4(v)),
            ChannelStripMsg::HighGain(v) => Some(rea_eq::Param::GainHighShelf4(v)),
            ChannelStripMsg::HighQ(v) => Some(rea_eq::Param::BWHighShelf4(v)),
            _ => None,
        };
        let mut out: Vec<DataMsg> = Vec::new();
        if let Some(p) = param {
            out.push(rea_eq::encode_trackmsg(track, fx_index, p));
        }
        proof {
            match param {
                Some(p) => assert(out@ =~= seq![set_msg(track, fx_index, p)]),
                None => assert(out@ =~= Seq::<DataMsg>::empty()),
            }
        }
        out
    }

    /// The widget messages a reported parameter value shows as: one for a band's
    /// frequency, gain or width, none for anything else.
    pub fn from_track_typed(&self, param_index: i32, value: u32) -> (r: Vec<ChannelStripMsg>)
        ensures
            r@ == match rea_eq::spec_decode(param_index, value, false, 0) {
                Some(p) => match msg_for(p) {
                    Some(m) => seq![m],
                    None => Seq::empty(),
                },
                None => Seq::empty(),
            },
    {
        let mut out: Vec<ChannelStripMsg> = Vec::new();
        let m = match rea_eq::decode_trackmsg(param_index, value, false, 0) {
            Some(rea_eq::Param::FreqLowShelf(v)) => Some(ChannelStripMsg::LowFreq(v)),
            Some(rea_eq::Param::GainLowShelf(v)) => Some(ChannelStripMsg::LowGain(v)),
            Some(rea_eq::Param::BWLowShelf(v)) => Some(ChannelStripMsg::LowQ(v)),
            Some(rea_eq::Param::FreqBand2(v)) => Some(ChannelStripMsg::LmFreq(v)),
            Some(rea_eq::Param::GainBand2(v)) => Some(ChannelStripMsg::LmGain(v)),
            Some(rea_eq::Param::BWBand2(v)) => Some(ChannelStripMsg::LmQ(v)),
            Some(rea_eq::Param::FreqBand3(v)) => Some(ChannelStripMsg::HmFreq(v)),
            Some(rea_eq::Param::GainBand3(v)) => Some(ChannelStripMsg::HmGain(v)),
            Some(rea_eq::Param::BWBand3(v)) => Some(ChannelStripMsg::HmQ(v)),
            Some(rea_eq::Param::FreqHighShelf4(v)) => Some(ChannelStripMsg::HighFreq(v)),
            Some(rea_eq::Param::GainHighShelf4(v)) => Some(ChannelStripMsg::HighGain(v)),
            Some(rea_eq::Param::BWHighShelf4(v)) => Some(ChannelStripMsg::HighQ(v)),
            _ => None,
        };
        if let Some(x) = m {
            out.push(x);
        }
        proof {
            match m {
                Some(x) => assert(out@ =~= seq![x]),
                None => assert(out@ =~= Seq::<ChannelStripMsg>::empty()),
            }
        }
        out
    }
}

/// A band control written to ReaEQ reads back as the same control with the same value.
pub proof fn law_reads_back_what_it_writes(msg: ChannelStripMsg)
    requires
        param_for(msg) is Some,
    ensures
        ({
            let p = param_for(msg)->0;
            &&& rea_eq::spec_decode(p.spec_param_index(), p.spec_value_bits(), false, 0) == Some(p)
            &&& msg_for(p) == Some(msg)
        }),
{
    rea_eq::law_decode_encode(param_for(msg)->0, false, 0);
}

/// The four EQ bands of the channel strip drive ReaEQ's first four bands in order: the low
/// band's frequency, gain and width knobs set parameters 0, 1 and 2, the low-mid band's 3
/// to 5, the high-mid band's 6 to 8 and the high band's 9 to 11, with the knob's value;
/// a value reported for one of these parameters shows on the same knob.
pub proof fn law_bands_reach_their_parameters(track: TrackGuid, fx_index: i32, v: u32)
    ensures
        set_msg(track, fx_index, param_for(ChannelStripMsg::LowFreq(v))->0) == (DataMsg::FXParamValue { track_guid: track, fx_index, param_index: 0, value: v }),
        set_msg(track, fx_index, param_for(ChannelStripMsg::LowGain(v))->0) == (DataMsg::FXParamValue { track_guid: track, fx_index, param_index: 1, value: v }),
        set_msg(track, fx_index, param_for(ChannelStripMsg::LowQ(v))->0) == (DataMsg::FXParamValue { track_guid: track, fx_index, param_index: 2, value: v }),
        set_msg(track, fx_index, param_for(ChannelStripMsg::LmFreq(v))->0) == (DataMsg::FXParamValue { track_guid: track, fx_index, param_index: 3, value: v }),
        set_msg(track, fx_index, param_for(ChannelStripMsg::LmGain(v))->0) == (DataMsg::FXParamValue { track_guid: track, fx_index, param_index: 4, value: v }),
        set_msg(track, fx_index, param_for(ChannelStripMsg::LmQ(v))->0) == (DataMsg::FXParamValue { track_guid: track, fx_index, param_index: 5, value: v }),
        set_msg(track, fx_index, param_for(ChannelStripMsg::HmFreq(v))->0) == (DataMsg::FXParamValue { track_guid: track, fx_index, param_index: 6, value: v }),
        set_msg(track, fx_index, param_for(ChannelStripMsg::HmGain(v))->0) == (DataMsg::FXParamValue { track_guid: track, fx_index, param_index: 7, value: v }),
        set_msg(track, fx_index, param_for(ChannelStripMsg::HmQ(v))->0) == (DataMsg::FXParamValue { track_guid: track, fx_index, param_index: 8, value: v }),
        set_msg(track, fx_index, param_for(ChannelStripMsg::HighFreq(v))->0) == (DataMsg::FXParamValue { track_guid: track, fx_index, param_index: 9, value: v }),
        set_msg(track, fx_index, param_for(ChannelStripMsg::HighGain(v))->0) == (DataMsg::FXParamValue { track_guid: track, fx_index, param_index: 10, value: v }),
        set_msg(track, fx_index, param_for(ChannelStripMsg::HighQ(v))->0) == (DataMsg::FXParamValue { track_guid: track, fx_index, param_index: 11, value: v }),
        rea_eq::spec_decode(0, v, false, 0) matches Some(p) && msg_for(p) == Some(ChannelStripMsg::LowFreq(v)),
        rea_eq::spec_decode(1, v, false, 0) matches Some(p) && msg_for(p) == Some(ChannelStripMsg::LowGain(v)),
        rea_eq::spec_decode(2, v, false, 0) matches Some(p) && msg_for(p) == Some(ChannelStripMsg::LowQ(v)),
        rea_eq::spec_decode(3, v, false, 0) matches Some(p) && msg_for(p) == Some(ChannelStripMsg::LmFreq(v)),
        rea_eq::spec_decode(4, v, false, 0) matches Some(p) && msg_for(p) == Some(ChannelStripMsg::LmGain(v)),
        rea_eq::spec_decode(5, v, false, 0) matches Some(p) && msg_for(p) == Some(ChannelStripMsg::LmQ(v)),
        rea_eq::spec_decode(6, v, false, 0) matches Some(p) && msg_for(p) == Some(ChannelStripMsg::HmFreq(v)),
        rea_eq::spec_decode(7, v, false, 0) matches Some(p) && msg_for(p) == Some(ChannelStripMsg::HmGain(v)),
        rea_eq::spec_decode(8, v, false, 0) matches Some(p) && msg_for(p) == Some(ChannelStripMsg::HmQ(v)),
        rea_eq::spec_decode(9, v, false, 0) matches Some(p) && msg_for(p) == Some(ChannelStripMsg::HighFreq(v)),
        rea_eq::spec_decode(10, v, false, 0) matches Some(p) && msg_for(p) == Some(ChannelStripMsg::HighGain(v)),
        rea_eq::spec_decode(11, v, false, 0) matches Some(p) && msg_for(p) == Some(ChannelStripMsg::HighQ(v)),
{
}

} // verus!
