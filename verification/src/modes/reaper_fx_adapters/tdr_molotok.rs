//! Adapter for the TDR Molotok compressor.
use vstd::prelude::*;

use crate::modes::guid::TrackGuid;
use crate::modes::reaper_channel_strip_router::ChannelStripMsg;
use crate::modes::reaper_fx::tdr_molotok_au;
use crate::modes::track_data::DataMsg;

verus! {

pub struct TdrMolotokAdapter;

/// The Molotok parameter a widget message sets, if any: either compressor's controls
/// drive the same plugin.
pub open spec fn param_for(msg: ChannelStripMsg) -> Option<tdr_molotok_au::Param> {
    match msg {
        ChannelStripMsg::CompThresh(v) | ChannelStripMsg::Comp2Thresh(v) => Some(tdr_molotok_au::Param::Thresh(v)),
        ChannelStripMsg::CompRatio(v) | ChannelStripMsg::Comp2Ratio(v) => Some(tdr_molotok_au::Param::Ratio(v)),
        ChannelStripMsg::CompAttack(v) | ChannelStripMsg::Comp2Attack(v) => Some(tdr_molotok_au::Param::Attack(v)),
        ChannelStripMsg::CompRelease(v) | ChannelStripMsg::Comp2Release(v) => Some(tdr_molotok_au::Param::Release(v)),
        ChannelStripMsg::CompMakeup(v) | ChannelStripMsg::Comp2Makeup(v) => Some(tdr_molotok_au::Param::Makeup(v)),
        ChannelStripMsg::CompScFilter(v) | ChannelStripMsg::Comp2ScFilter(v) => Some(
            tdr_molotok_au::Param::SCFilterFreq(v),
        ),
        _ => None,
    }
}

/// The widget message a Molotok parameter shows as, if any: always the first
/// compressor's.
pub open spec fn msg_for(p: tdr_molotok_au::Param) -> Option<ChannelStripMsg> {
    match p {
        tdr_molotok_au::Param::Thresh(v) => Some(ChannelStripMsg::CompThresh(v)),
        tdr_molotok_au::Param::Ratio(v) => Some(ChannelStripMsg::CompRatio(v)),
        tdr_molotok_au::Param::Attack(v) => Some(ChannelStripMsg::CompAttack(v)),
        tdr_molotok_au::Param::Release(v) => Some(ChannelStripMsg::CompRelease(v)),
        tdr_molotok_au::Param::Makeup(v) => Some(ChannelStripMsg::CompMakeup(v)),
        tdr_molotok_au::Param::SCFilterFreq(v) => Some(ChannelStripMsg::CompScFilter(v)),
        _ => None,
    }
}

/// The DAW message that sets `p` on the plugin at `fx_index` of a track.
pub open spec fn set_msg(track: TrackGuid, fx_index: i32, p: tdr_molotok_au::Param) -> DataMsg {
    DataMsg::FXParamValue {
        track_guid: track,
        fx_index,
        param_index: p.spec_param_index(),
        value: p.spec_value_bits(),
    }
}

impl TdrMolotokAdapter {
    /// The name the adapter goes by.
    pub fn id(&self) -> (r: &'static str)
        ensures
            r@ == tdr_molotok_au::FX_NAME@,
    {
        tdr_molotok_au::FX_NAME
    }

    /// The plugin names, as REAPER shows them, that this adapter serves.
    pub fn fx_names(&self) -> (r: &'static [&'static str])
        ensures
            r@.len() == 1,
            r@[0]@ == tdr_molotok_au::FX_NAME@,
    {
        &[tdr_molotok_au::FX_NAME]
    }

    /// The DAW messages that carry out a widget message (see `param_for`).
    pub fn to_track_typed(&self, track: TrackGuid, fx_index: i32, msg: ChannelStripMsg) -> (r: Vec<DataMsg>)
        ensures
            r@ == match param_for(msg) {
                Some(p) => seq![set_msg(track, fx_index, p)],
                None => Seq::empty(),
            },
    {
        let param = match msg {
            ChannelStripMsg::CompThresh(v) | ChannelStripMsg::Comp2Thresh(v) => Some(tdr_molotok_au::Param::Thresh(v)),
            ChannelStripMsg::CompRatio(v) | ChannelStripMsg::Comp2Ratio(v) => Some(tdr_molotok_au::Param::Ratio(v)),
            ChannelStripMsg::CompAttack(v) | ChannelStripMsg::Comp2Attack(v) => Some(tdr_molotok_au::Param::Attack(v)),
            ChannelStripMsg::CompRelease(v) | ChannelStripMsg::Comp2Release(v) => Some(tdr_molotok_au::Param::Release(v)),
            ChannelStripMsg::CompMakeup(v) | ChannelStripMsg::Comp2Makeup(v) => Some(tdr_molotok_au::Param::Makeup(v)),
            ChannelStripMsg::CompScFilter(v) | ChannelStripMsg::Comp2ScFilter(v) => Some(
                tdr_molotok_au::Param::SCFilterFreq(v),
            ),
            _ => None,
        };
        let mut out: Vec<DataMsg> = Vec::new();
        if let Some(p) = param {
            out.push(tdr_molotok_au::encode_trackmsg(track, fx_index, p));
        }
        proof {
            match param {
                Some(p) => assert(out@ =~= seq![set_msg(track, fx_index, p)]),
                None => assert(out@ =~= Seq::<DataMsg>::empty()),
            }
        }
        out
    }

    /// The widget messages a reported parameter value shows as (see `msg_for`);
    /// `at_least_half` and `rounded` are what the decoder reads of the value.
    pub fn from_track_typed(&self, param_index: i32, value: u32, at_least_half: bool, rounded: isize) -> (r: Vec<ChannelStripMsg>)
        ensures
            r@ == match tdr_molotok_au::spec_decode(param_index, value, at_least_half, rounded) {
                Some(p) => match msg_for(p) {
                    Some(m) => seq![m],
                    None => Seq::empty(),
                },
                None => Seq::empty(),
            },
    {
        let mut out: Vec<ChannelStripMsg> = Vec::new();
        let m = match tdr_molotok_au::decode_trackmsg(param_index, value, at_least_half, rounded) {
            Some(tdr_molotok_au::Param::Thresh(v)) => Some(ChannelStripMsg::CompThresh(v)),
            Some(tdr_molotok_au::Param::Ratio(v)) => Some(ChannelStripMsg::CompRatio(v)),
            Some(tdr_molotok_au::Param::Attack(v)) => Some(ChannelStripMsg::CompAttack(v)),
            Some(tdr_molotok_au::Param::Release(v)) => Some(ChannelStripMsg::CompRelease(v)),
            Some(tdr_molotok_au::Param::Makeup(v)) => Some(ChannelStripMsg::CompMakeup(v)),
            Some(tdr_molotok_au::Param::SCFilterFreq(v)) => Some(ChannelStripMsg::CompScFilter(v)),
            _ => None,
        };
        if let Some(x) = m {
            out.push(x);
        }
        proof {
            match m {
                Some(x) => assert(out@ =~= seq![x]),
                None => assert(out@ =~= Seq::<ChannelStripMsg>::empty()),
            }
        }
        out
    }
}

/// A control of the first compressor written to Molotok reads back as the same control
/// with the same value; one of the second compressor reads back as the first's.
pub proof fn law_reads_back_what_it_writes(msg: ChannelStripMsg, at_least_half: bool, rounded: isize)
    requires
        param_for(msg) is Some,
    ensures
        ({
            let p = param_for(msg)->0;
            &&& tdr_molotok_au::spec_decode(p.spec_param_index(), p.spec_value_bits(), at_least_half, rounded)
                == Some(p)
            &&& msg_for(p) is Some
            &&& msg_for(param_for(msg_for(p)->0)->0) == msg_for(p)
        }),
{
    tdr_molotok_au::law_decode_encode(param_for(msg)->0, at_least_half, rounded);
}

/// Both compressors' knobs drive the same Molotok parameters, with the knob's value: the
/// side-chain filter parameter 0, attack 2, release 4, ratio 5, threshold 6 and makeup 8.
pub proof fn law_knobs_reach_their_parameters(track: TrackGuid, fx_index: i32, v: u32)
    ensures
        set_msg(track, fx_index, param_for(ChannelStripMsg::CompThresh(v))->0) == (DataMsg::FXParamValue { track_guid: track, fx_index, param_index: 6, value: v }),
        set_msg(track, fx_index, param_for(ChannelStripMsg::Comp2Thresh(v))->0) == (DataMsg::FXParamValue { track_guid: track, fx_index, param_index: 6, value: v }),
        set_msg(track, fx_index, param_for(ChannelStripMsg::CompRatio(v))->0) == (DataMsg::FXParamValue { track_guid: track, fx_index, param_index: 5, value: v }),
        set_msg(track, fx_index, param_for(ChannelStripMsg::Comp2Ratio(v))->0) == (DataMsg::FXParamValue { track_guid: track, fx_index, param_index: 5, value: v }),
        set_msg(track, fx_index, param_for(ChannelStripMsg::CompAttack(v))->0) == (DataMsg::FXParamValue { track_guid: track, fx_index, param_index: 2, value: v }),
        set_msg(track, fx_index, param_for(ChannelStripMsg::Comp2Attack(v))->0) == (DataMsg::FXParamValue { track_guid: track, fx_index, param_index: 2, value: v }),
        set_msg(track, fx_index, param_for(ChannelStripMsg::CompRelease(v))->0) == (DataMsg::FXParamValue { track_guid: track, fx_index, param_index: 4, value: v }),
        set_msg(track, fx_index, param_for(ChannelStripMsg::Comp2Release(v))->0) == (DataMsg::FXParamValue { track_guid: track, fx_index, param_index: 4, value: v }),
        set_msg(track, fx_index, param_for(ChannelStripMsg::CompMakeup(v))->0) == (DataMsg::FXParamValue { track_guid: track, fx_index, param_index: 8, value: v }),
        set_msg(track, fx_index, param_for(ChannelStripMsg::Comp2Makeup(v))->0) == (DataMsg::FXParamValue { track_guid: track, fx_index, param_index: 8, value: v }),
        set_msg(track, fx_index, param_for(ChannelStripMsg::CompScFilter(v))->0) == (DataMsg::FXParamValue { track_guid: track, fx_index, param_index: 0, value: v }),
        set_msg(track, fx_index, param_for(ChannelStripMsg::Comp2ScFilter(v))->0) == (DataMsg::FXParamValue { track_guid: track, fx_index, param_index: 0, value: v }),
{
}

} // verus!
