//! What the DAW reports about its tracks, as the modes read it.
use vstd::prelude::*;

use crate::modes::guid::TrackGuid;

verus! {

/// A report from the DAW about one track. Volumes, levels and pans are `f32` values,
/// held as their bits.
#[derive(Clone, Debug)]
pub enum DataMsg {
    Name { track_guid: TrackGuid, name: String },
    Selected { track_guid: TrackGuid, selected: bool },
    /// The track's position in the DAW, counted from 1; `None` when it has none.
    ReaperTrackIndex { track_guid: TrackGuid, track_index: Option<i32> },
    Volume { track_guid: TrackGuid, volume: u32 },
    /// The track's pan, as the bits of its `f32` (-1.0 left to 1.0 right).
    Pan { track_guid: TrackGuid, pan: u32 },
    Muted { track_guid: TrackGuid, muted: bool },
    Soloed { track_guid: TrackGuid, soloed: bool },
    Armed { track_guid: TrackGuid, armed: bool },
    SendIndex { track_guid: TrackGuid, send_guid: TrackGuid, send_index: i32 },
    SendLevel { track_guid: TrackGuid, send_index: i32, level: u32 },
    SendPan { track_guid: TrackGuid, send_index: i32, pan: u32 },
    /// The name of the plugin `fx_guid` at position `fx_index` of the track's chain.
    FXName { track_guid: TrackGuid, fx_guid: TrackGuid, fx_index: i32, name: String },
    /// Whether plugin `fx_guid` is on.
    FXEnabled { track_guid: TrackGuid, fx_guid: TrackGuid, enabled: bool },
    /// A parameter of the plugin at `fx_index`, as the bits of its `f32` value.
    FXParamValue { track_guid: TrackGuid, fx_index: i32, param_index: i32, value: u32 },
    /// Any other report.
    Other,
}

} // verus!
