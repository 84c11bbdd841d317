//! Putting the control surface in a known blank state.
use vstd::prelude::*;

use crate::midi::v1m;
use crate::midi::v1m::DownstreamMsg;
use crate::modes::mode_manager::UpstreamIo;

verus! {

/// How many messages a reset sends for each channel.
pub const RESET_STEPS: usize = 11;

/// Whether `msg` is the message a reset sends for `channel` at `step` of the steps done
/// for each channel: fader down, the four buttons dark, encoder ring at its centre point,
/// both scribble strips blank and the top strip black.
pub open spec fn is_reset_msg(msg: DownstreamMsg, channel: int, step: int) -> bool {
    let idx = channel as i32;
    if step == 0 {
        msg == DownstreamMsg::ChannelFader(v1m::ChannelFaderMsg { idx, value: 0 })
    } else if step == 1 {
        msg == DownstreamMsg::SelectLED(v1m::SelectLEDMsg { idx, state: v1m::LEDState::Off })
    } else if step == 2 {
        msg == DownstreamMsg::MuteLED(v1m::MuteLEDMsg { idx, state: v1m::LEDState::Off })
    } else if step == 3 {
        msg == DownstreamMsg::SoloLED(v1m::SoloLEDMsg { idx, state: v1m::LEDState::Off })
    } else if step == 4 {
        msg == DownstreamMsg::ArmLED(v1m::ArmLEDMsg { idx, state: v1m::LEDState::Off })
    } else if step == 5 {
        msg == DownstreamMsg::EncoderRingLED(
            v1m::EncoderRingMsg {
                idx,
                mode: v1m::EncoderRingMode::Point,
                val: v1m::ENCODER_CENTER_MODE_CENTER,
            },
        )
    } else if step == 6 {
        msg matches DownstreamMsg::TopScribbleStripLine1Text(m) && m.idx == idx && m.text@.len()
            == 0
    } else if step == 7 {
        msg matches DownstreamMsg::TopScribbleStripLine2Text(m) && m.idx == idx && m.text@.len()
            == 0
    } else if step == 8 {
        msg matches DownstreamMsg::TopScribbleStripBackgroundColor(m) && m.idx == idx && m.color
            == v1m::Color { r: 0, g: 0, b: 0 }
    } else if step == 9 {
        msg matches DownstreamMsg::BottomScribbleStripLine1Text(m) && m.idx == idx
            && m.text@.len() == 0
    } else {
        &&& step == 10
        &&& msg matches DownstreamMsg::BottomScribbleStripLine2Text(m) && m.idx == idx
            && m.text@.len() == 0
    }
}

/// Whether `msgs` is what a reset of the first `num_channels` channels sends: the steps of
/// channel 0, then those of channel 1, and so on.
pub open spec fn is_reset_sequence(msgs: Seq<DownstreamMsg>, num_channels: int) -> bool {
    &&& msgs.len() == RESET_STEPS * num_channels
    &&& forall|j: int|
        0 <= j < msgs.len() ==> is_reset_msg(
            #[trigger] msgs[j],
            j / RESET_STEPS as int,
            j % RESET_STEPS as int,
        )
}

/// Blank every channel strip of the control surface, channel by channel.
pub fn reset_hardware<I: UpstreamIo>(io: &mut I, num_channels: usize)
    ensures
        final(io).handed_to_v1m().subrange(0, old(io).handed_to_v1m().len() as int) == old(
            io,
        ).handed_to_v1m(),
        is_reset_sequence(
            final(io).handed_to_v1m().subrange(
                old(io).handed_to_v1m().len() as int,
                final(io).handed_to_v1m().len() as int,
            ),
            num_channels as int,
        ),
{
    let ghost start = io.handed_to_v1m();
    let mut i: usize = 0;
    while i < num_channels
        invariant
            0 <= i <= num_channels,
            io.handed_to_v1m().len() >= start.len(),
            io.handed_to_v1m().subrange(0, start.len() as int) == start,
            is_reset_sequence(
                io.handed_to_v1m().subrange(start.len() as int, io.handed_to_v1m().len() as int),
                i as int,
            ),
        decreases num_channels - i,
    {
        let ghost before = io.handed_to_v1m();
        let idx = i as i32;
        io.send_to_v1m(DownstreamMsg::ChannelFader(v1m::ChannelFaderMsg { idx, value: 0 }));
        io.send_to_v1m(
            DownstreamMsg::SelectLED(v1m::SelectLEDMsg { idx, state: v1m::LEDState::Off }),
        );
        io.send_to_v1m(DownstreamMsg::MuteLED(v1m::MuteLEDMsg { idx, state: v1m::LEDState::Off }));
        io.send_to_v1m(DownstreamMsg::SoloLED(v1m::SoloLEDMsg { idx, state: v1m::LEDState::Off }));
        io.send_to_v1m(DownstreamMsg::ArmLED(v1m::ArmLEDMsg { idx, state: v1m::LEDState::Off }));
        io.send_to_v1m(
            DownstreamMsg::EncoderRingLED(
                v1m::EncoderRingMsg {
                    idx,
                    mode: v1m::EncoderRingMode::Point,
                    val: v1m::ENCODER_CENTER_MODE_CENTER,
                },
            ),
        );
        io.send_to_v1m(
            DownstreamMsg::TopScribbleStripLine1Text(
                v1m::TopScribbleStripLine1TextMsg { idx, text: String::new() },
            ),
        );
        io.send_to_v1m(
            DownstreamMsg::TopScribbleStripLine2Text(
                v1m::TopScribbleStripLine2TextMsg { idx, text: String::new() },
            ),
        );
        io.send_to_v1m(
            DownstreamMsg::TopScribbleStripBackgroundColor(
                v1m::TopScribbleStripColorMsg { idx, color: v1m::Color { r: 0, g: 0, b: 0 } },
            ),
        );
        io.send_to_v1m(
            DownstreamMsg::BottomScribbleStripLine1Text(
                v1m::BottomScribbleStripLine1TextMsg { idx, text: String::new() },
            ),
        );
        io.send_to_v1m(
            DownstreamMsg::BottomScribbleStripLine2Text(
                v1m::BottomScribbleStripLine2TextMsg { idx, text: String::new() },
            ),
        );
        proof {
            let after = io.handed_to_v1m();
            let n0 = before.len() as int;
            assert(after.len() == n0 + 11);
            assert(after.subrange(0, n0) =~= before);
            assert(after.subrange(0, start.len() as int) =~= start) by {
                assert(before.subrange(0, start.len() as int) == start);
                assert forall|q: int| 0 <= q < start.len() implies after[q] == start[q] by {
                    assert(after[q] == before[q]);
                    assert(before.subrange(0, start.len() as int)[q] == before[q]);
                }
            }
            let done = before.subrange(start.len() as int, n0);
            let now = after.subrange(start.len() as int, after.len() as int);
            assert forall|j: int| 0 <= j < now.len() implies is_reset_msg(
                #[trigger] now[j],
                j / RESET_STEPS as int,
                j % RESET_STEPS as int,
            ) by {
                if j < done.len() {
                    assert(now[j] == done[j]);
                } else {
                    let k = j - done.len();
                    assert(0 <= k < 11);
                    assert(j / 11 == i as int);
                    assert(j % 11 == k);
                }
            }
        }
        i = i + 1;
    }
}

} // verus!
