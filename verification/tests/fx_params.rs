use arpad_rust::modes::guid::TrackGuid;
use arpad_rust::modes::reaper_fx::_1175compressor::{self, Ratio};
use arpad_rust::modes::reaper_fx::{rea_comp, switch_value_bits, whole_number_bits};
use arpad_rust::modes::track_data::DataMsg;

const TRACK: TrackGuid = TrackGuid { bits: 9 };

fn fields(msg: DataMsg) -> (TrackGuid, i32, i32, u32) {
    match msg {
        DataMsg::FXParamValue { track_guid, fx_index, param_index, value } => (track_guid, fx_index, param_index, value),
        other => panic!("expected a parameter value, got {:?}", other),
    }
}

#[test]
fn whole_numbers_and_switches_are_f32_bits() {
    for k in 0u8..16 {
        assert_eq!(f32::from_bits(whole_number_bits(k)), k as f32);
    }
    assert_eq!(f32::from_bits(switch_value_bits(true)), 1.0);
    assert_eq!(f32::from_bits(switch_value_bits(false)), 0.0);
}

#[test]
fn parameters_encode_to_their_index_and_value() {
    let v = 0.5f32.to_bits();
    assert_eq!(fields(rea_comp::encode_trackmsg(TRACK, 3, rea_comp::Param::Threshold(v))), (TRACK, 3, 0, v));
    assert_eq!(
        fields(rea_comp::encode_trackmsg(TRACK, 3, rea_comp::Param::FilterPreview(true))),
        (TRACK, 3, 12, 1.0f32.to_bits())
    );
    assert_eq!(fields(rea_comp::encode_trackmsg(TRACK, 3, rea_comp::Param::AutoRelease(false))), (TRACK, 3, 16, 0));
    assert_eq!(
        fields(_1175compressor::encode_trackmsg(TRACK, 0, _1175compressor::Param::Ratio(Ratio::_8))),
        (TRACK, 0, 1, 6.0f32.to_bits())
    );
}

#[test]
fn parameters_decode_from_index_and_value() {
    let v = 0.7f32;
    assert_eq!(
        rea_comp::decode_trackmsg(12, v.to_bits(), v >= 0.5, v.round() as isize),
        Some(rea_comp::Param::FilterPreview(true))
    );
    assert_eq!(rea_comp::decode_trackmsg(0, v.to_bits(), true, 1), Some(rea_comp::Param::Threshold(v.to_bits())));
    assert_eq!(rea_comp::decode_trackmsg(99, v.to_bits(), true, 1), None);
    assert_eq!(
        _1175compressor::decode_trackmsg(1, 6.0f32.to_bits(), true, 6),
        Some(_1175compressor::Param::Ratio(Ratio::_8))
    );
    assert_eq!(_1175compressor::decode_trackmsg(1, 42.0f32.to_bits(), true, 42), None);
}

#[test]
fn decoding_what_was_encoded_gives_it_back() {
    for p in [
        _1175compressor::Param::Ratio(Ratio::BlownCapacitor12),
        _1175compressor::Param::Attack(0.125f32.to_bits()),
    ] {
        let (_, _, idx, bits) = fields(_1175compressor::encode_trackmsg(TRACK, 1, p));
        let value = f32::from_bits(bits);
        assert_eq!(_1175compressor::decode_trackmsg(idx, bits, value >= 0.5, value.round() as isize), Some(p));
    }
}
