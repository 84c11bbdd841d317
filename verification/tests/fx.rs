use arpad_rust::modes::reaper_fx::{_1175compressor, mju_cjr_au, tdr_molotok_au, tdr_nova_au, tdrvos_slick_eq_au, tdrvos_slick_eq_vst};
use arpad_rust::modes::reaper_fx_adapters::{rea_eq::ReaEqAdapter, tdr_molotok::TdrMolotokAdapter};

#[test]
fn plugin_names() {
    assert_eq!(_1175compressor::name(), "JS: 1175 Compressor");
    assert_eq!(mju_cjr_au::name(), "AU: MJUCjr (Klanghelm)");
    assert_eq!(tdrvos_slick_eq_vst::name(), "VST3: TDR VOS SlickEQ (Tokyo Dawn Labs)");
    assert_eq!(ReaEqAdapter.id(), "VST: ReaEQ (Cockos)");
    assert_eq!(TdrMolotokAdapter.fx_names(), &["AU: TDR Molotok (Tokyo Dawn Labs)"]);
}

#[test]
fn stepped_parameters_round_trip() {
    assert_eq!(_1175compressor::Ratio::_20.raw_index(), 8);
    assert_eq!(_1175compressor::Ratio::from_raw_index(4), Some(_1175compressor::Ratio::BlownCapacitorAll));
    assert_eq!(_1175compressor::Ratio::from_raw_index(9), None);
    assert_eq!(_1175compressor::Ratio::from_raw_index(-1), None);
    assert_eq!(tdr_nova_au::Channels::from_raw_index(5), Some(tdr_nova_au::Channels::Right));
    assert_eq!(tdr_molotok_au::MeterRange::_24DB.raw_index(), 7);
    assert_eq!(tdrvos_slick_eq_au::OUTStage::from_raw_index(tdrvos_slick_eq_au::OUTStage::Mellow.raw_index() as isize), Some(tdrvos_slick_eq_au::OUTStage::Mellow));
    assert_eq!(mju_cjr_au::VuMode::from_raw_index(0), Some(mju_cjr_au::VuMode::GR));
}
