//! The models of the rig taken together.

use vstd::prelude::*;
use crate::schema::{str_texts, all_distinct};
use crate::model::{BackendKind, Instruments, ModelDefinitionView};

verus! {

/// The ids of all the gain models.
pub open spec fn all_model_ids() -> Seq<&'static str> {
    seq![
        crate::lv2_caps_spice::MODEL_ID,
        crate::lv2_driva::MODEL_ID,
        crate::lv2_gx_eternity::MODEL_ID,
        crate::lv2_gx_saturator::MODEL_ID,
        crate::lv2_gx_superfuzz::MODEL_ID,
        crate::lv2_gx_tonemachine::MODEL_ID,
        crate::lv2_gx_vmk2::MODEL_ID,
        crate::lv2_invada_tube::MODEL_ID,
        crate::lv2_mda_degrade::MODEL_ID,
        crate::lv2_mda_overdrive::MODEL_ID,
        crate::lv2_ojd::MODEL_ID,
        crate::lv2_paranoia::MODEL_ID,
        crate::lv2_tap_tubewarmth::MODEL_ID,
        crate::lv2_wolf_shaper::MODEL_ID,
        crate::nam_ampeg_scr_di::MODEL_ID,
        crate::nam_analog_man_sun_face::MODEL_ID,
        crate::nam_benson_preamp::MODEL_ID,
        crate::nam_big_muff::MODEL_ID,
        crate::nam_blues_overdrive_bd_2::MODEL_ID,
        crate::nam_boss_ds1_wampler::MODEL_ID,
        crate::nam_boss_ds_2::MODEL_ID,
        crate::nam_boss_fz1w::MODEL_ID,
        crate::nam_boss_hm2_1986::MODEL_ID,
        crate::nam_boss_hm_3::MODEL_ID,
        crate::nam_boss_mt_2_metal_zone::MODEL_ID,
        crate::nam_boss_od_3::MODEL_ID,
        crate::nam_boss_odb3_bass::MODEL_ID,
        crate::nam_browne_protein::MODEL_ID,
        crate::nam_ceriatone_centura::MODEL_ID,
        crate::nam_dallas_rangemaster::MODEL_ID,
        crate::nam_darkglass_alpha_omega::MODEL_ID,
        crate::nam_death_by_audio_fuzz_war::MODEL_ID,
        crate::nam_demonfx_be_od::MODEL_ID,
        crate::nam_digitech_bad_monkey::MODEL_ID,
        crate::nam_digitech_grunge::MODEL_ID,
        crate::nam_earthquaker_hizumitas::MODEL_ID,
        crate::nam_earthquaker_plumes::MODEL_ID,
        crate::nam_ehx_metal_muff::MODEL_ID,
        crate::nam_ehx_soul_food::MODEL_ID,
        crate::nam_fulltone_69::MODEL_ID,
        crate::nam_fulltone_ocd::MODEL_ID,
        crate::nam_fulltone_ocd_v15::MODEL_ID,
        crate::nam_hermida_zendrive::MODEL_ID,
        crate::nam_horizon_precision_drive::MODEL_ID,
        crate::nam_hudson_broadcast::MODEL_ID,
        crate::nam_ibanez_ts9::MODEL_ID,
        crate::nam_ibanez_tube_screamer::MODEL_ID,
        crate::nam_jhs_andy_timmons::MODEL_ID,
        crate::nam_jhs_bonsai::MODEL_ID,
        crate::nam_klon_centaur::MODEL_ID,
        crate::nam_klone::MODEL_ID,
        crate::nam_lokajaudio_der_blend::MODEL_ID,
        crate::nam_maestro_fuzz_tone_fz_1::MODEL_ID,
        crate::nam_maxon_od808::MODEL_ID,
        crate::nam_mesa_throttle_box::MODEL_ID,
        crate::nam_mxr_distortion::MODEL_ID,
        crate::nam_mxr_duke_of_tone::MODEL_ID,
        crate::nam_paul_cochrane_timmy::MODEL_ID,
        crate::nam_pete_cornish_g_2::MODEL_ID,
        crate::nam_pete_cornish_ss_3::MODEL_ID,
    ]
}

/// No two models share an id, so the registry can look a model up by it.
pub proof fn lemma_model_ids_distinct()
    ensures
        all_distinct(str_texts(all_model_ids())),
{
    reveal_strlit("lv2_caps_spice");
    reveal_strlit("lv2_driva");
    reveal_strlit("lv2_gx_eternity");
    reveal_strlit("lv2_gx_saturator");
    reveal_strlit("lv2_gx_superfuzz");
    reveal_strlit("lv2_gx_tonemachine");
    reveal_strlit("lv2_gx_vmk2");
    reveal_strlit("lv2_invada_tube");
    reveal_strlit("lv2_mda_degrade");
    reveal_strlit("lv2_mda_overdrive");
    reveal_strlit("lv2_ojd");
    reveal_strlit("lv2_paranoia");
    reveal_strlit("lv2_tap_tubewarmth");
    reveal_strlit("lv2_wolf_shaper");
    reveal_strlit("ampeg_scr_di");
    reveal_strlit("nam_analog_man_sun_face");
    reveal_strlit("nam_benson_preamp");
    reveal_strlit("nam_big_muff");
    reveal_strlit("blues_overdrive_bd_2");
    reveal_strlit("boss_ds1_wampler");
    reveal_strlit("nam_boss_ds_2");
    reveal_strlit("boss_fz1w");
    reveal_strlit("boss_hm2_1986");
    reveal_strlit("nam_boss_hm_3");
    reveal_strlit("nam_boss_mt_2_metal_zone");
    reveal_strlit("nam_boss_od_3");
    reveal_strlit("nam_boss_odb3_bass");
    reveal_strlit("nam_browne_protein");
    reveal_strlit("nam_ceriatone_centura");
    reveal_strlit("nam_dallas_rangemaster");
    reveal_strlit("darkglass_alpha_omega");
    reveal_strlit("nam_death_by_audio_fuzz_war");
    reveal_strlit("demonfx_be_od");
    reveal_strlit("nam_digitech_bad_monkey");
    reveal_strlit("nam_digitech_grunge");
    reveal_strlit("nam_earthquaker_hizumitas");
    reveal_strlit("nam_earthquaker_plumes");
    reveal_strlit("nam_ehx_metal_muff");
    reveal_strlit("nam_ehx_soul_food");
    reveal_strlit("nam_fulltone_69");
    reveal_strlit("fulltone_ocd");
    reveal_strlit("fulltone_ocd_v15");
    reveal_strlit("nam_hermida_zendrive");
    reveal_strlit("nam_horizon_precision_drive");
    reveal_strlit("nam_hudson_broadcast");
    reveal_strlit("nam_ibanez_ts9");
    reveal_strlit("nam_ibanez_tube_screamer");
    reveal_strlit("nam_jhs_andy_timmons");
    reveal_strlit("jhs_bonsai");
    reveal_strlit("klon_centaur");
    reveal_strlit("klone");
    reveal_strlit("lokajaudio_der_blend");
    reveal_strlit("nam_maestro_fuzz_tone_fz_1");
    reveal_strlit("maxon_od808");
    reveal_strlit("nam_mesa_throttle_box");
    reveal_strlit("nam_mxr_distortion");
    reveal_strlit("nam_mxr_duke_of_tone");
    reveal_strlit("nam_paul_cochrane_timmy");
    reveal_strlit("nam_pete_cornish_g_2");
    reveal_strlit("nam_pete_cornish_ss_3");
    let ids = str_texts(all_model_ids());
    assert forall|a: int, b: int| 0 <= a < b < ids.len() implies ids[a] != ids[b] by {
        if ids[a] == ids[b] {
            assert(ids[a].len() == ids[b].len());
            assert(ids[a][0] == ids[b][0]);
            assert(ids[a][1] == ids[b][1]);
            assert(ids[a][2] == ids[b][2]);
            assert(ids[a][3] == ids[b][3]);
            assert(ids[a][4] == ids[b][4]);
            assert(ids[a][5] == ids[b][5]);
            assert(ids[a][6] == ids[b][6]);
            assert(ids[a][7] == ids[b][7]);
            assert(ids[a][8] == ids[b][8]);
            assert(ids[a][9] == ids[b][9]);
        }
    }
}

/// What the registry lists of each model, in the order of `all_model_ids`.
pub open spec fn all_model_definitions() -> Seq<ModelDefinitionView> {
    seq![
        crate::lv2_caps_spice::spec_model_definition(),
        crate::lv2_driva::spec_model_definition(),
        crate::lv2_gx_eternity::spec_model_definition(),
        crate::lv2_gx_saturator::spec_model_definition(),
        crate::lv2_gx_superfuzz::spec_model_definition(),
        crate::lv2_gx_tonemachine::spec_model_definition(),
        crate::lv2_gx_vmk2::spec_model_definition(),
        crate::lv2_invada_tube::spec_model_definition(),
        crate::lv2_mda_degrade::spec_model_definition(),
        crate::lv2_mda_overdrive::spec_model_definition(),
        crate::lv2_ojd::spec_model_definition(),
        crate::lv2_paranoia::spec_model_definition(),
        crate::lv2_tap_tubewarmth::spec_model_definition(),
        crate::lv2_wolf_shaper::spec_model_definition(),
        crate::nam_ampeg_scr_di::spec_model_definition(),
        crate::nam_analog_man_sun_face::spec_model_definition(),
        crate::nam_benson_preamp::spec_model_definition(),
        crate::nam_big_muff::spec_model_definition(),
        crate::nam_blues_overdrive_bd_2::spec_model_definition(),
        crate::nam_boss_ds1_wampler::spec_model_definition(),
        crate::nam_boss_ds_2::spec_model_definition(),
        crate::nam_boss_fz1w::spec_model_definition(),
        crate::nam_boss_hm2_1986::spec_model_definition(),
        crate::nam_boss_hm_3::spec_model_definition(),
        crate::nam_boss_mt_2_metal_zone::spec_model_definition(),
        crate::nam_boss_od_3::spec_model_definition(),
        crate::nam_boss_odb3_bass::spec_model_definition(),
        crate::nam_browne_protein::spec_model_definition(),
        crate::nam_ceriatone_centura::spec_model_definition(),
        crate::nam_dallas_rangemaster::spec_model_definition(),
        crate::nam_darkglass_alpha_omega::spec_model_definition(),
        crate::nam_death_by_audio_fuzz_war::spec_model_definition(),
        crate::nam_demonfx_be_od::spec_model_definition(),
        crate::nam_digitech_bad_monkey::spec_model_definition(),
        crate::nam_digitech_grunge::spec_model_definition(),
        crate::nam_earthquaker_hizumitas::spec_model_definition(),
        crate::nam_earthquaker_plumes::spec_model_definition(),
        crate::nam_ehx_metal_muff::spec_model_definition(),
        crate::nam_ehx_soul_food::spec_model_definition(),
        crate::nam_fulltone_69::spec_model_definition(),
        crate::nam_fulltone_ocd::spec_model_definition(),
        crate::nam_fulltone_ocd_v15::spec_model_definition(),
        crate::nam_hermida_zendrive::spec_model_definition(),
        crate::nam_horizon_precision_drive::spec_model_definition(),
        crate::nam_hudson_broadcast::spec_model_definition(),
        crate::nam_ibanez_ts9::spec_model_definition(),
        crate::nam_ibanez_tube_screamer::spec_model_definition(),
        crate::nam_jhs_andy_timmons::spec_model_definition(),
        crate::nam_jhs_bonsai::spec_model_definition(),
        crate::nam_klon_centaur::spec_model_definition(),
        crate::nam_klone::spec_model_definition(),
        crate::nam_lokajaudio_der_blend::spec_model_definition(),
        crate::nam_maestro_fuzz_tone_fz_1::spec_model_definition(),
        crate::nam_maxon_od808::spec_model_definition(),
        crate::nam_mesa_throttle_box::spec_model_definition(),
        crate::nam_mxr_distortion::spec_model_definition(),
        crate::nam_mxr_duke_of_tone::spec_model_definition(),
        crate::nam_paul_cochrane_timmy::spec_model_definition(),
        crate::nam_pete_cornish_g_2::spec_model_definition(),
        crate::nam_pete_cornish_ss_3::spec_model_definition(),
    ]
}

/// Each model is listed under its own id; a model runs as a plugin exactly
/// when its id is that of a plugin (`lv2_...`); and the models offered for every
/// instrument are exactly the two tube plugins, Invada Tube and TAP
/// TubeWarmth, all the others being offered for guitar and bass.
pub proof fn lemma_definitions_follow_ids()
    ensures
        all_model_definitions().len() == all_model_ids().len(),
        forall|i: int| 0 <= i < all_model_definitions().len() ==>
            (#[trigger] all_model_definitions()[i]).id == all_model_ids()[i],
        forall|i: int| 0 <= i < all_model_definitions().len() ==>
            ((#[trigger] all_model_definitions()[i]).backend_kind == BackendKind::Lv2
                <==> all_model_definitions()[i].id@.take(4) == "lv2_"@),
        forall|i: int| 0 <= i < all_model_definitions().len() ==>
            ((#[trigger] all_model_definitions()[i]).supported_instruments == Instruments::All
                <==> (all_model_definitions()[i].id@ == "lv2_invada_tube"@
                    || all_model_definitions()[i].id@ == "lv2_tap_tubewarmth"@)),
{
    lemma_model_ids_distinct();
    reveal_strlit("lv2_");
    reveal_strlit("lv2_caps_spice");
    reveal_strlit("lv2_driva");
    reveal_strlit("lv2_gx_eternity");
    reveal_strlit("lv2_gx_saturator");
    reveal_strlit("lv2_gx_superfuzz");
    reveal_strlit("lv2_gx_tonemachine");
    reveal_strlit("lv2_gx_vmk2");
    reveal_strlit("lv2_invada_tube");
    reveal_strlit("lv2_mda_degrade");
    reveal_strlit("lv2_mda_overdrive");
    reveal_strlit("lv2_ojd");
    reveal_strlit("lv2_paranoia");
    reveal_strlit("lv2_tap_tubewarmth");
    reveal_strlit("lv2_wolf_shaper");
    reveal_strlit("ampeg_scr_di");
    reveal_strlit("nam_analog_man_sun_face");
    reveal_strlit("nam_benson_preamp");
    reveal_strlit("nam_big_muff");
    reveal_strlit("blues_overdrive_bd_2");
    reveal_strlit("boss_ds1_wampler");
    reveal_strlit("nam_boss_ds_2");
    reveal_strlit("boss_fz1w");
    reveal_strlit("boss_hm2_1986");
    reveal_strlit("nam_boss_hm_3");
    reveal_strlit("nam_boss_mt_2_metal_zone");
    reveal_strlit("nam_boss_od_3");
    reveal_strlit("nam_boss_odb3_bass");
    reveal_strlit("nam_browne_protein");
    reveal_strlit("nam_ceriatone_centura");
    reveal_strlit("nam_dallas_rangemaster");
    reveal_strlit("darkglass_alpha_omega");
    reveal_strlit("nam_death_by_audio_fuzz_war");
    reveal_strlit("demonfx_be_od");
    reveal_strlit("nam_digitech_bad_monkey");
    reveal_strlit("nam_digitech_grunge");
    reveal_strlit("nam_earthquaker_hizumitas");
    reveal_strlit("nam_earthquaker_plumes");
    reveal_strlit("nam_ehx_metal_muff");
    reveal_strlit("nam_ehx_soul_food");
    reveal_strlit("nam_fulltone_69");
    reveal_strlit("fulltone_ocd");
    reveal_strlit("fulltone_ocd_v15");
    reveal_strlit("nam_hermida_zendrive");
    reveal_strlit("nam_horizon_precision_drive");
    reveal_strlit("nam_hudson_broadcast");
    reveal_strlit("nam_ibanez_ts9");
    reveal_strlit("nam_ibanez_tube_screamer");
    reveal_strlit("nam_jhs_andy_timmons");
    reveal_strlit("jhs_bonsai");
    reveal_strlit("klon_centaur");
    reveal_strlit("klone");
    reveal_strlit("lokajaudio_der_blend");
    reveal_strlit("nam_maestro_fuzz_tone_fz_1");
    reveal_strlit("maxon_od808");
    reveal_strlit("nam_mesa_throttle_box");
    reveal_strlit("nam_mxr_distortion");
    reveal_strlit("nam_mxr_duke_of_tone");
    reveal_strlit("nam_paul_cochrane_timmy");
    reveal_strlit("nam_pete_cornish_g_2");
    reveal_strlit("nam_pete_cornish_ss_3");
    let d = all_model_definitions();
    let ids = all_model_ids();
    assert forall|i: int| 0 <= i < d.len() implies
        ((#[trigger] d[i]).backend_kind == BackendKind::Lv2 <==> d[i].id@.take(4) == "lv2_"@)
        && (d[i].supported_instruments == Instruments::All
            <==> (d[i].id@ == "lv2_invada_tube"@ || d[i].id@ == "lv2_tap_tubewarmth"@)) by {
        if i == 0 {
            assert(d[i].id@.take(4) =~= "lv2_"@);
            assert(str_texts(ids)[i] != str_texts(ids)[7]);
            assert(str_texts(ids)[i] != str_texts(ids)[12]);
        } else if i == 1 {
            assert(d[i].id@.take(4) =~= "lv2_"@);
            assert(str_texts(ids)[i] != str_texts(ids)[7]);
            assert(str_texts(ids)[i] != str_texts(ids)[12]);
        } else if i == 2 {
            assert(d[i].id@.take(4) =~= "lv2_"@);
            assert(str_texts(ids)[i] != str_texts(ids)[7]);
            assert(str_texts(ids)[i] != str_texts(ids)[12]);
        } else if i == 3 {
            assert(d[i].id@.take(4) =~= "lv2_"@);
            assert(str_texts(ids)[i] != str_texts(ids)[7]);
            assert(str_texts(ids)[i] != str_texts(ids)[12]);
        } else if i == 4 {
            assert(d[i].id@.take(4) =~= "lv2_"@);
            assert(str_texts(ids)[i] != str_texts(ids)[7]);
            assert(str_texts(ids)[i] != str_texts(ids)[12]);
        } else if i == 5 {
            assert(d[i].id@.take(4) =~= "lv2_"@);
            assert(str_texts(ids)[i] != str_texts(ids)[7]);
            assert(str_texts(ids)[i] != str_texts(ids)[12]);
        } else if i == 6 {
            assert(d[i].id@.take(4) =~= "lv2_"@);
            assert(str_texts(ids)[i] != str_texts(ids)[7]);
            assert(str_texts(ids)[i] != str_texts(ids)[12]);
        } else if i == 7 {
            assert(d[i].id@.take(4) =~= "lv2_"@);
        } else if i == 8 {
            assert(d[i].id@.take(4) =~= "lv2_"@);
            assert(str_texts(ids)[i] != str_texts(ids)[7]);
            assert(str_texts(ids)[i] != str_texts(ids)[12]);
        } else if i == 9 {
            assert(d[i].id@.take(4) =~= "lv2_"@);
            assert(str_texts(ids)[i] != str_texts(ids)[7]);
            assert(str_texts(ids)[i] != str_texts(ids)[12]);
        } else if i == 10 {
            assert(d[i].id@.take(4) =~= "lv2_"@);
            assert(str_texts(ids)[i] != str_texts(ids)[7]);
            assert(str_texts(ids)[i] != str_texts(ids)[12]);
        } else if i == 11 {
            assert(d[i].id@.take(4) =~= "lv2_"@);
            assert(str_texts(ids)[i] != str_texts(ids)[7]);
            assert(str_texts(ids)[i] != str_texts(ids)[12]);
        } else if i == 12 {
            assert(d[i].id@.take(4) =~= "lv2_"@);
        } else if i == 13 {
            assert(d[i].id@.take(4) =~= "lv2_"@);
            assert(str_texts(ids)[i] != str_texts(ids)[7]);
            assert(str_texts(ids)[i] != str_texts(ids)[12]);
        } else if i == 14 {
            assert(d[i].id@.take(4)[0] != "lv2_"@[0]);
            assert(str_texts(ids)[i] != str_texts(ids)[7]);
            assert(str_texts(ids)[i] != str_texts(ids)[12]);
        } else if i == 15 {
            assert(d[i].id@.take(4)[0] != "lv2_"@[0]);
            assert(str_texts(ids)[i] != str_texts(ids)[7]);
            assert(str_texts(ids)[i] != str_texts(ids)[12]);
        } else if i == 16 {
            assert(d[i].id@.take(4)[0] != "lv2_"@[0]);
            assert(str_texts(ids)[i] != str_texts(ids)[7]);
            assert(str_texts(ids)[i] != str_texts(ids)[12]);
        } else if i == 17 {
            assert(d[i].id@.take(4)[0] != "lv2_"@[0]);
            assert(str_texts(ids)[i] != str_texts(ids)[7]);
            assert(str_texts(ids)[i] != str_texts(ids)[12]);
        } else if i == 18 {
            assert(d[i].id@.take(4)[0] != "lv2_"@[0]);
            assert(str_texts(ids)[i] != str_texts(ids)[7]);
            assert(str_texts(ids)[i] != str_texts(ids)[12]);
        } else if i == 19 {
            assert(d[i].id@.take(4)[0] != "lv2_"@[0]);
            assert(str_texts(ids)[i] != str_texts(ids)[7]);
            assert(str_texts(ids)[i] != str_texts(ids)[12]);
        } else if i == 20 {
            assert(d[i].id@.take(4)[0] != "lv2_"@[0]);
            assert(str_texts(ids)[i] != str_texts(ids)[7]);
            assert(str_texts(ids)[i] != str_texts(ids)[12]);
        } else if i == 21 {
            assert(d[i].id@.take(4)[0] != "lv2_"@[0]);
            assert(str_texts(ids)[i] != str_texts(ids)[7]);
            assert(str_texts(ids)[i] != str_texts(ids)[12]);
        } else if i == 22 {
            assert(d[i].id@.take(4)[0] != "lv2_"@[0]);
            assert(str_texts(ids)[i] != str_texts(ids)[7]);
            assert(str_texts(ids)[i] != str_texts(ids)[12]);
        } else if i == 23 {
            assert(d[i].id@.take(4)[0] != "lv2_"@[0]);
            assert(str_texts(ids)[i] != str_texts(ids)[7]);
            assert(str_texts(ids)[i] != str_texts(ids)[12]);
        } else if i == 24 {
            assert(d[i].id@.take(4)[0] != "lv2_"@[0]);
            assert(str_texts(ids)[i] != str_texts(ids)[7]);
            assert(str_texts(ids)[i] != str_texts(ids)[12]);
        } else if i == 25 {
            assert(d[i].id@.take(4)[0] != "lv2_"@[0]);
            assert(str_texts(ids)[i] != str_texts(ids)[7]);
            assert(str_texts(ids)[i] != str_texts(ids)[12]);
        } else if i == 26 {
            assert(d[i].id@.take(4)[0] != "lv2_"@[0]);
            assert(str_texts(ids)[i] != str_texts(ids)[7]);
            assert(str_texts(ids)[i] != str_texts(ids)[12]);
        } else if i == 27 {
            assert(d[i].id@.take(4)[0] != "lv2_"@[0]);
            assert(str_texts(ids)[i] != str_texts(ids)[7]);
            assert(str_texts(ids)[i] != str_texts(ids)[12]);
        } else if i == 28 {
            assert(d[i].id@.take(4)[0] != "lv2_"@[0]);
            assert(str_texts(ids)[i] != str_texts(ids)[7]);
            assert(str_texts(ids)[i] != str_texts(ids)[12]);
        } else if i == 29 {
            assert(d[i].id@.take(4)[0] != "lv2_"@[0]);
            assert(str_texts(ids)[i] != str_texts(ids)[7]);
            assert(str_texts(ids)[i] != str_texts(ids)[12]);
        } else if i == 30 {
            assert(d[i].id@.take(4)[0] != "lv2_"@[0]);
            assert(str_texts(ids)[i] != str_texts(ids)[7]);
            assert(str_texts(ids)[i] != str_texts(ids)[12]);
        } else if i == 31 {
            assert(d[i].id@.take(4)[0] != "lv2_"@[0]);
            assert(str_texts(ids)[i] != str_texts(ids)[7]);
            assert(str_texts(ids)[i] != str_texts(ids)[12]);
        } else if i == 32 {
            assert(d[i].id@.take(4)[0] != "lv2_"@[0]);
            assert(str_texts(ids)[i] != str_texts(ids)[7]);
            assert(str_texts(ids)[i] != str_texts(ids)[12]);
        } else if i == 33 {
            assert(d[i].id@.take(4)[0] != "lv2_"@[0]);
            assert(str_texts(ids)[i] != str_texts(ids)[7]);
            assert(str_texts(ids)[i] != str_texts(ids)[12]);
        } else if i == 34 {
            assert(d[i].id@.take(4)[0] != "lv2_"@[0]);
            assert(str_texts(ids)[i] != str_texts(ids)[7]);
            assert(str_texts(ids)[i] != str_texts(ids)[12]);
        } else if i == 35 {
            assert(d[i].id@.take(4)[0] != "lv2_"@[0]);
            assert(str_texts(ids)[i] != str_texts(ids)[7]);
            assert(str_texts(ids)[i] != str_texts(ids)[12]);
        } else if i == 36 {
            assert(d[i].id@.take(4)[0] != "lv2_"@[0]);
            assert(str_texts(ids)[i] != str_texts(ids)[7]);
            assert(str_texts(ids)[i] != str_texts(ids)[12]);
        } else if i == 37 {
            assert(d[i].id@.take(4)[0] != "lv2_"@[0]);
            assert(str_texts(ids)[i] != str_texts(ids)[7]);
            assert(str_texts(ids)[i] != str_texts(ids)[12]);
        } else if i == 38 {
            assert(d[i].id@.take(4)[0] != "lv2_"@[0]);
            assert(str_texts(ids)[i] != str_texts(ids)[7]);
            assert(str_texts(ids)[i] != str_texts(ids)[12]);
        } else if i == 39 {
            assert(d[i].id@.take(4)[0] != "lv2_"@[0]);
            assert(str_texts(ids)[i] != str_texts(ids)[7]);
            assert(str_texts(ids)[i] != str_texts(ids)[12]);
        } else if i == 40 {
            assert(d[i].id@.take(4)[0] != "lv2_"@[0]);
            assert(str_texts(ids)[i] != str_texts(ids)[7]);
            assert(str_texts(ids)[i] != str_texts(ids)[12]);
        } else if i == 41 {
            assert(d[i].id@.take(4)[0] != "lv2_"@[0]);
            assert(str_texts(ids)[i] != str_texts(ids)[7]);
            assert(str_texts(ids)[i] != str_texts(ids)[12]);
        } else if i == 42 {
            assert(d[i].id@.take(4)[0] != "lv2_"@[0]);
            assert(str_texts(ids)[i] != str_texts(ids)[7]);
            assert(str_texts(ids)[i] != str_texts(ids)[12]);
        } else if i == 43 {
            assert(d[i].id@.take(4)[0] != "lv2_"@[0]);
            assert(str_texts(ids)[i] != str_texts(ids)[7]);
            assert(str_texts(ids)[i] != str_texts(ids)[12]);
        } else if i == 44 {
            assert(d[i].id@.take(4)[0] != "lv2_"@[0]);
            assert(str_texts(ids)[i] != str_texts(ids)[7]);
            assert(str_texts(ids)[i] != str_texts(ids)[12]);
        } else if i == 45 {
            assert(d[i].id@.take(4)[0] != "lv2_"@[0]);
            assert(str_texts(ids)[i] != str_texts(ids)[7]);
            assert(str_texts(ids)[i] != str_texts(ids)[12]);
        } else if i == 46 {
            assert(d[i].id@.take(4)[0] != "lv2_"@[0]);
            assert(str_texts(ids)[i] != str_texts(ids)[7]);
            assert(str_texts(ids)[i] != str_texts(ids)[12]);
        } else if i == 47 {
            assert(d[i].id@.take(4)[0] != "lv2_"@[0]);
            assert(str_texts(ids)[i] != str_texts(ids)[7]);
            assert(str_texts(ids)[i] != str_texts(ids)[12]);
        } else if i == 48 {
            assert(d[i].id@.take(4)[0] != "lv2_"@[0]);
            assert(str_texts(ids)[i] != str_texts(ids)[7]);
            assert(str_texts(ids)[i] != str_texts(ids)[12]);
        } else if i == 49 {
            assert(d[i].id@.take(4)[0] != "lv2_"@[0]);
            assert(str_texts(ids)[i] != str_texts(ids)[7]);
            assert(str_texts(ids)[i] != str_texts(ids)[12]);
        } else if i == 50 {
            assert(d[i].id@.take(4)[0] != "lv2_"@[0]);
            assert(str_texts(ids)[i] != str_texts(ids)[7]);
            assert(str_texts(ids)[i] != str_texts(ids)[12]);
        } else if i == 51 {
            assert(d[i].id@.take(4)[1] != "lv2_"@[1]);
            assert(str_texts(ids)[i] != str_texts(ids)[7]);
            assert(str_texts(ids)[i] != str_texts(ids)[12]);
        } else if i == 52 {
            assert(d[i].id@.take(4)[0] != "lv2_"@[0]);
            assert(str_texts(ids)[i] != str_texts(ids)[7]);
            assert(str_texts(ids)[i] != str_texts(ids)[12]);
        } else if i == 53 {
            assert(d[i].id@.take(4)[0] != "lv2_"@[0]);
            assert(str_texts(ids)[i] != str_texts(ids)[7]);
            assert(str_texts(ids)[i] != str_texts(ids)[12]);
        } else if i == 54 {
            assert(d[i].id@.take(4)[0] != "lv2_"@[0]);
            assert(str_texts(ids)[i] != str_texts(ids)[7]);
            assert(str_texts(ids)[i] != str_texts(ids)[12]);
        } else if i == 55 {
            assert(d[i].id@.take(4)[0] != "lv2_"@[0]);
            assert(str_texts(ids)[i] != str_texts(ids)[7]);
            assert(str_texts(ids)[i] != str_texts(ids)[12]);
        } else if i == 56 {
            assert(d[i].id@.take(4)[0] != "lv2_"@[0]);
            assert(str_texts(ids)[i] != str_texts(ids)[7]);
            assert(str_texts(ids)[i] != str_texts(ids)[12]);
        } else if i == 57 {
            assert(d[i].id@.take(4)[0] != "lv2_"@[0]);
            assert(str_texts(ids)[i] != str_texts(ids)[7]);
            assert(str_texts(ids)[i] != str_texts(ids)[12]);
        } else if i == 58 {
            assert(d[i].id@.take(4)[0] != "lv2_"@[0]);
            assert(str_texts(ids)[i] != str_texts(ids)[7]);
            assert(str_texts(ids)[i] != str_texts(ids)[12]);
        } else if i == 59 {
            assert(d[i].id@.take(4)[0] != "lv2_"@[0]);
            assert(str_texts(ids)[i] != str_texts(ids)[7]);
            assert(str_texts(ids)[i] != str_texts(ids)[12]);
        }
    }
}

} // verus!
