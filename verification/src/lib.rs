//! Gain models of a guitar and bass rig: the parameter schema of each
//! model, the captures it was recorded at and how a setting selects one.

pub mod text;
pub mod schema;
pub mod capture;
pub mod error;
pub mod model;
pub mod nam_ampeg_scr_di;
pub mod nam_benson_preamp;
pub mod nam_boss_ds1_wampler;
pub mod nam_boss_ds_2;
pub mod nam_boss_fz1w;
pub mod nam_boss_hm2_1986;
pub mod nam_boss_hm_3;
pub mod nam_boss_mt_2_metal_zone;
pub mod nam_boss_od_3;
pub mod nam_boss_odb3_bass;
pub mod nam_browne_protein;
pub mod nam_darkglass_alpha_omega;
pub mod nam_death_by_audio_fuzz_war;
pub mod nam_demonfx_be_od;
pub mod nam_digitech_bad_monkey;
pub mod nam_digitech_grunge;
pub mod nam_earthquaker_hizumitas;
pub mod nam_earthquaker_plumes;
pub mod nam_ehx_metal_muff;
pub mod nam_ehx_soul_food;
pub mod nam_fulltone_69;
pub mod nam_fulltone_ocd;
pub mod nam_fulltone_ocd_v15;
pub mod nam_hermida_zendrive;
pub mod nam_hudson_broadcast;
pub mod nam_klon_centaur;
pub mod nam_lokajaudio_der_blend;
pub mod nam_maestro_fuzz_tone_fz_1;
pub mod nam_mxr_distortion;
pub mod nam_mxr_duke_of_tone;
pub mod lv2_caps_spice;
pub mod lv2_driva;
pub mod lv2_gx_eternity;
pub mod lv2_gx_saturator;
pub mod lv2_gx_superfuzz;
pub mod lv2_gx_tonemachine;
pub mod lv2_gx_vmk2;
pub mod lv2_invada_tube;
pub mod lv2_mda_degrade;
pub mod lv2_mda_overdrive;
pub mod lv2_ojd;
pub mod lv2_paranoia;
pub mod lv2_tap_tubewarmth;
pub mod lv2_wolf_shaper;
pub mod nam_analog_man_sun_face;
pub mod nam_big_muff;
pub mod nam_ceriatone_centura;
pub mod nam_dallas_rangemaster;
pub mod nam_horizon_precision_drive;
pub mod nam_ibanez_tube_screamer;
pub mod nam_mesa_throttle_box;
pub mod nam_paul_cochrane_timmy;
pub mod nam_pete_cornish_g_2;
pub mod nam_pete_cornish_ss_3;
pub mod nam_jhs_andy_timmons;
pub mod nam_ibanez_ts9;
pub mod nam_blues_overdrive_bd_2;
pub mod nam_maxon_od808;
pub mod nam_jhs_bonsai;
pub mod nam_klone;
pub mod registry;
