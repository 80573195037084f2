//! Every capture table: each recorded setting selects its file, the schema's
//! defaults select a capture, and settings with no capture are refused.

use block_gain::error::GainError;
use block_gain::schema::ParameterKind;

#[test]
fn nam_ampeg_scr_di_every_capture_resolves() {
    assert_eq!(block_gain::nam_ampeg_scr_di::resolve_capture("standard").unwrap(), "pedals/ampeg_scr_di/scr_di_standard.nam");
    assert_eq!(block_gain::nam_ampeg_scr_di::asset_summary("standard").unwrap(), "model='pedals/ampeg_scr_di/scr_di_standard.nam'");
    assert!(block_gain::nam_ampeg_scr_di::validate_params("standard").is_ok());
    assert_eq!(block_gain::nam_ampeg_scr_di::resolve_capture("ultra_lo").unwrap(), "pedals/ampeg_scr_di/scr_di_ultra_lo.nam");
    assert_eq!(block_gain::nam_ampeg_scr_di::asset_summary("ultra_lo").unwrap(), "model='pedals/ampeg_scr_di/scr_di_ultra_lo.nam'");
    assert!(block_gain::nam_ampeg_scr_di::validate_params("ultra_lo").is_ok());
    assert_eq!(block_gain::nam_ampeg_scr_di::resolve_capture("ultra_hi").unwrap(), "pedals/ampeg_scr_di/scr_di_ultra_hi.nam");
    assert_eq!(block_gain::nam_ampeg_scr_di::asset_summary("ultra_hi").unwrap(), "model='pedals/ampeg_scr_di/scr_di_ultra_hi.nam'");
    assert!(block_gain::nam_ampeg_scr_di::validate_params("ultra_hi").is_ok());
    assert_eq!(block_gain::nam_ampeg_scr_di::resolve_capture("ultra_lo_hi").unwrap(), "pedals/ampeg_scr_di/scr_di_ultra_lo_hi.nam");
    assert_eq!(block_gain::nam_ampeg_scr_di::asset_summary("ultra_lo_hi").unwrap(), "model='pedals/ampeg_scr_di/scr_di_ultra_lo_hi.nam'");
    assert!(block_gain::nam_ampeg_scr_di::validate_params("ultra_lo_hi").is_ok());
    assert_eq!(block_gain::nam_ampeg_scr_di::resolve_capture("scrambler_med").unwrap(), "pedals/ampeg_scr_di/scr_di_scrambler_med.nam");
    assert_eq!(block_gain::nam_ampeg_scr_di::asset_summary("scrambler_med").unwrap(), "model='pedals/ampeg_scr_di/scr_di_scrambler_med.nam'");
    assert!(block_gain::nam_ampeg_scr_di::validate_params("scrambler_med").is_ok());
    assert_eq!(block_gain::nam_ampeg_scr_di::resolve_capture("scrambler_max").unwrap(), "pedals/ampeg_scr_di/scr_di_scrambler_max.nam");
    assert_eq!(block_gain::nam_ampeg_scr_di::asset_summary("scrambler_max").unwrap(), "model='pedals/ampeg_scr_di/scr_di_scrambler_max.nam'");
    assert!(block_gain::nam_ampeg_scr_di::validate_params("scrambler_max").is_ok());
}

#[test]
fn nam_ampeg_scr_di_defaults_validate() {
    let schema = block_gain::nam_ampeg_scr_di::model_schema();
    let params = schema.parameters.unwrap();
    let mut defaults: Vec<&str> = Vec::new();
    for p in params.iter() {
        match &p.kind {
            ParameterKind::Enum { default, .. } => defaults.push(default.unwrap()),
            _ => panic!("every parameter of this model is enumerated"),
        }
    }
    assert_eq!(defaults, vec!["standard"]);
    assert!(block_gain::nam_ampeg_scr_di::validate_params(defaults[0]).is_ok());
}

#[test]
fn nam_ampeg_scr_di_unknown_setting_is_refused() {
    let expected = "gain model 'ampeg_scr_di' does not support tone='bogus'";
    match block_gain::nam_ampeg_scr_di::validate_params("bogus") {
        Err(GainError::UnsupportedSetting(m)) => assert_eq!(m, expected),
        _ => panic!("an unknown setting must be refused"),
    }
    assert_eq!(block_gain::nam_ampeg_scr_di::asset_summary("bogus").unwrap_err().message(), expected);
    assert!(block_gain::nam_ampeg_scr_di::resolve_capture("bogus").is_err());
}

#[test]
fn nam_benson_preamp_every_capture_resolves() {
    assert_eq!(block_gain::nam_benson_preamp::resolve_capture("flat", "3").unwrap(), "pedals/benson_preamp/benson_preamp_01_t6b6d3v6.nam");
    assert_eq!(block_gain::nam_benson_preamp::asset_summary("flat", "3").unwrap(), "model='pedals/benson_preamp/benson_preamp_01_t6b6d3v6.nam'");
    assert!(block_gain::nam_benson_preamp::validate_params("flat", "3").is_ok());
    assert_eq!(block_gain::nam_benson_preamp::resolve_capture("flat", "6").unwrap(), "pedals/benson_preamp/benson_preamp_02_t6b6d6v6.nam");
    assert_eq!(block_gain::nam_benson_preamp::asset_summary("flat", "6").unwrap(), "model='pedals/benson_preamp/benson_preamp_02_t6b6d6v6.nam'");
    assert!(block_gain::nam_benson_preamp::validate_params("flat", "6").is_ok());
    assert_eq!(block_gain::nam_benson_preamp::resolve_capture("flat", "9").unwrap(), "pedals/benson_preamp/benson_preamp_03_t6b6d9v6.nam");
    assert_eq!(block_gain::nam_benson_preamp::asset_summary("flat", "9").unwrap(), "model='pedals/benson_preamp/benson_preamp_03_t6b6d9v6.nam'");
    assert!(block_gain::nam_benson_preamp::validate_params("flat", "9").is_ok());
    assert_eq!(block_gain::nam_benson_preamp::resolve_capture("bright", "3").unwrap(), "pedals/benson_preamp/benson_preamp_04_t9b3d3v6.nam");
    assert_eq!(block_gain::nam_benson_preamp::asset_summary("bright", "3").unwrap(), "model='pedals/benson_preamp/benson_preamp_04_t9b3d3v6.nam'");
    assert!(block_gain::nam_benson_preamp::validate_params("bright", "3").is_ok());
    assert_eq!(block_gain::nam_benson_preamp::resolve_capture("bright", "6").unwrap(), "pedals/benson_preamp/benson_preamp_05_t9b3d6v6.nam");
    assert_eq!(block_gain::nam_benson_preamp::asset_summary("bright", "6").unwrap(), "model='pedals/benson_preamp/benson_preamp_05_t9b3d6v6.nam'");
    assert!(block_gain::nam_benson_preamp::validate_params("bright", "6").is_ok());
    assert_eq!(block_gain::nam_benson_preamp::resolve_capture("bright", "9").unwrap(), "pedals/benson_preamp/benson_preamp_06_t9b3d9v6.nam");
    assert_eq!(block_gain::nam_benson_preamp::asset_summary("bright", "9").unwrap(), "model='pedals/benson_preamp/benson_preamp_06_t9b3d9v6.nam'");
    assert!(block_gain::nam_benson_preamp::validate_params("bright", "9").is_ok());
    assert_eq!(block_gain::nam_benson_preamp::resolve_capture("dark", "3").unwrap(), "pedals/benson_preamp/benson_preamp_07_t4b8d3v6.nam");
    assert_eq!(block_gain::nam_benson_preamp::asset_summary("dark", "3").unwrap(), "model='pedals/benson_preamp/benson_preamp_07_t4b8d3v6.nam'");
    assert!(block_gain::nam_benson_preamp::validate_params("dark", "3").is_ok());
    assert_eq!(block_gain::nam_benson_preamp::resolve_capture("dark", "6").unwrap(), "pedals/benson_preamp/benson_preamp_08_t4b8d6v6.nam");
    assert_eq!(block_gain::nam_benson_preamp::asset_summary("dark", "6").unwrap(), "model='pedals/benson_preamp/benson_preamp_08_t4b8d6v6.nam'");
    assert!(block_gain::nam_benson_preamp::validate_params("dark", "6").is_ok());
    assert_eq!(block_gain::nam_benson_preamp::resolve_capture("dark", "9").unwrap(), "pedals/benson_preamp/benson_preamp_09_t4b8d9v6.nam");
    assert_eq!(block_gain::nam_benson_preamp::asset_summary("dark", "9").unwrap(), "model='pedals/benson_preamp/benson_preamp_09_t4b8d9v6.nam'");
    assert!(block_gain::nam_benson_preamp::validate_params("dark", "9").is_ok());
}

#[test]
fn nam_benson_preamp_defaults_validate() {
    let schema = block_gain::nam_benson_preamp::model_schema();
    let params = schema.parameters.unwrap();
    let mut defaults: Vec<&str> = Vec::new();
    for p in params.iter() {
        match &p.kind {
            ParameterKind::Enum { default, .. } => defaults.push(default.unwrap()),
            _ => panic!("every parameter of this model is enumerated"),
        }
    }
    assert_eq!(defaults, vec!["flat", "6"]);
    assert!(block_gain::nam_benson_preamp::validate_params(defaults[0], defaults[1]).is_ok());
}

#[test]
fn nam_benson_preamp_unknown_setting_is_refused() {
    let expected = "gain 'nam_benson_preamp' has no capture for eq=bogus drive=6";
    match block_gain::nam_benson_preamp::validate_params("bogus", "6") {
        Err(GainError::UnsupportedSetting(m)) => assert_eq!(m, expected),
        _ => panic!("an unknown setting must be refused"),
    }
    assert_eq!(block_gain::nam_benson_preamp::asset_summary("bogus", "6").unwrap_err().message(), expected);
    assert!(block_gain::nam_benson_preamp::resolve_capture("bogus", "6").is_err());
}

#[test]
fn nam_boss_ds1_wampler_every_capture_resolves() {
    let c = block_gain::nam_boss_ds1_wampler::resolve_capture("2", "0").unwrap();
    assert_eq!(c.model_path, "pedals/boss_ds1_wampler/ds1w_t2_d0.nam");
    assert_eq!(c.params.tone, "2");
    assert_eq!(c.params.dist, "0");
    assert_eq!(block_gain::nam_boss_ds1_wampler::asset_summary("2", "0").unwrap(), "model='pedals/boss_ds1_wampler/ds1w_t2_d0.nam'");
    assert!(block_gain::nam_boss_ds1_wampler::validate_params("2", "0").is_ok());
    let c = block_gain::nam_boss_ds1_wampler::resolve_capture("2", "5").unwrap();
    assert_eq!(c.model_path, "pedals/boss_ds1_wampler/ds1w_t2_d5.nam");
    assert_eq!(c.params.tone, "2");
    assert_eq!(c.params.dist, "5");
    assert_eq!(block_gain::nam_boss_ds1_wampler::asset_summary("2", "5").unwrap(), "model='pedals/boss_ds1_wampler/ds1w_t2_d5.nam'");
    assert!(block_gain::nam_boss_ds1_wampler::validate_params("2", "5").is_ok());
    let c = block_gain::nam_boss_ds1_wampler::resolve_capture("2", "10").unwrap();
    assert_eq!(c.model_path, "pedals/boss_ds1_wampler/ds1w_t2_d10.nam");
    assert_eq!(c.params.tone, "2");
    assert_eq!(c.params.dist, "10");
    assert_eq!(block_gain::nam_boss_ds1_wampler::asset_summary("2", "10").unwrap(), "model='pedals/boss_ds1_wampler/ds1w_t2_d10.nam'");
    assert!(block_gain::nam_boss_ds1_wampler::validate_params("2", "10").is_ok());
    let c = block_gain::nam_boss_ds1_wampler::resolve_capture("6", "0").unwrap();
    assert_eq!(c.model_path, "pedals/boss_ds1_wampler/ds1w_t6_d0.nam");
    assert_eq!(c.params.tone, "6");
    assert_eq!(c.params.dist, "0");
    assert_eq!(block_gain::nam_boss_ds1_wampler::asset_summary("6", "0").unwrap(), "model='pedals/boss_ds1_wampler/ds1w_t6_d0.nam'");
    assert!(block_gain::nam_boss_ds1_wampler::validate_params("6", "0").is_ok());
    let c = block_gain::nam_boss_ds1_wampler::resolve_capture("6", "5").unwrap();
    assert_eq!(c.model_path, "pedals/boss_ds1_wampler/ds1w_t6_d5.nam");
    assert_eq!(c.params.tone, "6");
    assert_eq!(c.params.dist, "5");
    assert_eq!(block_gain::nam_boss_ds1_wampler::asset_summary("6", "5").unwrap(), "model='pedals/boss_ds1_wampler/ds1w_t6_d5.nam'");
    assert!(block_gain::nam_boss_ds1_wampler::validate_params("6", "5").is_ok());
    let c = block_gain::nam_boss_ds1_wampler::resolve_capture("6", "10").unwrap();
    assert_eq!(c.model_path, "pedals/boss_ds1_wampler/ds1w_t6_d10.nam");
    assert_eq!(c.params.tone, "6");
    assert_eq!(c.params.dist, "10");
    assert_eq!(block_gain::nam_boss_ds1_wampler::asset_summary("6", "10").unwrap(), "model='pedals/boss_ds1_wampler/ds1w_t6_d10.nam'");
    assert!(block_gain::nam_boss_ds1_wampler::validate_params("6", "10").is_ok());
    let c = block_gain::nam_boss_ds1_wampler::resolve_capture("8", "0").unwrap();
    assert_eq!(c.model_path, "pedals/boss_ds1_wampler/ds1w_t8_d0.nam");
    assert_eq!(c.params.tone, "8");
    assert_eq!(c.params.dist, "0");
    assert_eq!(block_gain::nam_boss_ds1_wampler::asset_summary("8", "0").unwrap(), "model='pedals/boss_ds1_wampler/ds1w_t8_d0.nam'");
    assert!(block_gain::nam_boss_ds1_wampler::validate_params("8", "0").is_ok());
    let c = block_gain::nam_boss_ds1_wampler::resolve_capture("8", "5").unwrap();
    assert_eq!(c.model_path, "pedals/boss_ds1_wampler/ds1w_t8_d5.nam");
    assert_eq!(c.params.tone, "8");
    assert_eq!(c.params.dist, "5");
    assert_eq!(block_gain::nam_boss_ds1_wampler::asset_summary("8", "5").unwrap(), "model='pedals/boss_ds1_wampler/ds1w_t8_d5.nam'");
    assert!(block_gain::nam_boss_ds1_wampler::validate_params("8", "5").is_ok());
    let c = block_gain::nam_boss_ds1_wampler::resolve_capture("8", "10").unwrap();
    assert_eq!(c.model_path, "pedals/boss_ds1_wampler/ds1w_t8_d10.nam");
    assert_eq!(c.params.tone, "8");
    assert_eq!(c.params.dist, "10");
    assert_eq!(block_gain::nam_boss_ds1_wampler::asset_summary("8", "10").unwrap(), "model='pedals/boss_ds1_wampler/ds1w_t8_d10.nam'");
    assert!(block_gain::nam_boss_ds1_wampler::validate_params("8", "10").is_ok());
}

#[test]
fn nam_boss_ds1_wampler_defaults_validate() {
    let schema = block_gain::nam_boss_ds1_wampler::model_schema();
    let params = schema.parameters.unwrap();
    let mut defaults: Vec<&str> = Vec::new();
    for p in params.iter() {
        match &p.kind {
            ParameterKind::Enum { default, .. } => defaults.push(default.unwrap()),
            _ => panic!("every parameter of this model is enumerated"),
        }
    }
    assert_eq!(defaults, vec!["6", "5"]);
    assert!(block_gain::nam_boss_ds1_wampler::validate_params(defaults[0], defaults[1]).is_ok());
}

#[test]
fn nam_boss_ds1_wampler_unknown_setting_is_refused() {
    let expected = "gain model 'boss_ds1_wampler' does not support tone='bogus' dist='5'";
    match block_gain::nam_boss_ds1_wampler::validate_params("bogus", "5") {
        Err(GainError::UnsupportedSetting(m)) => assert_eq!(m, expected),
        _ => panic!("an unknown setting must be refused"),
    }
    assert_eq!(block_gain::nam_boss_ds1_wampler::asset_summary("bogus", "5").unwrap_err().message(), expected);
    assert!(block_gain::nam_boss_ds1_wampler::resolve_capture("bogus", "5").is_err());
}

#[test]
fn nam_boss_ds_2_every_capture_resolves() {
    assert_eq!(block_gain::nam_boss_ds_2::resolve_capture("1", "boost").unwrap(), "pedals/boss_ds_2/ds2_1_boost.nam");
    assert_eq!(block_gain::nam_boss_ds_2::asset_summary("1", "boost").unwrap(), "model='pedals/boss_ds_2/ds2_1_boost.nam'");
    assert!(block_gain::nam_boss_ds_2::validate_params("1", "boost").is_ok());
    assert_eq!(block_gain::nam_boss_ds_2::resolve_capture("1", "default").unwrap(), "pedals/boss_ds_2/ds2_1_default.nam");
    assert_eq!(block_gain::nam_boss_ds_2::asset_summary("1", "default").unwrap(), "model='pedals/boss_ds_2/ds2_1_default.nam'");
    assert!(block_gain::nam_boss_ds_2::validate_params("1", "default").is_ok());
    assert_eq!(block_gain::nam_boss_ds_2::resolve_capture("1", "max_dist").unwrap(), "pedals/boss_ds_2/ds2_1_max_dist.nam");
    assert_eq!(block_gain::nam_boss_ds_2::asset_summary("1", "max_dist").unwrap(), "model='pedals/boss_ds_2/ds2_1_max_dist.nam'");
    assert!(block_gain::nam_boss_ds_2::validate_params("1", "max_dist").is_ok());
    assert_eq!(block_gain::nam_boss_ds_2::resolve_capture("2", "boost").unwrap(), "pedals/boss_ds_2/ds2_2_boost.nam");
    assert_eq!(block_gain::nam_boss_ds_2::asset_summary("2", "boost").unwrap(), "model='pedals/boss_ds_2/ds2_2_boost.nam'");
    assert!(block_gain::nam_boss_ds_2::validate_params("2", "boost").is_ok());
    assert_eq!(block_gain::nam_boss_ds_2::resolve_capture("2", "default").unwrap(), "pedals/boss_ds_2/ds2_2_turbo_default.nam");
    assert_eq!(block_gain::nam_boss_ds_2::asset_summary("2", "default").unwrap(), "model='pedals/boss_ds_2/ds2_2_turbo_default.nam'");
    assert!(block_gain::nam_boss_ds_2::validate_params("2", "default").is_ok());
    assert_eq!(block_gain::nam_boss_ds_2::resolve_capture("2", "max_dist").unwrap(), "pedals/boss_ds_2/ds2_2_turbo_max_dist.nam");
    assert_eq!(block_gain::nam_boss_ds_2::asset_summary("2", "max_dist").unwrap(), "model='pedals/boss_ds_2/ds2_2_turbo_max_dist.nam'");
    assert!(block_gain::nam_boss_ds_2::validate_params("2", "max_dist").is_ok());
}

#[test]
fn nam_boss_ds_2_defaults_validate() {
    let schema = block_gain::nam_boss_ds_2::model_schema();
    let params = schema.parameters.unwrap();
    let mut defaults: Vec<&str> = Vec::new();
    for p in params.iter() {
        match &p.kind {
            ParameterKind::Enum { default, .. } => defaults.push(default.unwrap()),
            _ => panic!("every parameter of this model is enumerated"),
        }
    }
    assert_eq!(defaults, vec!["1", "default"]);
    assert!(block_gain::nam_boss_ds_2::validate_params(defaults[0], defaults[1]).is_ok());
}

#[test]
fn nam_boss_ds_2_unknown_setting_is_refused() {
    let expected = "gain 'nam_boss_ds_2' has no capture for mode=bogus character=default";
    match block_gain::nam_boss_ds_2::validate_params("bogus", "default") {
        Err(GainError::UnsupportedSetting(m)) => assert_eq!(m, expected),
        _ => panic!("an unknown setting must be refused"),
    }
    assert_eq!(block_gain::nam_boss_ds_2::asset_summary("bogus", "default").unwrap_err().message(), expected);
    assert!(block_gain::nam_boss_ds_2::resolve_capture("bogus", "default").is_err());
}

#[test]
fn nam_boss_fz1w_every_capture_resolves() {
    let c = block_gain::nam_boss_fz1w::resolve_capture("modern", "2").unwrap();
    assert_eq!(c.model_path, "pedals/boss_fz1w/fz1w_modern_f02.nam");
    assert_eq!(c.params.mode, "modern");
    assert_eq!(c.params.fuzz, "2");
    assert_eq!(block_gain::nam_boss_fz1w::asset_summary("modern", "2").unwrap(), "model='pedals/boss_fz1w/fz1w_modern_f02.nam'");
    assert!(block_gain::nam_boss_fz1w::validate_params("modern", "2").is_ok());
    let c = block_gain::nam_boss_fz1w::resolve_capture("modern", "5").unwrap();
    assert_eq!(c.model_path, "pedals/boss_fz1w/fz1w_modern_f05.nam");
    assert_eq!(c.params.mode, "modern");
    assert_eq!(c.params.fuzz, "5");
    assert_eq!(block_gain::nam_boss_fz1w::asset_summary("modern", "5").unwrap(), "model='pedals/boss_fz1w/fz1w_modern_f05.nam'");
    assert!(block_gain::nam_boss_fz1w::validate_params("modern", "5").is_ok());
    let c = block_gain::nam_boss_fz1w::resolve_capture("modern", "7").unwrap();
    assert_eq!(c.model_path, "pedals/boss_fz1w/fz1w_modern_f07.nam");
    assert_eq!(c.params.mode, "modern");
    assert_eq!(c.params.fuzz, "7");
    assert_eq!(block_gain::nam_boss_fz1w::asset_summary("modern", "7").unwrap(), "model='pedals/boss_fz1w/fz1w_modern_f07.nam'");
    assert!(block_gain::nam_boss_fz1w::validate_params("modern", "7").is_ok());
    let c = block_gain::nam_boss_fz1w::resolve_capture("modern", "11").unwrap();
    assert_eq!(c.model_path, "pedals/boss_fz1w/fz1w_modern_f11.nam");
    assert_eq!(c.params.mode, "modern");
    assert_eq!(c.params.fuzz, "11");
    assert_eq!(block_gain::nam_boss_fz1w::asset_summary("modern", "11").unwrap(), "model='pedals/boss_fz1w/fz1w_modern_f11.nam'");
    assert!(block_gain::nam_boss_fz1w::validate_params("modern", "11").is_ok());
    let c = block_gain::nam_boss_fz1w::resolve_capture("vintage", "2").unwrap();
    assert_eq!(c.model_path, "pedals/boss_fz1w/fz1w_vintage_f02.nam");
    assert_eq!(c.params.mode, "vintage");
    assert_eq!(c.params.fuzz, "2");
    assert_eq!(block_gain::nam_boss_fz1w::asset_summary("vintage", "2").unwrap(), "model='pedals/boss_fz1w/fz1w_vintage_f02.nam'");
    assert!(block_gain::nam_boss_fz1w::validate_params("vintage", "2").is_ok());
    let c = block_gain::nam_boss_fz1w::resolve_capture("vintage", "5").unwrap();
    assert_eq!(c.model_path, "pedals/boss_fz1w/fz1w_vintage_f05.nam");
    assert_eq!(c.params.mode, "vintage");
    assert_eq!(c.params.fuzz, "5");
    assert_eq!(block_gain::nam_boss_fz1w::asset_summary("vintage", "5").unwrap(), "model='pedals/boss_fz1w/fz1w_vintage_f05.nam'");
    assert!(block_gain::nam_boss_fz1w::validate_params("vintage", "5").is_ok());
    let c = block_gain::nam_boss_fz1w::resolve_capture("vintage", "7").unwrap();
    assert_eq!(c.model_path, "pedals/boss_fz1w/fz1w_vintage_f07.nam");
    assert_eq!(c.params.mode, "vintage");
    assert_eq!(c.params.fuzz, "7");
    assert_eq!(block_gain::nam_boss_fz1w::asset_summary("vintage", "7").unwrap(), "model='pedals/boss_fz1w/fz1w_vintage_f07.nam'");
    assert!(block_gain::nam_boss_fz1w::validate_params("vintage", "7").is_ok());
    let c = block_gain::nam_boss_fz1w::resolve_capture("vintage", "11").unwrap();
    assert_eq!(c.model_path, "pedals/boss_fz1w/fz1w_vintage_f11.nam");
    assert_eq!(c.params.mode, "vintage");
    assert_eq!(c.params.fuzz, "11");
    assert_eq!(block_gain::nam_boss_fz1w::asset_summary("vintage", "11").unwrap(), "model='pedals/boss_fz1w/fz1w_vintage_f11.nam'");
    assert!(block_gain::nam_boss_fz1w::validate_params("vintage", "11").is_ok());
}

#[test]
fn nam_boss_fz1w_defaults_validate() {
    let schema = block_gain::nam_boss_fz1w::model_schema();
    let params = schema.parameters.unwrap();
    let mut defaults: Vec<&str> = Vec::new();
    for p in params.iter() {
        match &p.kind {
            ParameterKind::Enum { default, .. } => defaults.push(default.unwrap()),
            _ => panic!("every parameter of this model is enumerated"),
        }
    }
    assert_eq!(defaults, vec!["modern", "5"]);
    assert!(block_gain::nam_boss_fz1w::validate_params(defaults[0], defaults[1]).is_ok());
}

#[test]
fn nam_boss_fz1w_unknown_setting_is_refused() {
    let expected = "gain model 'boss_fz1w' does not support mode='bogus' fuzz='5'";
    match block_gain::nam_boss_fz1w::validate_params("bogus", "5") {
        Err(GainError::UnsupportedSetting(m)) => assert_eq!(m, expected),
        _ => panic!("an unknown setting must be refused"),
    }
    assert_eq!(block_gain::nam_boss_fz1w::asset_summary("bogus", "5").unwrap_err().message(), expected);
    assert!(block_gain::nam_boss_fz1w::resolve_capture("bogus", "5").is_err());
}

#[test]
fn nam_boss_hm2_1986_every_capture_resolves() {
    assert_eq!(block_gain::nam_boss_hm2_1986::resolve_capture("chainsaw_0gain").unwrap(), "pedals/boss_hm2_1986/hm2_chainsaw_0gain.nam");
    assert_eq!(block_gain::nam_boss_hm2_1986::asset_summary("chainsaw_0gain").unwrap(), "model='pedals/boss_hm2_1986/hm2_chainsaw_0gain.nam'");
    assert!(block_gain::nam_boss_hm2_1986::validate_params("chainsaw_0gain").is_ok());
    assert_eq!(block_gain::nam_boss_hm2_1986::resolve_capture("chainsaw").unwrap(), "pedals/boss_hm2_1986/hm2_chainsaw.nam");
    assert_eq!(block_gain::nam_boss_hm2_1986::asset_summary("chainsaw").unwrap(), "model='pedals/boss_hm2_1986/hm2_chainsaw.nam'");
    assert!(block_gain::nam_boss_hm2_1986::validate_params("chainsaw").is_ok());
    assert_eq!(block_gain::nam_boss_hm2_1986::resolve_capture("medium").unwrap(), "pedals/boss_hm2_1986/hm2_medium.nam");
    assert_eq!(block_gain::nam_boss_hm2_1986::asset_summary("medium").unwrap(), "model='pedals/boss_hm2_1986/hm2_medium.nam'");
    assert!(block_gain::nam_boss_hm2_1986::validate_params("medium").is_ok());
    assert_eq!(block_gain::nam_boss_hm2_1986::resolve_capture("warm").unwrap(), "pedals/boss_hm2_1986/hm2_warm.nam");
    assert_eq!(block_gain::nam_boss_hm2_1986::asset_summary("warm").unwrap(), "model='pedals/boss_hm2_1986/hm2_warm.nam'");
    assert!(block_gain::nam_boss_hm2_1986::validate_params("warm").is_ok());
    assert_eq!(block_gain::nam_boss_hm2_1986::resolve_capture("bright").unwrap(), "pedals/boss_hm2_1986/hm2_bright.nam");
    assert_eq!(block_gain::nam_boss_hm2_1986::asset_summary("bright").unwrap(), "model='pedals/boss_hm2_1986/hm2_bright.nam'");
    assert!(block_gain::nam_boss_hm2_1986::validate_params("bright").is_ok());
    assert_eq!(block_gain::nam_boss_hm2_1986::resolve_capture("high_gain").unwrap(), "pedals/boss_hm2_1986/hm2_high_gain.nam");
    assert_eq!(block_gain::nam_boss_hm2_1986::asset_summary("high_gain").unwrap(), "model='pedals/boss_hm2_1986/hm2_high_gain.nam'");
    assert!(block_gain::nam_boss_hm2_1986::validate_params("high_gain").is_ok());
    assert_eq!(block_gain::nam_boss_hm2_1986::resolve_capture("full").unwrap(), "pedals/boss_hm2_1986/hm2_full.nam");
    assert_eq!(block_gain::nam_boss_hm2_1986::asset_summary("full").unwrap(), "model='pedals/boss_hm2_1986/hm2_full.nam'");
    assert!(block_gain::nam_boss_hm2_1986::validate_params("full").is_ok());
}

#[test]
fn nam_boss_hm2_1986_defaults_validate() {
    let schema = block_gain::nam_boss_hm2_1986::model_schema();
    let params = schema.parameters.unwrap();
    let mut defaults: Vec<&str> = Vec::new();
    for p in params.iter() {
        match &p.kind {
            ParameterKind::Enum { default, .. } => defaults.push(default.unwrap()),
            _ => panic!("every parameter of this model is enumerated"),
        }
    }
    assert_eq!(defaults, vec!["chainsaw"]);
    assert!(block_gain::nam_boss_hm2_1986::validate_params(defaults[0]).is_ok());
}

#[test]
fn nam_boss_hm2_1986_unknown_setting_is_refused() {
    let expected = "gain model 'boss_hm2_1986' does not support tone='bogus'";
    match block_gain::nam_boss_hm2_1986::validate_params("bogus") {
        Err(GainError::UnsupportedSetting(m)) => assert_eq!(m, expected),
        _ => panic!("an unknown setting must be refused"),
    }
    assert_eq!(block_gain::nam_boss_hm2_1986::asset_summary("bogus").unwrap_err().message(), expected);
    assert!(block_gain::nam_boss_hm2_1986::resolve_capture("bogus").is_err());
}

#[test]
fn nam_boss_hm_3_every_capture_resolves() {
    assert_eq!(block_gain::nam_boss_hm_3::resolve_capture("5", "5", "5").unwrap(), "pedals/boss_hm_3/boss_hm3_lows5_highs5_dist5_boss_hm3.nam");
    assert_eq!(block_gain::nam_boss_hm_3::asset_summary("5", "5", "5").unwrap(), "model='pedals/boss_hm_3/boss_hm3_lows5_highs5_dist5_boss_hm3.nam'");
    assert!(block_gain::nam_boss_hm_3::validate_params("5", "5", "5").is_ok());
    assert_eq!(block_gain::nam_boss_hm_3::resolve_capture("5", "5", "10").unwrap(), "pedals/boss_hm_3/boss_hm3_lows5_highs5_dist10_boss_hm3.nam");
    assert_eq!(block_gain::nam_boss_hm_3::asset_summary("5", "5", "10").unwrap(), "model='pedals/boss_hm_3/boss_hm3_lows5_highs5_dist10_boss_hm3.nam'");
    assert!(block_gain::nam_boss_hm_3::validate_params("5", "5", "10").is_ok());
    assert_eq!(block_gain::nam_boss_hm_3::resolve_capture("5", "10", "5").unwrap(), "pedals/boss_hm_3/boss_hm3_lows5_highs10_dist5_boss_hm3.nam");
    assert_eq!(block_gain::nam_boss_hm_3::asset_summary("5", "10", "5").unwrap(), "model='pedals/boss_hm_3/boss_hm3_lows5_highs10_dist5_boss_hm3.nam'");
    assert!(block_gain::nam_boss_hm_3::validate_params("5", "10", "5").is_ok());
    assert_eq!(block_gain::nam_boss_hm_3::resolve_capture("5", "10", "10").unwrap(), "pedals/boss_hm_3/boss_hm3_lows5_highs10_dist10_boss_hm3.nam");
    assert_eq!(block_gain::nam_boss_hm_3::asset_summary("5", "10", "10").unwrap(), "model='pedals/boss_hm_3/boss_hm3_lows5_highs10_dist10_boss_hm3.nam'");
    assert!(block_gain::nam_boss_hm_3::validate_params("5", "10", "10").is_ok());
    assert_eq!(block_gain::nam_boss_hm_3::resolve_capture("10", "5", "5").unwrap(), "pedals/boss_hm_3/boss_hm3_lows10_highs5_dist5_boss_hm3.nam");
    assert_eq!(block_gain::nam_boss_hm_3::asset_summary("10", "5", "5").unwrap(), "model='pedals/boss_hm_3/boss_hm3_lows10_highs5_dist5_boss_hm3.nam'");
    assert!(block_gain::nam_boss_hm_3::validate_params("10", "5", "5").is_ok());
    assert_eq!(block_gain::nam_boss_hm_3::resolve_capture("10", "5", "10").unwrap(), "pedals/boss_hm_3/boss_hm3_lows10_highs5_dist10_boss_hm3.nam");
    assert_eq!(block_gain::nam_boss_hm_3::asset_summary("10", "5", "10").unwrap(), "model='pedals/boss_hm_3/boss_hm3_lows10_highs5_dist10_boss_hm3.nam'");
    assert!(block_gain::nam_boss_hm_3::validate_params("10", "5", "10").is_ok());
    assert_eq!(block_gain::nam_boss_hm_3::resolve_capture("10", "10", "5").unwrap(), "pedals/boss_hm_3/boss_hm3_lows10_highs10_dist5_boss_hm3.nam");
    assert_eq!(block_gain::nam_boss_hm_3::asset_summary("10", "10", "5").unwrap(), "model='pedals/boss_hm_3/boss_hm3_lows10_highs10_dist5_boss_hm3.nam'");
    assert!(block_gain::nam_boss_hm_3::validate_params("10", "10", "5").is_ok());
    assert_eq!(block_gain::nam_boss_hm_3::resolve_capture("10", "10", "10").unwrap(), "pedals/boss_hm_3/boss_hm3_lows10_highs10_dist10_boss_hm3.nam");
    assert_eq!(block_gain::nam_boss_hm_3::asset_summary("10", "10", "10").unwrap(), "model='pedals/boss_hm_3/boss_hm3_lows10_highs10_dist10_boss_hm3.nam'");
    assert!(block_gain::nam_boss_hm_3::validate_params("10", "10", "10").is_ok());
}

#[test]
fn nam_boss_hm_3_defaults_validate() {
    let schema = block_gain::nam_boss_hm_3::model_schema();
    let params = schema.parameters.unwrap();
    let mut defaults: Vec<&str> = Vec::new();
    for p in params.iter() {
        match &p.kind {
            ParameterKind::Enum { default, .. } => defaults.push(default.unwrap()),
            _ => panic!("every parameter of this model is enumerated"),
        }
    }
    assert_eq!(defaults, vec!["5", "5", "5"]);
    assert!(block_gain::nam_boss_hm_3::validate_params(defaults[0], defaults[1], defaults[2]).is_ok());
}

#[test]
fn nam_boss_hm_3_unknown_setting_is_refused() {
    let expected = "gain 'nam_boss_hm_3' has no capture for lows=bogus highs=5 dist=5";
    match block_gain::nam_boss_hm_3::validate_params("bogus", "5", "5") {
        Err(GainError::UnsupportedSetting(m)) => assert_eq!(m, expected),
        _ => panic!("an unknown setting must be refused"),
    }
    assert_eq!(block_gain::nam_boss_hm_3::asset_summary("bogus", "5", "5").unwrap_err().message(), expected);
    assert!(block_gain::nam_boss_hm_3::resolve_capture("bogus", "5", "5").is_err());
}

#[test]
fn nam_boss_mt_2_metal_zone_every_capture_resolves() {
    assert_eq!(block_gain::nam_boss_mt_2_metal_zone::resolve_capture("5_battery_powered").unwrap(), "pedals/boss_mt_2_metal_zone/boss_metalzone_clean_boost_5_battery_powered.nam");
    assert_eq!(block_gain::nam_boss_mt_2_metal_zone::asset_summary("5_battery_powered").unwrap(), "model='pedals/boss_mt_2_metal_zone/boss_metalzone_clean_boost_5_battery_powered.nam'");
    assert!(block_gain::nam_boss_mt_2_metal_zone::validate_params("5_battery_powered").is_ok());
    assert_eq!(block_gain::nam_boss_mt_2_metal_zone::resolve_capture("6_battery_powered").unwrap(), "pedals/boss_mt_2_metal_zone/boss_metalzone_clean_boost_6_battery_powered.nam");
    assert_eq!(block_gain::nam_boss_mt_2_metal_zone::asset_summary("6_battery_powered").unwrap(), "model='pedals/boss_mt_2_metal_zone/boss_metalzone_clean_boost_6_battery_powered.nam'");
    assert!(block_gain::nam_boss_mt_2_metal_zone::validate_params("6_battery_powered").is_ok());
    assert_eq!(block_gain::nam_boss_mt_2_metal_zone::resolve_capture("7_battery_powered").unwrap(), "pedals/boss_mt_2_metal_zone/boss_metalzone_clean_boost_7_battery_powered.nam");
    assert_eq!(block_gain::nam_boss_mt_2_metal_zone::asset_summary("7_battery_powered").unwrap(), "model='pedals/boss_mt_2_metal_zone/boss_metalzone_clean_boost_7_battery_powered.nam'");
    assert!(block_gain::nam_boss_mt_2_metal_zone::validate_params("7_battery_powered").is_ok());
    assert_eq!(block_gain::nam_boss_mt_2_metal_zone::resolve_capture("8_battery_powered").unwrap(), "pedals/boss_mt_2_metal_zone/boss_metalzone_clean_boost_8_battery_powered.nam");
    assert_eq!(block_gain::nam_boss_mt_2_metal_zone::asset_summary("8_battery_powered").unwrap(), "model='pedals/boss_mt_2_metal_zone/boss_metalzone_clean_boost_8_battery_powered.nam'");
    assert!(block_gain::nam_boss_mt_2_metal_zone::validate_params("8_battery_powered").is_ok());
    assert_eq!(block_gain::nam_boss_mt_2_metal_zone::resolve_capture("setting").unwrap(), "pedals/boss_mt_2_metal_zone/boss_metalzone_clean_boost_setting.nam");
    assert_eq!(block_gain::nam_boss_mt_2_metal_zone::asset_summary("setting").unwrap(), "model='pedals/boss_mt_2_metal_zone/boss_metalzone_clean_boost_setting.nam'");
    assert!(block_gain::nam_boss_mt_2_metal_zone::validate_params("setting").is_ok());
    assert_eq!(block_gain::nam_boss_mt_2_metal_zone::resolve_capture("setting_2").unwrap(), "pedals/boss_mt_2_metal_zone/boss_metalzone_clean_boost_setting_2.nam");
    assert_eq!(block_gain::nam_boss_mt_2_metal_zone::asset_summary("setting_2").unwrap(), "model='pedals/boss_mt_2_metal_zone/boss_metalzone_clean_boost_setting_2.nam'");
    assert!(block_gain::nam_boss_mt_2_metal_zone::validate_params("setting_2").is_ok());
    assert_eq!(block_gain::nam_boss_mt_2_metal_zone::resolve_capture("setting_3").unwrap(), "pedals/boss_mt_2_metal_zone/boss_metalzone_clean_boost_setting_3.nam");
    assert_eq!(block_gain::nam_boss_mt_2_metal_zone::asset_summary("setting_3").unwrap(), "model='pedals/boss_mt_2_metal_zone/boss_metalzone_clean_boost_setting_3.nam'");
    assert!(block_gain::nam_boss_mt_2_metal_zone::validate_params("setting_3").is_ok());
    assert_eq!(block_gain::nam_boss_mt_2_metal_zone::resolve_capture("setting_4").unwrap(), "pedals/boss_mt_2_metal_zone/boss_metalzone_clean_boost_setting_4.nam");
    assert_eq!(block_gain::nam_boss_mt_2_metal_zone::asset_summary("setting_4").unwrap(), "model='pedals/boss_mt_2_metal_zone/boss_metalzone_clean_boost_setting_4.nam'");
    assert!(block_gain::nam_boss_mt_2_metal_zone::validate_params("setting_4").is_ok());
}

#[test]
fn nam_boss_mt_2_metal_zone_defaults_validate() {
    let schema = block_gain::nam_boss_mt_2_metal_zone::model_schema();
    let params = schema.parameters.unwrap();
    let mut defaults: Vec<&str> = Vec::new();
    for p in params.iter() {
        match &p.kind {
            ParameterKind::Enum { default, .. } => defaults.push(default.unwrap()),
            _ => panic!("every parameter of this model is enumerated"),
        }
    }
    assert_eq!(defaults, vec!["5_battery_powered"]);
    assert!(block_gain::nam_boss_mt_2_metal_zone::validate_params(defaults[0]).is_ok());
}

#[test]
fn nam_boss_mt_2_metal_zone_unknown_setting_is_refused() {
    let expected = "gain model 'nam_boss_mt_2_metal_zone' does not support tone='bogus'";
    match block_gain::nam_boss_mt_2_metal_zone::validate_params("bogus") {
        Err(GainError::UnsupportedSetting(m)) => assert_eq!(m, expected),
        _ => panic!("an unknown setting must be refused"),
    }
    assert_eq!(block_gain::nam_boss_mt_2_metal_zone::asset_summary("bogus").unwrap_err().message(), expected);
    assert!(block_gain::nam_boss_mt_2_metal_zone::resolve_capture("bogus").is_err());
}

#[test]
fn nam_boss_od_3_every_capture_resolves() {
    assert_eq!(block_gain::nam_boss_od_3::resolve_capture("no", "low", "standard").unwrap(), "pedals/boss_od_3/bossod3_nodrive_lowtone.nam");
    assert_eq!(block_gain::nam_boss_od_3::asset_summary("no", "low", "standard").unwrap(), "model='pedals/boss_od_3/bossod3_nodrive_lowtone.nam'");
    assert!(block_gain::nam_boss_od_3::validate_params("no", "low", "standard").is_ok());
    assert_eq!(block_gain::nam_boss_od_3::resolve_capture("no", "low", "nano").unwrap(), "pedals/boss_od_3/bossod3_nodrive_lowtone_nano.nam");
    assert_eq!(block_gain::nam_boss_od_3::asset_summary("no", "low", "nano").unwrap(), "model='pedals/boss_od_3/bossod3_nodrive_lowtone_nano.nam'");
    assert!(block_gain::nam_boss_od_3::validate_params("no", "low", "nano").is_ok());
    assert_eq!(block_gain::nam_boss_od_3::resolve_capture("no", "center", "standard").unwrap(), "pedals/boss_od_3/bossod3_nodrive_centertone.nam");
    assert_eq!(block_gain::nam_boss_od_3::asset_summary("no", "center", "standard").unwrap(), "model='pedals/boss_od_3/bossod3_nodrive_centertone.nam'");
    assert!(block_gain::nam_boss_od_3::validate_params("no", "center", "standard").is_ok());
    assert_eq!(block_gain::nam_boss_od_3::resolve_capture("no", "center", "nano").unwrap(), "pedals/boss_od_3/bossod3_nodrive_centertone_nano.nam");
    assert_eq!(block_gain::nam_boss_od_3::asset_summary("no", "center", "nano").unwrap(), "model='pedals/boss_od_3/bossod3_nodrive_centertone_nano.nam'");
    assert!(block_gain::nam_boss_od_3::validate_params("no", "center", "nano").is_ok());
    assert_eq!(block_gain::nam_boss_od_3::resolve_capture("no", "high", "standard").unwrap(), "pedals/boss_od_3/bossod3_nodrive_hightone.nam");
    assert_eq!(block_gain::nam_boss_od_3::asset_summary("no", "high", "standard").unwrap(), "model='pedals/boss_od_3/bossod3_nodrive_hightone.nam'");
    assert!(block_gain::nam_boss_od_3::validate_params("no", "high", "standard").is_ok());
    assert_eq!(block_gain::nam_boss_od_3::resolve_capture("no", "high", "nano").unwrap(), "pedals/boss_od_3/bossod3_nodrive_hightone_nano.nam");
    assert_eq!(block_gain::nam_boss_od_3::asset_summary("no", "high", "nano").unwrap(), "model='pedals/boss_od_3/bossod3_nodrive_hightone_nano.nam'");
    assert!(block_gain::nam_boss_od_3::validate_params("no", "high", "nano").is_ok());
    assert_eq!(block_gain::nam_boss_od_3::resolve_capture("low", "low", "standard").unwrap(), "pedals/boss_od_3/bossod3_lowdrive_lowtone.nam");
    assert_eq!(block_gain::nam_boss_od_3::asset_summary("low", "low", "standard").unwrap(), "model='pedals/boss_od_3/bossod3_lowdrive_lowtone.nam'");
    assert!(block_gain::nam_boss_od_3::validate_params("low", "low", "standard").is_ok());
    assert_eq!(block_gain::nam_boss_od_3::resolve_capture("low", "low", "nano").unwrap(), "pedals/boss_od_3/bossod3_lowdrive_lowtone_nano.nam");
    assert_eq!(block_gain::nam_boss_od_3::asset_summary("low", "low", "nano").unwrap(), "model='pedals/boss_od_3/bossod3_lowdrive_lowtone_nano.nam'");
    assert!(block_gain::nam_boss_od_3::validate_params("low", "low", "nano").is_ok());
    assert_eq!(block_gain::nam_boss_od_3::resolve_capture("low", "center", "standard").unwrap(), "pedals/boss_od_3/bossod3_lowdrive_centertone.nam");
    assert_eq!(block_gain::nam_boss_od_3::asset_summary("low", "center", "standard").unwrap(), "model='pedals/boss_od_3/bossod3_lowdrive_centertone.nam'");
    assert!(block_gain::nam_boss_od_3::validate_params("low", "center", "standard").is_ok());
    assert_eq!(block_gain::nam_boss_od_3::resolve_capture("low", "center", "nano").unwrap(), "pedals/boss_od_3/bossod3_lowdrive_centertone_nano.nam");
    assert_eq!(block_gain::nam_boss_od_3::asset_summary("low", "center", "nano").unwrap(), "model='pedals/boss_od_3/bossod3_lowdrive_centertone_nano.nam'");
    assert!(block_gain::nam_boss_od_3::validate_params("low", "center", "nano").is_ok());
    assert_eq!(block_gain::nam_boss_od_3::resolve_capture("low", "high", "standard").unwrap(), "pedals/boss_od_3/bossod3_lowdrive_hightone.nam");
    assert_eq!(block_gain::nam_boss_od_3::asset_summary("low", "high", "standard").unwrap(), "model='pedals/boss_od_3/bossod3_lowdrive_hightone.nam'");
    assert!(block_gain::nam_boss_od_3::validate_params("low", "high", "standard").is_ok());
    assert_eq!(block_gain::nam_boss_od_3::resolve_capture("low", "high", "nano").unwrap(), "pedals/boss_od_3/bossod3_lowdrive_hightone_nano.nam");
    assert_eq!(block_gain::nam_boss_od_3::asset_summary("low", "high", "nano").unwrap(), "model='pedals/boss_od_3/bossod3_lowdrive_hightone_nano.nam'");
    assert!(block_gain::nam_boss_od_3::validate_params("low", "high", "nano").is_ok());
    assert_eq!(block_gain::nam_boss_od_3::resolve_capture("mid", "low", "standard").unwrap(), "pedals/boss_od_3/bossod3_middrive_lowtone.nam");
    assert_eq!(block_gain::nam_boss_od_3::asset_summary("mid", "low", "standard").unwrap(), "model='pedals/boss_od_3/bossod3_middrive_lowtone.nam'");
    assert!(block_gain::nam_boss_od_3::validate_params("mid", "low", "standard").is_ok());
    assert_eq!(block_gain::nam_boss_od_3::resolve_capture("mid", "low", "nano").unwrap(), "pedals/boss_od_3/bossod3_middrive_lowtone_nano.nam");
    assert_eq!(block_gain::nam_boss_od_3::asset_summary("mid", "low", "nano").unwrap(), "model='pedals/boss_od_3/bossod3_middrive_lowtone_nano.nam'");
    assert!(block_gain::nam_boss_od_3::validate_params("mid", "low", "nano").is_ok());
    assert_eq!(block_gain::nam_boss_od_3::resolve_capture("mid", "center", "standard").unwrap(), "pedals/boss_od_3/bossod3_middrive_centertone.nam");
    assert_eq!(block_gain::nam_boss_od_3::asset_summary("mid", "center", "standard").unwrap(), "model='pedals/boss_od_3/bossod3_middrive_centertone.nam'");
    assert!(block_gain::nam_boss_od_3::validate_params("mid", "center", "standard").is_ok());
    assert_eq!(block_gain::nam_boss_od_3::resolve_capture("mid", "center", "nano").unwrap(), "pedals/boss_od_3/bossod3_middrive_centertone_nano.nam");
    assert_eq!(block_gain::nam_boss_od_3::asset_summary("mid", "center", "nano").unwrap(), "model='pedals/boss_od_3/bossod3_middrive_centertone_nano.nam'");
    assert!(block_gain::nam_boss_od_3::validate_params("mid", "center", "nano").is_ok());
    assert_eq!(block_gain::nam_boss_od_3::resolve_capture("mid", "high", "standard").unwrap(), "pedals/boss_od_3/bossod3_middrive_hightone.nam");
    assert_eq!(block_gain::nam_boss_od_3::asset_summary("mid", "high", "standard").unwrap(), "model='pedals/boss_od_3/bossod3_middrive_hightone.nam'");
    assert!(block_gain::nam_boss_od_3::validate_params("mid", "high", "standard").is_ok());
    assert_eq!(block_gain::nam_boss_od_3::resolve_capture("mid", "high", "nano").unwrap(), "pedals/boss_od_3/bossod3_middrive_hightone_nano.nam");
    assert_eq!(block_gain::nam_boss_od_3::asset_summary("mid", "high", "nano").unwrap(), "model='pedals/boss_od_3/bossod3_middrive_hightone_nano.nam'");
    assert!(block_gain::nam_boss_od_3::validate_params("mid", "high", "nano").is_ok());
    assert_eq!(block_gain::nam_boss_od_3::resolve_capture("hi", "low", "standard").unwrap(), "pedals/boss_od_3/bossod3_hidrive_lowtone.nam");
    assert_eq!(block_gain::nam_boss_od_3::asset_summary("hi", "low", "standard").unwrap(), "model='pedals/boss_od_3/bossod3_hidrive_lowtone.nam'");
    assert!(block_gain::nam_boss_od_3::validate_params("hi", "low", "standard").is_ok());
    assert_eq!(block_gain::nam_boss_od_3::resolve_capture("hi", "low", "nano").unwrap(), "pedals/boss_od_3/bossod3_hidrive_lowtone_nano.nam");
    assert_eq!(block_gain::nam_boss_od_3::asset_summary("hi", "low", "nano").unwrap(), "model='pedals/boss_od_3/bossod3_hidrive_lowtone_nano.nam'");
    assert!(block_gain::nam_boss_od_3::validate_params("hi", "low", "nano").is_ok());
    assert_eq!(block_gain::nam_boss_od_3::resolve_capture("hi", "center", "standard").unwrap(), "pedals/boss_od_3/bossod3_hidrive_centertone.nam");
    assert_eq!(block_gain::nam_boss_od_3::asset_summary("hi", "center", "standard").unwrap(), "model='pedals/boss_od_3/bossod3_hidrive_centertone.nam'");
    assert!(block_gain::nam_boss_od_3::validate_params("hi", "center", "standard").is_ok());
    assert_eq!(block_gain::nam_boss_od_3::resolve_capture("hi", "center", "nano").unwrap(), "pedals/boss_od_3/bossod3_hidrive_centertone_nano.nam");
    assert_eq!(block_gain::nam_boss_od_3::asset_summary("hi", "center", "nano").unwrap(), "model='pedals/boss_od_3/bossod3_hidrive_centertone_nano.nam'");
    assert!(block_gain::nam_boss_od_3::validate_params("hi", "center", "nano").is_ok());
    assert_eq!(block_gain::nam_boss_od_3::resolve_capture("hi", "high", "standard").unwrap(), "pedals/boss_od_3/bossod3_hidrive_hightone.nam");
    assert_eq!(block_gain::nam_boss_od_3::asset_summary("hi", "high", "standard").unwrap(), "model='pedals/boss_od_3/bossod3_hidrive_hightone.nam'");
    assert!(block_gain::nam_boss_od_3::validate_params("hi", "high", "standard").is_ok());
    assert_eq!(block_gain::nam_boss_od_3::resolve_capture("hi", "high", "nano").unwrap(), "pedals/boss_od_3/bossod3_hidrive_hightone_nano.nam");
    assert_eq!(block_gain::nam_boss_od_3::asset_summary("hi", "high", "nano").unwrap(), "model='pedals/boss_od_3/bossod3_hidrive_hightone_nano.nam'");
    assert!(block_gain::nam_boss_od_3::validate_params("hi", "high", "nano").is_ok());
}

#[test]
fn nam_boss_od_3_defaults_validate() {
    let schema = block_gain::nam_boss_od_3::model_schema();
    let params = schema.parameters.unwrap();
    let mut defaults: Vec<&str> = Vec::new();
    for p in params.iter() {
        match &p.kind {
            ParameterKind::Enum { default, .. } => defaults.push(default.unwrap()),
            _ => panic!("every parameter of this model is enumerated"),
        }
    }
    assert_eq!(defaults, vec!["mid", "center", "standard"]);
    assert!(block_gain::nam_boss_od_3::validate_params(defaults[0], defaults[1], defaults[2]).is_ok());
}

#[test]
fn nam_boss_od_3_unknown_setting_is_refused() {
    let expected = "gain 'nam_boss_od_3' has no capture for drive=bogus tone=center size=standard";
    match block_gain::nam_boss_od_3::validate_params("bogus", "center", "standard") {
        Err(GainError::UnsupportedSetting(m)) => assert_eq!(m, expected),
        _ => panic!("an unknown setting must be refused"),
    }
    assert_eq!(block_gain::nam_boss_od_3::asset_summary("bogus", "center", "standard").unwrap_err().message(), expected);
    assert!(block_gain::nam_boss_od_3::resolve_capture("bogus", "center", "standard").is_err());
}

#[test]
fn nam_boss_odb3_bass_every_capture_resolves() {
    assert_eq!(block_gain::nam_boss_odb3_bass::resolve_capture("25", "5").unwrap(), "pedals/boss_odb3_bass/boss_odb3_v7_5_h5_l6_blend_25_gain_5.nam");
    assert_eq!(block_gain::nam_boss_odb3_bass::asset_summary("25", "5").unwrap(), "model='pedals/boss_odb3_bass/boss_odb3_v7_5_h5_l6_blend_25_gain_5.nam'");
    assert!(block_gain::nam_boss_odb3_bass::validate_params("25", "5").is_ok());
    assert_eq!(block_gain::nam_boss_odb3_bass::resolve_capture("25", "7_5").unwrap(), "pedals/boss_odb3_bass/boss_odb3_v7_5_h5_l6_blend_25_gain_7_5.nam");
    assert_eq!(block_gain::nam_boss_odb3_bass::asset_summary("25", "7_5").unwrap(), "model='pedals/boss_odb3_bass/boss_odb3_v7_5_h5_l6_blend_25_gain_7_5.nam'");
    assert!(block_gain::nam_boss_odb3_bass::validate_params("25", "7_5").is_ok());
    assert_eq!(block_gain::nam_boss_odb3_bass::resolve_capture("70", "0").unwrap(), "pedals/boss_odb3_bass/boss_odb3_v7_5_h5_l6_blend_70_gain_0.nam");
    assert_eq!(block_gain::nam_boss_odb3_bass::asset_summary("70", "0").unwrap(), "model='pedals/boss_odb3_bass/boss_odb3_v7_5_h5_l6_blend_70_gain_0.nam'");
    assert!(block_gain::nam_boss_odb3_bass::validate_params("70", "0").is_ok());
    assert_eq!(block_gain::nam_boss_odb3_bass::resolve_capture("100", "0").unwrap(), "pedals/boss_odb3_bass/boss_odb3_v7_5_h5_l6_blend_100_gain_0.nam");
    assert_eq!(block_gain::nam_boss_odb3_bass::asset_summary("100", "0").unwrap(), "model='pedals/boss_odb3_bass/boss_odb3_v7_5_h5_l6_blend_100_gain_0.nam'");
    assert!(block_gain::nam_boss_odb3_bass::validate_params("100", "0").is_ok());
    assert_eq!(block_gain::nam_boss_odb3_bass::resolve_capture("100", "5").unwrap(), "pedals/boss_odb3_bass/boss_odb3_v7_5_h5_l6_blend_100_gain_5.nam");
    assert_eq!(block_gain::nam_boss_odb3_bass::asset_summary("100", "5").unwrap(), "model='pedals/boss_odb3_bass/boss_odb3_v7_5_h5_l6_blend_100_gain_5.nam'");
    assert!(block_gain::nam_boss_odb3_bass::validate_params("100", "5").is_ok());
    assert_eq!(block_gain::nam_boss_odb3_bass::resolve_capture("100", "7_5").unwrap(), "pedals/boss_odb3_bass/boss_odb3_v7_5_h5_l6_blend_100_gain_7_5.nam");
    assert_eq!(block_gain::nam_boss_odb3_bass::asset_summary("100", "7_5").unwrap(), "model='pedals/boss_odb3_bass/boss_odb3_v7_5_h5_l6_blend_100_gain_7_5.nam'");
    assert!(block_gain::nam_boss_odb3_bass::validate_params("100", "7_5").is_ok());
}

#[test]
fn nam_boss_odb3_bass_defaults_validate() {
    let schema = block_gain::nam_boss_odb3_bass::model_schema();
    let params = schema.parameters.unwrap();
    let mut defaults: Vec<&str> = Vec::new();
    for p in params.iter() {
        match &p.kind {
            ParameterKind::Enum { default, .. } => defaults.push(default.unwrap()),
            _ => panic!("every parameter of this model is enumerated"),
        }
    }
    assert_eq!(defaults, vec!["100", "5"]);
    assert!(block_gain::nam_boss_odb3_bass::validate_params(defaults[0], defaults[1]).is_ok());
}

#[test]
fn nam_boss_odb3_bass_unknown_setting_is_refused() {
    let expected = "gain 'nam_boss_odb3_bass' has no capture for blend=bogus gain=5";
    match block_gain::nam_boss_odb3_bass::validate_params("bogus", "5") {
        Err(GainError::UnsupportedSetting(m)) => assert_eq!(m, expected),
        _ => panic!("an unknown setting must be refused"),
    }
    assert_eq!(block_gain::nam_boss_odb3_bass::asset_summary("bogus", "5").unwrap_err().message(), expected);
    assert!(block_gain::nam_boss_odb3_bass::resolve_capture("bogus", "5").is_err());
}

#[test]
fn nam_boss_odb3_bass_holes_are_refused() {
    match block_gain::nam_boss_odb3_bass::validate_params("25", "0") {
        Err(GainError::UnsupportedSetting(m)) => assert_eq!(m, "gain 'nam_boss_odb3_bass' has no capture for blend=25 gain=0"),
        _ => panic!("a hole in the capture grid must be refused"),
    }
    match block_gain::nam_boss_odb3_bass::validate_params("70", "5") {
        Err(GainError::UnsupportedSetting(m)) => assert_eq!(m, "gain 'nam_boss_odb3_bass' has no capture for blend=70 gain=5"),
        _ => panic!("a hole in the capture grid must be refused"),
    }
    match block_gain::nam_boss_odb3_bass::validate_params("70", "7_5") {
        Err(GainError::UnsupportedSetting(m)) => assert_eq!(m, "gain 'nam_boss_odb3_bass' has no capture for blend=70 gain=7_5"),
        _ => panic!("a hole in the capture grid must be refused"),
    }
}

#[test]
fn nam_browne_protein_every_capture_resolves() {
    assert_eq!(block_gain::nam_browne_protein::resolve_capture("blue", "1").unwrap(), "pedals/browne_protein/blue_gain_1.nam");
    assert_eq!(block_gain::nam_browne_protein::asset_summary("blue", "1").unwrap(), "model='pedals/browne_protein/blue_gain_1.nam'");
    assert!(block_gain::nam_browne_protein::validate_params("blue", "1").is_ok());
    assert_eq!(block_gain::nam_browne_protein::resolve_capture("blue", "2").unwrap(), "pedals/browne_protein/blue_gain_2.nam");
    assert_eq!(block_gain::nam_browne_protein::asset_summary("blue", "2").unwrap(), "model='pedals/browne_protein/blue_gain_2.nam'");
    assert!(block_gain::nam_browne_protein::validate_params("blue", "2").is_ok());
    assert_eq!(block_gain::nam_browne_protein::resolve_capture("blue", "3").unwrap(), "pedals/browne_protein/blue_gain_3.nam");
    assert_eq!(block_gain::nam_browne_protein::asset_summary("blue", "3").unwrap(), "model='pedals/browne_protein/blue_gain_3.nam'");
    assert!(block_gain::nam_browne_protein::validate_params("blue", "3").is_ok());
    assert_eq!(block_gain::nam_browne_protein::resolve_capture("blue", "4").unwrap(), "pedals/browne_protein/blue_gain_4.nam");
    assert_eq!(block_gain::nam_browne_protein::asset_summary("blue", "4").unwrap(), "model='pedals/browne_protein/blue_gain_4.nam'");
    assert!(block_gain::nam_browne_protein::validate_params("blue", "4").is_ok());
    assert_eq!(block_gain::nam_browne_protein::resolve_capture("blue", "5").unwrap(), "pedals/browne_protein/blue_gain_5.nam");
    assert_eq!(block_gain::nam_browne_protein::asset_summary("blue", "5").unwrap(), "model='pedals/browne_protein/blue_gain_5.nam'");
    assert!(block_gain::nam_browne_protein::validate_params("blue", "5").is_ok());
    assert_eq!(block_gain::nam_browne_protein::resolve_capture("blue", "6").unwrap(), "pedals/browne_protein/blue_gain_6.nam");
    assert_eq!(block_gain::nam_browne_protein::asset_summary("blue", "6").unwrap(), "model='pedals/browne_protein/blue_gain_6.nam'");
    assert!(block_gain::nam_browne_protein::validate_params("blue", "6").is_ok());
    assert_eq!(block_gain::nam_browne_protein::resolve_capture("green", "1").unwrap(), "pedals/browne_protein/green_gain_1.nam");
    assert_eq!(block_gain::nam_browne_protein::asset_summary("green", "1").unwrap(), "model='pedals/browne_protein/green_gain_1.nam'");
    assert!(block_gain::nam_browne_protein::validate_params("green", "1").is_ok());
    assert_eq!(block_gain::nam_browne_protein::resolve_capture("green", "2").unwrap(), "pedals/browne_protein/green_gain_2.nam");
    assert_eq!(block_gain::nam_browne_protein::asset_summary("green", "2").unwrap(), "model='pedals/browne_protein/green_gain_2.nam'");
    assert!(block_gain::nam_browne_protein::validate_params("green", "2").is_ok());
    assert_eq!(block_gain::nam_browne_protein::resolve_capture("green", "3").unwrap(), "pedals/browne_protein/green_gain_3.nam");
    assert_eq!(block_gain::nam_browne_protein::asset_summary("green", "3").unwrap(), "model='pedals/browne_protein/green_gain_3.nam'");
    assert!(block_gain::nam_browne_protein::validate_params("green", "3").is_ok());
    assert_eq!(block_gain::nam_browne_protein::resolve_capture("green", "4").unwrap(), "pedals/browne_protein/green_gain_4.nam");
    assert_eq!(block_gain::nam_browne_protein::asset_summary("green", "4").unwrap(), "model='pedals/browne_protein/green_gain_4.nam'");
    assert!(block_gain::nam_browne_protein::validate_params("green", "4").is_ok());
    assert_eq!(block_gain::nam_browne_protein::resolve_capture("green", "5").unwrap(), "pedals/browne_protein/green_gain_5.nam");
    assert_eq!(block_gain::nam_browne_protein::asset_summary("green", "5").unwrap(), "model='pedals/browne_protein/green_gain_5.nam'");
    assert!(block_gain::nam_browne_protein::validate_params("green", "5").is_ok());
    assert_eq!(block_gain::nam_browne_protein::resolve_capture("green", "6").unwrap(), "pedals/browne_protein/green_gain_6.nam");
    assert_eq!(block_gain::nam_browne_protein::asset_summary("green", "6").unwrap(), "model='pedals/browne_protein/green_gain_6.nam'");
    assert!(block_gain::nam_browne_protein::validate_params("green", "6").is_ok());
}

#[test]
fn nam_browne_protein_defaults_validate() {
    let schema = block_gain::nam_browne_protein::model_schema();
    let params = schema.parameters.unwrap();
    let mut defaults: Vec<&str> = Vec::new();
    for p in params.iter() {
        match &p.kind {
            ParameterKind::Enum { default, .. } => defaults.push(default.unwrap()),
            _ => panic!("every parameter of this model is enumerated"),
        }
    }
    assert_eq!(defaults, vec!["blue", "3"]);
    assert!(block_gain::nam_browne_protein::validate_params(defaults[0], defaults[1]).is_ok());
}

#[test]
fn nam_browne_protein_unknown_setting_is_refused() {
    let expected = "gain 'nam_browne_protein' has no capture for channel=bogus gain=3";
    match block_gain::nam_browne_protein::validate_params("bogus", "3") {
        Err(GainError::UnsupportedSetting(m)) => assert_eq!(m, expected),
        _ => panic!("an unknown setting must be refused"),
    }
    assert_eq!(block_gain::nam_browne_protein::asset_summary("bogus", "3").unwrap_err().message(), expected);
    assert!(block_gain::nam_browne_protein::resolve_capture("bogus", "3").is_err());
}

#[test]
fn nam_darkglass_alpha_omega_every_capture_resolves() {
    let c = block_gain::nam_darkglass_alpha_omega::resolve_capture("alpha", "2").unwrap();
    assert_eq!(c.model_path, "pedals/darkglass_alpha_omega/alpha_omega_alpha_g2.nam");
    assert_eq!(c.params.channel, "alpha");
    assert_eq!(c.params.gain, "2");
    assert_eq!(block_gain::nam_darkglass_alpha_omega::asset_summary("alpha", "2").unwrap(), "model='pedals/darkglass_alpha_omega/alpha_omega_alpha_g2.nam'");
    assert!(block_gain::nam_darkglass_alpha_omega::validate_params("alpha", "2").is_ok());
    let c = block_gain::nam_darkglass_alpha_omega::resolve_capture("alpha", "5").unwrap();
    assert_eq!(c.model_path, "pedals/darkglass_alpha_omega/alpha_omega_alpha_g5.nam");
    assert_eq!(c.params.channel, "alpha");
    assert_eq!(c.params.gain, "5");
    assert_eq!(block_gain::nam_darkglass_alpha_omega::asset_summary("alpha", "5").unwrap(), "model='pedals/darkglass_alpha_omega/alpha_omega_alpha_g5.nam'");
    assert!(block_gain::nam_darkglass_alpha_omega::validate_params("alpha", "5").is_ok());
    let c = block_gain::nam_darkglass_alpha_omega::resolve_capture("alpha", "8").unwrap();
    assert_eq!(c.model_path, "pedals/darkglass_alpha_omega/alpha_omega_alpha_g8.nam");
    assert_eq!(c.params.channel, "alpha");
    assert_eq!(c.params.gain, "8");
    assert_eq!(block_gain::nam_darkglass_alpha_omega::asset_summary("alpha", "8").unwrap(), "model='pedals/darkglass_alpha_omega/alpha_omega_alpha_g8.nam'");
    assert!(block_gain::nam_darkglass_alpha_omega::validate_params("alpha", "8").is_ok());
    let c = block_gain::nam_darkglass_alpha_omega::resolve_capture("alpha", "10").unwrap();
    assert_eq!(c.model_path, "pedals/darkglass_alpha_omega/alpha_omega_alpha_g10.nam");
    assert_eq!(c.params.channel, "alpha");
    assert_eq!(c.params.gain, "10");
    assert_eq!(block_gain::nam_darkglass_alpha_omega::asset_summary("alpha", "10").unwrap(), "model='pedals/darkglass_alpha_omega/alpha_omega_alpha_g10.nam'");
    assert!(block_gain::nam_darkglass_alpha_omega::validate_params("alpha", "10").is_ok());
    let c = block_gain::nam_darkglass_alpha_omega::resolve_capture("omega", "2").unwrap();
    assert_eq!(c.model_path, "pedals/darkglass_alpha_omega/alpha_omega_omega_g2.nam");
    assert_eq!(c.params.channel, "omega");
    assert_eq!(c.params.gain, "2");
    assert_eq!(block_gain::nam_darkglass_alpha_omega::asset_summary("omega", "2").unwrap(), "model='pedals/darkglass_alpha_omega/alpha_omega_omega_g2.nam'");
    assert!(block_gain::nam_darkglass_alpha_omega::validate_params("omega", "2").is_ok());
    let c = block_gain::nam_darkglass_alpha_omega::resolve_capture("omega", "5").unwrap();
    assert_eq!(c.model_path, "pedals/darkglass_alpha_omega/alpha_omega_omega_g5.nam");
    assert_eq!(c.params.channel, "omega");
    assert_eq!(c.params.gain, "5");
    assert_eq!(block_gain::nam_darkglass_alpha_omega::asset_summary("omega", "5").unwrap(), "model='pedals/darkglass_alpha_omega/alpha_omega_omega_g5.nam'");
    assert!(block_gain::nam_darkglass_alpha_omega::validate_params("omega", "5").is_ok());
    let c = block_gain::nam_darkglass_alpha_omega::resolve_capture("omega", "8").unwrap();
    assert_eq!(c.model_path, "pedals/darkglass_alpha_omega/alpha_omega_omega_g8.nam");
    assert_eq!(c.params.channel, "omega");
    assert_eq!(c.params.gain, "8");
    assert_eq!(block_gain::nam_darkglass_alpha_omega::asset_summary("omega", "8").unwrap(), "model='pedals/darkglass_alpha_omega/alpha_omega_omega_g8.nam'");
    assert!(block_gain::nam_darkglass_alpha_omega::validate_params("omega", "8").is_ok());
    let c = block_gain::nam_darkglass_alpha_omega::resolve_capture("omega", "10").unwrap();
    assert_eq!(c.model_path, "pedals/darkglass_alpha_omega/alpha_omega_omega_g10.nam");
    assert_eq!(c.params.channel, "omega");
    assert_eq!(c.params.gain, "10");
    assert_eq!(block_gain::nam_darkglass_alpha_omega::asset_summary("omega", "10").unwrap(), "model='pedals/darkglass_alpha_omega/alpha_omega_omega_g10.nam'");
    assert!(block_gain::nam_darkglass_alpha_omega::validate_params("omega", "10").is_ok());
}

#[test]
fn nam_darkglass_alpha_omega_defaults_validate() {
    let schema = block_gain::nam_darkglass_alpha_omega::model_schema();
    let params = schema.parameters.unwrap();
    let mut defaults: Vec<&str> = Vec::new();
    for p in params.iter() {
        match &p.kind {
            ParameterKind::Enum { default, .. } => defaults.push(default.unwrap()),
            _ => panic!("every parameter of this model is enumerated"),
        }
    }
    assert_eq!(defaults, vec!["omega", "5"]);
    assert!(block_gain::nam_darkglass_alpha_omega::validate_params(defaults[0], defaults[1]).is_ok());
}

#[test]
fn nam_darkglass_alpha_omega_unknown_setting_is_refused() {
    let expected = "gain model 'darkglass_alpha_omega' does not support channel='bogus' gain='5'";
    match block_gain::nam_darkglass_alpha_omega::validate_params("bogus", "5") {
        Err(GainError::UnsupportedSetting(m)) => assert_eq!(m, expected),
        _ => panic!("an unknown setting must be refused"),
    }
    assert_eq!(block_gain::nam_darkglass_alpha_omega::asset_summary("bogus", "5").unwrap_err().message(), expected);
    assert!(block_gain::nam_darkglass_alpha_omega::resolve_capture("bogus", "5").is_err());
}

#[test]
fn nam_death_by_audio_fuzz_war_every_capture_resolves() {
    assert_eq!(block_gain::nam_death_by_audio_fuzz_war::resolve_capture("5", "1").unwrap(), "pedals/death_by_audio_fuzz_war/fuzz_war_clone_sustain_5_tone_1_fuzz_war_sus5_ton1.nam");
    assert_eq!(block_gain::nam_death_by_audio_fuzz_war::asset_summary("5", "1").unwrap(), "model='pedals/death_by_audio_fuzz_war/fuzz_war_clone_sustain_5_tone_1_fuzz_war_sus5_ton1.nam'");
    assert!(block_gain::nam_death_by_audio_fuzz_war::validate_params("5", "1").is_ok());
    assert_eq!(block_gain::nam_death_by_audio_fuzz_war::resolve_capture("5", "5").unwrap(), "pedals/death_by_audio_fuzz_war/fuzz_war_clone_sustain_5_tone_5_fuzz_ware_sus5_ton.nam");
    assert_eq!(block_gain::nam_death_by_audio_fuzz_war::asset_summary("5", "5").unwrap(), "model='pedals/death_by_audio_fuzz_war/fuzz_war_clone_sustain_5_tone_5_fuzz_ware_sus5_ton.nam'");
    assert!(block_gain::nam_death_by_audio_fuzz_war::validate_params("5", "5").is_ok());
    assert_eq!(block_gain::nam_death_by_audio_fuzz_war::resolve_capture("5", "10").unwrap(), "pedals/death_by_audio_fuzz_war/fuzz_war_clone_sustain_5_tone_10_fuzz_war_sus5_ton.nam");
    assert_eq!(block_gain::nam_death_by_audio_fuzz_war::asset_summary("5", "10").unwrap(), "model='pedals/death_by_audio_fuzz_war/fuzz_war_clone_sustain_5_tone_10_fuzz_war_sus5_ton.nam'");
    assert!(block_gain::nam_death_by_audio_fuzz_war::validate_params("5", "10").is_ok());
    assert_eq!(block_gain::nam_death_by_audio_fuzz_war::resolve_capture("10", "1").unwrap(), "pedals/death_by_audio_fuzz_war/fuzz_war_clone_sustain_10_tone_1_fuzz_war_sus10_to.nam");
    assert_eq!(block_gain::nam_death_by_audio_fuzz_war::asset_summary("10", "1").unwrap(), "model='pedals/death_by_audio_fuzz_war/fuzz_war_clone_sustain_10_tone_1_fuzz_war_sus10_to.nam'");
    assert!(block_gain::nam_death_by_audio_fuzz_war::validate_params("10", "1").is_ok());
    assert_eq!(block_gain::nam_death_by_audio_fuzz_war::resolve_capture("10", "5").unwrap(), "pedals/death_by_audio_fuzz_war/fuzz_war_clone_sustain_10_tone_5_fuzz_war_sus10_to.nam");
    assert_eq!(block_gain::nam_death_by_audio_fuzz_war::asset_summary("10", "5").unwrap(), "model='pedals/death_by_audio_fuzz_war/fuzz_war_clone_sustain_10_tone_5_fuzz_war_sus10_to.nam'");
    assert!(block_gain::nam_death_by_audio_fuzz_war::validate_params("10", "5").is_ok());
    assert_eq!(block_gain::nam_death_by_audio_fuzz_war::resolve_capture("10", "10").unwrap(), "pedals/death_by_audio_fuzz_war/fuzz_war_clone_sustain_10_tone_10_fuzz_war_sus10_t.nam");
    assert_eq!(block_gain::nam_death_by_audio_fuzz_war::asset_summary("10", "10").unwrap(), "model='pedals/death_by_audio_fuzz_war/fuzz_war_clone_sustain_10_tone_10_fuzz_war_sus10_t.nam'");
    assert!(block_gain::nam_death_by_audio_fuzz_war::validate_params("10", "10").is_ok());
}

#[test]
fn nam_death_by_audio_fuzz_war_defaults_validate() {
    let schema = block_gain::nam_death_by_audio_fuzz_war::model_schema();
    let params = schema.parameters.unwrap();
    let mut defaults: Vec<&str> = Vec::new();
    for p in params.iter() {
        match &p.kind {
            ParameterKind::Enum { default, .. } => defaults.push(default.unwrap()),
            _ => panic!("every parameter of this model is enumerated"),
        }
    }
    assert_eq!(defaults, vec!["5", "5"]);
    assert!(block_gain::nam_death_by_audio_fuzz_war::validate_params(defaults[0], defaults[1]).is_ok());
}

#[test]
fn nam_death_by_audio_fuzz_war_unknown_setting_is_refused() {
    let expected = "gain 'nam_death_by_audio_fuzz_war' has no capture for sustain=bogus tone=5";
    match block_gain::nam_death_by_audio_fuzz_war::validate_params("bogus", "5") {
        Err(GainError::UnsupportedSetting(m)) => assert_eq!(m, expected),
        _ => panic!("an unknown setting must be refused"),
    }
    assert_eq!(block_gain::nam_death_by_audio_fuzz_war::asset_summary("bogus", "5").unwrap_err().message(), expected);
    assert!(block_gain::nam_death_by_audio_fuzz_war::resolve_capture("bogus", "5").is_err());
}

#[test]
fn nam_demonfx_be_od_every_capture_resolves() {
    assert_eq!(block_gain::nam_demonfx_be_od::resolve_capture("50").unwrap(), "pedals/demonfx_be_od/be_od_g50.nam");
    assert_eq!(block_gain::nam_demonfx_be_od::asset_summary("50").unwrap(), "model='pedals/demonfx_be_od/be_od_g50.nam'");
    assert!(block_gain::nam_demonfx_be_od::validate_params("50").is_ok());
    assert_eq!(block_gain::nam_demonfx_be_od::resolve_capture("75").unwrap(), "pedals/demonfx_be_od/be_od_g75.nam");
    assert_eq!(block_gain::nam_demonfx_be_od::asset_summary("75").unwrap(), "model='pedals/demonfx_be_od/be_od_g75.nam'");
    assert!(block_gain::nam_demonfx_be_od::validate_params("75").is_ok());
    assert_eq!(block_gain::nam_demonfx_be_od::resolve_capture("100").unwrap(), "pedals/demonfx_be_od/be_od_g100.nam");
    assert_eq!(block_gain::nam_demonfx_be_od::asset_summary("100").unwrap(), "model='pedals/demonfx_be_od/be_od_g100.nam'");
    assert!(block_gain::nam_demonfx_be_od::validate_params("100").is_ok());
    assert_eq!(block_gain::nam_demonfx_be_od::resolve_capture("100_tight").unwrap(), "pedals/demonfx_be_od/be_od_g100_tight.nam");
    assert_eq!(block_gain::nam_demonfx_be_od::asset_summary("100_tight").unwrap(), "model='pedals/demonfx_be_od/be_od_g100_tight.nam'");
    assert!(block_gain::nam_demonfx_be_od::validate_params("100_tight").is_ok());
}

#[test]
fn nam_demonfx_be_od_defaults_validate() {
    let schema = block_gain::nam_demonfx_be_od::model_schema();
    let params = schema.parameters.unwrap();
    let mut defaults: Vec<&str> = Vec::new();
    for p in params.iter() {
        match &p.kind {
            ParameterKind::Enum { default, .. } => defaults.push(default.unwrap()),
            _ => panic!("every parameter of this model is enumerated"),
        }
    }
    assert_eq!(defaults, vec!["75"]);
    assert!(block_gain::nam_demonfx_be_od::validate_params(defaults[0]).is_ok());
}

#[test]
fn nam_demonfx_be_od_unknown_setting_is_refused() {
    let expected = "gain model 'demonfx_be_od' does not support gain='bogus'";
    match block_gain::nam_demonfx_be_od::validate_params("bogus") {
        Err(GainError::UnsupportedSetting(m)) => assert_eq!(m, expected),
        _ => panic!("an unknown setting must be refused"),
    }
    assert_eq!(block_gain::nam_demonfx_be_od::asset_summary("bogus").unwrap_err().message(), expected);
    assert!(block_gain::nam_demonfx_be_od::resolve_capture("bogus").is_err());
}

#[test]
fn nam_digitech_bad_monkey_every_capture_resolves() {
    assert_eq!(block_gain::nam_digitech_bad_monkey::resolve_capture("boost1", "feather").unwrap(), "pedals/digitech_bad_monkey/badmonkey_boost1_v10_b4_t6_g0_feather.nam");
    assert_eq!(block_gain::nam_digitech_bad_monkey::asset_summary("boost1", "feather").unwrap(), "model='pedals/digitech_bad_monkey/badmonkey_boost1_v10_b4_t6_g0_feather.nam'");
    assert!(block_gain::nam_digitech_bad_monkey::validate_params("boost1", "feather").is_ok());
    assert_eq!(block_gain::nam_digitech_bad_monkey::resolve_capture("boost1", "lite").unwrap(), "pedals/digitech_bad_monkey/badmonkey_boost1_v10_b4_t6_g0_lite.nam");
    assert_eq!(block_gain::nam_digitech_bad_monkey::asset_summary("boost1", "lite").unwrap(), "model='pedals/digitech_bad_monkey/badmonkey_boost1_v10_b4_t6_g0_lite.nam'");
    assert!(block_gain::nam_digitech_bad_monkey::validate_params("boost1", "lite").is_ok());
    assert_eq!(block_gain::nam_digitech_bad_monkey::resolve_capture("boost1", "standard").unwrap(), "pedals/digitech_bad_monkey/badmonkey_boost1_v10_b4_t6_g0_standard.nam");
    assert_eq!(block_gain::nam_digitech_bad_monkey::asset_summary("boost1", "standard").unwrap(), "model='pedals/digitech_bad_monkey/badmonkey_boost1_v10_b4_t6_g0_standard.nam'");
    assert!(block_gain::nam_digitech_bad_monkey::validate_params("boost1", "standard").is_ok());
    assert_eq!(block_gain::nam_digitech_bad_monkey::resolve_capture("boost2", "feather").unwrap(), "pedals/digitech_bad_monkey/badmonkey_boost2_v10_b4_t6_g4_feather.nam");
    assert_eq!(block_gain::nam_digitech_bad_monkey::asset_summary("boost2", "feather").unwrap(), "model='pedals/digitech_bad_monkey/badmonkey_boost2_v10_b4_t6_g4_feather.nam'");
    assert!(block_gain::nam_digitech_bad_monkey::validate_params("boost2", "feather").is_ok());
    assert_eq!(block_gain::nam_digitech_bad_monkey::resolve_capture("boost2", "lite").unwrap(), "pedals/digitech_bad_monkey/badmonkey_boost2_v10_b4_t6_g4_lite.nam");
    assert_eq!(block_gain::nam_digitech_bad_monkey::asset_summary("boost2", "lite").unwrap(), "model='pedals/digitech_bad_monkey/badmonkey_boost2_v10_b4_t6_g4_lite.nam'");
    assert!(block_gain::nam_digitech_bad_monkey::validate_params("boost2", "lite").is_ok());
    assert_eq!(block_gain::nam_digitech_bad_monkey::resolve_capture("boost2", "standard").unwrap(), "pedals/digitech_bad_monkey/badmonkey_boost2_v10_b4_t6_g4_standard.nam");
    assert_eq!(block_gain::nam_digitech_bad_monkey::asset_summary("boost2", "standard").unwrap(), "model='pedals/digitech_bad_monkey/badmonkey_boost2_v10_b4_t6_g4_standard.nam'");
    assert!(block_gain::nam_digitech_bad_monkey::validate_params("boost2", "standard").is_ok());
    assert_eq!(block_gain::nam_digitech_bad_monkey::resolve_capture("boost3_g0", "feather").unwrap(), "pedals/digitech_bad_monkey/badmonkey_boost3_v10_b7_t6_g0_feather.nam");
    assert_eq!(block_gain::nam_digitech_bad_monkey::asset_summary("boost3_g0", "feather").unwrap(), "model='pedals/digitech_bad_monkey/badmonkey_boost3_v10_b7_t6_g0_feather.nam'");
    assert!(block_gain::nam_digitech_bad_monkey::validate_params("boost3_g0", "feather").is_ok());
    assert_eq!(block_gain::nam_digitech_bad_monkey::resolve_capture("boost3_g0", "lite").unwrap(), "pedals/digitech_bad_monkey/badmonkey_boost3_v10_b7_t6_g0_lite.nam");
    assert_eq!(block_gain::nam_digitech_bad_monkey::asset_summary("boost3_g0", "lite").unwrap(), "model='pedals/digitech_bad_monkey/badmonkey_boost3_v10_b7_t6_g0_lite.nam'");
    assert!(block_gain::nam_digitech_bad_monkey::validate_params("boost3_g0", "lite").is_ok());
    assert_eq!(block_gain::nam_digitech_bad_monkey::resolve_capture("boost3_g0", "standard").unwrap(), "pedals/digitech_bad_monkey/badmonkey_boost3_v10_b7_t6_g0_standard.nam");
    assert_eq!(block_gain::nam_digitech_bad_monkey::asset_summary("boost3_g0", "standard").unwrap(), "model='pedals/digitech_bad_monkey/badmonkey_boost3_v10_b7_t6_g0_standard.nam'");
    assert!(block_gain::nam_digitech_bad_monkey::validate_params("boost3_g0", "standard").is_ok());
    assert_eq!(block_gain::nam_digitech_bad_monkey::resolve_capture("boost3_g4", "feather").unwrap(), "pedals/digitech_bad_monkey/badmonkey_boost3_v10_b7_t6_g4_feather.nam");
    assert_eq!(block_gain::nam_digitech_bad_monkey::asset_summary("boost3_g4", "feather").unwrap(), "model='pedals/digitech_bad_monkey/badmonkey_boost3_v10_b7_t6_g4_feather.nam'");
    assert!(block_gain::nam_digitech_bad_monkey::validate_params("boost3_g4", "feather").is_ok());
    assert_eq!(block_gain::nam_digitech_bad_monkey::resolve_capture("boost3_g4", "lite").unwrap(), "pedals/digitech_bad_monkey/badmonkey_boost3_v10_b7_t6_g4_lite.nam");
    assert_eq!(block_gain::nam_digitech_bad_monkey::asset_summary("boost3_g4", "lite").unwrap(), "model='pedals/digitech_bad_monkey/badmonkey_boost3_v10_b7_t6_g4_lite.nam'");
    assert!(block_gain::nam_digitech_bad_monkey::validate_params("boost3_g4", "lite").is_ok());
    assert_eq!(block_gain::nam_digitech_bad_monkey::resolve_capture("boost3_g4", "standard").unwrap(), "pedals/digitech_bad_monkey/badmonkey_boost3_v10_b7_t6_g4_standard.nam");
    assert_eq!(block_gain::nam_digitech_bad_monkey::asset_summary("boost3_g4", "standard").unwrap(), "model='pedals/digitech_bad_monkey/badmonkey_boost3_v10_b7_t6_g4_standard.nam'");
    assert!(block_gain::nam_digitech_bad_monkey::validate_params("boost3_g4", "standard").is_ok());
    assert_eq!(block_gain::nam_digitech_bad_monkey::resolve_capture("fulltone", "feather").unwrap(), "pedals/digitech_bad_monkey/badmonkey_fulltone_feather.nam");
    assert_eq!(block_gain::nam_digitech_bad_monkey::asset_summary("fulltone", "feather").unwrap(), "model='pedals/digitech_bad_monkey/badmonkey_fulltone_feather.nam'");
    assert!(block_gain::nam_digitech_bad_monkey::validate_params("fulltone", "feather").is_ok());
    assert_eq!(block_gain::nam_digitech_bad_monkey::resolve_capture("fulltone", "lite").unwrap(), "pedals/digitech_bad_monkey/badmonkey_fulltone_lite.nam");
    assert_eq!(block_gain::nam_digitech_bad_monkey::asset_summary("fulltone", "lite").unwrap(), "model='pedals/digitech_bad_monkey/badmonkey_fulltone_lite.nam'");
    assert!(block_gain::nam_digitech_bad_monkey::validate_params("fulltone", "lite").is_ok());
    assert_eq!(block_gain::nam_digitech_bad_monkey::resolve_capture("fulltone", "standard").unwrap(), "pedals/digitech_bad_monkey/badmonkey_fulltone_standard.nam");
    assert_eq!(block_gain::nam_digitech_bad_monkey::asset_summary("fulltone", "standard").unwrap(), "model='pedals/digitech_bad_monkey/badmonkey_fulltone_standard.nam'");
    assert!(block_gain::nam_digitech_bad_monkey::validate_params("fulltone", "standard").is_ok());
    assert_eq!(block_gain::nam_digitech_bad_monkey::resolve_capture("glory", "feather").unwrap(), "pedals/digitech_bad_monkey/badmonkey_glory_feather.nam");
    assert_eq!(block_gain::nam_digitech_bad_monkey::asset_summary("glory", "feather").unwrap(), "model='pedals/digitech_bad_monkey/badmonkey_glory_feather.nam'");
    assert!(block_gain::nam_digitech_bad_monkey::validate_params("glory", "feather").is_ok());
    assert_eq!(block_gain::nam_digitech_bad_monkey::resolve_capture("glory", "lite").unwrap(), "pedals/digitech_bad_monkey/badmonkey_glory_lite.nam");
    assert_eq!(block_gain::nam_digitech_bad_monkey::asset_summary("glory", "lite").unwrap(), "model='pedals/digitech_bad_monkey/badmonkey_glory_lite.nam'");
    assert!(block_gain::nam_digitech_bad_monkey::validate_params("glory", "lite").is_ok());
    assert_eq!(block_gain::nam_digitech_bad_monkey::resolve_capture("glory", "standard").unwrap(), "pedals/digitech_bad_monkey/badmonkey_glory_standard.nam");
    assert_eq!(block_gain::nam_digitech_bad_monkey::asset_summary("glory", "standard").unwrap(), "model='pedals/digitech_bad_monkey/badmonkey_glory_standard.nam'");
    assert!(block_gain::nam_digitech_bad_monkey::validate_params("glory", "standard").is_ok());
    assert_eq!(block_gain::nam_digitech_bad_monkey::resolve_capture("klon", "feather").unwrap(), "pedals/digitech_bad_monkey/badmonkey_klon_feather.nam");
    assert_eq!(block_gain::nam_digitech_bad_monkey::asset_summary("klon", "feather").unwrap(), "model='pedals/digitech_bad_monkey/badmonkey_klon_feather.nam'");
    assert!(block_gain::nam_digitech_bad_monkey::validate_params("klon", "feather").is_ok());
    assert_eq!(block_gain::nam_digitech_bad_monkey::resolve_capture("klon", "lite").unwrap(), "pedals/digitech_bad_monkey/badmonkey_klon_lite.nam");
    assert_eq!(block_gain::nam_digitech_bad_monkey::asset_summary("klon", "lite").unwrap(), "model='pedals/digitech_bad_monkey/badmonkey_klon_lite.nam'");
    assert!(block_gain::nam_digitech_bad_monkey::validate_params("klon", "lite").is_ok());
    assert_eq!(block_gain::nam_digitech_bad_monkey::resolve_capture("klon", "standard").unwrap(), "pedals/digitech_bad_monkey/badmonkey_klon_standard.nam");
    assert_eq!(block_gain::nam_digitech_bad_monkey::asset_summary("klon", "standard").unwrap(), "model='pedals/digitech_bad_monkey/badmonkey_klon_standard.nam'");
    assert!(block_gain::nam_digitech_bad_monkey::validate_params("klon", "standard").is_ok());
    assert_eq!(block_gain::nam_digitech_bad_monkey::resolve_capture("noble_odr_1", "feather").unwrap(), "pedals/digitech_bad_monkey/badmonkey_noble_odr_1_feather.nam");
    assert_eq!(block_gain::nam_digitech_bad_monkey::asset_summary("noble_odr_1", "feather").unwrap(), "model='pedals/digitech_bad_monkey/badmonkey_noble_odr_1_feather.nam'");
    assert!(block_gain::nam_digitech_bad_monkey::validate_params("noble_odr_1", "feather").is_ok());
    assert_eq!(block_gain::nam_digitech_bad_monkey::resolve_capture("noble_odr_1", "lite").unwrap(), "pedals/digitech_bad_monkey/badmonkey_noble_odr_1_lite.nam");
    assert_eq!(block_gain::nam_digitech_bad_monkey::asset_summary("noble_odr_1", "lite").unwrap(), "model='pedals/digitech_bad_monkey/badmonkey_noble_odr_1_lite.nam'");
    assert!(block_gain::nam_digitech_bad_monkey::validate_params("noble_odr_1", "lite").is_ok());
    assert_eq!(block_gain::nam_digitech_bad_monkey::resolve_capture("noble_odr_1", "standard").unwrap(), "pedals/digitech_bad_monkey/badmonkey_noble_odr_1_standard.nam");
    assert_eq!(block_gain::nam_digitech_bad_monkey::asset_summary("noble_odr_1", "standard").unwrap(), "model='pedals/digitech_bad_monkey/badmonkey_noble_odr_1_standard.nam'");
    assert!(block_gain::nam_digitech_bad_monkey::validate_params("noble_odr_1", "standard").is_ok());
    assert_eq!(block_gain::nam_digitech_bad_monkey::resolve_capture("ts10", "feather").unwrap(), "pedals/digitech_bad_monkey/badmonkey_ts10_feather.nam");
    assert_eq!(block_gain::nam_digitech_bad_monkey::asset_summary("ts10", "feather").unwrap(), "model='pedals/digitech_bad_monkey/badmonkey_ts10_feather.nam'");
    assert!(block_gain::nam_digitech_bad_monkey::validate_params("ts10", "feather").is_ok());
    assert_eq!(block_gain::nam_digitech_bad_monkey::resolve_capture("ts10", "lite").unwrap(), "pedals/digitech_bad_monkey/badmonkey_ts10_lite.nam");
    assert_eq!(block_gain::nam_digitech_bad_monkey::asset_summary("ts10", "lite").unwrap(), "model='pedals/digitech_bad_monkey/badmonkey_ts10_lite.nam'");
    assert!(block_gain::nam_digitech_bad_monkey::validate_params("ts10", "lite").is_ok());
    assert_eq!(block_gain::nam_digitech_bad_monkey::resolve_capture("ts10", "standard").unwrap(), "pedals/digitech_bad_monkey/badmonkey_ts10_standard.nam");
    assert_eq!(block_gain::nam_digitech_bad_monkey::asset_summary("ts10", "standard").unwrap(), "model='pedals/digitech_bad_monkey/badmonkey_ts10_standard.nam'");
    assert!(block_gain::nam_digitech_bad_monkey::validate_params("ts10", "standard").is_ok());
    assert_eq!(block_gain::nam_digitech_bad_monkey::resolve_capture("zen", "feather").unwrap(), "pedals/digitech_bad_monkey/badmonkey_zen_feather.nam");
    assert_eq!(block_gain::nam_digitech_bad_monkey::asset_summary("zen", "feather").unwrap(), "model='pedals/digitech_bad_monkey/badmonkey_zen_feather.nam'");
    assert!(block_gain::nam_digitech_bad_monkey::validate_params("zen", "feather").is_ok());
    assert_eq!(block_gain::nam_digitech_bad_monkey::resolve_capture("zen", "lite").unwrap(), "pedals/digitech_bad_monkey/badmonkey_zen_lite.nam");
    assert_eq!(block_gain::nam_digitech_bad_monkey::asset_summary("zen", "lite").unwrap(), "model='pedals/digitech_bad_monkey/badmonkey_zen_lite.nam'");
    assert!(block_gain::nam_digitech_bad_monkey::validate_params("zen", "lite").is_ok());
    assert_eq!(block_gain::nam_digitech_bad_monkey::resolve_capture("zen", "standard").unwrap(), "pedals/digitech_bad_monkey/badmonkey_zen_standard.nam");
    assert_eq!(block_gain::nam_digitech_bad_monkey::asset_summary("zen", "standard").unwrap(), "model='pedals/digitech_bad_monkey/badmonkey_zen_standard.nam'");
    assert!(block_gain::nam_digitech_bad_monkey::validate_params("zen", "standard").is_ok());
}

#[test]
fn nam_digitech_bad_monkey_defaults_validate() {
    let schema = block_gain::nam_digitech_bad_monkey::model_schema();
    let params = schema.parameters.unwrap();
    let mut defaults: Vec<&str> = Vec::new();
    for p in params.iter() {
        match &p.kind {
            ParameterKind::Enum { default, .. } => defaults.push(default.unwrap()),
            _ => panic!("every parameter of this model is enumerated"),
        }
    }
    assert_eq!(defaults, vec!["klon", "standard"]);
    assert!(block_gain::nam_digitech_bad_monkey::validate_params(defaults[0], defaults[1]).is_ok());
}

#[test]
fn nam_digitech_bad_monkey_unknown_setting_is_refused() {
    let expected = "gain 'nam_digitech_bad_monkey' has no capture for voicing=bogus size=standard";
    match block_gain::nam_digitech_bad_monkey::validate_params("bogus", "standard") {
        Err(GainError::UnsupportedSetting(m)) => assert_eq!(m, expected),
        _ => panic!("an unknown setting must be refused"),
    }
    assert_eq!(block_gain::nam_digitech_bad_monkey::asset_summary("bogus", "standard").unwrap_err().message(), expected);
    assert!(block_gain::nam_digitech_bad_monkey::resolve_capture("bogus", "standard").is_err());
}

#[test]
fn nam_digitech_grunge_every_capture_resolves() {
    assert_eq!(block_gain::nam_digitech_grunge::resolve_capture("5", "3").unwrap(), "pedals/digitech_grunge/digitech_grunge_tone_5_grunge_3.nam");
    assert_eq!(block_gain::nam_digitech_grunge::asset_summary("5", "3").unwrap(), "model='pedals/digitech_grunge/digitech_grunge_tone_5_grunge_3.nam'");
    assert!(block_gain::nam_digitech_grunge::validate_params("5", "3").is_ok());
    assert_eq!(block_gain::nam_digitech_grunge::resolve_capture("5", "5").unwrap(), "pedals/digitech_grunge/digitech_grunge_tone_5_grunge_5.nam");
    assert_eq!(block_gain::nam_digitech_grunge::asset_summary("5", "5").unwrap(), "model='pedals/digitech_grunge/digitech_grunge_tone_5_grunge_5.nam'");
    assert!(block_gain::nam_digitech_grunge::validate_params("5", "5").is_ok());
    assert_eq!(block_gain::nam_digitech_grunge::resolve_capture("5", "7").unwrap(), "pedals/digitech_grunge/digitech_grunge_tone_5_grunge_7.nam");
    assert_eq!(block_gain::nam_digitech_grunge::asset_summary("5", "7").unwrap(), "model='pedals/digitech_grunge/digitech_grunge_tone_5_grunge_7.nam'");
    assert!(block_gain::nam_digitech_grunge::validate_params("5", "7").is_ok());
    assert_eq!(block_gain::nam_digitech_grunge::resolve_capture("5", "9").unwrap(), "pedals/digitech_grunge/digitech_grunge_tone_5_grunge_9.nam");
    assert_eq!(block_gain::nam_digitech_grunge::asset_summary("5", "9").unwrap(), "model='pedals/digitech_grunge/digitech_grunge_tone_5_grunge_9.nam'");
    assert!(block_gain::nam_digitech_grunge::validate_params("5", "9").is_ok());
    assert_eq!(block_gain::nam_digitech_grunge::resolve_capture("7", "3").unwrap(), "pedals/digitech_grunge/digitech_grunge_tone_7_grunge_3.nam");
    assert_eq!(block_gain::nam_digitech_grunge::asset_summary("7", "3").unwrap(), "model='pedals/digitech_grunge/digitech_grunge_tone_7_grunge_3.nam'");
    assert!(block_gain::nam_digitech_grunge::validate_params("7", "3").is_ok());
    assert_eq!(block_gain::nam_digitech_grunge::resolve_capture("7", "5").unwrap(), "pedals/digitech_grunge/digitech_grunge_tone_7_grunge_5.nam");
    assert_eq!(block_gain::nam_digitech_grunge::asset_summary("7", "5").unwrap(), "model='pedals/digitech_grunge/digitech_grunge_tone_7_grunge_5.nam'");
    assert!(block_gain::nam_digitech_grunge::validate_params("7", "5").is_ok());
    assert_eq!(block_gain::nam_digitech_grunge::resolve_capture("7", "7").unwrap(), "pedals/digitech_grunge/digitech_grunge_tone_7_grunge_7.nam");
    assert_eq!(block_gain::nam_digitech_grunge::asset_summary("7", "7").unwrap(), "model='pedals/digitech_grunge/digitech_grunge_tone_7_grunge_7.nam'");
    assert!(block_gain::nam_digitech_grunge::validate_params("7", "7").is_ok());
    assert_eq!(block_gain::nam_digitech_grunge::resolve_capture("7", "9").unwrap(), "pedals/digitech_grunge/digitech_grunge_tone_7_grunge_9.nam");
    assert_eq!(block_gain::nam_digitech_grunge::asset_summary("7", "9").unwrap(), "model='pedals/digitech_grunge/digitech_grunge_tone_7_grunge_9.nam'");
    assert!(block_gain::nam_digitech_grunge::validate_params("7", "9").is_ok());
}

#[test]
fn nam_digitech_grunge_defaults_validate() {
    let schema = block_gain::nam_digitech_grunge::model_schema();
    let params = schema.parameters.unwrap();
    let mut defaults: Vec<&str> = Vec::new();
    for p in params.iter() {
        match &p.kind {
            ParameterKind::Enum { default, .. } => defaults.push(default.unwrap()),
            _ => panic!("every parameter of this model is enumerated"),
        }
    }
    assert_eq!(defaults, vec!["5", "5"]);
    assert!(block_gain::nam_digitech_grunge::validate_params(defaults[0], defaults[1]).is_ok());
}

#[test]
fn nam_digitech_grunge_unknown_setting_is_refused() {
    let expected = "gain 'nam_digitech_grunge' has no capture for tone=bogus grunge=5";
    match block_gain::nam_digitech_grunge::validate_params("bogus", "5") {
        Err(GainError::UnsupportedSetting(m)) => assert_eq!(m, expected),
        _ => panic!("an unknown setting must be refused"),
    }
    assert_eq!(block_gain::nam_digitech_grunge::asset_summary("bogus", "5").unwrap_err().message(), expected);
    assert!(block_gain::nam_digitech_grunge::resolve_capture("bogus", "5").is_err());
}

#[test]
fn nam_earthquaker_hizumitas_every_capture_resolves() {
    assert_eq!(block_gain::nam_earthquaker_hizumitas::resolve_capture("0", "0").unwrap(), "pedals/earthquaker_hizumitas/1_hizumitas_vol_5_sustain_0_tone_0.nam");
    assert_eq!(block_gain::nam_earthquaker_hizumitas::asset_summary("0", "0").unwrap(), "model='pedals/earthquaker_hizumitas/1_hizumitas_vol_5_sustain_0_tone_0.nam'");
    assert!(block_gain::nam_earthquaker_hizumitas::validate_params("0", "0").is_ok());
    assert_eq!(block_gain::nam_earthquaker_hizumitas::resolve_capture("3", "0").unwrap(), "pedals/earthquaker_hizumitas/2_hizumitas_vol_5_sustain_3_tone_0.nam");
    assert_eq!(block_gain::nam_earthquaker_hizumitas::asset_summary("3", "0").unwrap(), "model='pedals/earthquaker_hizumitas/2_hizumitas_vol_5_sustain_3_tone_0.nam'");
    assert!(block_gain::nam_earthquaker_hizumitas::validate_params("3", "0").is_ok());
    assert_eq!(block_gain::nam_earthquaker_hizumitas::resolve_capture("5", "0").unwrap(), "pedals/earthquaker_hizumitas/3_hizumitas_vol_5_sustain_5_tone_0.nam");
    assert_eq!(block_gain::nam_earthquaker_hizumitas::asset_summary("5", "0").unwrap(), "model='pedals/earthquaker_hizumitas/3_hizumitas_vol_5_sustain_5_tone_0.nam'");
    assert!(block_gain::nam_earthquaker_hizumitas::validate_params("5", "0").is_ok());
    assert_eq!(block_gain::nam_earthquaker_hizumitas::resolve_capture("7", "0").unwrap(), "pedals/earthquaker_hizumitas/4_hizumitas_vol_5_sustain_7_tone_0.nam");
    assert_eq!(block_gain::nam_earthquaker_hizumitas::asset_summary("7", "0").unwrap(), "model='pedals/earthquaker_hizumitas/4_hizumitas_vol_5_sustain_7_tone_0.nam'");
    assert!(block_gain::nam_earthquaker_hizumitas::validate_params("7", "0").is_ok());
    assert_eq!(block_gain::nam_earthquaker_hizumitas::resolve_capture("10", "0").unwrap(), "pedals/earthquaker_hizumitas/5_hizumitas_vol_5_sustain_10_tone_0.nam");
    assert_eq!(block_gain::nam_earthquaker_hizumitas::asset_summary("10", "0").unwrap(), "model='pedals/earthquaker_hizumitas/5_hizumitas_vol_5_sustain_10_tone_0.nam'");
    assert!(block_gain::nam_earthquaker_hizumitas::validate_params("10", "0").is_ok());
    assert_eq!(block_gain::nam_earthquaker_hizumitas::resolve_capture("3", "3").unwrap(), "pedals/earthquaker_hizumitas/6_hizumitas_vol_5_sustain_3_tone_3.nam");
    assert_eq!(block_gain::nam_earthquaker_hizumitas::asset_summary("3", "3").unwrap(), "model='pedals/earthquaker_hizumitas/6_hizumitas_vol_5_sustain_3_tone_3.nam'");
    assert!(block_gain::nam_earthquaker_hizumitas::validate_params("3", "3").is_ok());
    assert_eq!(block_gain::nam_earthquaker_hizumitas::resolve_capture("5", "3").unwrap(), "pedals/earthquaker_hizumitas/7_hizumitas_vol_5_sustain_5_tone_3.nam");
    assert_eq!(block_gain::nam_earthquaker_hizumitas::asset_summary("5", "3").unwrap(), "model='pedals/earthquaker_hizumitas/7_hizumitas_vol_5_sustain_5_tone_3.nam'");
    assert!(block_gain::nam_earthquaker_hizumitas::validate_params("5", "3").is_ok());
    assert_eq!(block_gain::nam_earthquaker_hizumitas::resolve_capture("7", "3").unwrap(), "pedals/earthquaker_hizumitas/8_hizumitas_vol_5_sustain_7_tone_3.nam");
    assert_eq!(block_gain::nam_earthquaker_hizumitas::asset_summary("7", "3").unwrap(), "model='pedals/earthquaker_hizumitas/8_hizumitas_vol_5_sustain_7_tone_3.nam'");
    assert!(block_gain::nam_earthquaker_hizumitas::validate_params("7", "3").is_ok());
    assert_eq!(block_gain::nam_earthquaker_hizumitas::resolve_capture("10", "3").unwrap(), "pedals/earthquaker_hizumitas/9_hizumitas_vol_5_sustain_10_tone_3.nam");
    assert_eq!(block_gain::nam_earthquaker_hizumitas::asset_summary("10", "3").unwrap(), "model='pedals/earthquaker_hizumitas/9_hizumitas_vol_5_sustain_10_tone_3.nam'");
    assert!(block_gain::nam_earthquaker_hizumitas::validate_params("10", "3").is_ok());
    assert_eq!(block_gain::nam_earthquaker_hizumitas::resolve_capture("0", "5").unwrap(), "pedals/earthquaker_hizumitas/10_hizumitas_vol_5_sustain_0_tone_5.nam");
    assert_eq!(block_gain::nam_earthquaker_hizumitas::asset_summary("0", "5").unwrap(), "model='pedals/earthquaker_hizumitas/10_hizumitas_vol_5_sustain_0_tone_5.nam'");
    assert!(block_gain::nam_earthquaker_hizumitas::validate_params("0", "5").is_ok());
    assert_eq!(block_gain::nam_earthquaker_hizumitas::resolve_capture("3", "5").unwrap(), "pedals/earthquaker_hizumitas/11_hizumitas_vol_5_sustain_3_tone_5.nam");
    assert_eq!(block_gain::nam_earthquaker_hizumitas::asset_summary("3", "5").unwrap(), "model='pedals/earthquaker_hizumitas/11_hizumitas_vol_5_sustain_3_tone_5.nam'");
    assert!(block_gain::nam_earthquaker_hizumitas::validate_params("3", "5").is_ok());
    assert_eq!(block_gain::nam_earthquaker_hizumitas::resolve_capture("5", "5").unwrap(), "pedals/earthquaker_hizumitas/12_hizumitas_vol_5_sustain_5_tone_5.nam");
    assert_eq!(block_gain::nam_earthquaker_hizumitas::asset_summary("5", "5").unwrap(), "model='pedals/earthquaker_hizumitas/12_hizumitas_vol_5_sustain_5_tone_5.nam'");
    assert!(block_gain::nam_earthquaker_hizumitas::validate_params("5", "5").is_ok());
    assert_eq!(block_gain::nam_earthquaker_hizumitas::resolve_capture("7", "5").unwrap(), "pedals/earthquaker_hizumitas/13_hizumitas_vol_5_sustain_7_tone_5.nam");
    assert_eq!(block_gain::nam_earthquaker_hizumitas::asset_summary("7", "5").unwrap(), "model='pedals/earthquaker_hizumitas/13_hizumitas_vol_5_sustain_7_tone_5.nam'");
    assert!(block_gain::nam_earthquaker_hizumitas::validate_params("7", "5").is_ok());
    assert_eq!(block_gain::nam_earthquaker_hizumitas::resolve_capture("10", "5").unwrap(), "pedals/earthquaker_hizumitas/14_hizumitas_vol_5_sustain_10_tone_5.nam");
    assert_eq!(block_gain::nam_earthquaker_hizumitas::asset_summary("10", "5").unwrap(), "model='pedals/earthquaker_hizumitas/14_hizumitas_vol_5_sustain_10_tone_5.nam'");
    assert!(block_gain::nam_earthquaker_hizumitas::validate_params("10", "5").is_ok());
    assert_eq!(block_gain::nam_earthquaker_hizumitas::resolve_capture("0", "7").unwrap(), "pedals/earthquaker_hizumitas/15_hizumitas_vol_5_sustain_0_tone_7.nam");
    assert_eq!(block_gain::nam_earthquaker_hizumitas::asset_summary("0", "7").unwrap(), "model='pedals/earthquaker_hizumitas/15_hizumitas_vol_5_sustain_0_tone_7.nam'");
    assert!(block_gain::nam_earthquaker_hizumitas::validate_params("0", "7").is_ok());
    assert_eq!(block_gain::nam_earthquaker_hizumitas::resolve_capture("3", "7").unwrap(), "pedals/earthquaker_hizumitas/16_hizumitas_vol_5_sustain_3_tone_7.nam");
    assert_eq!(block_gain::nam_earthquaker_hizumitas::asset_summary("3", "7").unwrap(), "model='pedals/earthquaker_hizumitas/16_hizumitas_vol_5_sustain_3_tone_7.nam'");
    assert!(block_gain::nam_earthquaker_hizumitas::validate_params("3", "7").is_ok());
    assert_eq!(block_gain::nam_earthquaker_hizumitas::resolve_capture("5", "7").unwrap(), "pedals/earthquaker_hizumitas/17_hizumitas_vol_5_sustain_5_tone_7.nam");
    assert_eq!(block_gain::nam_earthquaker_hizumitas::asset_summary("5", "7").unwrap(), "model='pedals/earthquaker_hizumitas/17_hizumitas_vol_5_sustain_5_tone_7.nam'");
    assert!(block_gain::nam_earthquaker_hizumitas::validate_params("5", "7").is_ok());
    assert_eq!(block_gain::nam_earthquaker_hizumitas::resolve_capture("7", "7").unwrap(), "pedals/earthquaker_hizumitas/18_hizumitas_vol_5_sustain_7_tone_7.nam");
    assert_eq!(block_gain::nam_earthquaker_hizumitas::asset_summary("7", "7").unwrap(), "model='pedals/earthquaker_hizumitas/18_hizumitas_vol_5_sustain_7_tone_7.nam'");
    assert!(block_gain::nam_earthquaker_hizumitas::validate_params("7", "7").is_ok());
    assert_eq!(block_gain::nam_earthquaker_hizumitas::resolve_capture("10", "7").unwrap(), "pedals/earthquaker_hizumitas/19_hizumitas_vol_5_sustain_10_tone_7.nam");
    assert_eq!(block_gain::nam_earthquaker_hizumitas::asset_summary("10", "7").unwrap(), "model='pedals/earthquaker_hizumitas/19_hizumitas_vol_5_sustain_10_tone_7.nam'");
    assert!(block_gain::nam_earthquaker_hizumitas::validate_params("10", "7").is_ok());
    assert_eq!(block_gain::nam_earthquaker_hizumitas::resolve_capture("0", "10").unwrap(), "pedals/earthquaker_hizumitas/20_hizumitas_vol_5_sustain_0_tone_10.nam");
    assert_eq!(block_gain::nam_earthquaker_hizumitas::asset_summary("0", "10").unwrap(), "model='pedals/earthquaker_hizumitas/20_hizumitas_vol_5_sustain_0_tone_10.nam'");
    assert!(block_gain::nam_earthquaker_hizumitas::validate_params("0", "10").is_ok());
    assert_eq!(block_gain::nam_earthquaker_hizumitas::resolve_capture("3", "10").unwrap(), "pedals/earthquaker_hizumitas/21_hizumitas_vol_5_sustain_3_tone_10.nam");
    assert_eq!(block_gain::nam_earthquaker_hizumitas::asset_summary("3", "10").unwrap(), "model='pedals/earthquaker_hizumitas/21_hizumitas_vol_5_sustain_3_tone_10.nam'");
    assert!(block_gain::nam_earthquaker_hizumitas::validate_params("3", "10").is_ok());
    assert_eq!(block_gain::nam_earthquaker_hizumitas::resolve_capture("5", "10").unwrap(), "pedals/earthquaker_hizumitas/22_hizumitas_vol_5_sustain_5_tone_10.nam");
    assert_eq!(block_gain::nam_earthquaker_hizumitas::asset_summary("5", "10").unwrap(), "model='pedals/earthquaker_hizumitas/22_hizumitas_vol_5_sustain_5_tone_10.nam'");
    assert!(block_gain::nam_earthquaker_hizumitas::validate_params("5", "10").is_ok());
    assert_eq!(block_gain::nam_earthquaker_hizumitas::resolve_capture("7", "10").unwrap(), "pedals/earthquaker_hizumitas/23_hizumitas_vol_5_sustain_7_tone_10.nam");
    assert_eq!(block_gain::nam_earthquaker_hizumitas::asset_summary("7", "10").unwrap(), "model='pedals/earthquaker_hizumitas/23_hizumitas_vol_5_sustain_7_tone_10.nam'");
    assert!(block_gain::nam_earthquaker_hizumitas::validate_params("7", "10").is_ok());
    assert_eq!(block_gain::nam_earthquaker_hizumitas::resolve_capture("10", "10").unwrap(), "pedals/earthquaker_hizumitas/24_hizumitas_vol_5_sustain_10_tone_10.nam");
    assert_eq!(block_gain::nam_earthquaker_hizumitas::asset_summary("10", "10").unwrap(), "model='pedals/earthquaker_hizumitas/24_hizumitas_vol_5_sustain_10_tone_10.nam'");
    assert!(block_gain::nam_earthquaker_hizumitas::validate_params("10", "10").is_ok());
}

#[test]
fn nam_earthquaker_hizumitas_defaults_validate() {
    let schema = block_gain::nam_earthquaker_hizumitas::model_schema();
    let params = schema.parameters.unwrap();
    let mut defaults: Vec<&str> = Vec::new();
    for p in params.iter() {
        match &p.kind {
            ParameterKind::Enum { default, .. } => defaults.push(default.unwrap()),
            _ => panic!("every parameter of this model is enumerated"),
        }
    }
    assert_eq!(defaults, vec!["5", "5"]);
    assert!(block_gain::nam_earthquaker_hizumitas::validate_params(defaults[0], defaults[1]).is_ok());
}

#[test]
fn nam_earthquaker_hizumitas_unknown_setting_is_refused() {
    let expected = "gain 'nam_earthquaker_hizumitas' has no capture for sustain=bogus tone=5";
    match block_gain::nam_earthquaker_hizumitas::validate_params("bogus", "5") {
        Err(GainError::UnsupportedSetting(m)) => assert_eq!(m, expected),
        _ => panic!("an unknown setting must be refused"),
    }
    assert_eq!(block_gain::nam_earthquaker_hizumitas::asset_summary("bogus", "5").unwrap_err().message(), expected);
    assert!(block_gain::nam_earthquaker_hizumitas::resolve_capture("bogus", "5").is_err());
}

#[test]
fn nam_earthquaker_hizumitas_holes_are_refused() {
    match block_gain::nam_earthquaker_hizumitas::validate_params("0", "3") {
        Err(GainError::UnsupportedSetting(m)) => assert_eq!(m, "gain 'nam_earthquaker_hizumitas' has no capture for sustain=0 tone=3"),
        _ => panic!("a hole in the capture grid must be refused"),
    }
}

#[test]
fn nam_earthquaker_plumes_every_capture_resolves() {
    assert_eq!(block_gain::nam_earthquaker_plumes::resolve_capture("low", "0").unwrap(), "pedals/earthquaker_plumes/plumes_switch_3_level_100_gain_0_tone_0.nam");
    assert_eq!(block_gain::nam_earthquaker_plumes::asset_summary("low", "0").unwrap(), "model='pedals/earthquaker_plumes/plumes_switch_3_level_100_gain_0_tone_0.nam'");
    assert!(block_gain::nam_earthquaker_plumes::validate_params("low", "0").is_ok());
    assert_eq!(block_gain::nam_earthquaker_plumes::resolve_capture("low", "25").unwrap(), "pedals/earthquaker_plumes/plumes_switch_3_level_100_gain_0_tone_25.nam");
    assert_eq!(block_gain::nam_earthquaker_plumes::asset_summary("low", "25").unwrap(), "model='pedals/earthquaker_plumes/plumes_switch_3_level_100_gain_0_tone_25.nam'");
    assert!(block_gain::nam_earthquaker_plumes::validate_params("low", "25").is_ok());
    assert_eq!(block_gain::nam_earthquaker_plumes::resolve_capture("low", "50").unwrap(), "pedals/earthquaker_plumes/plumes_switch_3_level_100_gain_0_tone_50.nam");
    assert_eq!(block_gain::nam_earthquaker_plumes::asset_summary("low", "50").unwrap(), "model='pedals/earthquaker_plumes/plumes_switch_3_level_100_gain_0_tone_50.nam'");
    assert!(block_gain::nam_earthquaker_plumes::validate_params("low", "50").is_ok());
    assert_eq!(block_gain::nam_earthquaker_plumes::resolve_capture("low", "75").unwrap(), "pedals/earthquaker_plumes/plumes_switch_3_level_100_gain_0_tone_75.nam");
    assert_eq!(block_gain::nam_earthquaker_plumes::asset_summary("low", "75").unwrap(), "model='pedals/earthquaker_plumes/plumes_switch_3_level_100_gain_0_tone_75.nam'");
    assert!(block_gain::nam_earthquaker_plumes::validate_params("low", "75").is_ok());
    assert_eq!(block_gain::nam_earthquaker_plumes::resolve_capture("low", "100").unwrap(), "pedals/earthquaker_plumes/plumes_switch_3_level_100_gain_0_tone_100.nam");
    assert_eq!(block_gain::nam_earthquaker_plumes::asset_summary("low", "100").unwrap(), "model='pedals/earthquaker_plumes/plumes_switch_3_level_100_gain_0_tone_100.nam'");
    assert!(block_gain::nam_earthquaker_plumes::validate_params("low", "100").is_ok());
    assert_eq!(block_gain::nam_earthquaker_plumes::resolve_capture("mid", "0").unwrap(), "pedals/earthquaker_plumes/plumes_switch_3_level_50_gain_50_tone_0.nam");
    assert_eq!(block_gain::nam_earthquaker_plumes::asset_summary("mid", "0").unwrap(), "model='pedals/earthquaker_plumes/plumes_switch_3_level_50_gain_50_tone_0.nam'");
    assert!(block_gain::nam_earthquaker_plumes::validate_params("mid", "0").is_ok());
    assert_eq!(block_gain::nam_earthquaker_plumes::resolve_capture("mid", "25").unwrap(), "pedals/earthquaker_plumes/plumes_switch_3_level_50_gain_50_tone_25.nam");
    assert_eq!(block_gain::nam_earthquaker_plumes::asset_summary("mid", "25").unwrap(), "model='pedals/earthquaker_plumes/plumes_switch_3_level_50_gain_50_tone_25.nam'");
    assert!(block_gain::nam_earthquaker_plumes::validate_params("mid", "25").is_ok());
    assert_eq!(block_gain::nam_earthquaker_plumes::resolve_capture("mid", "50").unwrap(), "pedals/earthquaker_plumes/plumes_switch_3_level_50_gain_50_tone_50.nam");
    assert_eq!(block_gain::nam_earthquaker_plumes::asset_summary("mid", "50").unwrap(), "model='pedals/earthquaker_plumes/plumes_switch_3_level_50_gain_50_tone_50.nam'");
    assert!(block_gain::nam_earthquaker_plumes::validate_params("mid", "50").is_ok());
    assert_eq!(block_gain::nam_earthquaker_plumes::resolve_capture("mid", "75").unwrap(), "pedals/earthquaker_plumes/plumes_switch_3_level_50_gain_50_tone_75.nam");
    assert_eq!(block_gain::nam_earthquaker_plumes::asset_summary("mid", "75").unwrap(), "model='pedals/earthquaker_plumes/plumes_switch_3_level_50_gain_50_tone_75.nam'");
    assert!(block_gain::nam_earthquaker_plumes::validate_params("mid", "75").is_ok());
    assert_eq!(block_gain::nam_earthquaker_plumes::resolve_capture("mid", "100").unwrap(), "pedals/earthquaker_plumes/plumes_switch_3_level_50_gain_50_tone_100.nam");
    assert_eq!(block_gain::nam_earthquaker_plumes::asset_summary("mid", "100").unwrap(), "model='pedals/earthquaker_plumes/plumes_switch_3_level_50_gain_50_tone_100.nam'");
    assert!(block_gain::nam_earthquaker_plumes::validate_params("mid", "100").is_ok());
    assert_eq!(block_gain::nam_earthquaker_plumes::resolve_capture("high", "0").unwrap(), "pedals/earthquaker_plumes/plumes_switch_3_level_25_gain_75_tone_0.nam");
    assert_eq!(block_gain::nam_earthquaker_plumes::asset_summary("high", "0").unwrap(), "model='pedals/earthquaker_plumes/plumes_switch_3_level_25_gain_75_tone_0.nam'");
    assert!(block_gain::nam_earthquaker_plumes::validate_params("high", "0").is_ok());
    assert_eq!(block_gain::nam_earthquaker_plumes::resolve_capture("high", "25").unwrap(), "pedals/earthquaker_plumes/plumes_switch_3_level_25_gain_75_tone_25.nam");
    assert_eq!(block_gain::nam_earthquaker_plumes::asset_summary("high", "25").unwrap(), "model='pedals/earthquaker_plumes/plumes_switch_3_level_25_gain_75_tone_25.nam'");
    assert!(block_gain::nam_earthquaker_plumes::validate_params("high", "25").is_ok());
    assert_eq!(block_gain::nam_earthquaker_plumes::resolve_capture("high", "50").unwrap(), "pedals/earthquaker_plumes/plumes_switch_3_level_25_gain_75_tone_50.nam");
    assert_eq!(block_gain::nam_earthquaker_plumes::asset_summary("high", "50").unwrap(), "model='pedals/earthquaker_plumes/plumes_switch_3_level_25_gain_75_tone_50.nam'");
    assert!(block_gain::nam_earthquaker_plumes::validate_params("high", "50").is_ok());
    assert_eq!(block_gain::nam_earthquaker_plumes::resolve_capture("high", "75").unwrap(), "pedals/earthquaker_plumes/plumes_switch_3_level_25_gain_75_tone_75.nam");
    assert_eq!(block_gain::nam_earthquaker_plumes::asset_summary("high", "75").unwrap(), "model='pedals/earthquaker_plumes/plumes_switch_3_level_25_gain_75_tone_75.nam'");
    assert!(block_gain::nam_earthquaker_plumes::validate_params("high", "75").is_ok());
    assert_eq!(block_gain::nam_earthquaker_plumes::resolve_capture("high", "100").unwrap(), "pedals/earthquaker_plumes/plumes_switch_3_level_25_gain_75_tone_100.nam");
    assert_eq!(block_gain::nam_earthquaker_plumes::asset_summary("high", "100").unwrap(), "model='pedals/earthquaker_plumes/plumes_switch_3_level_25_gain_75_tone_100.nam'");
    assert!(block_gain::nam_earthquaker_plumes::validate_params("high", "100").is_ok());
}

#[test]
fn nam_earthquaker_plumes_defaults_validate() {
    let schema = block_gain::nam_earthquaker_plumes::model_schema();
    let params = schema.parameters.unwrap();
    let mut defaults: Vec<&str> = Vec::new();
    for p in params.iter() {
        match &p.kind {
            ParameterKind::Enum { default, .. } => defaults.push(default.unwrap()),
            _ => panic!("every parameter of this model is enumerated"),
        }
    }
    assert_eq!(defaults, vec!["mid", "50"]);
    assert!(block_gain::nam_earthquaker_plumes::validate_params(defaults[0], defaults[1]).is_ok());
}

#[test]
fn nam_earthquaker_plumes_unknown_setting_is_refused() {
    let expected = "gain 'nam_earthquaker_plumes' has no capture for drive=bogus tone=50";
    match block_gain::nam_earthquaker_plumes::validate_params("bogus", "50") {
        Err(GainError::UnsupportedSetting(m)) => assert_eq!(m, expected),
        _ => panic!("an unknown setting must be refused"),
    }
    assert_eq!(block_gain::nam_earthquaker_plumes::asset_summary("bogus", "50").unwrap_err().message(), expected);
    assert!(block_gain::nam_earthquaker_plumes::resolve_capture("bogus", "50").is_err());
}

#[test]
fn nam_ehx_metal_muff_every_capture_resolves() {
    assert_eq!(block_gain::nam_ehx_metal_muff::resolve_capture("as_an_overdrive").unwrap(), "pedals/ehx_metal_muff/metal_muff_as_an_overdrive.nam");
    assert_eq!(block_gain::nam_ehx_metal_muff::asset_summary("as_an_overdrive").unwrap(), "model='pedals/ehx_metal_muff/metal_muff_as_an_overdrive.nam'");
    assert!(block_gain::nam_ehx_metal_muff::validate_params("as_an_overdrive").is_ok());
    assert_eq!(block_gain::nam_ehx_metal_muff::resolve_capture("eq_noon").unwrap(), "pedals/ehx_metal_muff/metal_muff_eq_noon.nam");
    assert_eq!(block_gain::nam_ehx_metal_muff::asset_summary("eq_noon").unwrap(), "model='pedals/ehx_metal_muff/metal_muff_eq_noon.nam'");
    assert!(block_gain::nam_ehx_metal_muff::validate_params("eq_noon").is_ok());
    assert_eq!(block_gain::nam_ehx_metal_muff::resolve_capture("eq_noon_full_gain").unwrap(), "pedals/ehx_metal_muff/metal_muff_eq_noon_full_gain.nam");
    assert_eq!(block_gain::nam_ehx_metal_muff::asset_summary("eq_noon_full_gain").unwrap(), "model='pedals/ehx_metal_muff/metal_muff_eq_noon_full_gain.nam'");
    assert!(block_gain::nam_ehx_metal_muff::validate_params("eq_noon_full_gain").is_ok());
    assert_eq!(block_gain::nam_ehx_metal_muff::resolve_capture("evil").unwrap(), "pedals/ehx_metal_muff/metal_muff_evil.nam");
    assert_eq!(block_gain::nam_ehx_metal_muff::asset_summary("evil").unwrap(), "model='pedals/ehx_metal_muff/metal_muff_evil.nam'");
    assert!(block_gain::nam_ehx_metal_muff::validate_params("evil").is_ok());
    assert_eq!(block_gain::nam_ehx_metal_muff::resolve_capture("mega_scoop").unwrap(), "pedals/ehx_metal_muff/metal_muff_mega_scoop.nam");
    assert_eq!(block_gain::nam_ehx_metal_muff::asset_summary("mega_scoop").unwrap(), "model='pedals/ehx_metal_muff/metal_muff_mega_scoop.nam'");
    assert!(block_gain::nam_ehx_metal_muff::validate_params("mega_scoop").is_ok());
    assert_eq!(block_gain::nam_ehx_metal_muff::resolve_capture("my_settings").unwrap(), "pedals/ehx_metal_muff/metal_muff_my_settings.nam");
    assert_eq!(block_gain::nam_ehx_metal_muff::asset_summary("my_settings").unwrap(), "model='pedals/ehx_metal_muff/metal_muff_my_settings.nam'");
    assert!(block_gain::nam_ehx_metal_muff::validate_params("my_settings").is_ok());
    assert_eq!(block_gain::nam_ehx_metal_muff::resolve_capture("nattens_madrigal").unwrap(), "pedals/ehx_metal_muff/metal_muff_nattens_madrigal.nam");
    assert_eq!(block_gain::nam_ehx_metal_muff::asset_summary("nattens_madrigal").unwrap(), "model='pedals/ehx_metal_muff/metal_muff_nattens_madrigal.nam'");
    assert!(block_gain::nam_ehx_metal_muff::validate_params("nattens_madrigal").is_ok());
    assert_eq!(block_gain::nam_ehx_metal_muff::resolve_capture("swedish_chainsaw_ish").unwrap(), "pedals/ehx_metal_muff/metal_muff_swedish_chainsaw_ish.nam");
    assert_eq!(block_gain::nam_ehx_metal_muff::asset_summary("swedish_chainsaw_ish").unwrap(), "model='pedals/ehx_metal_muff/metal_muff_swedish_chainsaw_ish.nam'");
    assert!(block_gain::nam_ehx_metal_muff::validate_params("swedish_chainsaw_ish").is_ok());
    assert_eq!(block_gain::nam_ehx_metal_muff::resolve_capture("tob_boost_low_distortion").unwrap(), "pedals/ehx_metal_muff/metal_muff_tob_boost_low_distortion.nam");
    assert_eq!(block_gain::nam_ehx_metal_muff::asset_summary("tob_boost_low_distortion").unwrap(), "model='pedals/ehx_metal_muff/metal_muff_tob_boost_low_distortion.nam'");
    assert!(block_gain::nam_ehx_metal_muff::validate_params("tob_boost_low_distortion").is_ok());
    assert_eq!(block_gain::nam_ehx_metal_muff::resolve_capture("trve_kult").unwrap(), "pedals/ehx_metal_muff/metal_muff_trve_kult.nam");
    assert_eq!(block_gain::nam_ehx_metal_muff::asset_summary("trve_kult").unwrap(), "model='pedals/ehx_metal_muff/metal_muff_trve_kult.nam'");
    assert!(block_gain::nam_ehx_metal_muff::validate_params("trve_kult").is_ok());
}

#[test]
fn nam_ehx_metal_muff_defaults_validate() {
    let schema = block_gain::nam_ehx_metal_muff::model_schema();
    let params = schema.parameters.unwrap();
    let mut defaults: Vec<&str> = Vec::new();
    for p in params.iter() {
        match &p.kind {
            ParameterKind::Enum { default, .. } => defaults.push(default.unwrap()),
            _ => panic!("every parameter of this model is enumerated"),
        }
    }
    assert_eq!(defaults, vec!["as_an_overdrive"]);
    assert!(block_gain::nam_ehx_metal_muff::validate_params(defaults[0]).is_ok());
}

#[test]
fn nam_ehx_metal_muff_unknown_setting_is_refused() {
    let expected = "gain model 'nam_ehx_metal_muff' does not support tone='bogus'";
    match block_gain::nam_ehx_metal_muff::validate_params("bogus") {
        Err(GainError::UnsupportedSetting(m)) => assert_eq!(m, expected),
        _ => panic!("an unknown setting must be refused"),
    }
    assert_eq!(block_gain::nam_ehx_metal_muff::asset_summary("bogus").unwrap_err().message(), expected);
    assert!(block_gain::nam_ehx_metal_muff::resolve_capture("bogus").is_err());
}

#[test]
fn nam_ehx_soul_food_every_capture_resolves() {
    assert_eq!(block_gain::nam_ehx_soul_food::resolve_capture("0").unwrap(), "pedals/ehx_soul_food/gp_eh_soul_food_vol_10_treb_05_drive_00.nam");
    assert_eq!(block_gain::nam_ehx_soul_food::asset_summary("0").unwrap(), "model='pedals/ehx_soul_food/gp_eh_soul_food_vol_10_treb_05_drive_00.nam'");
    assert!(block_gain::nam_ehx_soul_food::validate_params("0").is_ok());
    assert_eq!(block_gain::nam_ehx_soul_food::resolve_capture("25").unwrap(), "pedals/ehx_soul_food/gp_eh_soul_food_vol_10_treb_05_drive_25.nam");
    assert_eq!(block_gain::nam_ehx_soul_food::asset_summary("25").unwrap(), "model='pedals/ehx_soul_food/gp_eh_soul_food_vol_10_treb_05_drive_25.nam'");
    assert!(block_gain::nam_ehx_soul_food::validate_params("25").is_ok());
    assert_eq!(block_gain::nam_ehx_soul_food::resolve_capture("40").unwrap(), "pedals/ehx_soul_food/gp_eh_soul_food_vol_10_treb_05_drive_40.nam");
    assert_eq!(block_gain::nam_ehx_soul_food::asset_summary("40").unwrap(), "model='pedals/ehx_soul_food/gp_eh_soul_food_vol_10_treb_05_drive_40.nam'");
    assert!(block_gain::nam_ehx_soul_food::validate_params("40").is_ok());
    assert_eq!(block_gain::nam_ehx_soul_food::resolve_capture("50").unwrap(), "pedals/ehx_soul_food/gp_eh_soul_food_vol_10_treb_05_drive_50.nam");
    assert_eq!(block_gain::nam_ehx_soul_food::asset_summary("50").unwrap(), "model='pedals/ehx_soul_food/gp_eh_soul_food_vol_10_treb_05_drive_50.nam'");
    assert!(block_gain::nam_ehx_soul_food::validate_params("50").is_ok());
    assert_eq!(block_gain::nam_ehx_soul_food::resolve_capture("60").unwrap(), "pedals/ehx_soul_food/gp_eh_soul_food_vol_10_treb_05_drive_60.nam");
    assert_eq!(block_gain::nam_ehx_soul_food::asset_summary("60").unwrap(), "model='pedals/ehx_soul_food/gp_eh_soul_food_vol_10_treb_05_drive_60.nam'");
    assert!(block_gain::nam_ehx_soul_food::validate_params("60").is_ok());
    assert_eq!(block_gain::nam_ehx_soul_food::resolve_capture("75").unwrap(), "pedals/ehx_soul_food/gp_eh_soul_food_vol_10_treb_05_drive_75.nam");
    assert_eq!(block_gain::nam_ehx_soul_food::asset_summary("75").unwrap(), "model='pedals/ehx_soul_food/gp_eh_soul_food_vol_10_treb_05_drive_75.nam'");
    assert!(block_gain::nam_ehx_soul_food::validate_params("75").is_ok());
    assert_eq!(block_gain::nam_ehx_soul_food::resolve_capture("100").unwrap(), "pedals/ehx_soul_food/gp_eh_soul_food_vol_10_treb_05_drive_100.nam");
    assert_eq!(block_gain::nam_ehx_soul_food::asset_summary("100").unwrap(), "model='pedals/ehx_soul_food/gp_eh_soul_food_vol_10_treb_05_drive_100.nam'");
    assert!(block_gain::nam_ehx_soul_food::validate_params("100").is_ok());
}

#[test]
fn nam_ehx_soul_food_defaults_validate() {
    let schema = block_gain::nam_ehx_soul_food::model_schema();
    let params = schema.parameters.unwrap();
    let mut defaults: Vec<&str> = Vec::new();
    for p in params.iter() {
        match &p.kind {
            ParameterKind::Enum { default, .. } => defaults.push(default.unwrap()),
            _ => panic!("every parameter of this model is enumerated"),
        }
    }
    assert_eq!(defaults, vec!["50"]);
    assert!(block_gain::nam_ehx_soul_food::validate_params(defaults[0]).is_ok());
}

#[test]
fn nam_ehx_soul_food_unknown_setting_is_refused() {
    let expected = "gain 'nam_ehx_soul_food' has no capture for drive=bogus";
    match block_gain::nam_ehx_soul_food::validate_params("bogus") {
        Err(GainError::UnsupportedSetting(m)) => assert_eq!(m, expected),
        _ => panic!("an unknown setting must be refused"),
    }
    assert_eq!(block_gain::nam_ehx_soul_food::asset_summary("bogus").unwrap_err().message(), expected);
    assert!(block_gain::nam_ehx_soul_food::resolve_capture("bogus").is_err());
}

#[test]
fn nam_fulltone_69_every_capture_resolves() {
    assert_eq!(block_gain::nam_fulltone_69::resolve_capture("hendrix_67_vol_2_contour_12_bias_and_fuzz_full").unwrap(), "pedals/fulltone_69/69_hendrix_67_vol_2_contour_12_bias_and_fuzz_full.nam");
    assert_eq!(block_gain::nam_fulltone_69::asset_summary("hendrix_67_vol_2_contour_12_bias_and_fuzz_full").unwrap(), "model='pedals/fulltone_69/69_hendrix_67_vol_2_contour_12_bias_and_fuzz_full.nam'");
    assert!(block_gain::nam_fulltone_69::validate_params("hendrix_67_vol_2_contour_12_bias_and_fuzz_full").is_ok());
    assert_eq!(block_gain::nam_fulltone_69::resolve_capture("high_contour_vol_2_contour_bias_and_fuzz_full").unwrap(), "pedals/fulltone_69/69_high_contour_vol_2_contour_bias_and_fuzz_full.nam");
    assert_eq!(block_gain::nam_fulltone_69::asset_summary("high_contour_vol_2_contour_bias_and_fuzz_full").unwrap(), "model='pedals/fulltone_69/69_high_contour_vol_2_contour_bias_and_fuzz_full.nam'");
    assert!(block_gain::nam_fulltone_69::validate_params("high_contour_vol_2_contour_bias_and_fuzz_full").is_ok());
    assert_eq!(block_gain::nam_fulltone_69::resolve_capture("high_vol_low_contour_contour_off_vol_bias_and_f").unwrap(), "pedals/fulltone_69/69_high_vol_low_contour_contour_off_vol_bias_and_f.nam");
    assert_eq!(block_gain::nam_fulltone_69::asset_summary("high_vol_low_contour_contour_off_vol_bias_and_f").unwrap(), "model='pedals/fulltone_69/69_high_vol_low_contour_contour_off_vol_bias_and_f.nam'");
    assert!(block_gain::nam_fulltone_69::validate_params("high_vol_low_contour_contour_off_vol_bias_and_f").is_ok());
    assert_eq!(block_gain::nam_fulltone_69::resolve_capture("high_vol_mid_contour_contour_12_vol_bias_and_fu").unwrap(), "pedals/fulltone_69/69_high_vol_mid_contour_contour_12_vol_bias_and_fu.nam");
    assert_eq!(block_gain::nam_fulltone_69::asset_summary("high_vol_mid_contour_contour_12_vol_bias_and_fu").unwrap(), "model='pedals/fulltone_69/69_high_vol_mid_contour_contour_12_vol_bias_and_fu.nam'");
    assert!(block_gain::nam_fulltone_69::validate_params("high_vol_mid_contour_contour_12_vol_bias_and_fu").is_ok());
    assert_eq!(block_gain::nam_fulltone_69::resolve_capture("high_vol_mid_contour_contour_12_vol_bias_and_fu_1").unwrap(), "pedals/fulltone_69/69_high_vol_mid_contour_contour_12_vol_bias_and_fu_1.nam");
    assert_eq!(block_gain::nam_fulltone_69::asset_summary("high_vol_mid_contour_contour_12_vol_bias_and_fu_1").unwrap(), "model='pedals/fulltone_69/69_high_vol_mid_contour_contour_12_vol_bias_and_fu_1.nam'");
    assert!(block_gain::nam_fulltone_69::validate_params("high_vol_mid_contour_contour_12_vol_bias_and_fu_1").is_ok());
    assert_eq!(block_gain::nam_fulltone_69::resolve_capture("maxx_fuzz_vol_contour_bias_and_fuzz_full_gain_t").unwrap(), "pedals/fulltone_69/69_maxx_fuzz_vol_contour_bias_and_fuzz_full_gain_t.nam");
    assert_eq!(block_gain::nam_fulltone_69::asset_summary("maxx_fuzz_vol_contour_bias_and_fuzz_full_gain_t").unwrap(), "model='pedals/fulltone_69/69_maxx_fuzz_vol_contour_bias_and_fuzz_full_gain_t.nam'");
    assert!(block_gain::nam_fulltone_69::validate_params("maxx_fuzz_vol_contour_bias_and_fuzz_full_gain_t").is_ok());
    assert_eq!(block_gain::nam_fulltone_69::resolve_capture("stock_fuzzface_vol_2_contour_off_bias_and_fuzz").unwrap(), "pedals/fulltone_69/69_stock_fuzzface_vol_2_contour_off_bias_and_fuzz_.nam");
    assert_eq!(block_gain::nam_fulltone_69::asset_summary("stock_fuzzface_vol_2_contour_off_bias_and_fuzz").unwrap(), "model='pedals/fulltone_69/69_stock_fuzzface_vol_2_contour_off_bias_and_fuzz_.nam'");
    assert!(block_gain::nam_fulltone_69::validate_params("stock_fuzzface_vol_2_contour_off_bias_and_fuzz").is_ok());
}

#[test]
fn nam_fulltone_69_defaults_validate() {
    let schema = block_gain::nam_fulltone_69::model_schema();
    let params = schema.parameters.unwrap();
    let mut defaults: Vec<&str> = Vec::new();
    for p in params.iter() {
        match &p.kind {
            ParameterKind::Enum { default, .. } => defaults.push(default.unwrap()),
            _ => panic!("every parameter of this model is enumerated"),
        }
    }
    assert_eq!(defaults, vec!["hendrix_67_vol_2_contour_12_bias_and_fuzz_full"]);
    assert!(block_gain::nam_fulltone_69::validate_params(defaults[0]).is_ok());
}

#[test]
fn nam_fulltone_69_unknown_setting_is_refused() {
    let expected = "gain model 'nam_fulltone_69' does not support tone='bogus'";
    match block_gain::nam_fulltone_69::validate_params("bogus") {
        Err(GainError::UnsupportedSetting(m)) => assert_eq!(m, expected),
        _ => panic!("an unknown setting must be refused"),
    }
    assert_eq!(block_gain::nam_fulltone_69::asset_summary("bogus").unwrap_err().message(), expected);
    assert!(block_gain::nam_fulltone_69::resolve_capture("bogus").is_err());
}

#[test]
fn nam_fulltone_ocd_every_capture_resolves() {
    let c = block_gain::nam_fulltone_ocd::resolve_capture("lp", "0").unwrap();
    assert_eq!(c.model_path, "pedals/fulltone_ocd/ocd_lp_d0.nam");
    assert_eq!(c.params.mode, "lp");
    assert_eq!(c.params.drive, "0");
    assert_eq!(block_gain::nam_fulltone_ocd::asset_summary("lp", "0").unwrap(), "model='pedals/fulltone_ocd/ocd_lp_d0.nam'");
    assert!(block_gain::nam_fulltone_ocd::validate_params("lp", "0").is_ok());
    let c = block_gain::nam_fulltone_ocd::resolve_capture("lp", "4").unwrap();
    assert_eq!(c.model_path, "pedals/fulltone_ocd/ocd_lp_d4.nam");
    assert_eq!(c.params.mode, "lp");
    assert_eq!(c.params.drive, "4");
    assert_eq!(block_gain::nam_fulltone_ocd::asset_summary("lp", "4").unwrap(), "model='pedals/fulltone_ocd/ocd_lp_d4.nam'");
    assert!(block_gain::nam_fulltone_ocd::validate_params("lp", "4").is_ok());
    let c = block_gain::nam_fulltone_ocd::resolve_capture("lp", "7").unwrap();
    assert_eq!(c.model_path, "pedals/fulltone_ocd/ocd_lp_d7.nam");
    assert_eq!(c.params.mode, "lp");
    assert_eq!(c.params.drive, "7");
    assert_eq!(block_gain::nam_fulltone_ocd::asset_summary("lp", "7").unwrap(), "model='pedals/fulltone_ocd/ocd_lp_d7.nam'");
    assert!(block_gain::nam_fulltone_ocd::validate_params("lp", "7").is_ok());
    let c = block_gain::nam_fulltone_ocd::resolve_capture("hp", "0").unwrap();
    assert_eq!(c.model_path, "pedals/fulltone_ocd/ocd_hp_d0.nam");
    assert_eq!(c.params.mode, "hp");
    assert_eq!(c.params.drive, "0");
    assert_eq!(block_gain::nam_fulltone_ocd::asset_summary("hp", "0").unwrap(), "model='pedals/fulltone_ocd/ocd_hp_d0.nam'");
    assert!(block_gain::nam_fulltone_ocd::validate_params("hp", "0").is_ok());
    let c = block_gain::nam_fulltone_ocd::resolve_capture("hp", "4").unwrap();
    assert_eq!(c.model_path, "pedals/fulltone_ocd/ocd_hp_d4.nam");
    assert_eq!(c.params.mode, "hp");
    assert_eq!(c.params.drive, "4");
    assert_eq!(block_gain::nam_fulltone_ocd::asset_summary("hp", "4").unwrap(), "model='pedals/fulltone_ocd/ocd_hp_d4.nam'");
    assert!(block_gain::nam_fulltone_ocd::validate_params("hp", "4").is_ok());
    let c = block_gain::nam_fulltone_ocd::resolve_capture("hp", "7").unwrap();
    assert_eq!(c.model_path, "pedals/fulltone_ocd/ocd_hp_d7.nam");
    assert_eq!(c.params.mode, "hp");
    assert_eq!(c.params.drive, "7");
    assert_eq!(block_gain::nam_fulltone_ocd::asset_summary("hp", "7").unwrap(), "model='pedals/fulltone_ocd/ocd_hp_d7.nam'");
    assert!(block_gain::nam_fulltone_ocd::validate_params("hp", "7").is_ok());
}

#[test]
fn nam_fulltone_ocd_defaults_validate() {
    let schema = block_gain::nam_fulltone_ocd::model_schema();
    let params = schema.parameters.unwrap();
    let mut defaults: Vec<&str> = Vec::new();
    for p in params.iter() {
        match &p.kind {
            ParameterKind::Enum { default, .. } => defaults.push(default.unwrap()),
            _ => panic!("every parameter of this model is enumerated"),
        }
    }
    assert_eq!(defaults, vec!["lp", "4"]);
    assert!(block_gain::nam_fulltone_ocd::validate_params(defaults[0], defaults[1]).is_ok());
}

#[test]
fn nam_fulltone_ocd_unknown_setting_is_refused() {
    let expected = "gain model 'fulltone_ocd' does not support mode='bogus' drive='4'";
    match block_gain::nam_fulltone_ocd::validate_params("bogus", "4") {
        Err(GainError::UnsupportedSetting(m)) => assert_eq!(m, expected),
        _ => panic!("an unknown setting must be refused"),
    }
    assert_eq!(block_gain::nam_fulltone_ocd::asset_summary("bogus", "4").unwrap_err().message(), expected);
    assert!(block_gain::nam_fulltone_ocd::resolve_capture("bogus", "4").is_err());
}

#[test]
fn nam_fulltone_ocd_v15_every_capture_resolves() {
    let c = block_gain::nam_fulltone_ocd_v15::resolve_capture("lp", "3").unwrap();
    assert_eq!(c.model_path, "pedals/fulltone_ocd_v15/ocd15_lp_d3.nam");
    assert_eq!(c.params.mode, "lp");
    assert_eq!(c.params.drive, "3");
    assert_eq!(block_gain::nam_fulltone_ocd_v15::asset_summary("lp", "3").unwrap(), "model='pedals/fulltone_ocd_v15/ocd15_lp_d3.nam'");
    assert!(block_gain::nam_fulltone_ocd_v15::validate_params("lp", "3").is_ok());
    let c = block_gain::nam_fulltone_ocd_v15::resolve_capture("lp", "9").unwrap();
    assert_eq!(c.model_path, "pedals/fulltone_ocd_v15/ocd15_lp_d9.nam");
    assert_eq!(c.params.mode, "lp");
    assert_eq!(c.params.drive, "9");
    assert_eq!(block_gain::nam_fulltone_ocd_v15::asset_summary("lp", "9").unwrap(), "model='pedals/fulltone_ocd_v15/ocd15_lp_d9.nam'");
    assert!(block_gain::nam_fulltone_ocd_v15::validate_params("lp", "9").is_ok());
    let c = block_gain::nam_fulltone_ocd_v15::resolve_capture("lp", "12").unwrap();
    assert_eq!(c.model_path, "pedals/fulltone_ocd_v15/ocd15_lp_d12.nam");
    assert_eq!(c.params.mode, "lp");
    assert_eq!(c.params.drive, "12");
    assert_eq!(block_gain::nam_fulltone_ocd_v15::asset_summary("lp", "12").unwrap(), "model='pedals/fulltone_ocd_v15/ocd15_lp_d12.nam'");
    assert!(block_gain::nam_fulltone_ocd_v15::validate_params("lp", "12").is_ok());
    let c = block_gain::nam_fulltone_ocd_v15::resolve_capture("hp", "3").unwrap();
    assert_eq!(c.model_path, "pedals/fulltone_ocd_v15/ocd15_hp_d3.nam");
    assert_eq!(c.params.mode, "hp");
    assert_eq!(c.params.drive, "3");
    assert_eq!(block_gain::nam_fulltone_ocd_v15::asset_summary("hp", "3").unwrap(), "model='pedals/fulltone_ocd_v15/ocd15_hp_d3.nam'");
    assert!(block_gain::nam_fulltone_ocd_v15::validate_params("hp", "3").is_ok());
    let c = block_gain::nam_fulltone_ocd_v15::resolve_capture("hp", "9").unwrap();
    assert_eq!(c.model_path, "pedals/fulltone_ocd_v15/ocd15_hp_d9.nam");
    assert_eq!(c.params.mode, "hp");
    assert_eq!(c.params.drive, "9");
    assert_eq!(block_gain::nam_fulltone_ocd_v15::asset_summary("hp", "9").unwrap(), "model='pedals/fulltone_ocd_v15/ocd15_hp_d9.nam'");
    assert!(block_gain::nam_fulltone_ocd_v15::validate_params("hp", "9").is_ok());
    let c = block_gain::nam_fulltone_ocd_v15::resolve_capture("hp", "12").unwrap();
    assert_eq!(c.model_path, "pedals/fulltone_ocd_v15/ocd15_hp_d12.nam");
    assert_eq!(c.params.mode, "hp");
    assert_eq!(c.params.drive, "12");
    assert_eq!(block_gain::nam_fulltone_ocd_v15::asset_summary("hp", "12").unwrap(), "model='pedals/fulltone_ocd_v15/ocd15_hp_d12.nam'");
    assert!(block_gain::nam_fulltone_ocd_v15::validate_params("hp", "12").is_ok());
}

#[test]
fn nam_fulltone_ocd_v15_defaults_validate() {
    let schema = block_gain::nam_fulltone_ocd_v15::model_schema();
    let params = schema.parameters.unwrap();
    let mut defaults: Vec<&str> = Vec::new();
    for p in params.iter() {
        match &p.kind {
            ParameterKind::Enum { default, .. } => defaults.push(default.unwrap()),
            _ => panic!("every parameter of this model is enumerated"),
        }
    }
    assert_eq!(defaults, vec!["lp", "9"]);
    assert!(block_gain::nam_fulltone_ocd_v15::validate_params(defaults[0], defaults[1]).is_ok());
}

#[test]
fn nam_fulltone_ocd_v15_unknown_setting_is_refused() {
    let expected = "gain model 'fulltone_ocd_v15' does not support mode='bogus' drive='9'";
    match block_gain::nam_fulltone_ocd_v15::validate_params("bogus", "9") {
        Err(GainError::UnsupportedSetting(m)) => assert_eq!(m, expected),
        _ => panic!("an unknown setting must be refused"),
    }
    assert_eq!(block_gain::nam_fulltone_ocd_v15::asset_summary("bogus", "9").unwrap_err().message(), expected);
    assert!(block_gain::nam_fulltone_ocd_v15::resolve_capture("bogus", "9").is_err());
}

#[test]
fn nam_hermida_zendrive_every_capture_resolves() {
    assert_eq!(block_gain::nam_hermida_zendrive::resolve_capture("130", "300").unwrap(), "pedals/hermida_zendrive/zendrive_vol100_tone130_voice130_gain300.nam");
    assert_eq!(block_gain::nam_hermida_zendrive::asset_summary("130", "300").unwrap(), "model='pedals/hermida_zendrive/zendrive_vol100_tone130_voice130_gain300.nam'");
    assert!(block_gain::nam_hermida_zendrive::validate_params("130", "300").is_ok());
    assert_eq!(block_gain::nam_hermida_zendrive::resolve_capture("130", "500").unwrap(), "pedals/hermida_zendrive/zendrive_vol100_tone130_voice130_gain500.nam");
    assert_eq!(block_gain::nam_hermida_zendrive::asset_summary("130", "500").unwrap(), "model='pedals/hermida_zendrive/zendrive_vol100_tone130_voice130_gain500.nam'");
    assert!(block_gain::nam_hermida_zendrive::validate_params("130", "500").is_ok());
    assert_eq!(block_gain::nam_hermida_zendrive::resolve_capture("130", "700").unwrap(), "pedals/hermida_zendrive/zendrive_vol100_tone130_voice130_gain700.nam");
    assert_eq!(block_gain::nam_hermida_zendrive::asset_summary("130", "700").unwrap(), "model='pedals/hermida_zendrive/zendrive_vol100_tone130_voice130_gain700.nam'");
    assert!(block_gain::nam_hermida_zendrive::validate_params("130", "700").is_ok());
    assert_eq!(block_gain::nam_hermida_zendrive::resolve_capture("130", "900").unwrap(), "pedals/hermida_zendrive/zendrive_vol100_tone130_voice130_gain900.nam");
    assert_eq!(block_gain::nam_hermida_zendrive::asset_summary("130", "900").unwrap(), "model='pedals/hermida_zendrive/zendrive_vol100_tone130_voice130_gain900.nam'");
    assert!(block_gain::nam_hermida_zendrive::validate_params("130", "900").is_ok());
    assert_eq!(block_gain::nam_hermida_zendrive::resolve_capture("130", "1030").unwrap(), "pedals/hermida_zendrive/zendrive_vol100_tone130_voice130_gain1030.nam");
    assert_eq!(block_gain::nam_hermida_zendrive::asset_summary("130", "1030").unwrap(), "model='pedals/hermida_zendrive/zendrive_vol100_tone130_voice130_gain1030.nam'");
    assert!(block_gain::nam_hermida_zendrive::validate_params("130", "1030").is_ok());
    assert_eq!(block_gain::nam_hermida_zendrive::resolve_capture("130", "1200").unwrap(), "pedals/hermida_zendrive/zendrive_vol100_tone130_voice130_gain1200.nam");
    assert_eq!(block_gain::nam_hermida_zendrive::asset_summary("130", "1200").unwrap(), "model='pedals/hermida_zendrive/zendrive_vol100_tone130_voice130_gain1200.nam'");
    assert!(block_gain::nam_hermida_zendrive::validate_params("130", "1200").is_ok());
    assert_eq!(block_gain::nam_hermida_zendrive::resolve_capture("130", "1300").unwrap(), "pedals/hermida_zendrive/zendrive_vol100_tone130_voice130_gain1300.nam");
    assert_eq!(block_gain::nam_hermida_zendrive::asset_summary("130", "1300").unwrap(), "model='pedals/hermida_zendrive/zendrive_vol100_tone130_voice130_gain1300.nam'");
    assert!(block_gain::nam_hermida_zendrive::validate_params("130", "1300").is_ok());
    assert_eq!(block_gain::nam_hermida_zendrive::resolve_capture("1030", "130").unwrap(), "pedals/hermida_zendrive/zendrive_vol100_tone130_voice1030_gain130.nam");
    assert_eq!(block_gain::nam_hermida_zendrive::asset_summary("1030", "130").unwrap(), "model='pedals/hermida_zendrive/zendrive_vol100_tone130_voice1030_gain130.nam'");
    assert!(block_gain::nam_hermida_zendrive::validate_params("1030", "130").is_ok());
    assert_eq!(block_gain::nam_hermida_zendrive::resolve_capture("1030", "300").unwrap(), "pedals/hermida_zendrive/zendrive_vol100_tone130_voice1030_gain300.nam");
    assert_eq!(block_gain::nam_hermida_zendrive::asset_summary("1030", "300").unwrap(), "model='pedals/hermida_zendrive/zendrive_vol100_tone130_voice1030_gain300.nam'");
    assert!(block_gain::nam_hermida_zendrive::validate_params("1030", "300").is_ok());
    assert_eq!(block_gain::nam_hermida_zendrive::resolve_capture("1030", "500").unwrap(), "pedals/hermida_zendrive/zendrive_vol100_tone130_voice1030_gain500.nam");
    assert_eq!(block_gain::nam_hermida_zendrive::asset_summary("1030", "500").unwrap(), "model='pedals/hermida_zendrive/zendrive_vol100_tone130_voice1030_gain500.nam'");
    assert!(block_gain::nam_hermida_zendrive::validate_params("1030", "500").is_ok());
    assert_eq!(block_gain::nam_hermida_zendrive::resolve_capture("1030", "700").unwrap(), "pedals/hermida_zendrive/zendrive_vol100_tone130_voice1030_gain700.nam");
    assert_eq!(block_gain::nam_hermida_zendrive::asset_summary("1030", "700").unwrap(), "model='pedals/hermida_zendrive/zendrive_vol100_tone130_voice1030_gain700.nam'");
    assert!(block_gain::nam_hermida_zendrive::validate_params("1030", "700").is_ok());
    assert_eq!(block_gain::nam_hermida_zendrive::resolve_capture("1030", "900").unwrap(), "pedals/hermida_zendrive/zendrive_vol100_tone130_voice1030_gain900.nam");
    assert_eq!(block_gain::nam_hermida_zendrive::asset_summary("1030", "900").unwrap(), "model='pedals/hermida_zendrive/zendrive_vol100_tone130_voice1030_gain900.nam'");
    assert!(block_gain::nam_hermida_zendrive::validate_params("1030", "900").is_ok());
    assert_eq!(block_gain::nam_hermida_zendrive::resolve_capture("1030", "1030").unwrap(), "pedals/hermida_zendrive/zendrive_vol100_tone130_voice1030_gain1030.nam");
    assert_eq!(block_gain::nam_hermida_zendrive::asset_summary("1030", "1030").unwrap(), "model='pedals/hermida_zendrive/zendrive_vol100_tone130_voice1030_gain1030.nam'");
    assert!(block_gain::nam_hermida_zendrive::validate_params("1030", "1030").is_ok());
    assert_eq!(block_gain::nam_hermida_zendrive::resolve_capture("1030", "1200").unwrap(), "pedals/hermida_zendrive/zendrive_vol100_tone130_voice1030_gain1200.nam");
    assert_eq!(block_gain::nam_hermida_zendrive::asset_summary("1030", "1200").unwrap(), "model='pedals/hermida_zendrive/zendrive_vol100_tone130_voice1030_gain1200.nam'");
    assert!(block_gain::nam_hermida_zendrive::validate_params("1030", "1200").is_ok());
    assert_eq!(block_gain::nam_hermida_zendrive::resolve_capture("1200", "130").unwrap(), "pedals/hermida_zendrive/zendrive_vol100_tone130_voice1200_gain130.nam");
    assert_eq!(block_gain::nam_hermida_zendrive::asset_summary("1200", "130").unwrap(), "model='pedals/hermida_zendrive/zendrive_vol100_tone130_voice1200_gain130.nam'");
    assert!(block_gain::nam_hermida_zendrive::validate_params("1200", "130").is_ok());
    assert_eq!(block_gain::nam_hermida_zendrive::resolve_capture("1200", "300").unwrap(), "pedals/hermida_zendrive/zendrive_vol100_tone130_voice1200_gain300.nam");
    assert_eq!(block_gain::nam_hermida_zendrive::asset_summary("1200", "300").unwrap(), "model='pedals/hermida_zendrive/zendrive_vol100_tone130_voice1200_gain300.nam'");
    assert!(block_gain::nam_hermida_zendrive::validate_params("1200", "300").is_ok());
    assert_eq!(block_gain::nam_hermida_zendrive::resolve_capture("1200", "500").unwrap(), "pedals/hermida_zendrive/zendrive_vol100_tone130_voice1200_gain500.nam");
    assert_eq!(block_gain::nam_hermida_zendrive::asset_summary("1200", "500").unwrap(), "model='pedals/hermida_zendrive/zendrive_vol100_tone130_voice1200_gain500.nam'");
    assert!(block_gain::nam_hermida_zendrive::validate_params("1200", "500").is_ok());
    assert_eq!(block_gain::nam_hermida_zendrive::resolve_capture("1200", "700").unwrap(), "pedals/hermida_zendrive/zendrive_vol100_tone130_voice1200_gain700.nam");
    assert_eq!(block_gain::nam_hermida_zendrive::asset_summary("1200", "700").unwrap(), "model='pedals/hermida_zendrive/zendrive_vol100_tone130_voice1200_gain700.nam'");
    assert!(block_gain::nam_hermida_zendrive::validate_params("1200", "700").is_ok());
    assert_eq!(block_gain::nam_hermida_zendrive::resolve_capture("1200", "900").unwrap(), "pedals/hermida_zendrive/zendrive_vol100_tone130_voice1200_gain900.nam");
    assert_eq!(block_gain::nam_hermida_zendrive::asset_summary("1200", "900").unwrap(), "model='pedals/hermida_zendrive/zendrive_vol100_tone130_voice1200_gain900.nam'");
    assert!(block_gain::nam_hermida_zendrive::validate_params("1200", "900").is_ok());
    assert_eq!(block_gain::nam_hermida_zendrive::resolve_capture("1200", "1030").unwrap(), "pedals/hermida_zendrive/zendrive_vol100_tone130_voice1200_gain1030.nam");
    assert_eq!(block_gain::nam_hermida_zendrive::asset_summary("1200", "1030").unwrap(), "model='pedals/hermida_zendrive/zendrive_vol100_tone130_voice1200_gain1030.nam'");
    assert!(block_gain::nam_hermida_zendrive::validate_params("1200", "1030").is_ok());
    assert_eq!(block_gain::nam_hermida_zendrive::resolve_capture("1200", "1200").unwrap(), "pedals/hermida_zendrive/zendrive_vol100_tone130_voice1200_gain1200.nam");
    assert_eq!(block_gain::nam_hermida_zendrive::asset_summary("1200", "1200").unwrap(), "model='pedals/hermida_zendrive/zendrive_vol100_tone130_voice1200_gain1200.nam'");
    assert!(block_gain::nam_hermida_zendrive::validate_params("1200", "1200").is_ok());
}

#[test]
fn nam_hermida_zendrive_defaults_validate() {
    let schema = block_gain::nam_hermida_zendrive::model_schema();
    let params = schema.parameters.unwrap();
    let mut defaults: Vec<&str> = Vec::new();
    for p in params.iter() {
        match &p.kind {
            ParameterKind::Enum { default, .. } => defaults.push(default.unwrap()),
            _ => panic!("every parameter of this model is enumerated"),
        }
    }
    assert_eq!(defaults, vec!["1030", "700"]);
    assert!(block_gain::nam_hermida_zendrive::validate_params(defaults[0], defaults[1]).is_ok());
}

#[test]
fn nam_hermida_zendrive_unknown_setting_is_refused() {
    let expected = "gain 'nam_hermida_zendrive' has no capture for voice=bogus gain=700";
    match block_gain::nam_hermida_zendrive::validate_params("bogus", "700") {
        Err(GainError::UnsupportedSetting(m)) => assert_eq!(m, expected),
        _ => panic!("an unknown setting must be refused"),
    }
    assert_eq!(block_gain::nam_hermida_zendrive::asset_summary("bogus", "700").unwrap_err().message(), expected);
    assert!(block_gain::nam_hermida_zendrive::resolve_capture("bogus", "700").is_err());
}

#[test]
fn nam_hermida_zendrive_holes_are_refused() {
    match block_gain::nam_hermida_zendrive::validate_params("130", "130") {
        Err(GainError::UnsupportedSetting(m)) => assert_eq!(m, "gain 'nam_hermida_zendrive' has no capture for voice=130 gain=130"),
        _ => panic!("a hole in the capture grid must be refused"),
    }
    match block_gain::nam_hermida_zendrive::validate_params("1030", "1300") {
        Err(GainError::UnsupportedSetting(m)) => assert_eq!(m, "gain 'nam_hermida_zendrive' has no capture for voice=1030 gain=1300"),
        _ => panic!("a hole in the capture grid must be refused"),
    }
    match block_gain::nam_hermida_zendrive::validate_params("1200", "1300") {
        Err(GainError::UnsupportedSetting(m)) => assert_eq!(m, "gain 'nam_hermida_zendrive' has no capture for voice=1200 gain=1300"),
        _ => panic!("a hole in the capture grid must be refused"),
    }
}

#[test]
fn nam_hudson_broadcast_every_capture_resolves() {
    assert_eq!(block_gain::nam_hudson_broadcast::resolve_capture("level1200_g").unwrap(), "pedals/hudson_broadcast/hudson_broadcast_bc_24v_ltd_low_cut900_level1200_g.nam");
    assert_eq!(block_gain::nam_hudson_broadcast::asset_summary("level1200_g").unwrap(), "model='pedals/hudson_broadcast/hudson_broadcast_bc_24v_ltd_low_cut900_level1200_g.nam'");
    assert!(block_gain::nam_hudson_broadcast::validate_params("level1200_g").is_ok());
    assert_eq!(block_gain::nam_hudson_broadcast::resolve_capture("level1200_g_1").unwrap(), "pedals/hudson_broadcast/hudson_broadcast_bc_24v_ltd_low_cut900_level1200_g_1.nam");
    assert_eq!(block_gain::nam_hudson_broadcast::asset_summary("level1200_g_1").unwrap(), "model='pedals/hudson_broadcast/hudson_broadcast_bc_24v_ltd_low_cut900_level1200_g_1.nam'");
    assert!(block_gain::nam_hudson_broadcast::validate_params("level1200_g_1").is_ok());
    assert_eq!(block_gain::nam_hudson_broadcast::resolve_capture("level1200_g_2").unwrap(), "pedals/hudson_broadcast/hudson_broadcast_bc_24v_ltd_low_cut900_level1200_g_2.nam");
    assert_eq!(block_gain::nam_hudson_broadcast::asset_summary("level1200_g_2").unwrap(), "model='pedals/hudson_broadcast/hudson_broadcast_bc_24v_ltd_low_cut900_level1200_g_2.nam'");
    assert!(block_gain::nam_hudson_broadcast::validate_params("level1200_g_2").is_ok());
    assert_eq!(block_gain::nam_hudson_broadcast::resolve_capture("level1200_g_3").unwrap(), "pedals/hudson_broadcast/hudson_broadcast_bc_24v_ltd_low_cut900_level1200_g_3.nam");
    assert_eq!(block_gain::nam_hudson_broadcast::asset_summary("level1200_g_3").unwrap(), "model='pedals/hudson_broadcast/hudson_broadcast_bc_24v_ltd_low_cut900_level1200_g_3.nam'");
    assert!(block_gain::nam_hudson_broadcast::validate_params("level1200_g_3").is_ok());
    assert_eq!(block_gain::nam_hudson_broadcast::resolve_capture("level1200_g_4").unwrap(), "pedals/hudson_broadcast/hudson_broadcast_bc_24v_ltd_low_cut900_level1200_g_4.nam");
    assert_eq!(block_gain::nam_hudson_broadcast::asset_summary("level1200_g_4").unwrap(), "model='pedals/hudson_broadcast/hudson_broadcast_bc_24v_ltd_low_cut900_level1200_g_4.nam'");
    assert!(block_gain::nam_hudson_broadcast::validate_params("level1200_g_4").is_ok());
    assert_eq!(block_gain::nam_hudson_broadcast::resolve_capture("level130_ga").unwrap(), "pedals/hudson_broadcast/hudson_broadcast_bc_24v_ltd_low_cut900_level130_ga.nam");
    assert_eq!(block_gain::nam_hudson_broadcast::asset_summary("level130_ga").unwrap(), "model='pedals/hudson_broadcast/hudson_broadcast_bc_24v_ltd_low_cut900_level130_ga.nam'");
    assert!(block_gain::nam_hudson_broadcast::validate_params("level130_ga").is_ok());
    assert_eq!(block_gain::nam_hudson_broadcast::resolve_capture("level130_ga_1").unwrap(), "pedals/hudson_broadcast/hudson_broadcast_bc_24v_ltd_low_cut900_level130_ga_1.nam");
    assert_eq!(block_gain::nam_hudson_broadcast::asset_summary("level130_ga_1").unwrap(), "model='pedals/hudson_broadcast/hudson_broadcast_bc_24v_ltd_low_cut900_level130_ga_1.nam'");
    assert!(block_gain::nam_hudson_broadcast::validate_params("level130_ga_1").is_ok());
    assert_eq!(block_gain::nam_hudson_broadcast::resolve_capture("level130_ga_2").unwrap(), "pedals/hudson_broadcast/hudson_broadcast_bc_24v_ltd_low_cut900_level130_ga_2.nam");
    assert_eq!(block_gain::nam_hudson_broadcast::asset_summary("level130_ga_2").unwrap(), "model='pedals/hudson_broadcast/hudson_broadcast_bc_24v_ltd_low_cut900_level130_ga_2.nam'");
    assert!(block_gain::nam_hudson_broadcast::validate_params("level130_ga_2").is_ok());
    assert_eq!(block_gain::nam_hudson_broadcast::resolve_capture("level130_ga_3").unwrap(), "pedals/hudson_broadcast/hudson_broadcast_bc_24v_ltd_low_cut900_level130_ga_3.nam");
    assert_eq!(block_gain::nam_hudson_broadcast::asset_summary("level130_ga_3").unwrap(), "model='pedals/hudson_broadcast/hudson_broadcast_bc_24v_ltd_low_cut900_level130_ga_3.nam'");
    assert!(block_gain::nam_hudson_broadcast::validate_params("level130_ga_3").is_ok());
    assert_eq!(block_gain::nam_hudson_broadcast::resolve_capture("level130_ga_4").unwrap(), "pedals/hudson_broadcast/hudson_broadcast_bc_24v_ltd_low_cut900_level130_ga_4.nam");
    assert_eq!(block_gain::nam_hudson_broadcast::asset_summary("level130_ga_4").unwrap(), "model='pedals/hudson_broadcast/hudson_broadcast_bc_24v_ltd_low_cut900_level130_ga_4.nam'");
    assert!(block_gain::nam_hudson_broadcast::validate_params("level130_ga_4").is_ok());
    assert_eq!(block_gain::nam_hudson_broadcast::resolve_capture("level130_ga_5").unwrap(), "pedals/hudson_broadcast/hudson_broadcast_bc_24v_ltd_low_cut900_level130_ga_5.nam");
    assert_eq!(block_gain::nam_hudson_broadcast::asset_summary("level130_ga_5").unwrap(), "model='pedals/hudson_broadcast/hudson_broadcast_bc_24v_ltd_low_cut900_level130_ga_5.nam'");
    assert!(block_gain::nam_hudson_broadcast::validate_params("level130_ga_5").is_ok());
    assert_eq!(block_gain::nam_hudson_broadcast::resolve_capture("level130_ga_6").unwrap(), "pedals/hudson_broadcast/hudson_broadcast_bc_24v_ltd_low_cut900_level130_ga_6.nam");
    assert_eq!(block_gain::nam_hudson_broadcast::asset_summary("level130_ga_6").unwrap(), "model='pedals/hudson_broadcast/hudson_broadcast_bc_24v_ltd_low_cut900_level130_ga_6.nam'");
    assert!(block_gain::nam_hudson_broadcast::validate_params("level130_ga_6").is_ok());
    assert_eq!(block_gain::nam_hudson_broadcast::resolve_capture("level130_ga_7").unwrap(), "pedals/hudson_broadcast/hudson_broadcast_bc_24v_ltd_low_cut900_level130_ga_7.nam");
    assert_eq!(block_gain::nam_hudson_broadcast::asset_summary("level130_ga_7").unwrap(), "model='pedals/hudson_broadcast/hudson_broadcast_bc_24v_ltd_low_cut900_level130_ga_7.nam'");
    assert!(block_gain::nam_hudson_broadcast::validate_params("level130_ga_7").is_ok());
    assert_eq!(block_gain::nam_hudson_broadcast::resolve_capture("level130_ga_8").unwrap(), "pedals/hudson_broadcast/hudson_broadcast_bc_24v_ltd_low_cut900_level130_ga_8.nam");
    assert_eq!(block_gain::nam_hudson_broadcast::asset_summary("level130_ga_8").unwrap(), "model='pedals/hudson_broadcast/hudson_broadcast_bc_24v_ltd_low_cut900_level130_ga_8.nam'");
    assert!(block_gain::nam_hudson_broadcast::validate_params("level130_ga_8").is_ok());
    assert_eq!(block_gain::nam_hudson_broadcast::resolve_capture("level130_ga_9").unwrap(), "pedals/hudson_broadcast/hudson_broadcast_bc_24v_ltd_low_cut900_level130_ga_9.nam");
    assert_eq!(block_gain::nam_hudson_broadcast::asset_summary("level130_ga_9").unwrap(), "model='pedals/hudson_broadcast/hudson_broadcast_bc_24v_ltd_low_cut900_level130_ga_9.nam'");
    assert!(block_gain::nam_hudson_broadcast::validate_params("level130_ga_9").is_ok());
}

#[test]
fn nam_hudson_broadcast_defaults_validate() {
    let schema = block_gain::nam_hudson_broadcast::model_schema();
    let params = schema.parameters.unwrap();
    let mut defaults: Vec<&str> = Vec::new();
    for p in params.iter() {
        match &p.kind {
            ParameterKind::Enum { default, .. } => defaults.push(default.unwrap()),
            _ => panic!("every parameter of this model is enumerated"),
        }
    }
    assert_eq!(defaults, vec!["level1200_g"]);
    assert!(block_gain::nam_hudson_broadcast::validate_params(defaults[0]).is_ok());
}

#[test]
fn nam_hudson_broadcast_unknown_setting_is_refused() {
    let expected = "gain model 'nam_hudson_broadcast' does not support tone='bogus'";
    match block_gain::nam_hudson_broadcast::validate_params("bogus") {
        Err(GainError::UnsupportedSetting(m)) => assert_eq!(m, expected),
        _ => panic!("an unknown setting must be refused"),
    }
    assert_eq!(block_gain::nam_hudson_broadcast::asset_summary("bogus").unwrap_err().message(), expected);
    assert!(block_gain::nam_hudson_broadcast::resolve_capture("bogus").is_err());
}

#[test]
fn nam_klon_centaur_every_capture_resolves() {
    assert_eq!(block_gain::nam_klon_centaur::resolve_capture("255").unwrap(), "pedals/klon_centaur/klon_255.nam");
    assert_eq!(block_gain::nam_klon_centaur::asset_summary("255").unwrap(), "model='pedals/klon_centaur/klon_255.nam'");
    assert!(block_gain::nam_klon_centaur::validate_params("255").is_ok());
    assert_eq!(block_gain::nam_klon_centaur::resolve_capture("277").unwrap(), "pedals/klon_centaur/klon_277.nam");
    assert_eq!(block_gain::nam_klon_centaur::asset_summary("277").unwrap(), "model='pedals/klon_centaur/klon_277.nam'");
    assert!(block_gain::nam_klon_centaur::validate_params("277").is_ok());
    assert_eq!(block_gain::nam_klon_centaur::resolve_capture("468").unwrap(), "pedals/klon_centaur/klon_468.nam");
    assert_eq!(block_gain::nam_klon_centaur::asset_summary("468").unwrap(), "model='pedals/klon_centaur/klon_468.nam'");
    assert!(block_gain::nam_klon_centaur::validate_params("468").is_ok());
    assert_eq!(block_gain::nam_klon_centaur::resolve_capture("555").unwrap(), "pedals/klon_centaur/klon_555.nam");
    assert_eq!(block_gain::nam_klon_centaur::asset_summary("555").unwrap(), "model='pedals/klon_centaur/klon_555.nam'");
    assert!(block_gain::nam_klon_centaur::validate_params("555").is_ok());
    assert_eq!(block_gain::nam_klon_centaur::resolve_capture("668").unwrap(), "pedals/klon_centaur/klon_668.nam");
    assert_eq!(block_gain::nam_klon_centaur::asset_summary("668").unwrap(), "model='pedals/klon_centaur/klon_668.nam'");
    assert!(block_gain::nam_klon_centaur::validate_params("668").is_ok());
    assert_eq!(block_gain::nam_klon_centaur::resolve_capture("john_mayer").unwrap(), "pedals/klon_centaur/klon_john_mayer.nam");
    assert_eq!(block_gain::nam_klon_centaur::asset_summary("john_mayer").unwrap(), "model='pedals/klon_centaur/klon_john_mayer.nam'");
    assert!(block_gain::nam_klon_centaur::validate_params("john_mayer").is_ok());
}

#[test]
fn nam_klon_centaur_defaults_validate() {
    let schema = block_gain::nam_klon_centaur::model_schema();
    let params = schema.parameters.unwrap();
    let mut defaults: Vec<&str> = Vec::new();
    for p in params.iter() {
        match &p.kind {
            ParameterKind::Enum { default, .. } => defaults.push(default.unwrap()),
            _ => panic!("every parameter of this model is enumerated"),
        }
    }
    assert_eq!(defaults, vec!["555"]);
    assert!(block_gain::nam_klon_centaur::validate_params(defaults[0]).is_ok());
}

#[test]
fn nam_klon_centaur_unknown_setting_is_refused() {
    let expected = "gain model 'klon_centaur' does not support setting='bogus'";
    match block_gain::nam_klon_centaur::validate_params("bogus") {
        Err(GainError::UnsupportedSetting(m)) => assert_eq!(m, expected),
        _ => panic!("an unknown setting must be refused"),
    }
    assert_eq!(block_gain::nam_klon_centaur::asset_summary("bogus").unwrap_err().message(), expected);
    assert!(block_gain::nam_klon_centaur::resolve_capture("bogus").is_err());
}

#[test]
fn nam_lokajaudio_der_blend_every_capture_resolves() {
    assert_eq!(block_gain::nam_lokajaudio_der_blend::resolve_capture("off").unwrap(), "pedals/lokajaudio_der_blend/der_blend_off.nam");
    assert_eq!(block_gain::nam_lokajaudio_der_blend::asset_summary("off").unwrap(), "model='pedals/lokajaudio_der_blend/der_blend_off.nam'");
    assert!(block_gain::nam_lokajaudio_der_blend::validate_params("off").is_ok());
    assert_eq!(block_gain::nam_lokajaudio_der_blend::resolve_capture("mid").unwrap(), "pedals/lokajaudio_der_blend/der_blend_mid.nam");
    assert_eq!(block_gain::nam_lokajaudio_der_blend::asset_summary("mid").unwrap(), "model='pedals/lokajaudio_der_blend/der_blend_mid.nam'");
    assert!(block_gain::nam_lokajaudio_der_blend::validate_params("mid").is_ok());
    assert_eq!(block_gain::nam_lokajaudio_der_blend::resolve_capture("high").unwrap(), "pedals/lokajaudio_der_blend/der_blend_high.nam");
    assert_eq!(block_gain::nam_lokajaudio_der_blend::asset_summary("high").unwrap(), "model='pedals/lokajaudio_der_blend/der_blend_high.nam'");
    assert!(block_gain::nam_lokajaudio_der_blend::validate_params("high").is_ok());
    assert_eq!(block_gain::nam_lokajaudio_der_blend::resolve_capture("high_boost").unwrap(), "pedals/lokajaudio_der_blend/der_blend_high_boost.nam");
    assert_eq!(block_gain::nam_lokajaudio_der_blend::asset_summary("high_boost").unwrap(), "model='pedals/lokajaudio_der_blend/der_blend_high_boost.nam'");
    assert!(block_gain::nam_lokajaudio_der_blend::validate_params("high_boost").is_ok());
    assert_eq!(block_gain::nam_lokajaudio_der_blend::resolve_capture("max").unwrap(), "pedals/lokajaudio_der_blend/der_blend_max.nam");
    assert_eq!(block_gain::nam_lokajaudio_der_blend::asset_summary("max").unwrap(), "model='pedals/lokajaudio_der_blend/der_blend_max.nam'");
    assert!(block_gain::nam_lokajaudio_der_blend::validate_params("max").is_ok());
}

#[test]
fn nam_lokajaudio_der_blend_defaults_validate() {
    let schema = block_gain::nam_lokajaudio_der_blend::model_schema();
    let params = schema.parameters.unwrap();
    let mut defaults: Vec<&str> = Vec::new();
    for p in params.iter() {
        match &p.kind {
            ParameterKind::Enum { default, .. } => defaults.push(default.unwrap()),
            _ => panic!("every parameter of this model is enumerated"),
        }
    }
    assert_eq!(defaults, vec!["high"]);
    assert!(block_gain::nam_lokajaudio_der_blend::validate_params(defaults[0]).is_ok());
}

#[test]
fn nam_lokajaudio_der_blend_unknown_setting_is_refused() {
    let expected = "gain model 'lokajaudio_der_blend' does not support character='bogus'";
    match block_gain::nam_lokajaudio_der_blend::validate_params("bogus") {
        Err(GainError::UnsupportedSetting(m)) => assert_eq!(m, expected),
        _ => panic!("an unknown setting must be refused"),
    }
    assert_eq!(block_gain::nam_lokajaudio_der_blend::asset_summary("bogus").unwrap_err().message(), expected);
    assert!(block_gain::nam_lokajaudio_der_blend::resolve_capture("bogus").is_err());
}

#[test]
fn nam_maestro_fuzz_tone_fz_1_every_capture_resolves() {
    assert_eq!(block_gain::nam_maestro_fuzz_tone_fz_1::resolve_capture("vintage", "low").unwrap(), "pedals/maestro_fuzz_tone_fz_1/maestro_fz_m_vintage_low_gain.nam");
    assert_eq!(block_gain::nam_maestro_fuzz_tone_fz_1::asset_summary("vintage", "low").unwrap(), "model='pedals/maestro_fuzz_tone_fz_1/maestro_fz_m_vintage_low_gain.nam'");
    assert!(block_gain::nam_maestro_fuzz_tone_fz_1::validate_params("vintage", "low").is_ok());
    assert_eq!(block_gain::nam_maestro_fuzz_tone_fz_1::resolve_capture("vintage", "mid").unwrap(), "pedals/maestro_fuzz_tone_fz_1/maestro_fz_m_vintage_mid_gain.nam");
    assert_eq!(block_gain::nam_maestro_fuzz_tone_fz_1::asset_summary("vintage", "mid").unwrap(), "model='pedals/maestro_fuzz_tone_fz_1/maestro_fz_m_vintage_mid_gain.nam'");
    assert!(block_gain::nam_maestro_fuzz_tone_fz_1::validate_params("vintage", "mid").is_ok());
    assert_eq!(block_gain::nam_maestro_fuzz_tone_fz_1::resolve_capture("vintage", "high").unwrap(), "pedals/maestro_fuzz_tone_fz_1/maestro_fz_m_vintage_high_gain.nam");
    assert_eq!(block_gain::nam_maestro_fuzz_tone_fz_1::asset_summary("vintage", "high").unwrap(), "model='pedals/maestro_fuzz_tone_fz_1/maestro_fz_m_vintage_high_gain.nam'");
    assert!(block_gain::nam_maestro_fuzz_tone_fz_1::validate_params("vintage", "high").is_ok());
    assert_eq!(block_gain::nam_maestro_fuzz_tone_fz_1::resolve_capture("modern", "mid").unwrap(), "pedals/maestro_fuzz_tone_fz_1/maestro_fz_m_modern_mid_gain.nam");
    assert_eq!(block_gain::nam_maestro_fuzz_tone_fz_1::asset_summary("modern", "mid").unwrap(), "model='pedals/maestro_fuzz_tone_fz_1/maestro_fz_m_modern_mid_gain.nam'");
    assert!(block_gain::nam_maestro_fuzz_tone_fz_1::validate_params("modern", "mid").is_ok());
    assert_eq!(block_gain::nam_maestro_fuzz_tone_fz_1::resolve_capture("modern", "high").unwrap(), "pedals/maestro_fuzz_tone_fz_1/maestro_fz_m_modern_high_gain.nam");
    assert_eq!(block_gain::nam_maestro_fuzz_tone_fz_1::asset_summary("modern", "high").unwrap(), "model='pedals/maestro_fuzz_tone_fz_1/maestro_fz_m_modern_high_gain.nam'");
    assert!(block_gain::nam_maestro_fuzz_tone_fz_1::validate_params("modern", "high").is_ok());
}

#[test]
fn nam_maestro_fuzz_tone_fz_1_defaults_validate() {
    let schema = block_gain::nam_maestro_fuzz_tone_fz_1::model_schema();
    let params = schema.parameters.unwrap();
    let mut defaults: Vec<&str> = Vec::new();
    for p in params.iter() {
        match &p.kind {
            ParameterKind::Enum { default, .. } => defaults.push(default.unwrap()),
            _ => panic!("every parameter of this model is enumerated"),
        }
    }
    assert_eq!(defaults, vec!["vintage", "mid"]);
    assert!(block_gain::nam_maestro_fuzz_tone_fz_1::validate_params(defaults[0], defaults[1]).is_ok());
}

#[test]
fn nam_maestro_fuzz_tone_fz_1_unknown_setting_is_refused() {
    let expected = "gain 'nam_maestro_fuzz_tone_fz_1' has no capture for era=bogus gain=mid";
    match block_gain::nam_maestro_fuzz_tone_fz_1::validate_params("bogus", "mid") {
        Err(GainError::UnsupportedSetting(m)) => assert_eq!(m, expected),
        _ => panic!("an unknown setting must be refused"),
    }
    assert_eq!(block_gain::nam_maestro_fuzz_tone_fz_1::asset_summary("bogus", "mid").unwrap_err().message(), expected);
    assert!(block_gain::nam_maestro_fuzz_tone_fz_1::resolve_capture("bogus", "mid").is_err());
}

#[test]
fn nam_maestro_fuzz_tone_fz_1_holes_are_refused() {
    match block_gain::nam_maestro_fuzz_tone_fz_1::validate_params("modern", "low") {
        Err(GainError::UnsupportedSetting(m)) => assert_eq!(m, "gain 'nam_maestro_fuzz_tone_fz_1' has no capture for era=modern gain=low"),
        _ => panic!("a hole in the capture grid must be refused"),
    }
}

#[test]
fn nam_mxr_distortion_every_capture_resolves() {
    assert_eq!(block_gain::nam_mxr_distortion::resolve_capture("130").unwrap(), "pedals/mxr_distortion/mxr_distortion_output300_dist130.nam");
    assert_eq!(block_gain::nam_mxr_distortion::asset_summary("130").unwrap(), "model='pedals/mxr_distortion/mxr_distortion_output300_dist130.nam'");
    assert!(block_gain::nam_mxr_distortion::validate_params("130").is_ok());
    assert_eq!(block_gain::nam_mxr_distortion::resolve_capture("300").unwrap(), "pedals/mxr_distortion/mxr_distortion_output300_dist300.nam");
    assert_eq!(block_gain::nam_mxr_distortion::asset_summary("300").unwrap(), "model='pedals/mxr_distortion/mxr_distortion_output300_dist300.nam'");
    assert!(block_gain::nam_mxr_distortion::validate_params("300").is_ok());
    assert_eq!(block_gain::nam_mxr_distortion::resolve_capture("500").unwrap(), "pedals/mxr_distortion/mxr_distortion_output300_dist500.nam");
    assert_eq!(block_gain::nam_mxr_distortion::asset_summary("500").unwrap(), "model='pedals/mxr_distortion/mxr_distortion_output300_dist500.nam'");
    assert!(block_gain::nam_mxr_distortion::validate_params("500").is_ok());
    assert_eq!(block_gain::nam_mxr_distortion::resolve_capture("700").unwrap(), "pedals/mxr_distortion/mxr_distortion_output300_dist700.nam");
    assert_eq!(block_gain::nam_mxr_distortion::asset_summary("700").unwrap(), "model='pedals/mxr_distortion/mxr_distortion_output300_dist700.nam'");
    assert!(block_gain::nam_mxr_distortion::validate_params("700").is_ok());
    assert_eq!(block_gain::nam_mxr_distortion::resolve_capture("900").unwrap(), "pedals/mxr_distortion/mxr_distortion_output300_dist900.nam");
    assert_eq!(block_gain::nam_mxr_distortion::asset_summary("900").unwrap(), "model='pedals/mxr_distortion/mxr_distortion_output300_dist900.nam'");
    assert!(block_gain::nam_mxr_distortion::validate_params("900").is_ok());
    assert_eq!(block_gain::nam_mxr_distortion::resolve_capture("1030").unwrap(), "pedals/mxr_distortion/mxr_distortion_output300_dist1030.nam");
    assert_eq!(block_gain::nam_mxr_distortion::asset_summary("1030").unwrap(), "model='pedals/mxr_distortion/mxr_distortion_output300_dist1030.nam'");
    assert!(block_gain::nam_mxr_distortion::validate_params("1030").is_ok());
    assert_eq!(block_gain::nam_mxr_distortion::resolve_capture("1200").unwrap(), "pedals/mxr_distortion/mxr_distortion_output300_dist1200.nam");
    assert_eq!(block_gain::nam_mxr_distortion::asset_summary("1200").unwrap(), "model='pedals/mxr_distortion/mxr_distortion_output300_dist1200.nam'");
    assert!(block_gain::nam_mxr_distortion::validate_params("1200").is_ok());
}

#[test]
fn nam_mxr_distortion_defaults_validate() {
    let schema = block_gain::nam_mxr_distortion::model_schema();
    let params = schema.parameters.unwrap();
    let mut defaults: Vec<&str> = Vec::new();
    for p in params.iter() {
        match &p.kind {
            ParameterKind::Enum { default, .. } => defaults.push(default.unwrap()),
            _ => panic!("every parameter of this model is enumerated"),
        }
    }
    assert_eq!(defaults, vec!["700"]);
    assert!(block_gain::nam_mxr_distortion::validate_params(defaults[0]).is_ok());
}

#[test]
fn nam_mxr_distortion_unknown_setting_is_refused() {
    let expected = "gain 'nam_mxr_distortion' has no capture for distortion=bogus";
    match block_gain::nam_mxr_distortion::validate_params("bogus") {
        Err(GainError::UnsupportedSetting(m)) => assert_eq!(m, expected),
        _ => panic!("an unknown setting must be refused"),
    }
    assert_eq!(block_gain::nam_mxr_distortion::asset_summary("bogus").unwrap_err().message(), expected);
    assert!(block_gain::nam_mxr_distortion::resolve_capture("bogus").is_err());
}

#[test]
fn nam_mxr_duke_of_tone_every_capture_resolves() {
    assert_eq!(block_gain::nam_mxr_duke_of_tone::resolve_capture("od", "high", "230").unwrap(), "pedals/mxr_duke_of_tone/dot_od_high_vol_330_tone_230_drive_300.nam");
    assert_eq!(block_gain::nam_mxr_duke_of_tone::asset_summary("od", "high", "230").unwrap(), "model='pedals/mxr_duke_of_tone/dot_od_high_vol_330_tone_230_drive_300.nam'");
    assert!(block_gain::nam_mxr_duke_of_tone::validate_params("od", "high", "230").is_ok());
    assert_eq!(block_gain::nam_mxr_duke_of_tone::resolve_capture("od", "high", "1030").unwrap(), "pedals/mxr_duke_of_tone/dot_od_high_vol_330_tone_1030_drive_300.nam");
    assert_eq!(block_gain::nam_mxr_duke_of_tone::asset_summary("od", "high", "1030").unwrap(), "model='pedals/mxr_duke_of_tone/dot_od_high_vol_330_tone_1030_drive_300.nam'");
    assert!(block_gain::nam_mxr_duke_of_tone::validate_params("od", "high", "1030").is_ok());
    assert_eq!(block_gain::nam_mxr_duke_of_tone::resolve_capture("od", "high", "1200").unwrap(), "pedals/mxr_duke_of_tone/dot_od_high_vol_330_tone_1200_drive_300.nam");
    assert_eq!(block_gain::nam_mxr_duke_of_tone::asset_summary("od", "high", "1200").unwrap(), "model='pedals/mxr_duke_of_tone/dot_od_high_vol_330_tone_1200_drive_300.nam'");
    assert!(block_gain::nam_mxr_duke_of_tone::validate_params("od", "high", "1200").is_ok());
    assert_eq!(block_gain::nam_mxr_duke_of_tone::resolve_capture("od", "cranked", "230").unwrap(), "pedals/mxr_duke_of_tone/dot_od_cranked_vol_330_tone_230_drive_500.nam");
    assert_eq!(block_gain::nam_mxr_duke_of_tone::asset_summary("od", "cranked", "230").unwrap(), "model='pedals/mxr_duke_of_tone/dot_od_cranked_vol_330_tone_230_drive_500.nam'");
    assert!(block_gain::nam_mxr_duke_of_tone::validate_params("od", "cranked", "230").is_ok());
    assert_eq!(block_gain::nam_mxr_duke_of_tone::resolve_capture("od", "cranked", "1030").unwrap(), "pedals/mxr_duke_of_tone/dot_od_cranked_vol_330_tone_1030_drive_500.nam");
    assert_eq!(block_gain::nam_mxr_duke_of_tone::asset_summary("od", "cranked", "1030").unwrap(), "model='pedals/mxr_duke_of_tone/dot_od_cranked_vol_330_tone_1030_drive_500.nam'");
    assert!(block_gain::nam_mxr_duke_of_tone::validate_params("od", "cranked", "1030").is_ok());
    assert_eq!(block_gain::nam_mxr_duke_of_tone::resolve_capture("od", "cranked", "1200").unwrap(), "pedals/mxr_duke_of_tone/dot_od_cranked_vol_330_tone_1200_drive_500.nam");
    assert_eq!(block_gain::nam_mxr_duke_of_tone::asset_summary("od", "cranked", "1200").unwrap(), "model='pedals/mxr_duke_of_tone/dot_od_cranked_vol_330_tone_1200_drive_500.nam'");
    assert!(block_gain::nam_mxr_duke_of_tone::validate_params("od", "cranked", "1200").is_ok());
    assert_eq!(block_gain::nam_mxr_duke_of_tone::resolve_capture("od", "color", "230").unwrap(), "pedals/mxr_duke_of_tone/dot_od_color_vol_330_tone_230_drive_700.nam");
    assert_eq!(block_gain::nam_mxr_duke_of_tone::asset_summary("od", "color", "230").unwrap(), "model='pedals/mxr_duke_of_tone/dot_od_color_vol_330_tone_230_drive_700.nam'");
    assert!(block_gain::nam_mxr_duke_of_tone::validate_params("od", "color", "230").is_ok());
    assert_eq!(block_gain::nam_mxr_duke_of_tone::resolve_capture("od", "color", "1030").unwrap(), "pedals/mxr_duke_of_tone/dot_od_color_vol_330_tone_1030_drive_700.nam");
    assert_eq!(block_gain::nam_mxr_duke_of_tone::asset_summary("od", "color", "1030").unwrap(), "model='pedals/mxr_duke_of_tone/dot_od_color_vol_330_tone_1030_drive_700.nam'");
    assert!(block_gain::nam_mxr_duke_of_tone::validate_params("od", "color", "1030").is_ok());
    assert_eq!(block_gain::nam_mxr_duke_of_tone::resolve_capture("od", "color", "1200").unwrap(), "pedals/mxr_duke_of_tone/dot_od_color_vol_330_tone_1200_drive_700.nam");
    assert_eq!(block_gain::nam_mxr_duke_of_tone::asset_summary("od", "color", "1200").unwrap(), "model='pedals/mxr_duke_of_tone/dot_od_color_vol_330_tone_1200_drive_700.nam'");
    assert!(block_gain::nam_mxr_duke_of_tone::validate_params("od", "color", "1200").is_ok());
    assert_eq!(block_gain::nam_mxr_duke_of_tone::resolve_capture("od", "low", "230").unwrap(), "pedals/mxr_duke_of_tone/dot_od_low_vol_330_tone_230_drive_900.nam");
    assert_eq!(block_gain::nam_mxr_duke_of_tone::asset_summary("od", "low", "230").unwrap(), "model='pedals/mxr_duke_of_tone/dot_od_low_vol_330_tone_230_drive_900.nam'");
    assert!(block_gain::nam_mxr_duke_of_tone::validate_params("od", "low", "230").is_ok());
    assert_eq!(block_gain::nam_mxr_duke_of_tone::resolve_capture("od", "low", "1030").unwrap(), "pedals/mxr_duke_of_tone/dot_od_low_vol_330_tone_1030_drive_900.nam");
    assert_eq!(block_gain::nam_mxr_duke_of_tone::asset_summary("od", "low", "1030").unwrap(), "model='pedals/mxr_duke_of_tone/dot_od_low_vol_330_tone_1030_drive_900.nam'");
    assert!(block_gain::nam_mxr_duke_of_tone::validate_params("od", "low", "1030").is_ok());
    assert_eq!(block_gain::nam_mxr_duke_of_tone::resolve_capture("od", "low", "1200").unwrap(), "pedals/mxr_duke_of_tone/dot_od_low_vol_330_tone_1200_drive_900.nam");
    assert_eq!(block_gain::nam_mxr_duke_of_tone::asset_summary("od", "low", "1200").unwrap(), "model='pedals/mxr_duke_of_tone/dot_od_low_vol_330_tone_1200_drive_900.nam'");
    assert!(block_gain::nam_mxr_duke_of_tone::validate_params("od", "low", "1200").is_ok());
    assert_eq!(block_gain::nam_mxr_duke_of_tone::resolve_capture("od", "med", "230").unwrap(), "pedals/mxr_duke_of_tone/dot_od_med_vol_330_tone_230_drive_1200.nam");
    assert_eq!(block_gain::nam_mxr_duke_of_tone::asset_summary("od", "med", "230").unwrap(), "model='pedals/mxr_duke_of_tone/dot_od_med_vol_330_tone_230_drive_1200.nam'");
    assert!(block_gain::nam_mxr_duke_of_tone::validate_params("od", "med", "230").is_ok());
    assert_eq!(block_gain::nam_mxr_duke_of_tone::resolve_capture("od", "med", "1030").unwrap(), "pedals/mxr_duke_of_tone/dot_od_med_vol_330_tone_1030_drive_1200.nam");
    assert_eq!(block_gain::nam_mxr_duke_of_tone::asset_summary("od", "med", "1030").unwrap(), "model='pedals/mxr_duke_of_tone/dot_od_med_vol_330_tone_1030_drive_1200.nam'");
    assert!(block_gain::nam_mxr_duke_of_tone::validate_params("od", "med", "1030").is_ok());
    assert_eq!(block_gain::nam_mxr_duke_of_tone::resolve_capture("od", "med", "1200").unwrap(), "pedals/mxr_duke_of_tone/dot_od_med_vol_330_tone_1200_drive_1200.nam");
    assert_eq!(block_gain::nam_mxr_duke_of_tone::asset_summary("od", "med", "1200").unwrap(), "model='pedals/mxr_duke_of_tone/dot_od_med_vol_330_tone_1200_drive_1200.nam'");
    assert!(block_gain::nam_mxr_duke_of_tone::validate_params("od", "med", "1200").is_ok());
    assert_eq!(block_gain::nam_mxr_duke_of_tone::resolve_capture("dist", "high", "230").unwrap(), "pedals/mxr_duke_of_tone/dot_dist_high_vol_330_tone_230_drive_300.nam");
    assert_eq!(block_gain::nam_mxr_duke_of_tone::asset_summary("dist", "high", "230").unwrap(), "model='pedals/mxr_duke_of_tone/dot_dist_high_vol_330_tone_230_drive_300.nam'");
    assert!(block_gain::nam_mxr_duke_of_tone::validate_params("dist", "high", "230").is_ok());
    assert_eq!(block_gain::nam_mxr_duke_of_tone::resolve_capture("dist", "high", "1030").unwrap(), "pedals/mxr_duke_of_tone/dot_dist_high_vol_330_tone_1030_drive_300.nam");
    assert_eq!(block_gain::nam_mxr_duke_of_tone::asset_summary("dist", "high", "1030").unwrap(), "model='pedals/mxr_duke_of_tone/dot_dist_high_vol_330_tone_1030_drive_300.nam'");
    assert!(block_gain::nam_mxr_duke_of_tone::validate_params("dist", "high", "1030").is_ok());
    assert_eq!(block_gain::nam_mxr_duke_of_tone::resolve_capture("dist", "high", "1200").unwrap(), "pedals/mxr_duke_of_tone/dot_dist_high_vol_330_tone_1200_drive_300.nam");
    assert_eq!(block_gain::nam_mxr_duke_of_tone::asset_summary("dist", "high", "1200").unwrap(), "model='pedals/mxr_duke_of_tone/dot_dist_high_vol_330_tone_1200_drive_300.nam'");
    assert!(block_gain::nam_mxr_duke_of_tone::validate_params("dist", "high", "1200").is_ok());
    assert_eq!(block_gain::nam_mxr_duke_of_tone::resolve_capture("dist", "cranked", "230").unwrap(), "pedals/mxr_duke_of_tone/dot_dist_cranked_vol_330_tone_230_drive_500.nam");
    assert_eq!(block_gain::nam_mxr_duke_of_tone::asset_summary("dist", "cranked", "230").unwrap(), "model='pedals/mxr_duke_of_tone/dot_dist_cranked_vol_330_tone_230_drive_500.nam'");
    assert!(block_gain::nam_mxr_duke_of_tone::validate_params("dist", "cranked", "230").is_ok());
    assert_eq!(block_gain::nam_mxr_duke_of_tone::resolve_capture("dist", "cranked", "1030").unwrap(), "pedals/mxr_duke_of_tone/dot_dist_cranked_vol_330_tone_1030_drive_500.nam");
    assert_eq!(block_gain::nam_mxr_duke_of_tone::asset_summary("dist", "cranked", "1030").unwrap(), "model='pedals/mxr_duke_of_tone/dot_dist_cranked_vol_330_tone_1030_drive_500.nam'");
    assert!(block_gain::nam_mxr_duke_of_tone::validate_params("dist", "cranked", "1030").is_ok());
    assert_eq!(block_gain::nam_mxr_duke_of_tone::resolve_capture("dist", "cranked", "1200").unwrap(), "pedals/mxr_duke_of_tone/dot_dist_cranked_vol_330_tone_1200_drive_500.nam");
    assert_eq!(block_gain::nam_mxr_duke_of_tone::asset_summary("dist", "cranked", "1200").unwrap(), "model='pedals/mxr_duke_of_tone/dot_dist_cranked_vol_330_tone_1200_drive_500.nam'");
    assert!(block_gain::nam_mxr_duke_of_tone::validate_params("dist", "cranked", "1200").is_ok());
    assert_eq!(block_gain::nam_mxr_duke_of_tone::resolve_capture("dist", "color", "230").unwrap(), "pedals/mxr_duke_of_tone/dot_dist_color_vol_330_tone_230_drive_700.nam");
    assert_eq!(block_gain::nam_mxr_duke_of_tone::asset_summary("dist", "color", "230").unwrap(), "model='pedals/mxr_duke_of_tone/dot_dist_color_vol_330_tone_230_drive_700.nam'");
    assert!(block_gain::nam_mxr_duke_of_tone::validate_params("dist", "color", "230").is_ok());
    assert_eq!(block_gain::nam_mxr_duke_of_tone::resolve_capture("dist", "color", "1030").unwrap(), "pedals/mxr_duke_of_tone/dot_dist_color_vol_330_tone_1030_drive_700.nam");
    assert_eq!(block_gain::nam_mxr_duke_of_tone::asset_summary("dist", "color", "1030").unwrap(), "model='pedals/mxr_duke_of_tone/dot_dist_color_vol_330_tone_1030_drive_700.nam'");
    assert!(block_gain::nam_mxr_duke_of_tone::validate_params("dist", "color", "1030").is_ok());
    assert_eq!(block_gain::nam_mxr_duke_of_tone::resolve_capture("dist", "color", "1200").unwrap(), "pedals/mxr_duke_of_tone/dot_dist_color_vol_330_tone_1200_drive_700.nam");
    assert_eq!(block_gain::nam_mxr_duke_of_tone::asset_summary("dist", "color", "1200").unwrap(), "model='pedals/mxr_duke_of_tone/dot_dist_color_vol_330_tone_1200_drive_700.nam'");
    assert!(block_gain::nam_mxr_duke_of_tone::validate_params("dist", "color", "1200").is_ok());
    assert_eq!(block_gain::nam_mxr_duke_of_tone::resolve_capture("dist", "low", "230").unwrap(), "pedals/mxr_duke_of_tone/dot_dist_low_vol_330_tone_230_drive_900.nam");
    assert_eq!(block_gain::nam_mxr_duke_of_tone::asset_summary("dist", "low", "230").unwrap(), "model='pedals/mxr_duke_of_tone/dot_dist_low_vol_330_tone_230_drive_900.nam'");
    assert!(block_gain::nam_mxr_duke_of_tone::validate_params("dist", "low", "230").is_ok());
    assert_eq!(block_gain::nam_mxr_duke_of_tone::resolve_capture("dist", "low", "1030").unwrap(), "pedals/mxr_duke_of_tone/dot_dist_low_vol_330_tone_1030_drive_900.nam");
    assert_eq!(block_gain::nam_mxr_duke_of_tone::asset_summary("dist", "low", "1030").unwrap(), "model='pedals/mxr_duke_of_tone/dot_dist_low_vol_330_tone_1030_drive_900.nam'");
    assert!(block_gain::nam_mxr_duke_of_tone::validate_params("dist", "low", "1030").is_ok());
    assert_eq!(block_gain::nam_mxr_duke_of_tone::resolve_capture("dist", "low", "1200").unwrap(), "pedals/mxr_duke_of_tone/dot_dist_low_vol_330_tone_1200_drive_900.nam");
    assert_eq!(block_gain::nam_mxr_duke_of_tone::asset_summary("dist", "low", "1200").unwrap(), "model='pedals/mxr_duke_of_tone/dot_dist_low_vol_330_tone_1200_drive_900.nam'");
    assert!(block_gain::nam_mxr_duke_of_tone::validate_params("dist", "low", "1200").is_ok());
    assert_eq!(block_gain::nam_mxr_duke_of_tone::resolve_capture("dist", "med", "230").unwrap(), "pedals/mxr_duke_of_tone/dot_dist_med_vol_330_tone_230_drive_1200.nam");
    assert_eq!(block_gain::nam_mxr_duke_of_tone::asset_summary("dist", "med", "230").unwrap(), "model='pedals/mxr_duke_of_tone/dot_dist_med_vol_330_tone_230_drive_1200.nam'");
    assert!(block_gain::nam_mxr_duke_of_tone::validate_params("dist", "med", "230").is_ok());
    assert_eq!(block_gain::nam_mxr_duke_of_tone::resolve_capture("dist", "med", "1030").unwrap(), "pedals/mxr_duke_of_tone/dot_dist_med_vol_330_tone_1030_drive_1200.nam");
    assert_eq!(block_gain::nam_mxr_duke_of_tone::asset_summary("dist", "med", "1030").unwrap(), "model='pedals/mxr_duke_of_tone/dot_dist_med_vol_330_tone_1030_drive_1200.nam'");
    assert!(block_gain::nam_mxr_duke_of_tone::validate_params("dist", "med", "1030").is_ok());
    assert_eq!(block_gain::nam_mxr_duke_of_tone::resolve_capture("dist", "med", "1200").unwrap(), "pedals/mxr_duke_of_tone/dot_dist_med_vol_330_tone_1200_drive_1200.nam");
    assert_eq!(block_gain::nam_mxr_duke_of_tone::asset_summary("dist", "med", "1200").unwrap(), "model='pedals/mxr_duke_of_tone/dot_dist_med_vol_330_tone_1200_drive_1200.nam'");
    assert!(block_gain::nam_mxr_duke_of_tone::validate_params("dist", "med", "1200").is_ok());
}

#[test]
fn nam_mxr_duke_of_tone_defaults_validate() {
    let schema = block_gain::nam_mxr_duke_of_tone::model_schema();
    let params = schema.parameters.unwrap();
    let mut defaults: Vec<&str> = Vec::new();
    for p in params.iter() {
        match &p.kind {
            ParameterKind::Enum { default, .. } => defaults.push(default.unwrap()),
            _ => panic!("every parameter of this model is enumerated"),
        }
    }
    assert_eq!(defaults, vec!["od", "color", "1030"]);
    assert!(block_gain::nam_mxr_duke_of_tone::validate_params(defaults[0], defaults[1], defaults[2]).is_ok());
}

#[test]
fn nam_mxr_duke_of_tone_unknown_setting_is_refused() {
    let expected = "gain 'nam_mxr_duke_of_tone' has no capture for mode=bogus voicing=color tone=1030";
    match block_gain::nam_mxr_duke_of_tone::validate_params("bogus", "color", "1030") {
        Err(GainError::UnsupportedSetting(m)) => assert_eq!(m, expected),
        _ => panic!("an unknown setting must be refused"),
    }
    assert_eq!(block_gain::nam_mxr_duke_of_tone::asset_summary("bogus", "color", "1030").unwrap_err().message(), expected);
    assert!(block_gain::nam_mxr_duke_of_tone::resolve_capture("bogus", "color", "1030").is_err());
}
