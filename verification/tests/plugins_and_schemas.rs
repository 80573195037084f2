//! Plugin models, grid models and the schemas of all models.

use block_gain::error::GainError;
use block_gain::model::{BackendKind, Instruments};
use block_gain::schema::{AudioMode, EffectType, ParameterKind, ParameterUnit};
use block_gain::text::{bool_text, decimal_text, join, str_eq};
use block_gain::{lv2_caps_spice, lv2_driva, lv2_invada_tube, lv2_ojd, lv2_tap_tubewarmth};
use block_gain::{nam_big_muff, nam_horizon_precision_drive, nam_ibanez_ts9, nam_boss_ds1_wampler};

#[test]
fn lv2_asset_summary_names_the_plugin() {
    assert_eq!(lv2_caps_spice::asset_summary(), "lv2='lv2_caps_spice'");
    assert_eq!(lv2_ojd::asset_summary(), "lv2='lv2_ojd'");
}

#[test]
fn tube_plugins_accept_everything_and_name_no_asset() {
    assert!(lv2_invada_tube::validate_params().is_ok());
    assert!(lv2_tap_tubewarmth::validate_params().is_ok());
    assert_eq!(lv2_invada_tube::asset_summary(), "");
    assert_eq!(lv2_tap_tubewarmth::asset_summary(), "");
}

#[test]
fn driva_tone_ports_follow_choices() {
    let expected = ["odie", "grunge", "distort", "ratty", "classic", "morbid", "metal"];
    for (i, t) in expected.iter().enumerate() {
        assert_eq!(lv2_driva::tone_port_value(t) as usize, i);
    }
    assert_eq!(lv2_driva::tone_port_value("unknown"), 0);
    assert_eq!(lv2_driva::tone_port_value("Metal"), 0);
}

#[test]
fn ojd_filter_port() {
    assert_eq!(lv2_ojd::hp_lp_port_value("hp"), 1);
    assert_eq!(lv2_ojd::hp_lp_port_value("lp"), 0);
    assert_eq!(lv2_ojd::hp_lp_port_value("HP"), 0);
}

#[test]
fn size_parsing() {
    assert_eq!(nam_big_muff::parse_size("feather").unwrap(), nam_big_muff::NamSize::Feather);
    assert_eq!(nam_big_muff::parse_size("standard").unwrap(), nam_big_muff::NamSize::Standard);
    match nam_big_muff::parse_size("lite") {
        Err(GainError::InvalidChoice(m)) => assert_eq!(m, "unknown size 'lite'"),
        _ => panic!("big muff has no lite size"),
    }
    assert_eq!(nam_horizon_precision_drive::parse_size("lite").unwrap(), nam_horizon_precision_drive::NamSize::Lite);
    match nam_horizon_precision_drive::parse_size("feather") {
        Err(GainError::InvalidChoice(m)) => assert_eq!(m, "unknown size 'feather'"),
        _ => panic!("horizon has no feather size"),
    }
}

#[test]
fn spice_schema_in_hundredths() {
    let schema = lv2_caps_spice::model_schema();
    assert_eq!(schema.effect_type, EffectType::Gain);
    assert_eq!(schema.model, "lv2_caps_spice");
    assert_eq!(schema.display_name, "Spice");
    assert_eq!(schema.audio_mode, Some(AudioMode::DualMono));
    let params = schema.parameters.unwrap();
    assert_eq!(params.len(), 5);
    assert_eq!(params[0].path, "lof");
    assert_eq!(params[0].label, "Low Frequency");
    assert!(params[0].group.is_none());
    match params[0].kind {
        ParameterKind::Float { default, min, max, step, unit } => {
            assert_eq!(default, Some(22500));
            assert_eq!((min, max, step), (5000, 40000, 100));
            assert_eq!(unit, ParameterUnit::Hertz);
        },
        _ => panic!("a frequency is numeric"),
    }
}

#[test]
fn negative_ranges_are_kept() {
    let params = lv2_tap_tubewarmth::model_schema().parameters.unwrap();
    let mut seen_negative = false;
    for p in params.iter() {
        if let ParameterKind::Float { min, max, step, default, .. } = p.kind {
            assert!(min <= max);
            assert!(step > 0);
            if let Some(d) = default {
                assert!(min <= d && d <= max);
            }
            if min < 0 {
                seen_negative = true;
            }
        }
    }
    assert!(seen_negative);
    assert_eq!(lv2_tap_tubewarmth::model_schema().audio_mode, Some(AudioMode::MonoToStereo));
}

#[test]
fn enum_schema_of_a_capture_model() {
    let schema = nam_boss_ds1_wampler::model_schema();
    assert!(schema.audio_mode.is_none());
    let params = schema.parameters.unwrap();
    assert_eq!(params[1].path, "dist");
    assert_eq!(params[1].group, Some("Pedal"));
    match &params[1].kind {
        ParameterKind::Enum { default, choices } => {
            assert_eq!(*default, Some("5"));
            let values: Vec<&str> = choices.iter().map(|c| c.value).collect();
            let labels: Vec<&str> = choices.iter().map(|c| c.label).collect();
            assert_eq!(values, vec!["0", "5", "10"]);
            assert_eq!(labels, vec!["Clean", "Medium", "High"]);
        },
        _ => panic!("dist is enumerated"),
    }
}

#[test]
fn definitions() {
    let d = nam_ibanez_ts9::model_definition();
    assert_eq!(d.id, "nam_ibanez_ts9");
    assert_eq!(d.brand, "ibanez");
    assert_eq!(d.backend_kind, BackendKind::Nam);
    assert_eq!(d.supported_instruments, Instruments::GuitarBass);
    assert_eq!(d.knob_layout.len(), 3);
    assert_eq!(d.knob_layout[1].param_key, "tone");
    assert_eq!(d.knob_layout[1].svg_cx, 30200);
    assert_eq!(d.knob_layout[1].max, 1000);
    let d = lv2_invada_tube::model_definition();
    assert_eq!(d.backend_kind, BackendKind::Lv2);
    assert_eq!(d.supported_instruments, Instruments::All);
    assert!(d.knob_layout.is_empty());
}

#[test]
fn text_helpers() {
    assert!(str_eq("abc", "abc"));
    assert!(!str_eq("abc", "abd"));
    assert!(!str_eq("ab", "abc"));
    assert!(str_eq("", ""));
    assert!(str_eq("ünï", "ünï"));
    assert_eq!(join(&vec!["a", "", "bc"]), "abc");
    assert_eq!(join(&vec![]), "");
    assert_eq!(decimal_text(0), "0");
    assert_eq!(decimal_text(7), "7");
    assert_eq!(decimal_text(1234), "1234");
    assert_eq!(decimal_text(-90), "-90");
    assert_eq!(decimal_text(i32::MAX), "2147483647");
    assert_eq!(decimal_text(i32::MIN), "-2147483648");
    assert_eq!(bool_text(true), "true");
    assert_eq!(bool_text(false), "false");
}
