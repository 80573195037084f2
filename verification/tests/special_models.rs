//! The models that select captures in their own way.

use block_gain::error::GainError;
use block_gain::nam_blues_overdrive_bd_2 as bd2;
use block_gain::nam_ibanez_ts9 as ts9;
use block_gain::nam_jhs_andy_timmons as timmons;
use block_gain::nam_jhs_andy_timmons::{Boost, Quality, Voicing};
use block_gain::nam_jhs_bonsai as bonsai;
use block_gain::nam_klone as klone;
use block_gain::nam_maxon_od808 as od808;

#[test]
fn timmons_parses_every_switch_position() {
    assert_eq!(timmons::parse_voicing("bright").unwrap(), Voicing::Bright);
    assert_eq!(timmons::parse_voicing("dark").unwrap(), Voicing::Dark);
    assert_eq!(timmons::parse_voicing("main").unwrap(), Voicing::Main);
    assert_eq!(timmons::parse_voicing("deliver_us").unwrap(), Voicing::DeliverUs);
    assert_eq!(timmons::parse_voicing("main_brighter").unwrap(), Voicing::MainBrighter);
    assert_eq!(timmons::parse_voicing("scoopy").unwrap(), Voicing::Scoopy);
    assert_eq!(timmons::parse_boost("off").unwrap(), Boost::Off);
    assert_eq!(timmons::parse_boost("on").unwrap(), Boost::On);
    assert_eq!(timmons::parse_quality("c").unwrap(), Quality::C);
    assert_eq!(timmons::parse_quality("s").unwrap(), Quality::S);
    assert_eq!(timmons::parse_quality("xs").unwrap(), Quality::Xs);
}

#[test]
fn timmons_refuses_unknown_positions() {
    match timmons::parse_voicing("Bright") {
        Err(GainError::InvalidChoice(m)) => assert_eq!(m, "invalid voicing 'Bright' for model 'nam_jhs_andy_timmons'"),
        _ => panic!("voicing texts are case sensitive"),
    }
    match timmons::parse_boost("maybe") {
        Err(GainError::InvalidChoice(m)) => assert_eq!(m, "invalid boost 'maybe' for model 'nam_jhs_andy_timmons'"),
        _ => panic!("unknown boost"),
    }
    match timmons::parse_quality("") {
        Err(GainError::InvalidChoice(m)) => assert_eq!(m, "invalid quality '' for model 'nam_jhs_andy_timmons'"),
        _ => panic!("empty quality"),
    }
    // The voicing is read first: its error wins over the others.
    match timmons::validate_params("x", "y", "z") {
        Err(GainError::InvalidChoice(m)) => assert_eq!(m, "invalid voicing 'x' for model 'nam_jhs_andy_timmons'"),
        _ => panic!("the voicing is checked first"),
    }
    match timmons::validate_params("main", "y", "z") {
        Err(GainError::InvalidChoice(m)) => assert_eq!(m, "invalid boost 'y' for model 'nam_jhs_andy_timmons'"),
        _ => panic!("then the boost"),
    }
    match timmons::asset_summary("main", "on", "z") {
        Err(GainError::InvalidChoice(m)) => assert_eq!(m, "invalid quality 'z' for model 'nam_jhs_andy_timmons'"),
        _ => panic!("then the quality"),
    }
}

#[test]
fn timmons_priorities() {
    assert_eq!(timmons::voicing_priority(&Voicing::Bright), 0);
    assert_eq!(timmons::voicing_priority(&Voicing::Dark), 1);
    assert_eq!(timmons::voicing_priority(&Voicing::Main), 2);
    assert_eq!(timmons::voicing_priority(&Voicing::DeliverUs), 3);
    assert_eq!(timmons::voicing_priority(&Voicing::MainBrighter), 4);
    assert_eq!(timmons::voicing_priority(&Voicing::Scoopy), 5);
    assert_eq!(timmons::boost_priority(&Boost::Off), 0);
    assert_eq!(timmons::boost_priority(&Boost::On), 1);
    assert_eq!(timmons::quality_priority(&Quality::C), 0);
    assert_eq!(timmons::quality_priority(&Quality::S), 1);
    assert_eq!(timmons::quality_priority(&Quality::Xs), 2);
}

#[test]
fn timmons_exact_capture_is_chosen() {
    let c = timmons::resolve_capture("main", "off", "s").unwrap();
    assert_eq!(c.voicing, Voicing::Main);
    assert_eq!(c.boost, Boost::Off);
    assert_eq!(c.quality, Quality::S);
    assert_eq!(c.nam_file, "pedals/jhs_andy_timmons/SLAMMIN_JHS_TIMMONS_MAIN_S.nam");
    assert_eq!(
        timmons::asset_summary("scoopy", "on", "xs").unwrap(),
        "asset_id='pedals/jhs_andy_timmons/SLAMMIN_TIMMONS_RIVERA_SCOOPY_BOOST_XS.nam'"
    );
}

#[test]
fn timmons_missing_capture_falls_back_to_nearest() {
    // Deliver Us was recorded without boost only: the boost gives way, the voicing stays.
    let c = timmons::resolve_capture("deliver_us", "on", "xs").unwrap();
    assert_eq!(c.voicing, Voicing::DeliverUs);
    assert_eq!(c.boost, Boost::Off);
    assert_eq!(c.quality, Quality::Xs);
    // Scoopy was recorded with boost only.
    let c = timmons::select_capture(Voicing::Scoopy, Boost::Off, Quality::C);
    assert_eq!(c.nam_file, "pedals/jhs_andy_timmons/SLAMMIN_TIMMONS_RIVERA_SCOOPY_BOOST_C.nam");
}

#[test]
fn timmons_every_position_resolves() {
    for v in ["bright", "dark", "main", "deliver_us", "main_brighter", "scoopy"] {
        for b in ["off", "on"] {
            for q in ["c", "s", "xs"] {
                let c = timmons::resolve_capture(v, b, q).unwrap();
                assert_eq!(c.voicing, timmons::parse_voicing(v).unwrap());
                assert!(timmons::validate_params(v, b, q).is_ok());
            }
        }
    }
    assert_eq!(timmons::captures().len(), 30);
}

#[test]
fn ts9_exact_capture_is_chosen() {
    let c = ts9::resolve_capture(7, 7, 7);
    assert_eq!((c.drive, c.tone, c.level), (7, 7, 7));
    assert_eq!(
        ts9::asset_summary(8, 4, 5),
        "model='pedals/ibanez_ts9_tube_screamer/Ibanez TS9 Tube Screamer Drive 8 Tone 4 Level 5.nam'"
    );
}

#[test]
fn ts9_nearest_by_drive_first() {
    let c = ts9::resolve_capture(5, 5, 5);
    assert_eq!((c.drive, c.tone, c.level), (7, 7, 7));
    let c = ts9::resolve_capture(9, 9, 9);
    assert_eq!((c.drive, c.tone, c.level), (10, 9, 7));
    let c = ts9::resolve_capture(1, 8, 8);
    assert_eq!((c.drive, c.tone, c.level), (0, 7, 7));
    let c = ts9::resolve_capture(10, 0, 0);
    assert_eq!((c.drive, c.tone, c.level), (10, 9, 7));
    let c = ts9::resolve_capture(3, 7, 10);
    assert_eq!((c.drive, c.tone, c.level), (2, 7, 10));
}

#[test]
fn ts9_far_knobs_still_resolve() {
    let c = ts9::resolve_capture(-100, 0, 0);
    assert_eq!((c.drive, c.tone, c.level), (0, 6, 6));
    let c = ts9::resolve_capture(i32::MAX, i32::MIN, i32::MAX);
    assert_eq!(c.drive, 10);
}

#[test]
fn bd2_captures_by_gain() {
    let c = bd2::resolve_capture(50).unwrap();
    assert_eq!(c.params, bd2::BluesOverdriveParams { gain_percent: 50 });
    assert_eq!(c.model_path, "pedals/boss_blues_driver_bd_2/Boss Blues Driver BD-2 Gain 50percent.nam");
    assert_eq!(
        bd2::asset_summary(25).unwrap(),
        "model='pedals/boss_blues_driver_bd_2/Boss Blues Driver BD-2 Gain 25percent.nam'"
    );
    assert!(bd2::validate_params(75).is_ok());
    let c = bd2::capture(60, "x");
    assert_eq!(c.params.gain_percent, 60);
    assert_eq!(c.model_path, "x");
    assert_eq!(bd2::captures().len(), 3);
}

#[test]
fn bd2_refuses_unrecorded_gain() {
    match bd2::validate_params(60) {
        Err(GainError::UnsupportedSetting(m)) => {
            assert_eq!(m, "gain model 'blues_overdrive_bd_2' does not support gain_percent=60")
        },
        _ => panic!("60% was not recorded"),
    }
    match bd2::resolve_capture(-5) {
        Err(GainError::UnsupportedSetting(m)) => {
            assert_eq!(m, "gain model 'blues_overdrive_bd_2' does not support gain_percent=-5")
        },
        _ => panic!("negative gain"),
    }
    match bd2::asset_summary(i32::MIN) {
        Err(e) => assert_eq!(e.message(), "gain model 'blues_overdrive_bd_2' does not support gain_percent=-2147483648"),
        _ => panic!("the smallest integer"),
    }
}

#[test]
fn od808_captures_by_drive() {
    for d in [0, 25, 50, 75, 100] {
        let c = od808::resolve_capture(d).unwrap();
        assert_eq!(c.drive_percent, d);
        assert_eq!(c.model_path, format!("pedals/maxon_od808/od808_drive{}.nam", d));
    }
    match od808::validate_params(10) {
        Err(GainError::UnsupportedSetting(m)) => {
            assert_eq!(m, "gain model 'maxon_od808' does not support drive_percent=10")
        },
        _ => panic!("10% was not recorded"),
    }
}

#[test]
fn bonsai_every_mode_with_and_without_boost() {
    for mode in ["808", "ts9", "od1", "jhs", "keeley"] {
        for boost in [false, true] {
            let c = bonsai::resolve_capture(mode, boost).unwrap();
            assert_eq!(c.params.mode, mode);
            assert_eq!(c.params.boost, boost);
            let kind = if boost { "boost" } else { "neutral" };
            assert_eq!(
                bonsai::asset_summary(mode, boost).unwrap(),
                format!("model='pedals/jhs_bonsai/bonsai_{}_{}.nam'", mode, kind)
            );
        }
    }
}

#[test]
fn bonsai_refuses_unknown_mode() {
    match bonsai::validate_params("tube", true) {
        Err(GainError::UnsupportedSetting(m)) => {
            assert_eq!(m, "gain model 'jhs_bonsai' does not support mode='tube' boost=true")
        },
        _ => panic!("unknown mode"),
    }
    match bonsai::validate_params("", false) {
        Err(GainError::UnsupportedSetting(m)) => {
            assert_eq!(m, "gain model 'jhs_bonsai' does not support mode='' boost=false")
        },
        _ => panic!("empty mode"),
    }
}

#[test]
fn klone_has_one_capture() {
    assert!(klone::validate_params().is_ok());
    assert_eq!(klone::asset_summary(), "model='pedals/klone/klone.nam'");
    let schema = klone::model_schema();
    assert!(schema.parameters.is_none());
    assert!(schema.audio_mode.is_none());
    assert_eq!(schema.model, "klone");
}

#[test]
fn fractional_percentage_is_reported() {
    match GainError::fractional_percent("maxon_od808", "drive_percent", "12.5") {
        GainError::InvalidChoice(m) => assert_eq!(
            m,
            "gain model 'maxon_od808' requires 'drive_percent' to be a whole-number percentage, got 12.5"
        ),
        _ => panic!("a fractional percentage is an invalid choice"),
    }
}

#[test]
fn ts9_tone_then_level_break_drive_ties() {
    // drive 1 is one step from the captures at 0 and at 2; tone decides
    let c = ts9::resolve_capture(1, 9, 9);
    assert_eq!((c.drive, c.tone, c.level), (0, 9, 9));
    // drive 7 captures share the tone; level decides
    let c = ts9::resolve_capture(7, 7, 10);
    assert_eq!((c.drive, c.tone, c.level), (7, 7, 9));
}
