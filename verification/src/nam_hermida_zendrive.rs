//! The "Hermida Zendrive" gain model (hermida), played from neural captures, one per recorded setting.

use vstd::prelude::*;
use crate::capture::{
    names_value, files_name_settings, files_distinct,
    Capture, CaptureView, table_view, find_capture, first_selected, asset_text, lemma_first_selected,
    lemma_selected_at, captures_follow_schema, default_setting, defaults_present, captures_distinct,
    setting_of_choices, setting_matches,
};
use crate::error::GainError;
use crate::model::{BackendKind, Instruments, KnobLayoutEntry, ModelDefinition, ModelDefinitionView};
use crate::schema::{
    EffectType, EnumChoice, ModelSchema, ModelSchemaView, ParameterKindView, ParameterSpecView,
    choice, enum_parameter, parameters_view, schema_well_formed, choices_at, str_texts, is_choice,
    parameter_well_formed, choice_values, parameter_paths,
};
use crate::text::{concat, join, texts};

verus! {

pub const MODEL_ID: &'static str = "nam_hermida_zendrive";
pub const DISPLAY_NAME: &'static str = "Hermida Zendrive";
pub const BRAND: &'static str = "hermida";

pub open spec fn spec_model_schema() -> ModelSchemaView {
    ModelSchemaView {
        effect_type: EffectType::Gain,
        model: MODEL_ID,
        display_name: DISPLAY_NAME,
        audio_mode: None,
        parameters: Some(seq![
            ParameterSpecView {
                path: "voice",
                label: "Voice",
                group: Some("Pedal"),
                kind: ParameterKindView::Enum {
                    default: Some("1030"),
                    choices: seq![
                        EnumChoice { value: "130", label: "1:30" },
                        EnumChoice { value: "1030", label: "10:30" },
                        EnumChoice { value: "1200", label: "12:00" },
                    ],
                },
            },
            ParameterSpecView {
                path: "gain",
                label: "Gain",
                group: Some("Pedal"),
                kind: ParameterKindView::Enum {
                    default: Some("700"),
                    choices: seq![
                        EnumChoice { value: "130", label: "1:30" },
                        EnumChoice { value: "300", label: "3:00" },
                        EnumChoice { value: "500", label: "5:00" },
                        EnumChoice { value: "700", label: "7:00" },
                        EnumChoice { value: "900", label: "9:00" },
                        EnumChoice { value: "1030", label: "10:30" },
                        EnumChoice { value: "1200", label: "12:00" },
                        EnumChoice { value: "1300", label: "1:00" },
                    ],
                },
            },
        ]),
    }
}

/// The parameters of the model.
pub fn model_schema() -> (schema: ModelSchema)
    ensures
        schema@ == spec_model_schema(),
{
    let parameters = vec![
        enum_parameter(
            "voice",
            "Voice",
            Some("Pedal"),
            Some("1030"),
            vec![
                choice("130", "1:30"),
                choice("1030", "10:30"),
                choice("1200", "12:00"),
            ],
        ),
        enum_parameter(
            "gain",
            "Gain",
            Some("Pedal"),
            Some("700"),
            vec![
                choice("130", "1:30"),
                choice("300", "3:00"),
                choice("500", "5:00"),
                choice("700", "7:00"),
                choice("900", "9:00"),
                choice("1030", "10:30"),
                choice("1200", "12:00"),
                choice("1300", "1:00"),
            ],
        ),
    ];
    assert(parameters_view(parameters@) =~= spec_model_schema().parameters.unwrap());
    ModelSchema {
        effect_type: EffectType::Gain,
        model: MODEL_ID,
        display_name: DISPLAY_NAME,
        audio_mode: None,
        parameters: Some(parameters),
    }
}

/// The positions, in the schema, of the parameters that select a capture.
pub open spec fn key_params() -> Seq<int> {
    seq![0, 1]
}

pub open spec fn spec_captures() -> Seq<CaptureView> {
    seq![
        CaptureView { keys: seq!["130", "300"], model_path: "pedals/hermida_zendrive/zendrive_vol100_tone130_voice130_gain300.nam" },
        CaptureView { keys: seq!["130", "500"], model_path: "pedals/hermida_zendrive/zendrive_vol100_tone130_voice130_gain500.nam" },
        CaptureView { keys: seq!["130", "700"], model_path: "pedals/hermida_zendrive/zendrive_vol100_tone130_voice130_gain700.nam" },
        CaptureView { keys: seq!["130", "900"], model_path: "pedals/hermida_zendrive/zendrive_vol100_tone130_voice130_gain900.nam" },
        CaptureView { keys: seq!["130", "1030"], model_path: "pedals/hermida_zendrive/zendrive_vol100_tone130_voice130_gain1030.nam" },
        CaptureView { keys: seq!["130", "1200"], model_path: "pedals/hermida_zendrive/zendrive_vol100_tone130_voice130_gain1200.nam" },
        CaptureView { keys: seq!["130", "1300"], model_path: "pedals/hermida_zendrive/zendrive_vol100_tone130_voice130_gain1300.nam" },
        CaptureView { keys: seq!["1030", "130"], model_path: "pedals/hermida_zendrive/zendrive_vol100_tone130_voice1030_gain130.nam" },
        CaptureView { keys: seq!["1030", "300"], model_path: "pedals/hermida_zendrive/zendrive_vol100_tone130_voice1030_gain300.nam" },
        CaptureView { keys: seq!["1030", "500"], model_path: "pedals/hermida_zendrive/zendrive_vol100_tone130_voice1030_gain500.nam" },
        CaptureView { keys: seq!["1030", "700"], model_path: "pedals/hermida_zendrive/zendrive_vol100_tone130_voice1030_gain700.nam" },
        CaptureView { keys: seq!["1030", "900"], model_path: "pedals/hermida_zendrive/zendrive_vol100_tone130_voice1030_gain900.nam" },
        CaptureView { keys: seq!["1030", "1030"], model_path: "pedals/hermida_zendrive/zendrive_vol100_tone130_voice1030_gain1030.nam" },
        CaptureView { keys: seq!["1030", "1200"], model_path: "pedals/hermida_zendrive/zendrive_vol100_tone130_voice1030_gain1200.nam" },
        CaptureView { keys: seq!["1200", "130"], model_path: "pedals/hermida_zendrive/zendrive_vol100_tone130_voice1200_gain130.nam" },
        CaptureView { keys: seq!["1200", "300"], model_path: "pedals/hermida_zendrive/zendrive_vol100_tone130_voice1200_gain300.nam" },
        CaptureView { keys: seq!["1200", "500"], model_path: "pedals/hermida_zendrive/zendrive_vol100_tone130_voice1200_gain500.nam" },
        CaptureView { keys: seq!["1200", "700"], model_path: "pedals/hermida_zendrive/zendrive_vol100_tone130_voice1200_gain700.nam" },
        CaptureView { keys: seq!["1200", "900"], model_path: "pedals/hermida_zendrive/zendrive_vol100_tone130_voice1200_gain900.nam" },
        CaptureView { keys: seq!["1200", "1030"], model_path: "pedals/hermida_zendrive/zendrive_vol100_tone130_voice1200_gain1030.nam" },
        CaptureView { keys: seq!["1200", "1200"], model_path: "pedals/hermida_zendrive/zendrive_vol100_tone130_voice1200_gain1200.nam" },
    ]
}

/// The captures of the pedal, each with its (voice, gain) setting.
pub fn captures() -> (table: Vec<Capture>)
    ensures
        table_view(table@) == spec_captures(),
{
    let table = vec![
        Capture::two("130", "300", "pedals/hermida_zendrive/zendrive_vol100_tone130_voice130_gain300.nam"),
        Capture::two("130", "500", "pedals/hermida_zendrive/zendrive_vol100_tone130_voice130_gain500.nam"),
        Capture::two("130", "700", "pedals/hermida_zendrive/zendrive_vol100_tone130_voice130_gain700.nam"),
        Capture::two("130", "900", "pedals/hermida_zendrive/zendrive_vol100_tone130_voice130_gain900.nam"),
        Capture::two("130", "1030", "pedals/hermida_zendrive/zendrive_vol100_tone130_voice130_gain1030.nam"),
        Capture::two("130", "1200", "pedals/hermida_zendrive/zendrive_vol100_tone130_voice130_gain1200.nam"),
        Capture::two("130", "1300", "pedals/hermida_zendrive/zendrive_vol100_tone130_voice130_gain1300.nam"),
        Capture::two("1030", "130", "pedals/hermida_zendrive/zendrive_vol100_tone130_voice1030_gain130.nam"),
        Capture::two("1030", "300", "pedals/hermida_zendrive/zendrive_vol100_tone130_voice1030_gain300.nam"),
        Capture::two("1030", "500", "pedals/hermida_zendrive/zendrive_vol100_tone130_voice1030_gain500.nam"),
        Capture::two("1030", "700", "pedals/hermida_zendrive/zendrive_vol100_tone130_voice1030_gain700.nam"),
        Capture::two("1030", "900", "pedals/hermida_zendrive/zendrive_vol100_tone130_voice1030_gain900.nam"),
        Capture::two("1030", "1030", "pedals/hermida_zendrive/zendrive_vol100_tone130_voice1030_gain1030.nam"),
        Capture::two("1030", "1200", "pedals/hermida_zendrive/zendrive_vol100_tone130_voice1030_gain1200.nam"),
        Capture::two("1200", "130", "pedals/hermida_zendrive/zendrive_vol100_tone130_voice1200_gain130.nam"),
        Capture::two("1200", "300", "pedals/hermida_zendrive/zendrive_vol100_tone130_voice1200_gain300.nam"),
        Capture::two("1200", "500", "pedals/hermida_zendrive/zendrive_vol100_tone130_voice1200_gain500.nam"),
        Capture::two("1200", "700", "pedals/hermida_zendrive/zendrive_vol100_tone130_voice1200_gain700.nam"),
        Capture::two("1200", "900", "pedals/hermida_zendrive/zendrive_vol100_tone130_voice1200_gain900.nam"),
        Capture::two("1200", "1030", "pedals/hermida_zendrive/zendrive_vol100_tone130_voice1200_gain1030.nam"),
        Capture::two("1200", "1200", "pedals/hermida_zendrive/zendrive_vol100_tone130_voice1200_gain1200.nam"),
    ];
    assert(table_view(table@) =~= spec_captures());
    table
}

/// What the model reports for a setting at which no capture was recorded.
pub open spec fn unsupported_message(voice: Seq<char>, gain: Seq<char>) -> Seq<char> {
    concat(seq!["gain '"@, MODEL_ID@, "' has no capture for voice="@, voice, " gain="@, gain])
}

/// The index of the capture that (voice, gain) selects.
pub open spec fn selection(voice: Seq<char>, gain: Seq<char>) -> Option<int> {
    first_selected(spec_captures(), seq![voice, gain])
}

fn unsupported(voice: &str, gain: &str) -> (e: GainError)
    ensures
        e matches GainError::UnsupportedSetting(m) && m@ == unsupported_message(voice@, gain@),
{
    let parts = vec!["gain '", MODEL_ID, "' has no capture for voice=", voice, " gain=", gain];
    let m = join(&parts);
    assert(texts(parts@) =~= seq!["gain '"@, MODEL_ID@, "' has no capture for voice="@, voice@, " gain="@, gain@]);
    GainError::UnsupportedSetting(m)
}

/// The capture recorded at (voice, gain).
pub fn resolve_capture(voice: &str, gain: &str) -> (selected: Result<&'static str, GainError>)
    ensures
        match selection(voice@, gain@) {
            Some(i) => selected matches Ok(path) && path == spec_captures()[i].model_path,
            None => selected matches Err(GainError::UnsupportedSetting(m)) && m@ == unsupported_message(voice@, gain@),
        },
{
    let table = captures();
    let request = vec![voice, gain];
    assert(texts(request@) =~= seq![voice@, gain@]);
    match find_capture(&table, &request) {
        Some(i) => {
            proof {
                lemma_first_selected(spec_captures(), seq![voice@, gain@]);
            }
            Ok(table[i].model_path)
        },
        None => Err(unsupported(voice, gain)),
    }
}

/// Accepts (voice, gain) exactly where a capture was recorded there.
pub fn validate_params(voice: &str, gain: &str) -> (checked: Result<(), GainError>)
    ensures
        match selection(voice@, gain@) {
            Some(i) => checked is Ok,
            None => checked matches Err(GainError::UnsupportedSetting(m)) && m@ == unsupported_message(voice@, gain@),
        },
{
    match resolve_capture(voice, gain) {
        Ok(_) => Ok(()),
        Err(e) => Err(e),
    }
}

/// Names the capture file that (voice, gain) selects.
pub fn asset_summary(voice: &str, gain: &str) -> (summary: Result<String, GainError>)
    ensures
        match selection(voice@, gain@) {
            Some(i) => summary matches Ok(s) && s@ == asset_text(spec_captures()[i].model_path@),
            None => summary matches Err(GainError::UnsupportedSetting(m)) && m@ == unsupported_message(voice@, gain@),
        },
{
    match resolve_capture(voice, gain) {
        Ok(c) => {
            let parts = vec!["model='", c, "'"];
            assert(texts(parts@) =~= seq!["model='"@, c@, "'"@]);
            Ok(join(&parts))
        },
        Err(e) => Err(e),
    }
}

pub open spec fn spec_model_definition() -> ModelDefinitionView {
    ModelDefinitionView {
        id: MODEL_ID,
        display_name: DISPLAY_NAME,
        brand: BRAND,
        backend_kind: BackendKind::Nam,
        supported_instruments: Instruments::GuitarBass,
        knob_layout: seq![],
    }
}

/// What the registry lists for this model.
pub fn model_definition() -> (d: ModelDefinition)
    ensures
        d@ == spec_model_definition(),
{
    let knob_layout: Vec<KnobLayoutEntry> = Vec::new();
    let d = ModelDefinition {
        id: MODEL_ID,
        display_name: DISPLAY_NAME,
        brand: BRAND,
        backend_kind: BackendKind::Nam,
        supported_instruments: Instruments::GuitarBass,
        knob_layout,
    };
    assert(d@.knob_layout =~= spec_model_definition().knob_layout);
    d
}

/// The schema is sound: every parameter is, and no two share a path.
pub proof fn lemma_schema_well_formed()
    ensures
        schema_well_formed(spec_model_schema()),
{
    reveal_strlit("voice");
    reveal_strlit("gain");
    reveal_strlit("130");
    reveal_strlit("1030");
    reveal_strlit("1200");
    reveal_strlit("300");
    reveal_strlit("500");
    reveal_strlit("700");
    reveal_strlit("900");
    reveal_strlit("1300");
    let ps = spec_model_schema().parameters.unwrap();
    assert forall|i: int| 0 <= i < ps.len() implies parameter_well_formed(#[trigger] ps[i]) by {
        if ps[i].kind is Enum {
            let vs = choice_values(ps[i].kind->Enum_choices);
            assert forall|a: int, b: int| 0 <= a < b < vs.len() implies vs[a] != vs[b] by {
                if vs[a] == vs[b] {
                    assert(vs[a].len() == vs[b].len());
                    assert(vs[a][0] == vs[b][0]);
                    assert(vs[a][1] == vs[b][1]);
                }
            }
        }
        if i == 0 {
            assert(ps[0].kind->Enum_choices[1].value@ == "1030"@);
        } else if i == 1 {
            assert(ps[1].kind->Enum_choices[3].value@ == "700"@);
        }
    }
    let paths = parameter_paths(ps);
    assert forall|a: int, b: int| 0 <= a < b < paths.len() implies paths[a] != paths[b] by {
        if paths[a] == paths[b] {
            assert(paths[a].len() == paths[b].len());
        }
    }
}

/// Each capture is recorded at choices the schema offers.
pub proof fn lemma_captures_follow_schema()
    ensures
        captures_follow_schema(spec_model_schema(), key_params(), spec_captures()),
{
    let s = spec_model_schema();
    let t = spec_captures();
    assert forall|i: int, k: int| 0 <= i < t.len() && 0 <= k < key_params().len() implies {
        &&& #[trigger] t[i].keys.len() == key_params().len()
        &&& is_choice(choices_at(s, key_params()[k]), #[trigger] t[i].keys[k]@)
    } by {
        let cs = choices_at(s, key_params()[k]);
        if k == 0 {
            if t[i].keys[0] == "130" {
                assert(cs[0].value@ == t[i].keys[k]@);
            } else if t[i].keys[0] == "1030" {
                assert(cs[1].value@ == t[i].keys[k]@);
            } else {
                assert(cs[2].value@ == t[i].keys[k]@);
            }
        } else if k == 1 {
            if t[i].keys[1] == "130" {
                assert(cs[0].value@ == t[i].keys[k]@);
            } else if t[i].keys[1] == "300" {
                assert(cs[1].value@ == t[i].keys[k]@);
            } else if t[i].keys[1] == "500" {
                assert(cs[2].value@ == t[i].keys[k]@);
            } else if t[i].keys[1] == "700" {
                assert(cs[3].value@ == t[i].keys[k]@);
            } else if t[i].keys[1] == "900" {
                assert(cs[4].value@ == t[i].keys[k]@);
            } else if t[i].keys[1] == "1030" {
                assert(cs[5].value@ == t[i].keys[k]@);
            } else if t[i].keys[1] == "1200" {
                assert(cs[6].value@ == t[i].keys[k]@);
            } else {
                assert(cs[7].value@ == t[i].keys[k]@);
            }
        }
    }
}

/// No two captures share a setting.
pub proof fn lemma_captures_distinct()
    ensures
        captures_distinct(spec_captures()),
{
    reveal_strlit("130");
    reveal_strlit("300");
    reveal_strlit("500");
    reveal_strlit("700");
    reveal_strlit("900");
    reveal_strlit("1030");
    reveal_strlit("1200");
    reveal_strlit("1300");
    let t = spec_captures();
    assert forall|a: int, b: int| 0 <= a < b < t.len() implies str_texts(t[a].keys) != str_texts(t[b].keys) by {
        let x = str_texts(t[a].keys);
        let y = str_texts(t[b].keys);
        if x == y {
            assert(x[0].len() == y[0].len());
            assert(x[0][0] == y[0][0]);
            assert(x[0][1] == y[0][1]);
            assert(x[1].len() == y[1].len());
            assert(x[1][0] == y[1][0]);
            assert(x[1][1] == y[1][1]);
        }
    }
}

/// The settings the schema offers at which no capture was recorded.
pub open spec fn unrecorded_setting(r: Seq<Seq<char>>) -> bool {
    ||| r == seq!["130"@, "130"@]
    ||| r == seq!["1030"@, "1300"@]
    ||| r == seq!["1200"@, "1300"@]
}

/// Every setting the schema offers selects a capture but the unrecorded
/// ones, which select none; the defaults select one.
pub proof fn lemma_every_recorded_setting_selects()
    ensures
        forall|r: Seq<Seq<char>>| setting_of_choices(spec_model_schema(), key_params(), r) ==>
            ((#[trigger] first_selected(spec_captures(), r)) is Some <==> !unrecorded_setting(r)),
        defaults_present(spec_model_schema(), key_params()),
        first_selected(spec_captures(), default_setting(spec_model_schema(), key_params())) is Some,
{
    reveal_strlit("130");
    reveal_strlit("1030");
    reveal_strlit("1200");
    reveal_strlit("300");
    reveal_strlit("500");
    reveal_strlit("700");
    reveal_strlit("900");
    reveal_strlit("1300");
    let s = spec_model_schema();
    let t = spec_captures();
    assert forall|r: Seq<Seq<char>>| setting_of_choices(s, key_params(), r) implies
        ((#[trigger] first_selected(t, r)) is Some <==> !unrecorded_setting(r)) by {
        let c0 = choices_at(s, 0);
        let i0 = choose|i: int| 0 <= i < c0.len() && c0[i].value@ == r[0];
        let c1 = choices_at(s, 1);
        let i1 = choose|i: int| 0 <= i < c1.len() && c1[i].value@ == r[1];
        if i0 == 0 && i1 == 0 {
            assert(r =~= seq!["130"@, "130"@]);
            lemma_first_selected(t, r);
            assert forall|i: int| 0 <= i < t.len() implies !setting_matches(#[trigger] t[i].keys, r) by {
                if i == 0 {
                    assert("300"@[0] != "130"@[0]);
                    assert(t[i].keys[1]@ != r[1]);
                } else if i == 1 {
                    assert("500"@[0] != "130"@[0]);
                    assert(t[i].keys[1]@ != r[1]);
                } else if i == 2 {
                    assert("700"@[0] != "130"@[0]);
                    assert(t[i].keys[1]@ != r[1]);
                } else if i == 3 {
                    assert("900"@[0] != "130"@[0]);
                    assert(t[i].keys[1]@ != r[1]);
                } else if i == 4 {
                    assert("1030"@.len() != "130"@.len());
                    assert(t[i].keys[1]@ != r[1]);
                } else if i == 5 {
                    assert("1200"@.len() != "130"@.len());
                    assert(t[i].keys[1]@ != r[1]);
                } else if i == 6 {
                    assert("1300"@.len() != "130"@.len());
                    assert(t[i].keys[1]@ != r[1]);
                } else if i == 7 {
                    assert("1030"@.len() != "130"@.len());
                    assert(t[i].keys[0]@ != r[0]);
                } else if i == 8 {
                    assert("1030"@.len() != "130"@.len());
                    assert(t[i].keys[0]@ != r[0]);
                } else if i == 9 {
                    assert("1030"@.len() != "130"@.len());
                    assert(t[i].keys[0]@ != r[0]);
                } else if i == 10 {
                    assert("1030"@.len() != "130"@.len());
                    assert(t[i].keys[0]@ != r[0]);
                } else if i == 11 {
                    assert("1030"@.len() != "130"@.len());
                    assert(t[i].keys[0]@ != r[0]);
                } else if i == 12 {
                    assert("1030"@.len() != "130"@.len());
                    assert(t[i].keys[0]@ != r[0]);
                } else if i == 13 {
                    assert("1030"@.len() != "130"@.len());
                    assert(t[i].keys[0]@ != r[0]);
                } else if i == 14 {
                    assert("1200"@.len() != "130"@.len());
                    assert(t[i].keys[0]@ != r[0]);
                } else if i == 15 {
                    assert("1200"@.len() != "130"@.len());
                    assert(t[i].keys[0]@ != r[0]);
                } else if i == 16 {
                    assert("1200"@.len() != "130"@.len());
                    assert(t[i].keys[0]@ != r[0]);
                } else if i == 17 {
                    assert("1200"@.len() != "130"@.len());
                    assert(t[i].keys[0]@ != r[0]);
                } else if i == 18 {
                    assert("1200"@.len() != "130"@.len());
                    assert(t[i].keys[0]@ != r[0]);
                } else if i == 19 {
                    assert("1200"@.len() != "130"@.len());
                    assert(t[i].keys[0]@ != r[0]);
                } else if i == 20 {
                    assert("1200"@.len() != "130"@.len());
                    assert(t[i].keys[0]@ != r[0]);
                }
            }
        } else if i0 == 0 && i1 == 1 {
            assert(r =~= seq!["130"@, "300"@]);
            lemma_selected_at(t, r, 0);
            assert("300"@[0] != "130"@[0]);
            assert("130"@.len() != "1030"@.len());
            assert("130"@.len() != "1200"@.len());
        } else if i0 == 0 && i1 == 2 {
            assert(r =~= seq!["130"@, "500"@]);
            lemma_selected_at(t, r, 1);
            assert("500"@[0] != "130"@[0]);
            assert("130"@.len() != "1030"@.len());
            assert("130"@.len() != "1200"@.len());
        } else if i0 == 0 && i1 == 3 {
            assert(r =~= seq!["130"@, "700"@]);
            lemma_selected_at(t, r, 2);
            assert("700"@[0] != "130"@[0]);
            assert("130"@.len() != "1030"@.len());
            assert("130"@.len() != "1200"@.len());
        } else if i0 == 0 && i1 == 4 {
            assert(r =~= seq!["130"@, "900"@]);
            lemma_selected_at(t, r, 3);
            assert("900"@[0] != "130"@[0]);
            assert("130"@.len() != "1030"@.len());
            assert("130"@.len() != "1200"@.len());
        } else if i0 == 0 && i1 == 5 {
            assert(r =~= seq!["130"@, "1030"@]);
            lemma_selected_at(t, r, 4);
            assert("1030"@.len() != "130"@.len());
            assert("130"@.len() != "1030"@.len());
            assert("130"@.len() != "1200"@.len());
        } else if i0 == 0 && i1 == 6 {
            assert(r =~= seq!["130"@, "1200"@]);
            lemma_selected_at(t, r, 5);
            assert("1200"@.len() != "130"@.len());
            assert("130"@.len() != "1030"@.len());
            assert("130"@.len() != "1200"@.len());
        } else if i0 == 0 && i1 == 7 {
            assert(r =~= seq!["130"@, "1300"@]);
            lemma_selected_at(t, r, 6);
            assert("1300"@.len() != "130"@.len());
            assert("130"@.len() != "1030"@.len());
            assert("130"@.len() != "1200"@.len());
        } else if i0 == 1 && i1 == 0 {
            assert(r =~= seq!["1030"@, "130"@]);
            lemma_selected_at(t, r, 7);
            assert("1030"@.len() != "130"@.len());
            assert("130"@.len() != "1300"@.len());
            assert("1030"@[1] != "1200"@[1]);
        } else if i0 == 1 && i1 == 1 {
            assert(r =~= seq!["1030"@, "300"@]);
            lemma_selected_at(t, r, 8);
            assert("1030"@.len() != "130"@.len());
            assert("300"@.len() != "1300"@.len());
            assert("1030"@[1] != "1200"@[1]);
        } else if i0 == 1 && i1 == 2 {
            assert(r =~= seq!["1030"@, "500"@]);
            lemma_selected_at(t, r, 9);
            assert("1030"@.len() != "130"@.len());
            assert("500"@.len() != "1300"@.len());
            assert("1030"@[1] != "1200"@[1]);
        } else if i0 == 1 && i1 == 3 {
            assert(r =~= seq!["1030"@, "700"@]);
            lemma_selected_at(t, r, 10);
            assert("1030"@.len() != "130"@.len());
            assert("700"@.len() != "1300"@.len());
            assert("1030"@[1] != "1200"@[1]);
        } else if i0 == 1 && i1 == 4 {
            assert(r =~= seq!["1030"@, "900"@]);
            lemma_selected_at(t, r, 11);
            assert("1030"@.len() != "130"@.len());
            assert("900"@.len() != "1300"@.len());
            assert("1030"@[1] != "1200"@[1]);
        } else if i0 == 1 && i1 == 5 {
            assert(r =~= seq!["1030"@, "1030"@]);
            lemma_selected_at(t, r, 12);
            assert("1030"@.len() != "130"@.len());
            assert("1030"@[1] != "1300"@[1]);
            assert("1030"@[1] != "1200"@[1]);
        } else if i0 == 1 && i1 == 6 {
            assert(r =~= seq!["1030"@, "1200"@]);
            lemma_selected_at(t, r, 13);
            assert("1030"@.len() != "130"@.len());
            assert("1200"@[1] != "1300"@[1]);
            assert("1030"@[1] != "1200"@[1]);
        } else if i0 == 1 && i1 == 7 {
            assert(r =~= seq!["1030"@, "1300"@]);
            lemma_first_selected(t, r);
            assert forall|i: int| 0 <= i < t.len() implies !setting_matches(#[trigger] t[i].keys, r) by {
                if i == 0 {
                    assert("130"@.len() != "1030"@.len());
                    assert(t[i].keys[0]@ != r[0]);
                } else if i == 1 {
                    assert("130"@.len() != "1030"@.len());
                    assert(t[i].keys[0]@ != r[0]);
                } else if i == 2 {
                    assert("130"@.len() != "1030"@.len());
                    assert(t[i].keys[0]@ != r[0]);
                } else if i == 3 {
                    assert("130"@.len() != "1030"@.len());
                    assert(t[i].keys[0]@ != r[0]);
                } else if i == 4 {
                    assert("130"@.len() != "1030"@.len());
                    assert(t[i].keys[0]@ != r[0]);
                } else if i == 5 {
                    assert("130"@.len() != "1030"@.len());
                    assert(t[i].keys[0]@ != r[0]);
                } else if i == 6 {
                    assert("130"@.len() != "1030"@.len());
                    assert(t[i].keys[0]@ != r[0]);
                } else if i == 7 {
                    assert("130"@.len() != "1300"@.len());
                    assert(t[i].keys[1]@ != r[1]);
                } else if i == 8 {
                    assert("300"@.len() != "1300"@.len());
                    assert(t[i].keys[1]@ != r[1]);
                } else if i == 9 {
                    assert("500"@.len() != "1300"@.len());
                    assert(t[i].keys[1]@ != r[1]);
                } else if i == 10 {
                    assert("700"@.len() != "1300"@.len());
                    assert(t[i].keys[1]@ != r[1]);
                } else if i == 11 {
                    assert("900"@.len() != "1300"@.len());
                    assert(t[i].keys[1]@ != r[1]);
                } else if i == 12 {
                    assert("1030"@[1] != "1300"@[1]);
                    assert(t[i].keys[1]@ != r[1]);
                } else if i == 13 {
                    assert("1200"@[1] != "1300"@[1]);
                    assert(t[i].keys[1]@ != r[1]);
                } else if i == 14 {
                    assert("1200"@[1] != "1030"@[1]);
                    assert(t[i].keys[0]@ != r[0]);
                } else if i == 15 {
                    assert("1200"@[1] != "1030"@[1]);
                    assert(t[i].keys[0]@ != r[0]);
                } else if i == 16 {
                    assert("1200"@[1] != "1030"@[1]);
                    assert(t[i].keys[0]@ != r[0]);
                } else if i == 17 {
                    assert("1200"@[1] != "1030"@[1]);
                    assert(t[i].keys[0]@ != r[0]);
                } else if i == 18 {
                    assert("1200"@[1] != "1030"@[1]);
                    assert(t[i].keys[0]@ != r[0]);
                } else if i == 19 {
                    assert("1200"@[1] != "1030"@[1]);
                    assert(t[i].keys[0]@ != r[0]);
                } else if i == 20 {
                    assert("1200"@[1] != "1030"@[1]);
                    assert(t[i].keys[0]@ != r[0]);
                }
            }
        } else if i0 == 2 && i1 == 0 {
            assert(r =~= seq!["1200"@, "130"@]);
            lemma_selected_at(t, r, 14);
            assert("1200"@.len() != "130"@.len());
            assert("1200"@[1] != "1030"@[1]);
            assert("130"@.len() != "1300"@.len());
        } else if i0 == 2 && i1 == 1 {
            assert(r =~= seq!["1200"@, "300"@]);
            lemma_selected_at(t, r, 15);
            assert("1200"@.len() != "130"@.len());
            assert("1200"@[1] != "1030"@[1]);
            assert("300"@.len() != "1300"@.len());
        } else if i0 == 2 && i1 == 2 {
            assert(r =~= seq!["1200"@, "500"@]);
            lemma_selected_at(t, r, 16);
            assert("1200"@.len() != "130"@.len());
            assert("1200"@[1] != "1030"@[1]);
            assert("500"@.len() != "1300"@.len());
        } else if i0 == 2 && i1 == 3 {
            assert(r =~= seq!["1200"@, "700"@]);
            lemma_selected_at(t, r, 17);
            assert("1200"@.len() != "130"@.len());
            assert("1200"@[1] != "1030"@[1]);
            assert("700"@.len() != "1300"@.len());
        } else if i0 == 2 && i1 == 4 {
            assert(r =~= seq!["1200"@, "900"@]);
            lemma_selected_at(t, r, 18);
            assert("1200"@.len() != "130"@.len());
            assert("1200"@[1] != "1030"@[1]);
            assert("900"@.len() != "1300"@.len());
        } else if i0 == 2 && i1 == 5 {
            assert(r =~= seq!["1200"@, "1030"@]);
            lemma_selected_at(t, r, 19);
            assert("1200"@.len() != "130"@.len());
            assert("1200"@[1] != "1030"@[1]);
            assert("1030"@[1] != "1300"@[1]);
        } else if i0 == 2 && i1 == 6 {
            assert(r =~= seq!["1200"@, "1200"@]);
            lemma_selected_at(t, r, 20);
            assert("1200"@.len() != "130"@.len());
            assert("1200"@[1] != "1030"@[1]);
            assert("1200"@[1] != "1300"@[1]);
        } else if i0 == 2 && i1 == 7 {
            assert(r =~= seq!["1200"@, "1300"@]);
            lemma_first_selected(t, r);
            assert forall|i: int| 0 <= i < t.len() implies !setting_matches(#[trigger] t[i].keys, r) by {
                if i == 0 {
                    assert("130"@.len() != "1200"@.len());
                    assert(t[i].keys[0]@ != r[0]);
                } else if i == 1 {
                    assert("130"@.len() != "1200"@.len());
                    assert(t[i].keys[0]@ != r[0]);
                } else if i == 2 {
                    assert("130"@.len() != "1200"@.len());
                    assert(t[i].keys[0]@ != r[0]);
                } else if i == 3 {
                    assert("130"@.len() != "1200"@.len());
                    assert(t[i].keys[0]@ != r[0]);
                } else if i == 4 {
                    assert("130"@.len() != "1200"@.len());
                    assert(t[i].keys[0]@ != r[0]);
                } else if i == 5 {
                    assert("130"@.len() != "1200"@.len());
                    assert(t[i].keys[0]@ != r[0]);
                } else if i == 6 {
                    assert("130"@.len() != "1200"@.len());
                    assert(t[i].keys[0]@ != r[0]);
                } else if i == 7 {
                    assert("1030"@[1] != "1200"@[1]);
                    assert(t[i].keys[0]@ != r[0]);
                } else if i == 8 {
                    assert("1030"@[1] != "1200"@[1]);
                    assert(t[i].keys[0]@ != r[0]);
                } else if i == 9 {
                    assert("1030"@[1] != "1200"@[1]);
                    assert(t[i].keys[0]@ != r[0]);
                } else if i == 10 {
                    assert("1030"@[1] != "1200"@[1]);
                    assert(t[i].keys[0]@ != r[0]);
                } else if i == 11 {
                    assert("1030"@[1] != "1200"@[1]);
                    assert(t[i].keys[0]@ != r[0]);
                } else if i == 12 {
                    assert("1030"@[1] != "1200"@[1]);
                    assert(t[i].keys[0]@ != r[0]);
                } else if i == 13 {
                    assert("1030"@[1] != "1200"@[1]);
                    assert(t[i].keys[0]@ != r[0]);
                } else if i == 14 {
                    assert("130"@.len() != "1300"@.len());
                    assert(t[i].keys[1]@ != r[1]);
                } else if i == 15 {
                    assert("300"@.len() != "1300"@.len());
                    assert(t[i].keys[1]@ != r[1]);
                } else if i == 16 {
                    assert("500"@.len() != "1300"@.len());
                    assert(t[i].keys[1]@ != r[1]);
                } else if i == 17 {
                    assert("700"@.len() != "1300"@.len());
                    assert(t[i].keys[1]@ != r[1]);
                } else if i == 18 {
                    assert("900"@.len() != "1300"@.len());
                    assert(t[i].keys[1]@ != r[1]);
                } else if i == 19 {
                    assert("1030"@[1] != "1300"@[1]);
                    assert(t[i].keys[1]@ != r[1]);
                } else if i == 20 {
                    assert("1200"@[1] != "1300"@[1]);
                    assert(t[i].keys[1]@ != r[1]);
                }
            }
        }
    }
    let dflt = default_setting(s, key_params());
    assert(dflt =~= seq!["1030"@, "700"@]);
    lemma_selected_at(t, dflt, 10);
}

/// Every capture names a file that writes each value of its setting, and
/// no two captures name the same file.
pub proof fn lemma_capture_files()
    ensures
        files_name_settings(spec_captures()),
        files_distinct(spec_captures()),
{
    reveal_strlit("pedals/hermida_zendrive/zendrive_vol100_tone130_voice130_gain300.nam");
    reveal_strlit("pedals/hermida_zendrive/zendrive_vol100_tone130_voice130_gain500.nam");
    reveal_strlit("pedals/hermida_zendrive/zendrive_vol100_tone130_voice130_gain700.nam");
    reveal_strlit("pedals/hermida_zendrive/zendrive_vol100_tone130_voice130_gain900.nam");
    reveal_strlit("pedals/hermida_zendrive/zendrive_vol100_tone130_voice130_gain1030.nam");
    reveal_strlit("pedals/hermida_zendrive/zendrive_vol100_tone130_voice130_gain1200.nam");
    reveal_strlit("pedals/hermida_zendrive/zendrive_vol100_tone130_voice130_gain1300.nam");
    reveal_strlit("pedals/hermida_zendrive/zendrive_vol100_tone130_voice1030_gain130.nam");
    reveal_strlit("pedals/hermida_zendrive/zendrive_vol100_tone130_voice1030_gain300.nam");
    reveal_strlit("pedals/hermida_zendrive/zendrive_vol100_tone130_voice1030_gain500.nam");
    reveal_strlit("pedals/hermida_zendrive/zendrive_vol100_tone130_voice1030_gain700.nam");
    reveal_strlit("pedals/hermida_zendrive/zendrive_vol100_tone130_voice1030_gain900.nam");
    reveal_strlit("pedals/hermida_zendrive/zendrive_vol100_tone130_voice1030_gain1030.nam");
    reveal_strlit("pedals/hermida_zendrive/zendrive_vol100_tone130_voice1030_gain1200.nam");
    reveal_strlit("pedals/hermida_zendrive/zendrive_vol100_tone130_voice1200_gain130.nam");
    reveal_strlit("pedals/hermida_zendrive/zendrive_vol100_tone130_voice1200_gain300.nam");
    reveal_strlit("pedals/hermida_zendrive/zendrive_vol100_tone130_voice1200_gain500.nam");
    reveal_strlit("pedals/hermida_zendrive/zendrive_vol100_tone130_voice1200_gain700.nam");
    reveal_strlit("pedals/hermida_zendrive/zendrive_vol100_tone130_voice1200_gain900.nam");
    reveal_strlit("pedals/hermida_zendrive/zendrive_vol100_tone130_voice1200_gain1030.nam");
    reveal_strlit("pedals/hermida_zendrive/zendrive_vol100_tone130_voice1200_gain1200.nam");
    reveal_strlit("130");
    reveal_strlit("300");
    reveal_strlit("500");
    reveal_strlit("700");
    reveal_strlit("900");
    reveal_strlit("1030");
    reveal_strlit("1200");
    reveal_strlit("1300");
    let t = spec_captures();
    assert forall|i: int, k: int| 0 <= i < t.len() && 0 <= k < t[i].keys.len() implies
        names_value(#[trigger] t[i].model_path@, #[trigger] t[i].keys[k]@) by {
        let path = t[i].model_path@;
        let key = t[i].keys[k]@;
        if i == 0 {
            if k == 0 {
                assert(path.subrange(44int, 44int + key.len()) =~= key);
            } else if k == 1 {
                assert(path.subrange(61int, 61int + key.len()) =~= key);
            }
        } else if i == 1 {
            if k == 0 {
                assert(path.subrange(44int, 44int + key.len()) =~= key);
            } else if k == 1 {
                assert(path.subrange(61int, 61int + key.len()) =~= key);
            }
        } else if i == 2 {
            if k == 0 {
                assert(path.subrange(44int, 44int + key.len()) =~= key);
            } else if k == 1 {
                assert(path.subrange(61int, 61int + key.len()) =~= key);
            }
        } else if i == 3 {
            if k == 0 {
                assert(path.subrange(44int, 44int + key.len()) =~= key);
            } else if k == 1 {
                assert(path.subrange(61int, 61int + key.len()) =~= key);
            }
        } else if i == 4 {
            if k == 0 {
                assert(path.subrange(44int, 44int + key.len()) =~= key);
            } else if k == 1 {
                assert(path.subrange(61int, 61int + key.len()) =~= key);
            }
        } else if i == 5 {
            if k == 0 {
                assert(path.subrange(44int, 44int + key.len()) =~= key);
            } else if k == 1 {
                assert(path.subrange(61int, 61int + key.len()) =~= key);
            }
        } else if i == 6 {
            if k == 0 {
                assert(path.subrange(44int, 44int + key.len()) =~= key);
            } else if k == 1 {
                assert(path.subrange(61int, 61int + key.len()) =~= key);
            }
        } else if i == 7 {
            if k == 0 {
                assert(path.subrange(53int, 53int + key.len()) =~= key);
            } else if k == 1 {
                assert(path.subrange(44int, 44int + key.len()) =~= key);
            }
        } else if i == 8 {
            if k == 0 {
                assert(path.subrange(53int, 53int + key.len()) =~= key);
            } else if k == 1 {
                assert(path.subrange(62int, 62int + key.len()) =~= key);
            }
        } else if i == 9 {
            if k == 0 {
                assert(path.subrange(53int, 53int + key.len()) =~= key);
            } else if k == 1 {
                assert(path.subrange(62int, 62int + key.len()) =~= key);
            }
        } else if i == 10 {
            if k == 0 {
                assert(path.subrange(53int, 53int + key.len()) =~= key);
            } else if k == 1 {
                assert(path.subrange(62int, 62int + key.len()) =~= key);
            }
        } else if i == 11 {
            if k == 0 {
                assert(path.subrange(53int, 53int + key.len()) =~= key);
            } else if k == 1 {
                assert(path.subrange(62int, 62int + key.len()) =~= key);
            }
        } else if i == 12 {
            if k == 0 {
                assert(path.subrange(53int, 53int + key.len()) =~= key);
            } else if k == 1 {
                assert(path.subrange(53int, 53int + key.len()) =~= key);
            }
        } else if i == 13 {
            if k == 0 {
                assert(path.subrange(53int, 53int + key.len()) =~= key);
            } else if k == 1 {
                assert(path.subrange(62int, 62int + key.len()) =~= key);
            }
        } else if i == 14 {
            if k == 0 {
                assert(path.subrange(53int, 53int + key.len()) =~= key);
            } else if k == 1 {
                assert(path.subrange(44int, 44int + key.len()) =~= key);
            }
        } else if i == 15 {
            if k == 0 {
                assert(path.subrange(53int, 53int + key.len()) =~= key);
            } else if k == 1 {
                assert(path.subrange(62int, 62int + key.len()) =~= key);
            }
        } else if i == 16 {
            if k == 0 {
                assert(path.subrange(53int, 53int + key.len()) =~= key);
            } else if k == 1 {
                assert(path.subrange(62int, 62int + key.len()) =~= key);
            }
        } else if i == 17 {
            if k == 0 {
                assert(path.subrange(53int, 53int + key.len()) =~= key);
            } else if k == 1 {
                assert(path.subrange(62int, 62int + key.len()) =~= key);
            }
        } else if i == 18 {
            if k == 0 {
                assert(path.subrange(53int, 53int + key.len()) =~= key);
            } else if k == 1 {
                assert(path.subrange(62int, 62int + key.len()) =~= key);
            }
        } else if i == 19 {
            if k == 0 {
                assert(path.subrange(53int, 53int + key.len()) =~= key);
            } else if k == 1 {
                assert(path.subrange(62int, 62int + key.len()) =~= key);
            }
        } else if i == 20 {
            if k == 0 {
                assert(path.subrange(53int, 53int + key.len()) =~= key);
            } else if k == 1 {
                assert(path.subrange(53int, 53int + key.len()) =~= key);
            }
        }
    }
    assert forall|a: int, b: int| 0 <= a < b < 21 implies t[a].model_path@ != t[b].model_path@ by {
        if a == 0 && b == 1 {
            assert(t[0].model_path@[61] != t[1].model_path@[61]);
        } else if a == 0 && b == 2 {
            assert(t[0].model_path@[61] != t[2].model_path@[61]);
        } else if a == 0 && b == 3 {
            assert(t[0].model_path@[61] != t[3].model_path@[61]);
        } else if a == 0 && b == 4 {
            assert(t[0].model_path@.len() != t[4].model_path@.len());
        } else if a == 0 && b == 5 {
            assert(t[0].model_path@.len() != t[5].model_path@.len());
        } else if a == 0 && b == 6 {
            assert(t[0].model_path@.len() != t[6].model_path@.len());
        } else if a == 0 && b == 7 {
            assert(t[0].model_path@.len() != t[7].model_path@.len());
        } else if a == 0 && b == 8 {
            assert(t[0].model_path@.len() != t[8].model_path@.len());
        } else if a == 0 && b == 9 {
            assert(t[0].model_path@.len() != t[9].model_path@.len());
        } else if a == 0 && b == 10 {
            assert(t[0].model_path@.len() != t[10].model_path@.len());
        } else if a == 0 && b == 11 {
            assert(t[0].model_path@.len() != t[11].model_path@.len());
        } else if a == 0 && b == 12 {
            assert(t[0].model_path@.len() != t[12].model_path@.len());
        } else if a == 0 && b == 13 {
            assert(t[0].model_path@.len() != t[13].model_path@.len());
        } else if a == 0 && b == 14 {
            assert(t[0].model_path@.len() != t[14].model_path@.len());
        } else if a == 0 && b == 15 {
            assert(t[0].model_path@.len() != t[15].model_path@.len());
        } else if a == 0 && b == 16 {
            assert(t[0].model_path@.len() != t[16].model_path@.len());
        } else if a == 0 && b == 17 {
            assert(t[0].model_path@.len() != t[17].model_path@.len());
        } else if a == 0 && b == 18 {
            assert(t[0].model_path@.len() != t[18].model_path@.len());
        } else if a == 0 && b == 19 {
            assert(t[0].model_path@.len() != t[19].model_path@.len());
        } else if a == 0 && b == 20 {
            assert(t[0].model_path@.len() != t[20].model_path@.len());
        } else if a == 1 && b == 2 {
            assert(t[1].model_path@[61] != t[2].model_path@[61]);
        } else if a == 1 && b == 3 {
            assert(t[1].model_path@[61] != t[3].model_path@[61]);
        } else if a == 1 && b == 4 {
            assert(t[1].model_path@.len() != t[4].model_path@.len());
        } else if a == 1 && b == 5 {
            assert(t[1].model_path@.len() != t[5].model_path@.len());
        } else if a == 1 && b == 6 {
            assert(t[1].model_path@.len() != t[6].model_path@.len());
        } else if a == 1 && b == 7 {
            assert(t[1].model_path@.len() != t[7].model_path@.len());
        } else if a == 1 && b == 8 {
            assert(t[1].model_path@.len() != t[8].model_path@.len());
        } else if a == 1 && b == 9 {
            assert(t[1].model_path@.len() != t[9].model_path@.len());
        } else if a == 1 && b == 10 {
            assert(t[1].model_path@.len() != t[10].model_path@.len());
        } else if a == 1 && b == 11 {
            assert(t[1].model_path@.len() != t[11].model_path@.len());
        } else if a == 1 && b == 12 {
            assert(t[1].model_path@.len() != t[12].model_path@.len());
        } else if a == 1 && b == 13 {
            assert(t[1].model_path@.len() != t[13].model_path@.len());
        } else if a == 1 && b == 14 {
            assert(t[1].model_path@.len() != t[14].model_path@.len());
        } else if a == 1 && b == 15 {
            assert(t[1].model_path@.len() != t[15].model_path@.len());
        } else if a == 1 && b == 16 {
            assert(t[1].model_path@.len() != t[16].model_path@.len());
        } else if a == 1 && b == 17 {
            assert(t[1].model_path@.len() != t[17].model_path@.len());
        } else if a == 1 && b == 18 {
            assert(t[1].model_path@.len() != t[18].model_path@.len());
        } else if a == 1 && b == 19 {
            assert(t[1].model_path@.len() != t[19].model_path@.len());
        } else if a == 1 && b == 20 {
            assert(t[1].model_path@.len() != t[20].model_path@.len());
        } else if a == 2 && b == 3 {
            assert(t[2].model_path@[61] != t[3].model_path@[61]);
        } else if a == 2 && b == 4 {
            assert(t[2].model_path@.len() != t[4].model_path@.len());
        } else if a == 2 && b == 5 {
            assert(t[2].model_path@.len() != t[5].model_path@.len());
        } else if a == 2 && b == 6 {
            assert(t[2].model_path@.len() != t[6].model_path@.len());
        } else if a == 2 && b == 7 {
            assert(t[2].model_path@.len() != t[7].model_path@.len());
        } else if a == 2 && b == 8 {
            assert(t[2].model_path@.len() != t[8].model_path@.len());
        } else if a == 2 && b == 9 {
            assert(t[2].model_path@.len() != t[9].model_path@.len());
        } else if a == 2 && b == 10 {
            assert(t[2].model_path@.len() != t[10].model_path@.len());
        } else if a == 2 && b == 11 {
            assert(t[2].model_path@.len() != t[11].model_path@.len());
        } else if a == 2 && b == 12 {
            assert(t[2].model_path@.len() != t[12].model_path@.len());
        } else if a == 2 && b == 13 {
            assert(t[2].model_path@.len() != t[13].model_path@.len());
        } else if a == 2 && b == 14 {
            assert(t[2].model_path@.len() != t[14].model_path@.len());
        } else if a == 2 && b == 15 {
            assert(t[2].model_path@.len() != t[15].model_path@.len());
        } else if a == 2 && b == 16 {
            assert(t[2].model_path@.len() != t[16].model_path@.len());
        } else if a == 2 && b == 17 {
            assert(t[2].model_path@.len() != t[17].model_path@.len());
        } else if a == 2 && b == 18 {
            assert(t[2].model_path@.len() != t[18].model_path@.len());
        } else if a == 2 && b == 19 {
            assert(t[2].model_path@.len() != t[19].model_path@.len());
        } else if a == 2 && b == 20 {
            assert(t[2].model_path@.len() != t[20].model_path@.len());
        } else if a == 3 && b == 4 {
            assert(t[3].model_path@.len() != t[4].model_path@.len());
        } else if a == 3 && b == 5 {
            assert(t[3].model_path@.len() != t[5].model_path@.len());
        } else if a == 3 && b == 6 {
            assert(t[3].model_path@.len() != t[6].model_path@.len());
        } else if a == 3 && b == 7 {
            assert(t[3].model_path@.len() != t[7].model_path@.len());
        } else if a == 3 && b == 8 {
            assert(t[3].model_path@.len() != t[8].model_path@.len());
        } else if a == 3 && b == 9 {
            assert(t[3].model_path@.len() != t[9].model_path@.len());
        } else if a == 3 && b == 10 {
            assert(t[3].model_path@.len() != t[10].model_path@.len());
        } else if a == 3 && b == 11 {
            assert(t[3].model_path@.len() != t[11].model_path@.len());
        } else if a == 3 && b == 12 {
            assert(t[3].model_path@.len() != t[12].model_path@.len());
        } else if a == 3 && b == 13 {
            assert(t[3].model_path@.len() != t[13].model_path@.len());
        } else if a == 3 && b == 14 {
            assert(t[3].model_path@.len() != t[14].model_path@.len());
        } else if a == 3 && b == 15 {
            assert(t[3].model_path@.len() != t[15].model_path@.len());
        } else if a == 3 && b == 16 {
            assert(t[3].model_path@.len() != t[16].model_path@.len());
        } else if a == 3 && b == 17 {
            assert(t[3].model_path@.len() != t[17].model_path@.len());
        } else if a == 3 && b == 18 {
            assert(t[3].model_path@.len() != t[18].model_path@.len());
        } else if a == 3 && b == 19 {
            assert(t[3].model_path@.len() != t[19].model_path@.len());
        } else if a == 3 && b == 20 {
            assert(t[3].model_path@.len() != t[20].model_path@.len());
        } else if a == 4 && b == 5 {
            assert(t[4].model_path@[62] != t[5].model_path@[62]);
        } else if a == 4 && b == 6 {
            assert(t[4].model_path@[62] != t[6].model_path@[62]);
        } else if a == 4 && b == 7 {
            assert(t[4].model_path@[54] != t[7].model_path@[54]);
        } else if a == 4 && b == 8 {
            assert(t[4].model_path@[54] != t[8].model_path@[54]);
        } else if a == 4 && b == 9 {
            assert(t[4].model_path@[54] != t[9].model_path@[54]);
        } else if a == 4 && b == 10 {
            assert(t[4].model_path@[54] != t[10].model_path@[54]);
        } else if a == 4 && b == 11 {
            assert(t[4].model_path@[54] != t[11].model_path@[54]);
        } else if a == 4 && b == 12 {
            assert(t[4].model_path@.len() != t[12].model_path@.len());
        } else if a == 4 && b == 13 {
            assert(t[4].model_path@.len() != t[13].model_path@.len());
        } else if a == 4 && b == 14 {
            assert(t[4].model_path@[54] != t[14].model_path@[54]);
        } else if a == 4 && b == 15 {
            assert(t[4].model_path@[54] != t[15].model_path@[54]);
        } else if a == 4 && b == 16 {
            assert(t[4].model_path@[54] != t[16].model_path@[54]);
        } else if a == 4 && b == 17 {
            assert(t[4].model_path@[54] != t[17].model_path@[54]);
        } else if a == 4 && b == 18 {
            assert(t[4].model_path@[54] != t[18].model_path@[54]);
        } else if a == 4 && b == 19 {
            assert(t[4].model_path@.len() != t[19].model_path@.len());
        } else if a == 4 && b == 20 {
            assert(t[4].model_path@.len() != t[20].model_path@.len());
        } else if a == 5 && b == 6 {
            assert(t[5].model_path@[62] != t[6].model_path@[62]);
        } else if a == 5 && b == 7 {
            assert(t[5].model_path@[54] != t[7].model_path@[54]);
        } else if a == 5 && b == 8 {
            assert(t[5].model_path@[54] != t[8].model_path@[54]);
        } else if a == 5 && b == 9 {
            assert(t[5].model_path@[54] != t[9].model_path@[54]);
        } else if a == 5 && b == 10 {
            assert(t[5].model_path@[54] != t[10].model_path@[54]);
        } else if a == 5 && b == 11 {
            assert(t[5].model_path@[54] != t[11].model_path@[54]);
        } else if a == 5 && b == 12 {
            assert(t[5].model_path@.len() != t[12].model_path@.len());
        } else if a == 5 && b == 13 {
            assert(t[5].model_path@.len() != t[13].model_path@.len());
        } else if a == 5 && b == 14 {
            assert(t[5].model_path@[54] != t[14].model_path@[54]);
        } else if a == 5 && b == 15 {
            assert(t[5].model_path@[54] != t[15].model_path@[54]);
        } else if a == 5 && b == 16 {
            assert(t[5].model_path@[54] != t[16].model_path@[54]);
        } else if a == 5 && b == 17 {
            assert(t[5].model_path@[54] != t[17].model_path@[54]);
        } else if a == 5 && b == 18 {
            assert(t[5].model_path@[54] != t[18].model_path@[54]);
        } else if a == 5 && b == 19 {
            assert(t[5].model_path@.len() != t[19].model_path@.len());
        } else if a == 5 && b == 20 {
            assert(t[5].model_path@.len() != t[20].model_path@.len());
        } else if a == 6 && b == 7 {
            assert(t[6].model_path@[54] != t[7].model_path@[54]);
        } else if a == 6 && b == 8 {
            assert(t[6].model_path@[54] != t[8].model_path@[54]);
        } else if a == 6 && b == 9 {
            assert(t[6].model_path@[54] != t[9].model_path@[54]);
        } else if a == 6 && b == 10 {
            assert(t[6].model_path@[54] != t[10].model_path@[54]);
        } else if a == 6 && b == 11 {
            assert(t[6].model_path@[54] != t[11].model_path@[54]);
        } else if a == 6 && b == 12 {
            assert(t[6].model_path@.len() != t[12].model_path@.len());
        } else if a == 6 && b == 13 {
            assert(t[6].model_path@.len() != t[13].model_path@.len());
        } else if a == 6 && b == 14 {
            assert(t[6].model_path@[54] != t[14].model_path@[54]);
        } else if a == 6 && b == 15 {
            assert(t[6].model_path@[54] != t[15].model_path@[54]);
        } else if a == 6 && b == 16 {
            assert(t[6].model_path@[54] != t[16].model_path@[54]);
        } else if a == 6 && b == 17 {
            assert(t[6].model_path@[54] != t[17].model_path@[54]);
        } else if a == 6 && b == 18 {
            assert(t[6].model_path@[54] != t[18].model_path@[54]);
        } else if a == 6 && b == 19 {
            assert(t[6].model_path@.len() != t[19].model_path@.len());
        } else if a == 6 && b == 20 {
            assert(t[6].model_path@.len() != t[20].model_path@.len());
        } else if a == 7 && b == 8 {
            assert(t[7].model_path@[62] != t[8].model_path@[62]);
        } else if a == 7 && b == 9 {
            assert(t[7].model_path@[62] != t[9].model_path@[62]);
        } else if a == 7 && b == 10 {
            assert(t[7].model_path@[62] != t[10].model_path@[62]);
        } else if a == 7 && b == 11 {
            assert(t[7].model_path@[62] != t[11].model_path@[62]);
        } else if a == 7 && b == 12 {
            assert(t[7].model_path@.len() != t[12].model_path@.len());
        } else if a == 7 && b == 13 {
            assert(t[7].model_path@.len() != t[13].model_path@.len());
        } else if a == 7 && b == 14 {
            assert(t[7].model_path@[54] != t[14].model_path@[54]);
        } else if a == 7 && b == 15 {
            assert(t[7].model_path@[54] != t[15].model_path@[54]);
        } else if a == 7 && b == 16 {
            assert(t[7].model_path@[54] != t[16].model_path@[54]);
        } else if a == 7 && b == 17 {
            assert(t[7].model_path@[54] != t[17].model_path@[54]);
        } else if a == 7 && b == 18 {
            assert(t[7].model_path@[54] != t[18].model_path@[54]);
        } else if a == 7 && b == 19 {
            assert(t[7].model_path@.len() != t[19].model_path@.len());
        } else if a == 7 && b == 20 {
            assert(t[7].model_path@.len() != t[20].model_path@.len());
        } else if a == 8 && b == 9 {
            assert(t[8].model_path@[62] != t[9].model_path@[62]);
        } else if a == 8 && b == 10 {
            assert(t[8].model_path@[62] != t[10].model_path@[62]);
        } else if a == 8 && b == 11 {
            assert(t[8].model_path@[62] != t[11].model_path@[62]);
        } else if a == 8 && b == 12 {
            assert(t[8].model_path@.len() != t[12].model_path@.len());
        } else if a == 8 && b == 13 {
            assert(t[8].model_path@.len() != t[13].model_path@.len());
        } else if a == 8 && b == 14 {
            assert(t[8].model_path@[54] != t[14].model_path@[54]);
        } else if a == 8 && b == 15 {
            assert(t[8].model_path@[54] != t[15].model_path@[54]);
        } else if a == 8 && b == 16 {
            assert(t[8].model_path@[54] != t[16].model_path@[54]);
        } else if a == 8 && b == 17 {
            assert(t[8].model_path@[54] != t[17].model_path@[54]);
        } else if a == 8 && b == 18 {
            assert(t[8].model_path@[54] != t[18].model_path@[54]);
        } else if a == 8 && b == 19 {
            assert(t[8].model_path@.len() != t[19].model_path@.len());
        } else if a == 8 && b == 20 {
            assert(t[8].model_path@.len() != t[20].model_path@.len());
        } else if a == 9 && b == 10 {
            assert(t[9].model_path@[62] != t[10].model_path@[62]);
        } else if a == 9 && b == 11 {
            assert(t[9].model_path@[62] != t[11].model_path@[62]);
        } else if a == 9 && b == 12 {
            assert(t[9].model_path@.len() != t[12].model_path@.len());
        } else if a == 9 && b == 13 {
            assert(t[9].model_path@.len() != t[13].model_path@.len());
        } else if a == 9 && b == 14 {
            assert(t[9].model_path@[54] != t[14].model_path@[54]);
        } else if a == 9 && b == 15 {
            assert(t[9].model_path@[54] != t[15].model_path@[54]);
        } else if a == 9 && b == 16 {
            assert(t[9].model_path@[54] != t[16].model_path@[54]);
        } else if a == 9 && b == 17 {
            assert(t[9].model_path@[54] != t[17].model_path@[54]);
        } else if a == 9 && b == 18 {
            assert(t[9].model_path@[54] != t[18].model_path@[54]);
        } else if a == 9 && b == 19 {
            assert(t[9].model_path@.len() != t[19].model_path@.len());
        } else if a == 9 && b == 20 {
            assert(t[9].model_path@.len() != t[20].model_path@.len());
        } else if a == 10 && b == 11 {
            assert(t[10].model_path@[62] != t[11].model_path@[62]);
        } else if a == 10 && b == 12 {
            assert(t[10].model_path@.len() != t[12].model_path@.len());
        } else if a == 10 && b == 13 {
            assert(t[10].model_path@.len() != t[13].model_path@.len());
        } else if a == 10 && b == 14 {
            assert(t[10].model_path@[54] != t[14].model_path@[54]);
        } else if a == 10 && b == 15 {
            assert(t[10].model_path@[54] != t[15].model_path@[54]);
        } else if a == 10 && b == 16 {
            assert(t[10].model_path@[54] != t[16].model_path@[54]);
        } else if a == 10 && b == 17 {
            assert(t[10].model_path@[54] != t[17].model_path@[54]);
        } else if a == 10 && b == 18 {
            assert(t[10].model_path@[54] != t[18].model_path@[54]);
        } else if a == 10 && b == 19 {
            assert(t[10].model_path@.len() != t[19].model_path@.len());
        } else if a == 10 && b == 20 {
            assert(t[10].model_path@.len() != t[20].model_path@.len());
        } else if a == 11 && b == 12 {
            assert(t[11].model_path@.len() != t[12].model_path@.len());
        } else if a == 11 && b == 13 {
            assert(t[11].model_path@.len() != t[13].model_path@.len());
        } else if a == 11 && b == 14 {
            assert(t[11].model_path@[54] != t[14].model_path@[54]);
        } else if a == 11 && b == 15 {
            assert(t[11].model_path@[54] != t[15].model_path@[54]);
        } else if a == 11 && b == 16 {
            assert(t[11].model_path@[54] != t[16].model_path@[54]);
        } else if a == 11 && b == 17 {
            assert(t[11].model_path@[54] != t[17].model_path@[54]);
        } else if a == 11 && b == 18 {
            assert(t[11].model_path@[54] != t[18].model_path@[54]);
        } else if a == 11 && b == 19 {
            assert(t[11].model_path@.len() != t[19].model_path@.len());
        } else if a == 11 && b == 20 {
            assert(t[11].model_path@.len() != t[20].model_path@.len());
        } else if a == 12 && b == 13 {
            assert(t[12].model_path@[63] != t[13].model_path@[63]);
        } else if a == 12 && b == 14 {
            assert(t[12].model_path@.len() != t[14].model_path@.len());
        } else if a == 12 && b == 15 {
            assert(t[12].model_path@.len() != t[15].model_path@.len());
        } else if a == 12 && b == 16 {
            assert(t[12].model_path@.len() != t[16].model_path@.len());
        } else if a == 12 && b == 17 {
            assert(t[12].model_path@.len() != t[17].model_path@.len());
        } else if a == 12 && b == 18 {
            assert(t[12].model_path@.len() != t[18].model_path@.len());
        } else if a == 12 && b == 19 {
            assert(t[12].model_path@[54] != t[19].model_path@[54]);
        } else if a == 12 && b == 20 {
            assert(t[12].model_path@[54] != t[20].model_path@[54]);
        } else if a == 13 && b == 14 {
            assert(t[13].model_path@.len() != t[14].model_path@.len());
        } else if a == 13 && b == 15 {
            assert(t[13].model_path@.len() != t[15].model_path@.len());
        } else if a == 13 && b == 16 {
            assert(t[13].model_path@.len() != t[16].model_path@.len());
        } else if a == 13 && b == 17 {
            assert(t[13].model_path@.len() != t[17].model_path@.len());
        } else if a == 13 && b == 18 {
            assert(t[13].model_path@.len() != t[18].model_path@.len());
        } else if a == 13 && b == 19 {
            assert(t[13].model_path@[54] != t[19].model_path@[54]);
        } else if a == 13 && b == 20 {
            assert(t[13].model_path@[54] != t[20].model_path@[54]);
        } else if a == 14 && b == 15 {
            assert(t[14].model_path@[62] != t[15].model_path@[62]);
        } else if a == 14 && b == 16 {
            assert(t[14].model_path@[62] != t[16].model_path@[62]);
        } else if a == 14 && b == 17 {
            assert(t[14].model_path@[62] != t[17].model_path@[62]);
        } else if a == 14 && b == 18 {
            assert(t[14].model_path@[62] != t[18].model_path@[62]);
        } else if a == 14 && b == 19 {
            assert(t[14].model_path@.len() != t[19].model_path@.len());
        } else if a == 14 && b == 20 {
            assert(t[14].model_path@.len() != t[20].model_path@.len());
        } else if a == 15 && b == 16 {
            assert(t[15].model_path@[62] != t[16].model_path@[62]);
        } else if a == 15 && b == 17 {
            assert(t[15].model_path@[62] != t[17].model_path@[62]);
        } else if a == 15 && b == 18 {
            assert(t[15].model_path@[62] != t[18].model_path@[62]);
        } else if a == 15 && b == 19 {
            assert(t[15].model_path@.len() != t[19].model_path@.len());
        } else if a == 15 && b == 20 {
            assert(t[15].model_path@.len() != t[20].model_path@.len());
        } else if a == 16 && b == 17 {
            assert(t[16].model_path@[62] != t[17].model_path@[62]);
        } else if a == 16 && b == 18 {
            assert(t[16].model_path@[62] != t[18].model_path@[62]);
        } else if a == 16 && b == 19 {
            assert(t[16].model_path@.len() != t[19].model_path@.len());
        } else if a == 16 && b == 20 {
            assert(t[16].model_path@.len() != t[20].model_path@.len());
        } else if a == 17 && b == 18 {
            assert(t[17].model_path@[62] != t[18].model_path@[62]);
        } else if a == 17 && b == 19 {
            assert(t[17].model_path@.len() != t[19].model_path@.len());
        } else if a == 17 && b == 20 {
            assert(t[17].model_path@.len() != t[20].model_path@.len());
        } else if a == 18 && b == 19 {
            assert(t[18].model_path@.len() != t[19].model_path@.len());
        } else if a == 18 && b == 20 {
            assert(t[18].model_path@.len() != t[20].model_path@.len());
        } else if a == 19 && b == 20 {
            assert(t[19].model_path@[63] != t[20].model_path@[63]);
        }
    }
}

/// The file recorded at a setting, as the recording names it.
pub open spec fn recorded_file(voice: Seq<char>, gain: Seq<char>) -> Seq<char> {
    "pedals/hermida_zendrive/zendrive_vol100_tone130_voice"@ + voice + "_gain"@ + gain + ".nam"@
}

/// Every capture names the file recorded at its own setting.
pub proof fn lemma_captures_name_their_setting()
    ensures
        forall|i: int| 0 <= i < spec_captures().len() ==>
            (#[trigger] spec_captures()[i]).model_path@ == recorded_file(spec_captures()[i].keys[0]@, spec_captures()[i].keys[1]@),
{
    reveal_strlit("pedals/hermida_zendrive/zendrive_vol100_tone130_voice");
    reveal_strlit("_gain");
    reveal_strlit(".nam");
    reveal_strlit("pedals/hermida_zendrive/zendrive_vol100_tone130_voice130_gain300.nam");
    reveal_strlit("pedals/hermida_zendrive/zendrive_vol100_tone130_voice130_gain500.nam");
    reveal_strlit("pedals/hermida_zendrive/zendrive_vol100_tone130_voice130_gain700.nam");
    reveal_strlit("pedals/hermida_zendrive/zendrive_vol100_tone130_voice130_gain900.nam");
    reveal_strlit("pedals/hermida_zendrive/zendrive_vol100_tone130_voice130_gain1030.nam");
    reveal_strlit("pedals/hermida_zendrive/zendrive_vol100_tone130_voice130_gain1200.nam");
    reveal_strlit("pedals/hermida_zendrive/zendrive_vol100_tone130_voice130_gain1300.nam");
    reveal_strlit("pedals/hermida_zendrive/zendrive_vol100_tone130_voice1030_gain130.nam");
    reveal_strlit("pedals/hermida_zendrive/zendrive_vol100_tone130_voice1030_gain300.nam");
    reveal_strlit("pedals/hermida_zendrive/zendrive_vol100_tone130_voice1030_gain500.nam");
    reveal_strlit("pedals/hermida_zendrive/zendrive_vol100_tone130_voice1030_gain700.nam");
    reveal_strlit("pedals/hermida_zendrive/zendrive_vol100_tone130_voice1030_gain900.nam");
    reveal_strlit("pedals/hermida_zendrive/zendrive_vol100_tone130_voice1030_gain1030.nam");
    reveal_strlit("pedals/hermida_zendrive/zendrive_vol100_tone130_voice1030_gain1200.nam");
    reveal_strlit("pedals/hermida_zendrive/zendrive_vol100_tone130_voice1200_gain130.nam");
    reveal_strlit("pedals/hermida_zendrive/zendrive_vol100_tone130_voice1200_gain300.nam");
    reveal_strlit("pedals/hermida_zendrive/zendrive_vol100_tone130_voice1200_gain500.nam");
    reveal_strlit("pedals/hermida_zendrive/zendrive_vol100_tone130_voice1200_gain700.nam");
    reveal_strlit("pedals/hermida_zendrive/zendrive_vol100_tone130_voice1200_gain900.nam");
    reveal_strlit("pedals/hermida_zendrive/zendrive_vol100_tone130_voice1200_gain1030.nam");
    reveal_strlit("pedals/hermida_zendrive/zendrive_vol100_tone130_voice1200_gain1200.nam");
    reveal_strlit("130");
    reveal_strlit("300");
    reveal_strlit("500");
    reveal_strlit("700");
    reveal_strlit("900");
    reveal_strlit("1030");
    reveal_strlit("1200");
    reveal_strlit("1300");
    let t = spec_captures();
    assert forall|i: int| 0 <= i < t.len() implies
        (#[trigger] t[i]).model_path@ == recorded_file(t[i].keys[0]@, t[i].keys[1]@) by {
        if i == 0 {
            assert(t[i].model_path@ =~= recorded_file("130"@, "300"@));
        } else if i == 1 {
            assert(t[i].model_path@ =~= recorded_file("130"@, "500"@));
        } else if i == 2 {
            assert(t[i].model_path@ =~= recorded_file("130"@, "700"@));
        } else if i == 3 {
            assert(t[i].model_path@ =~= recorded_file("130"@, "900"@));
        } else if i == 4 {
            assert(t[i].model_path@ =~= recorded_file("130"@, "1030"@));
        } else if i == 5 {
            assert(t[i].model_path@ =~= recorded_file("130"@, "1200"@));
        } else if i == 6 {
            assert(t[i].model_path@ =~= recorded_file("130"@, "1300"@));
        } else if i == 7 {
            assert(t[i].model_path@ =~= recorded_file("1030"@, "130"@));
        } else if i == 8 {
            assert(t[i].model_path@ =~= recorded_file("1030"@, "300"@));
        } else if i == 9 {
            assert(t[i].model_path@ =~= recorded_file("1030"@, "500"@));
        } else if i == 10 {
            assert(t[i].model_path@ =~= recorded_file("1030"@, "700"@));
        } else if i == 11 {
            assert(t[i].model_path@ =~= recorded_file("1030"@, "900"@));
        } else if i == 12 {
            assert(t[i].model_path@ =~= recorded_file("1030"@, "1030"@));
        } else if i == 13 {
            assert(t[i].model_path@ =~= recorded_file("1030"@, "1200"@));
        } else if i == 14 {
            assert(t[i].model_path@ =~= recorded_file("1200"@, "130"@));
        } else if i == 15 {
            assert(t[i].model_path@ =~= recorded_file("1200"@, "300"@));
        } else if i == 16 {
            assert(t[i].model_path@ =~= recorded_file("1200"@, "500"@));
        } else if i == 17 {
            assert(t[i].model_path@ =~= recorded_file("1200"@, "700"@));
        } else if i == 18 {
            assert(t[i].model_path@ =~= recorded_file("1200"@, "900"@));
        } else if i == 19 {
            assert(t[i].model_path@ =~= recorded_file("1200"@, "1030"@));
        } else if i == 20 {
            assert(t[i].model_path@ =~= recorded_file("1200"@, "1200"@));
        }
    }
}

/// A setting that selects a capture selects the file recorded at that setting.
pub proof fn lemma_selected_file(voice: Seq<char>, gain: Seq<char>)
    ensures
        selection(voice, gain) matches Some(i) ==> spec_captures()[i].model_path@ == recorded_file(voice, gain),
{
    lemma_first_selected(spec_captures(), seq![voice, gain]);
    lemma_captures_name_their_setting();
    if let Some(i) = selection(voice, gain) {
        assert(spec_captures()[i].model_path@ == recorded_file(spec_captures()[i].keys[0]@, spec_captures()[i].keys[1]@));
    }
}

} // verus!
