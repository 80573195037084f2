//! The "EarthQuaker Hizumitas" gain model (earthquaker), played from neural captures, one per recorded setting.

use vstd::prelude::*;
use crate::capture::{
    names_value, files_name_settings, files_distinct,
    Capture, CaptureView, table_view, find_capture, first_selected, asset_text, lemma_first_selected,
    lemma_selected_at, captures_follow_schema, default_setting, defaults_present, captures_distinct,
    setting_of_choices, setting_matches,
};
use crate::error::GainError;
use crate::model::{BackendKind, Instruments, KnobLayoutEntry, ModelDefinition, ModelDefinitionView};
use crate::schema::{
    EffectType, EnumChoice, ModelSchema, ModelSchemaView, ParameterKindView, ParameterSpecView,
    choice, enum_parameter, parameters_view, schema_well_formed, choices_at, str_texts, is_choice,
    parameter_well_formed, choice_values, parameter_paths,
};
use crate::text::{concat, join, texts};

verus! {

pub const MODEL_ID: &'static str = "nam_earthquaker_hizumitas";
pub const DISPLAY_NAME: &'static str = "EarthQuaker Hizumitas";
pub const BRAND: &'static str = "earthquaker";

pub open spec fn spec_model_schema() -> ModelSchemaView {
    ModelSchemaView {
        effect_type: EffectType::Gain,
        model: MODEL_ID,
        display_name: DISPLAY_NAME,
        audio_mode: None,
        parameters: Some(seq![
            ParameterSpecView {
                path: "sustain",
                label: "Sustain",
                group: Some("Pedal"),
                kind: ParameterKindView::Enum {
                    default: Some("5"),
                    choices: seq![
                        EnumChoice { value: "0", label: "0" },
                        EnumChoice { value: "3", label: "3" },
                        EnumChoice { value: "5", label: "5" },
                        EnumChoice { value: "7", label: "7" },
                        EnumChoice { value: "10", label: "10" },
                    ],
                },
            },
            ParameterSpecView {
                path: "tone",
                label: "Tone",
                group: Some("Pedal"),
                kind: ParameterKindView::Enum {
                    default: Some("5"),
                    choices: seq![
                        EnumChoice { value: "0", label: "0" },
                        EnumChoice { value: "3", label: "3" },
                        EnumChoice { value: "5", label: "5" },
                        EnumChoice { value: "7", label: "7" },
                        EnumChoice { value: "10", label: "10" },
                    ],
                },
            },
        ]),
    }
}

/// The parameters of the model.
pub fn model_schema() -> (schema: ModelSchema)
    ensures
        schema@ == spec_model_schema(),
{
    let parameters = vec![
        enum_parameter(
            "sustain",
            "Sustain",
            Some("Pedal"),
            Some("5"),
            vec![
                choice("0", "0"),
                choice("3", "3"),
                choice("5", "5"),
                choice("7", "7"),
                choice("10", "10"),
            ],
        ),
        enum_parameter(
            "tone",
            "Tone",
            Some("Pedal"),
            Some("5"),
            vec![
                choice("0", "0"),
                choice("3", "3"),
                choice("5", "5"),
                choice("7", "7"),
                choice("10", "10"),
            ],
        ),
    ];
    assert(parameters_view(parameters@) =~= spec_model_schema().parameters.unwrap());
    ModelSchema {
        effect_type: EffectType::Gain,
        model: MODEL_ID,
        display_name: DISPLAY_NAME,
        audio_mode: None,
        parameters: Some(parameters),
    }
}

/// The positions, in the schema, of the parameters that select a capture.
pub open spec fn key_params() -> Seq<int> {
    seq![0, 1]
}

pub open spec fn spec_captures() -> Seq<CaptureView> {
    seq![
        CaptureView { keys: seq!["0", "0"], model_path: "pedals/earthquaker_hizumitas/1_hizumitas_vol_5_sustain_0_tone_0.nam" },
        CaptureView { keys: seq!["3", "0"], model_path: "pedals/earthquaker_hizumitas/2_hizumitas_vol_5_sustain_3_tone_0.nam" },
        CaptureView { keys: seq!["5", "0"], model_path: "pedals/earthquaker_hizumitas/3_hizumitas_vol_5_sustain_5_tone_0.nam" },
        CaptureView { keys: seq!["7", "0"], model_path: "pedals/earthquaker_hizumitas/4_hizumitas_vol_5_sustain_7_tone_0.nam" },
        CaptureView { keys: seq!["10", "0"], model_path: "pedals/earthquaker_hizumitas/5_hizumitas_vol_5_sustain_10_tone_0.nam" },
        CaptureView { keys: seq!["3", "3"], model_path: "pedals/earthquaker_hizumitas/6_hizumitas_vol_5_sustain_3_tone_3.nam" },
        CaptureView { keys: seq!["5", "3"], model_path: "pedals/earthquaker_hizumitas/7_hizumitas_vol_5_sustain_5_tone_3.nam" },
        CaptureView { keys: seq!["7", "3"], model_path: "pedals/earthquaker_hizumitas/8_hizumitas_vol_5_sustain_7_tone_3.nam" },
        CaptureView { keys: seq!["10", "3"], model_path: "pedals/earthquaker_hizumitas/9_hizumitas_vol_5_sustain_10_tone_3.nam" },
        CaptureView { keys: seq!["0", "5"], model_path: "pedals/earthquaker_hizumitas/10_hizumitas_vol_5_sustain_0_tone_5.nam" },
        CaptureView { keys: seq!["3", "5"], model_path: "pedals/earthquaker_hizumitas/11_hizumitas_vol_5_sustain_3_tone_5.nam" },
        CaptureView { keys: seq!["5", "5"], model_path: "pedals/earthquaker_hizumitas/12_hizumitas_vol_5_sustain_5_tone_5.nam" },
        CaptureView { keys: seq!["7", "5"], model_path: "pedals/earthquaker_hizumitas/13_hizumitas_vol_5_sustain_7_tone_5.nam" },
        CaptureView { keys: seq!["10", "5"], model_path: "pedals/earthquaker_hizumitas/14_hizumitas_vol_5_sustain_10_tone_5.nam" },
        CaptureView { keys: seq!["0", "7"], model_path: "pedals/earthquaker_hizumitas/15_hizumitas_vol_5_sustain_0_tone_7.nam" },
        CaptureView { keys: seq!["3", "7"], model_path: "pedals/earthquaker_hizumitas/16_hizumitas_vol_5_sustain_3_tone_7.nam" },
        CaptureView { keys: seq!["5", "7"], model_path: "pedals/earthquaker_hizumitas/17_hizumitas_vol_5_sustain_5_tone_7.nam" },
        CaptureView { keys: seq!["7", "7"], model_path: "pedals/earthquaker_hizumitas/18_hizumitas_vol_5_sustain_7_tone_7.nam" },
        CaptureView { keys: seq!["10", "7"], model_path: "pedals/earthquaker_hizumitas/19_hizumitas_vol_5_sustain_10_tone_7.nam" },
        CaptureView { keys: seq!["0", "10"], model_path: "pedals/earthquaker_hizumitas/20_hizumitas_vol_5_sustain_0_tone_10.nam" },
        CaptureView { keys: seq!["3", "10"], model_path: "pedals/earthquaker_hizumitas/21_hizumitas_vol_5_sustain_3_tone_10.nam" },
        CaptureView { keys: seq!["5", "10"], model_path: "pedals/earthquaker_hizumitas/22_hizumitas_vol_5_sustain_5_tone_10.nam" },
        CaptureView { keys: seq!["7", "10"], model_path: "pedals/earthquaker_hizumitas/23_hizumitas_vol_5_sustain_7_tone_10.nam" },
        CaptureView { keys: seq!["10", "10"], model_path: "pedals/earthquaker_hizumitas/24_hizumitas_vol_5_sustain_10_tone_10.nam" },
    ]
}

/// The captures of the pedal, each with its (sustain, tone) setting.
pub fn captures() -> (table: Vec<Capture>)
    ensures
        table_view(table@) == spec_captures(),
{
    let table = vec![
        Capture::two("0", "0", "pedals/earthquaker_hizumitas/1_hizumitas_vol_5_sustain_0_tone_0.nam"),
        Capture::two("3", "0", "pedals/earthquaker_hizumitas/2_hizumitas_vol_5_sustain_3_tone_0.nam"),
        Capture::two("5", "0", "pedals/earthquaker_hizumitas/3_hizumitas_vol_5_sustain_5_tone_0.nam"),
        Capture::two("7", "0", "pedals/earthquaker_hizumitas/4_hizumitas_vol_5_sustain_7_tone_0.nam"),
        Capture::two("10", "0", "pedals/earthquaker_hizumitas/5_hizumitas_vol_5_sustain_10_tone_0.nam"),
        Capture::two("3", "3", "pedals/earthquaker_hizumitas/6_hizumitas_vol_5_sustain_3_tone_3.nam"),
        Capture::two("5", "3", "pedals/earthquaker_hizumitas/7_hizumitas_vol_5_sustain_5_tone_3.nam"),
        Capture::two("7", "3", "pedals/earthquaker_hizumitas/8_hizumitas_vol_5_sustain_7_tone_3.nam"),
        Capture::two("10", "3", "pedals/earthquaker_hizumitas/9_hizumitas_vol_5_sustain_10_tone_3.nam"),
        Capture::two("0", "5", "pedals/earthquaker_hizumitas/10_hizumitas_vol_5_sustain_0_tone_5.nam"),
        Capture::two("3", "5", "pedals/earthquaker_hizumitas/11_hizumitas_vol_5_sustain_3_tone_5.nam"),
        Capture::two("5", "5", "pedals/earthquaker_hizumitas/12_hizumitas_vol_5_sustain_5_tone_5.nam"),
        Capture::two("7", "5", "pedals/earthquaker_hizumitas/13_hizumitas_vol_5_sustain_7_tone_5.nam"),
        Capture::two("10", "5", "pedals/earthquaker_hizumitas/14_hizumitas_vol_5_sustain_10_tone_5.nam"),
        Capture::two("0", "7", "pedals/earthquaker_hizumitas/15_hizumitas_vol_5_sustain_0_tone_7.nam"),
        Capture::two("3", "7", "pedals/earthquaker_hizumitas/16_hizumitas_vol_5_sustain_3_tone_7.nam"),
        Capture::two("5", "7", "pedals/earthquaker_hizumitas/17_hizumitas_vol_5_sustain_5_tone_7.nam"),
        Capture::two("7", "7", "pedals/earthquaker_hizumitas/18_hizumitas_vol_5_sustain_7_tone_7.nam"),
        Capture::two("10", "7", "pedals/earthquaker_hizumitas/19_hizumitas_vol_5_sustain_10_tone_7.nam"),
        Capture::two("0", "10", "pedals/earthquaker_hizumitas/20_hizumitas_vol_5_sustain_0_tone_10.nam"),
        Capture::two("3", "10", "pedals/earthquaker_hizumitas/21_hizumitas_vol_5_sustain_3_tone_10.nam"),
        Capture::two("5", "10", "pedals/earthquaker_hizumitas/22_hizumitas_vol_5_sustain_5_tone_10.nam"),
        Capture::two("7", "10", "pedals/earthquaker_hizumitas/23_hizumitas_vol_5_sustain_7_tone_10.nam"),
        Capture::two("10", "10", "pedals/earthquaker_hizumitas/24_hizumitas_vol_5_sustain_10_tone_10.nam"),
    ];
    assert(table_view(table@) =~= spec_captures());
    table
}

/// What the model reports for a setting at which no capture was recorded.
pub open spec fn unsupported_message(sustain: Seq<char>, tone: Seq<char>) -> Seq<char> {
    concat(seq!["gain '"@, MODEL_ID@, "' has no capture for sustain="@, sustain, " tone="@, tone])
}

/// The index of the capture that (sustain, tone) selects.
pub open spec fn selection(sustain: Seq<char>, tone: Seq<char>) -> Option<int> {
    first_selected(spec_captures(), seq![sustain, tone])
}

fn unsupported(sustain: &str, tone: &str) -> (e: GainError)
    ensures
        e matches GainError::UnsupportedSetting(m) && m@ == unsupported_message(sustain@, tone@),
{
    let parts = vec!["gain '", MODEL_ID, "' has no capture for sustain=", sustain, " tone=", tone];
    let m = join(&parts);
    assert(texts(parts@) =~= seq!["gain '"@, MODEL_ID@, "' has no capture for sustain="@, sustain@, " tone="@, tone@]);
    GainError::UnsupportedSetting(m)
}

/// The capture recorded at (sustain, tone).
pub fn resolve_capture(sustain: &str, tone: &str) -> (selected: Result<&'static str, GainError>)
    ensures
        match selection(sustain@, tone@) {
            Some(i) => selected matches Ok(path) && path == spec_captures()[i].model_path,
            None => selected matches Err(GainError::UnsupportedSetting(m)) && m@ == unsupported_message(sustain@, tone@),
        },
{
    let table = captures();
    let request = vec![sustain, tone];
    assert(texts(request@) =~= seq![sustain@, tone@]);
    match find_capture(&table, &request) {
        Some(i) => {
            proof {
                lemma_first_selected(spec_captures(), seq![sustain@, tone@]);
            }
            Ok(table[i].model_path)
        },
        None => Err(unsupported(sustain, tone)),
    }
}

/// Accepts (sustain, tone) exactly where a capture was recorded there.
pub fn validate_params(sustain: &str, tone: &str) -> (checked: Result<(), GainError>)
    ensures
        match selection(sustain@, tone@) {
            Some(i) => checked is Ok,
            None => checked matches Err(GainError::UnsupportedSetting(m)) && m@ == unsupported_message(sustain@, tone@),
        },
{
    match resolve_capture(sustain, tone) {
        Ok(_) => Ok(()),
        Err(e) => Err(e),
    }
}

/// Names the capture file that (sustain, tone) selects.
pub fn asset_summary(sustain: &str, tone: &str) -> (summary: Result<String, GainError>)
    ensures
        match selection(sustain@, tone@) {
            Some(i) => summary matches Ok(s) && s@ == asset_text(spec_captures()[i].model_path@),
            None => summary matches Err(GainError::UnsupportedSetting(m)) && m@ == unsupported_message(sustain@, tone@),
        },
{
    match resolve_capture(sustain, tone) {
        Ok(c) => {
            let parts = vec!["model='", c, "'"];
            assert(texts(parts@) =~= seq!["model='"@, c@, "'"@]);
            Ok(join(&parts))
        },
        Err(e) => Err(e),
    }
}

pub open spec fn spec_model_definition() -> ModelDefinitionView {
    ModelDefinitionView {
        id: MODEL_ID,
        display_name: DISPLAY_NAME,
        brand: BRAND,
        backend_kind: BackendKind::Nam,
        supported_instruments: Instruments::GuitarBass,
        knob_layout: seq![],
    }
}

/// What the registry lists for this model.
pub fn model_definition() -> (d: ModelDefinition)
    ensures
        d@ == spec_model_definition(),
{
    let knob_layout: Vec<KnobLayoutEntry> = Vec::new();
    let d = ModelDefinition {
        id: MODEL_ID,
        display_name: DISPLAY_NAME,
        brand: BRAND,
        backend_kind: BackendKind::Nam,
        supported_instruments: Instruments::GuitarBass,
        knob_layout,
    };
    assert(d@.knob_layout =~= spec_model_definition().knob_layout);
    d
}

/// The schema is sound: every parameter is, and no two share a path.
pub proof fn lemma_schema_well_formed()
    ensures
        schema_well_formed(spec_model_schema()),
{
    reveal_strlit("sustain");
    reveal_strlit("tone");
    reveal_strlit("0");
    reveal_strlit("3");
    reveal_strlit("5");
    reveal_strlit("7");
    reveal_strlit("10");
    let ps = spec_model_schema().parameters.unwrap();
    assert forall|i: int| 0 <= i < ps.len() implies parameter_well_formed(#[trigger] ps[i]) by {
        if ps[i].kind is Enum {
            let vs = choice_values(ps[i].kind->Enum_choices);
            assert forall|a: int, b: int| 0 <= a < b < vs.len() implies vs[a] != vs[b] by {
                if vs[a] == vs[b] {
                    assert(vs[a].len() == vs[b].len());
                    assert(vs[a][0] == vs[b][0]);
                }
            }
        }
        if i == 0 {
            assert(ps[0].kind->Enum_choices[2].value@ == "5"@);
        } else if i == 1 {
            assert(ps[1].kind->Enum_choices[2].value@ == "5"@);
        }
    }
    let paths = parameter_paths(ps);
    assert forall|a: int, b: int| 0 <= a < b < paths.len() implies paths[a] != paths[b] by {
        if paths[a] == paths[b] {
            assert(paths[a].len() == paths[b].len());
        }
    }
}

/// Each capture is recorded at choices the schema offers.
pub proof fn lemma_captures_follow_schema()
    ensures
        captures_follow_schema(spec_model_schema(), key_params(), spec_captures()),
{
    let s = spec_model_schema();
    let t = spec_captures();
    assert forall|i: int, k: int| 0 <= i < t.len() && 0 <= k < key_params().len() implies {
        &&& #[trigger] t[i].keys.len() == key_params().len()
        &&& is_choice(choices_at(s, key_params()[k]), #[trigger] t[i].keys[k]@)
    } by {
        let cs = choices_at(s, key_params()[k]);
        if k == 0 {
            if t[i].keys[0] == "0" {
                assert(cs[0].value@ == t[i].keys[k]@);
            } else if t[i].keys[0] == "3" {
                assert(cs[1].value@ == t[i].keys[k]@);
            } else if t[i].keys[0] == "5" {
                assert(cs[2].value@ == t[i].keys[k]@);
            } else if t[i].keys[0] == "7" {
                assert(cs[3].value@ == t[i].keys[k]@);
            } else {
                assert(cs[4].value@ == t[i].keys[k]@);
            }
        } else if k == 1 {
            if t[i].keys[1] == "0" {
                assert(cs[0].value@ == t[i].keys[k]@);
            } else if t[i].keys[1] == "3" {
                assert(cs[1].value@ == t[i].keys[k]@);
            } else if t[i].keys[1] == "5" {
                assert(cs[2].value@ == t[i].keys[k]@);
            } else if t[i].keys[1] == "7" {
                assert(cs[3].value@ == t[i].keys[k]@);
            } else {
                assert(cs[4].value@ == t[i].keys[k]@);
            }
        }
    }
}

/// No two captures share a setting.
pub proof fn lemma_captures_distinct()
    ensures
        captures_distinct(spec_captures()),
{
    reveal_strlit("0");
    reveal_strlit("3");
    reveal_strlit("5");
    reveal_strlit("7");
    reveal_strlit("10");
    let t = spec_captures();
    assert forall|a: int, b: int| 0 <= a < b < t.len() implies str_texts(t[a].keys) != str_texts(t[b].keys) by {
        let x = str_texts(t[a].keys);
        let y = str_texts(t[b].keys);
        if x == y {
            assert(x[0].len() == y[0].len());
            assert(x[0][0] == y[0][0]);
            assert(x[1].len() == y[1].len());
            assert(x[1][0] == y[1][0]);
        }
    }
}

/// The settings the schema offers at which no capture was recorded.
pub open spec fn unrecorded_setting(r: Seq<Seq<char>>) -> bool {
    ||| r == seq!["0"@, "3"@]
}

/// Every setting the schema offers selects a capture but the unrecorded
/// ones, which select none; the defaults select one.
pub proof fn lemma_every_recorded_setting_selects()
    ensures
        forall|r: Seq<Seq<char>>| setting_of_choices(spec_model_schema(), key_params(), r) ==>
            ((#[trigger] first_selected(spec_captures(), r)) is Some <==> !unrecorded_setting(r)),
        defaults_present(spec_model_schema(), key_params()),
        first_selected(spec_captures(), default_setting(spec_model_schema(), key_params())) is Some,
{
    reveal_strlit("0");
    reveal_strlit("3");
    reveal_strlit("5");
    reveal_strlit("7");
    reveal_strlit("10");
    let s = spec_model_schema();
    let t = spec_captures();
    assert forall|r: Seq<Seq<char>>| setting_of_choices(s, key_params(), r) implies
        ((#[trigger] first_selected(t, r)) is Some <==> !unrecorded_setting(r)) by {
        let c0 = choices_at(s, 0);
        let i0 = choose|i: int| 0 <= i < c0.len() && c0[i].value@ == r[0];
        let c1 = choices_at(s, 1);
        let i1 = choose|i: int| 0 <= i < c1.len() && c1[i].value@ == r[1];
        if i0 == 0 && i1 == 0 {
            assert(r =~= seq!["0"@, "0"@]);
            lemma_selected_at(t, r, 0);
            assert("0"@[0] != "3"@[0]);
        } else if i0 == 0 && i1 == 1 {
            assert(r =~= seq!["0"@, "3"@]);
            lemma_first_selected(t, r);
            assert forall|i: int| 0 <= i < t.len() implies !setting_matches(#[trigger] t[i].keys, r) by {
                if i == 0 {
                    assert("0"@[0] != "3"@[0]);
                    assert(t[i].keys[1]@ != r[1]);
                } else if i == 1 {
                    assert("3"@[0] != "0"@[0]);
                    assert(t[i].keys[0]@ != r[0]);
                } else if i == 2 {
                    assert("5"@[0] != "0"@[0]);
                    assert(t[i].keys[0]@ != r[0]);
                } else if i == 3 {
                    assert("7"@[0] != "0"@[0]);
                    assert(t[i].keys[0]@ != r[0]);
                } else if i == 4 {
                    assert("10"@.len() != "0"@.len());
                    assert(t[i].keys[0]@ != r[0]);
                } else if i == 5 {
                    assert("3"@[0] != "0"@[0]);
                    assert(t[i].keys[0]@ != r[0]);
                } else if i == 6 {
                    assert("5"@[0] != "0"@[0]);
                    assert(t[i].keys[0]@ != r[0]);
                } else if i == 7 {
                    assert("7"@[0] != "0"@[0]);
                    assert(t[i].keys[0]@ != r[0]);
                } else if i == 8 {
                    assert("10"@.len() != "0"@.len());
                    assert(t[i].keys[0]@ != r[0]);
                } else if i == 9 {
                    assert("5"@[0] != "3"@[0]);
                    assert(t[i].keys[1]@ != r[1]);
                } else if i == 10 {
                    assert("3"@[0] != "0"@[0]);
                    assert(t[i].keys[0]@ != r[0]);
                } else if i == 11 {
                    assert("5"@[0] != "0"@[0]);
                    assert(t[i].keys[0]@ != r[0]);
                } else if i == 12 {
                    assert("7"@[0] != "0"@[0]);
                    assert(t[i].keys[0]@ != r[0]);
                } else if i == 13 {
                    assert("10"@.len() != "0"@.len());
                    assert(t[i].keys[0]@ != r[0]);
                } else if i == 14 {
                    assert("7"@[0] != "3"@[0]);
                    assert(t[i].keys[1]@ != r[1]);
                } else if i == 15 {
                    assert("3"@[0] != "0"@[0]);
                    assert(t[i].keys[0]@ != r[0]);
                } else if i == 16 {
                    assert("5"@[0] != "0"@[0]);
                    assert(t[i].keys[0]@ != r[0]);
                } else if i == 17 {
                    assert("7"@[0] != "0"@[0]);
                    assert(t[i].keys[0]@ != r[0]);
                } else if i == 18 {
                    assert("10"@.len() != "0"@.len());
                    assert(t[i].keys[0]@ != r[0]);
                } else if i == 19 {
                    assert("10"@.len() != "3"@.len());
                    assert(t[i].keys[1]@ != r[1]);
                } else if i == 20 {
                    assert("3"@[0] != "0"@[0]);
                    assert(t[i].keys[0]@ != r[0]);
                } else if i == 21 {
                    assert("5"@[0] != "0"@[0]);
                    assert(t[i].keys[0]@ != r[0]);
                } else if i == 22 {
                    assert("7"@[0] != "0"@[0]);
                    assert(t[i].keys[0]@ != r[0]);
                } else if i == 23 {
                    assert("10"@.len() != "0"@.len());
                    assert(t[i].keys[0]@ != r[0]);
                }
            }
        } else if i0 == 0 && i1 == 2 {
            assert(r =~= seq!["0"@, "5"@]);
            lemma_selected_at(t, r, 9);
            assert("5"@[0] != "3"@[0]);
        } else if i0 == 0 && i1 == 3 {
            assert(r =~= seq!["0"@, "7"@]);
            lemma_selected_at(t, r, 14);
            assert("7"@[0] != "3"@[0]);
        } else if i0 == 0 && i1 == 4 {
            assert(r =~= seq!["0"@, "10"@]);
            lemma_selected_at(t, r, 19);
            assert("10"@.len() != "3"@.len());
        } else if i0 == 1 && i1 == 0 {
            assert(r =~= seq!["3"@, "0"@]);
            lemma_selected_at(t, r, 1);
            assert("3"@[0] != "0"@[0]);
        } else if i0 == 1 && i1 == 1 {
            assert(r =~= seq!["3"@, "3"@]);
            lemma_selected_at(t, r, 5);
            assert("3"@[0] != "0"@[0]);
        } else if i0 == 1 && i1 == 2 {
            assert(r =~= seq!["3"@, "5"@]);
            lemma_selected_at(t, r, 10);
            assert("3"@[0] != "0"@[0]);
        } else if i0 == 1 && i1 == 3 {
            assert(r =~= seq!["3"@, "7"@]);
            lemma_selected_at(t, r, 15);
            assert("3"@[0] != "0"@[0]);
        } else if i0 == 1 && i1 == 4 {
            assert(r =~= seq!["3"@, "10"@]);
            lemma_selected_at(t, r, 20);
            assert("3"@[0] != "0"@[0]);
        } else if i0 == 2 && i1 == 0 {
            assert(r =~= seq!["5"@, "0"@]);
            lemma_selected_at(t, r, 2);
            assert("5"@[0] != "0"@[0]);
        } else if i0 == 2 && i1 == 1 {
            assert(r =~= seq!["5"@, "3"@]);
            lemma_selected_at(t, r, 6);
            assert("5"@[0] != "0"@[0]);
        } else if i0 == 2 && i1 == 2 {
            assert(r =~= seq!["5"@, "5"@]);
            lemma_selected_at(t, r, 11);
            assert("5"@[0] != "0"@[0]);
        } else if i0 == 2 && i1 == 3 {
            assert(r =~= seq!["5"@, "7"@]);
            lemma_selected_at(t, r, 16);
            assert("5"@[0] != "0"@[0]);
        } else if i0 == 2 && i1 == 4 {
            assert(r =~= seq!["5"@, "10"@]);
            lemma_selected_at(t, r, 21);
            assert("5"@[0] != "0"@[0]);
        } else if i0 == 3 && i1 == 0 {
            assert(r =~= seq!["7"@, "0"@]);
            lemma_selected_at(t, r, 3);
            assert("7"@[0] != "0"@[0]);
        } else if i0 == 3 && i1 == 1 {
            assert(r =~= seq!["7"@, "3"@]);
            lemma_selected_at(t, r, 7);
            assert("7"@[0] != "0"@[0]);
        } else if i0 == 3 && i1 == 2 {
            assert(r =~= seq!["7"@, "5"@]);
            lemma_selected_at(t, r, 12);
            assert("7"@[0] != "0"@[0]);
        } else if i0 == 3 && i1 == 3 {
            assert(r =~= seq!["7"@, "7"@]);
            lemma_selected_at(t, r, 17);
            assert("7"@[0] != "0"@[0]);
        } else if i0 == 3 && i1 == 4 {
            assert(r =~= seq!["7"@, "10"@]);
            lemma_selected_at(t, r, 22);
            assert("7"@[0] != "0"@[0]);
        } else if i0 == 4 && i1 == 0 {
            assert(r =~= seq!["10"@, "0"@]);
            lemma_selected_at(t, r, 4);
            assert("10"@.len() != "0"@.len());
        } else if i0 == 4 && i1 == 1 {
            assert(r =~= seq!["10"@, "3"@]);
            lemma_selected_at(t, r, 8);
            assert("10"@.len() != "0"@.len());
        } else if i0 == 4 && i1 == 2 {
            assert(r =~= seq!["10"@, "5"@]);
            lemma_selected_at(t, r, 13);
            assert("10"@.len() != "0"@.len());
        } else if i0 == 4 && i1 == 3 {
            assert(r =~= seq!["10"@, "7"@]);
            lemma_selected_at(t, r, 18);
            assert("10"@.len() != "0"@.len());
        } else if i0 == 4 && i1 == 4 {
            assert(r =~= seq!["10"@, "10"@]);
            lemma_selected_at(t, r, 23);
            assert("10"@.len() != "0"@.len());
        }
    }
    let dflt = default_setting(s, key_params());
    assert(dflt =~= seq!["5"@, "5"@]);
    lemma_selected_at(t, dflt, 11);
}

/// Every capture names a file that writes each value of its setting, and
/// no two captures name the same file.
pub proof fn lemma_capture_files()
    ensures
        files_name_settings(spec_captures()),
        files_distinct(spec_captures()),
{
    reveal_strlit("pedals/earthquaker_hizumitas/1_hizumitas_vol_5_sustain_0_tone_0.nam");
    reveal_strlit("pedals/earthquaker_hizumitas/2_hizumitas_vol_5_sustain_3_tone_0.nam");
    reveal_strlit("pedals/earthquaker_hizumitas/3_hizumitas_vol_5_sustain_5_tone_0.nam");
    reveal_strlit("pedals/earthquaker_hizumitas/4_hizumitas_vol_5_sustain_7_tone_0.nam");
    reveal_strlit("pedals/earthquaker_hizumitas/5_hizumitas_vol_5_sustain_10_tone_0.nam");
    reveal_strlit("pedals/earthquaker_hizumitas/6_hizumitas_vol_5_sustain_3_tone_3.nam");
    reveal_strlit("pedals/earthquaker_hizumitas/7_hizumitas_vol_5_sustain_5_tone_3.nam");
    reveal_strlit("pedals/earthquaker_hizumitas/8_hizumitas_vol_5_sustain_7_tone_3.nam");
    reveal_strlit("pedals/earthquaker_hizumitas/9_hizumitas_vol_5_sustain_10_tone_3.nam");
    reveal_strlit("pedals/earthquaker_hizumitas/10_hizumitas_vol_5_sustain_0_tone_5.nam");
    reveal_strlit("pedals/earthquaker_hizumitas/11_hizumitas_vol_5_sustain_3_tone_5.nam");
    reveal_strlit("pedals/earthquaker_hizumitas/12_hizumitas_vol_5_sustain_5_tone_5.nam");
    reveal_strlit("pedals/earthquaker_hizumitas/13_hizumitas_vol_5_sustain_7_tone_5.nam");
    reveal_strlit("pedals/earthquaker_hizumitas/14_hizumitas_vol_5_sustain_10_tone_5.nam");
    reveal_strlit("pedals/earthquaker_hizumitas/15_hizumitas_vol_5_sustain_0_tone_7.nam");
    reveal_strlit("pedals/earthquaker_hizumitas/16_hizumitas_vol_5_sustain_3_tone_7.nam");
    reveal_strlit("pedals/earthquaker_hizumitas/17_hizumitas_vol_5_sustain_5_tone_7.nam");
    reveal_strlit("pedals/earthquaker_hizumitas/18_hizumitas_vol_5_sustain_7_tone_7.nam");
    reveal_strlit("pedals/earthquaker_hizumitas/19_hizumitas_vol_5_sustain_10_tone_7.nam");
    reveal_strlit("pedals/earthquaker_hizumitas/20_hizumitas_vol_5_sustain_0_tone_10.nam");
    reveal_strlit("pedals/earthquaker_hizumitas/21_hizumitas_vol_5_sustain_3_tone_10.nam");
    reveal_strlit("pedals/earthquaker_hizumitas/22_hizumitas_vol_5_sustain_5_tone_10.nam");
    reveal_strlit("pedals/earthquaker_hizumitas/23_hizumitas_vol_5_sustain_7_tone_10.nam");
    reveal_strlit("pedals/earthquaker_hizumitas/24_hizumitas_vol_5_sustain_10_tone_10.nam");
    reveal_strlit("0");
    reveal_strlit("3");
    reveal_strlit("5");
    reveal_strlit("7");
    reveal_strlit("10");
    let t = spec_captures();
    assert forall|i: int, k: int| 0 <= i < t.len() && 0 <= k < t[i].keys.len() implies
        names_value(#[trigger] t[i].model_path@, #[trigger] t[i].keys[k]@) by {
        let path = t[i].model_path@;
        let key = t[i].keys[k]@;
        if i == 0 {
            if k == 0 {
                assert(path.subrange(55int, 55int + key.len()) =~= key);
            } else if k == 1 {
                assert(path.subrange(55int, 55int + key.len()) =~= key);
            }
        } else if i == 1 {
            if k == 0 {
                assert(path.subrange(55int, 55int + key.len()) =~= key);
            } else if k == 1 {
                assert(path.subrange(62int, 62int + key.len()) =~= key);
            }
        } else if i == 2 {
            if k == 0 {
                assert(path.subrange(45int, 45int + key.len()) =~= key);
            } else if k == 1 {
                assert(path.subrange(62int, 62int + key.len()) =~= key);
            }
        } else if i == 3 {
            if k == 0 {
                assert(path.subrange(55int, 55int + key.len()) =~= key);
            } else if k == 1 {
                assert(path.subrange(62int, 62int + key.len()) =~= key);
            }
        } else if i == 4 {
            if k == 0 {
                assert(path.subrange(55int, 55int + key.len()) =~= key);
            } else if k == 1 {
                assert(path.subrange(56int, 56int + key.len()) =~= key);
            }
        } else if i == 5 {
            if k == 0 {
                assert(path.subrange(55int, 55int + key.len()) =~= key);
            } else if k == 1 {
                assert(path.subrange(55int, 55int + key.len()) =~= key);
            }
        } else if i == 6 {
            if k == 0 {
                assert(path.subrange(45int, 45int + key.len()) =~= key);
            } else if k == 1 {
                assert(path.subrange(62int, 62int + key.len()) =~= key);
            }
        } else if i == 7 {
            if k == 0 {
                assert(path.subrange(55int, 55int + key.len()) =~= key);
            } else if k == 1 {
                assert(path.subrange(62int, 62int + key.len()) =~= key);
            }
        } else if i == 8 {
            if k == 0 {
                assert(path.subrange(55int, 55int + key.len()) =~= key);
            } else if k == 1 {
                assert(path.subrange(63int, 63int + key.len()) =~= key);
            }
        } else if i == 9 {
            if k == 0 {
                assert(path.subrange(30int, 30int + key.len()) =~= key);
            } else if k == 1 {
                assert(path.subrange(46int, 46int + key.len()) =~= key);
            }
        } else if i == 10 {
            if k == 0 {
                assert(path.subrange(56int, 56int + key.len()) =~= key);
            } else if k == 1 {
                assert(path.subrange(46int, 46int + key.len()) =~= key);
            }
        } else if i == 11 {
            if k == 0 {
                assert(path.subrange(46int, 46int + key.len()) =~= key);
            } else if k == 1 {
                assert(path.subrange(46int, 46int + key.len()) =~= key);
            }
        } else if i == 12 {
            if k == 0 {
                assert(path.subrange(56int, 56int + key.len()) =~= key);
            } else if k == 1 {
                assert(path.subrange(46int, 46int + key.len()) =~= key);
            }
        } else if i == 13 {
            if k == 0 {
                assert(path.subrange(56int, 56int + key.len()) =~= key);
            } else if k == 1 {
                assert(path.subrange(46int, 46int + key.len()) =~= key);
            }
        } else if i == 14 {
            if k == 0 {
                assert(path.subrange(56int, 56int + key.len()) =~= key);
            } else if k == 1 {
                assert(path.subrange(63int, 63int + key.len()) =~= key);
            }
        } else if i == 15 {
            if k == 0 {
                assert(path.subrange(56int, 56int + key.len()) =~= key);
            } else if k == 1 {
                assert(path.subrange(63int, 63int + key.len()) =~= key);
            }
        } else if i == 16 {
            if k == 0 {
                assert(path.subrange(46int, 46int + key.len()) =~= key);
            } else if k == 1 {
                assert(path.subrange(30int, 30int + key.len()) =~= key);
            }
        } else if i == 17 {
            if k == 0 {
                assert(path.subrange(56int, 56int + key.len()) =~= key);
            } else if k == 1 {
                assert(path.subrange(56int, 56int + key.len()) =~= key);
            }
        } else if i == 18 {
            if k == 0 {
                assert(path.subrange(56int, 56int + key.len()) =~= key);
            } else if k == 1 {
                assert(path.subrange(64int, 64int + key.len()) =~= key);
            }
        } else if i == 19 {
            if k == 0 {
                assert(path.subrange(30int, 30int + key.len()) =~= key);
            } else if k == 1 {
                assert(path.subrange(63int, 63int + key.len()) =~= key);
            }
        } else if i == 20 {
            if k == 0 {
                assert(path.subrange(56int, 56int + key.len()) =~= key);
            } else if k == 1 {
                assert(path.subrange(63int, 63int + key.len()) =~= key);
            }
        } else if i == 21 {
            if k == 0 {
                assert(path.subrange(46int, 46int + key.len()) =~= key);
            } else if k == 1 {
                assert(path.subrange(63int, 63int + key.len()) =~= key);
            }
        } else if i == 22 {
            if k == 0 {
                assert(path.subrange(56int, 56int + key.len()) =~= key);
            } else if k == 1 {
                assert(path.subrange(63int, 63int + key.len()) =~= key);
            }
        } else if i == 23 {
            if k == 0 {
                assert(path.subrange(56int, 56int + key.len()) =~= key);
            } else if k == 1 {
                assert(path.subrange(56int, 56int + key.len()) =~= key);
            }
        }
    }
    assert forall|a: int, b: int| 0 <= a < b < 24 implies t[a].model_path@ != t[b].model_path@ by {
        if a == 0 && b == 1 {
            assert(t[0].model_path@[29] != t[1].model_path@[29]);
        } else if a == 0 && b == 2 {
            assert(t[0].model_path@[29] != t[2].model_path@[29]);
        } else if a == 0 && b == 3 {
            assert(t[0].model_path@[29] != t[3].model_path@[29]);
        } else if a == 0 && b == 4 {
            assert(t[0].model_path@.len() != t[4].model_path@.len());
        } else if a == 0 && b == 5 {
            assert(t[0].model_path@[29] != t[5].model_path@[29]);
        } else if a == 0 && b == 6 {
            assert(t[0].model_path@[29] != t[6].model_path@[29]);
        } else if a == 0 && b == 7 {
            assert(t[0].model_path@[29] != t[7].model_path@[29]);
        } else if a == 0 && b == 8 {
            assert(t[0].model_path@.len() != t[8].model_path@.len());
        } else if a == 0 && b == 9 {
            assert(t[0].model_path@.len() != t[9].model_path@.len());
        } else if a == 0 && b == 10 {
            assert(t[0].model_path@.len() != t[10].model_path@.len());
        } else if a == 0 && b == 11 {
            assert(t[0].model_path@.len() != t[11].model_path@.len());
        } else if a == 0 && b == 12 {
            assert(t[0].model_path@.len() != t[12].model_path@.len());
        } else if a == 0 && b == 13 {
            assert(t[0].model_path@.len() != t[13].model_path@.len());
        } else if a == 0 && b == 14 {
            assert(t[0].model_path@.len() != t[14].model_path@.len());
        } else if a == 0 && b == 15 {
            assert(t[0].model_path@.len() != t[15].model_path@.len());
        } else if a == 0 && b == 16 {
            assert(t[0].model_path@.len() != t[16].model_path@.len());
        } else if a == 0 && b == 17 {
            assert(t[0].model_path@.len() != t[17].model_path@.len());
        } else if a == 0 && b == 18 {
            assert(t[0].model_path@.len() != t[18].model_path@.len());
        } else if a == 0 && b == 19 {
            assert(t[0].model_path@.len() != t[19].model_path@.len());
        } else if a == 0 && b == 20 {
            assert(t[0].model_path@.len() != t[20].model_path@.len());
        } else if a == 0 && b == 21 {
            assert(t[0].model_path@.len() != t[21].model_path@.len());
        } else if a == 0 && b == 22 {
            assert(t[0].model_path@.len() != t[22].model_path@.len());
        } else if a == 0 && b == 23 {
            assert(t[0].model_path@.len() != t[23].model_path@.len());
        } else if a == 1 && b == 2 {
            assert(t[1].model_path@[29] != t[2].model_path@[29]);
        } else if a == 1 && b == 3 {
            assert(t[1].model_path@[29] != t[3].model_path@[29]);
        } else if a == 1 && b == 4 {
            assert(t[1].model_path@.len() != t[4].model_path@.len());
        } else if a == 1 && b == 5 {
            assert(t[1].model_path@[29] != t[5].model_path@[29]);
        } else if a == 1 && b == 6 {
            assert(t[1].model_path@[29] != t[6].model_path@[29]);
        } else if a == 1 && b == 7 {
            assert(t[1].model_path@[29] != t[7].model_path@[29]);
        } else if a == 1 && b == 8 {
            assert(t[1].model_path@.len() != t[8].model_path@.len());
        } else if a == 1 && b == 9 {
            assert(t[1].model_path@.len() != t[9].model_path@.len());
        } else if a == 1 && b == 10 {
            assert(t[1].model_path@.len() != t[10].model_path@.len());
        } else if a == 1 && b == 11 {
            assert(t[1].model_path@.len() != t[11].model_path@.len());
        } else if a == 1 && b == 12 {
            assert(t[1].model_path@.len() != t[12].model_path@.len());
        } else if a == 1 && b == 13 {
            assert(t[1].model_path@.len() != t[13].model_path@.len());
        } else if a == 1 && b == 14 {
            assert(t[1].model_path@.len() != t[14].model_path@.len());
        } else if a == 1 && b == 15 {
            assert(t[1].model_path@.len() != t[15].model_path@.len());
        } else if a == 1 && b == 16 {
            assert(t[1].model_path@.len() != t[16].model_path@.len());
        } else if a == 1 && b == 17 {
            assert(t[1].model_path@.len() != t[17].model_path@.len());
        } else if a == 1 && b == 18 {
            assert(t[1].model_path@.len() != t[18].model_path@.len());
        } else if a == 1 && b == 19 {
            assert(t[1].model_path@.len() != t[19].model_path@.len());
        } else if a == 1 && b == 20 {
            assert(t[1].model_path@.len() != t[20].model_path@.len());
        } else if a == 1 && b == 21 {
            assert(t[1].model_path@.len() != t[21].model_path@.len());
        } else if a == 1 && b == 22 {
            assert(t[1].model_path@.len() != t[22].model_path@.len());
        } else if a == 1 && b == 23 {
            assert(t[1].model_path@.len() != t[23].model_path@.len());
        } else if a == 2 && b == 3 {
            assert(t[2].model_path@[29] != t[3].model_path@[29]);
        } else if a == 2 && b == 4 {
            assert(t[2].model_path@.len() != t[4].model_path@.len());
        } else if a == 2 && b == 5 {
            assert(t[2].model_path@[29] != t[5].model_path@[29]);
        } else if a == 2 && b == 6 {
            assert(t[2].model_path@[29] != t[6].model_path@[29]);
        } else if a == 2 && b == 7 {
            assert(t[2].model_path@[29] != t[7].model_path@[29]);
        } else if a == 2 && b == 8 {
            assert(t[2].model_path@.len() != t[8].model_path@.len());
        } else if a == 2 && b == 9 {
            assert(t[2].model_path@.len() != t[9].model_path@.len());
        } else if a == 2 && b == 10 {
            assert(t[2].model_path@.len() != t[10].model_path@.len());
        } else if a == 2 && b == 11 {
            assert(t[2].model_path@.len() != t[11].model_path@.len());
        } else if a == 2 && b == 12 {
            assert(t[2].model_path@.len() != t[12].model_path@.len());
        } else if a == 2 && b == 13 {
            assert(t[2].model_path@.len() != t[13].model_path@.len());
        } else if a == 2 && b == 14 {
            assert(t[2].model_path@.len() != t[14].model_path@.len());
        } else if a == 2 && b == 15 {
            assert(t[2].model_path@.len() != t[15].model_path@.len());
        } else if a == 2 && b == 16 {
            assert(t[2].model_path@.len() != t[16].model_path@.len());
        } else if a == 2 && b == 17 {
            assert(t[2].model_path@.len() != t[17].model_path@.len());
        } else if a == 2 && b == 18 {
            assert(t[2].model_path@.len() != t[18].model_path@.len());
        } else if a == 2 && b == 19 {
            assert(t[2].model_path@.len() != t[19].model_path@.len());
        } else if a == 2 && b == 20 {
            assert(t[2].model_path@.len() != t[20].model_path@.len());
        } else if a == 2 && b == 21 {
            assert(t[2].model_path@.len() != t[21].model_path@.len());
        } else if a == 2 && b == 22 {
            assert(t[2].model_path@.len() != t[22].model_path@.len());
        } else if a == 2 && b == 23 {
            assert(t[2].model_path@.len() != t[23].model_path@.len());
        } else if a == 3 && b == 4 {
            assert(t[3].model_path@.len() != t[4].model_path@.len());
        } else if a == 3 && b == 5 {
            assert(t[3].model_path@[29] != t[5].model_path@[29]);
        } else if a == 3 && b == 6 {
            assert(t[3].model_path@[29] != t[6].model_path@[29]);
        } else if a == 3 && b == 7 {
            assert(t[3].model_path@[29] != t[7].model_path@[29]);
        } else if a == 3 && b == 8 {
            assert(t[3].model_path@.len() != t[8].model_path@.len());
        } else if a == 3 && b == 9 {
            assert(t[3].model_path@.len() != t[9].model_path@.len());
        } else if a == 3 && b == 10 {
            assert(t[3].model_path@.len() != t[10].model_path@.len());
        } else if a == 3 && b == 11 {
            assert(t[3].model_path@.len() != t[11].model_path@.len());
        } else if a == 3 && b == 12 {
            assert(t[3].model_path@.len() != t[12].model_path@.len());
        } else if a == 3 && b == 13 {
            assert(t[3].model_path@.len() != t[13].model_path@.len());
        } else if a == 3 && b == 14 {
            assert(t[3].model_path@.len() != t[14].model_path@.len());
        } else if a == 3 && b == 15 {
            assert(t[3].model_path@.len() != t[15].model_path@.len());
        } else if a == 3 && b == 16 {
            assert(t[3].model_path@.len() != t[16].model_path@.len());
        } else if a == 3 && b == 17 {
            assert(t[3].model_path@.len() != t[17].model_path@.len());
        } else if a == 3 && b == 18 {
            assert(t[3].model_path@.len() != t[18].model_path@.len());
        } else if a == 3 && b == 19 {
            assert(t[3].model_path@.len() != t[19].model_path@.len());
        } else if a == 3 && b == 20 {
            assert(t[3].model_path@.len() != t[20].model_path@.len());
        } else if a == 3 && b == 21 {
            assert(t[3].model_path@.len() != t[21].model_path@.len());
        } else if a == 3 && b == 22 {
            assert(t[3].model_path@.len() != t[22].model_path@.len());
        } else if a == 3 && b == 23 {
            assert(t[3].model_path@.len() != t[23].model_path@.len());
        } else if a == 4 && b == 5 {
            assert(t[4].model_path@.len() != t[5].model_path@.len());
        } else if a == 4 && b == 6 {
            assert(t[4].model_path@.len() != t[6].model_path@.len());
        } else if a == 4 && b == 7 {
            assert(t[4].model_path@.len() != t[7].model_path@.len());
        } else if a == 4 && b == 8 {
            assert(t[4].model_path@[29] != t[8].model_path@[29]);
        } else if a == 4 && b == 9 {
            assert(t[4].model_path@[29] != t[9].model_path@[29]);
        } else if a == 4 && b == 10 {
            assert(t[4].model_path@[29] != t[10].model_path@[29]);
        } else if a == 4 && b == 11 {
            assert(t[4].model_path@[29] != t[11].model_path@[29]);
        } else if a == 4 && b == 12 {
            assert(t[4].model_path@[29] != t[12].model_path@[29]);
        } else if a == 4 && b == 13 {
            assert(t[4].model_path@.len() != t[13].model_path@.len());
        } else if a == 4 && b == 14 {
            assert(t[4].model_path@[29] != t[14].model_path@[29]);
        } else if a == 4 && b == 15 {
            assert(t[4].model_path@[29] != t[15].model_path@[29]);
        } else if a == 4 && b == 16 {
            assert(t[4].model_path@[29] != t[16].model_path@[29]);
        } else if a == 4 && b == 17 {
            assert(t[4].model_path@[29] != t[17].model_path@[29]);
        } else if a == 4 && b == 18 {
            assert(t[4].model_path@.len() != t[18].model_path@.len());
        } else if a == 4 && b == 19 {
            assert(t[4].model_path@.len() != t[19].model_path@.len());
        } else if a == 4 && b == 20 {
            assert(t[4].model_path@.len() != t[20].model_path@.len());
        } else if a == 4 && b == 21 {
            assert(t[4].model_path@.len() != t[21].model_path@.len());
        } else if a == 4 && b == 22 {
            assert(t[4].model_path@.len() != t[22].model_path@.len());
        } else if a == 4 && b == 23 {
            assert(t[4].model_path@.len() != t[23].model_path@.len());
        } else if a == 5 && b == 6 {
            assert(t[5].model_path@[29] != t[6].model_path@[29]);
        } else if a == 5 && b == 7 {
            assert(t[5].model_path@[29] != t[7].model_path@[29]);
        } else if a == 5 && b == 8 {
            assert(t[5].model_path@.len() != t[8].model_path@.len());
        } else if a == 5 && b == 9 {
            assert(t[5].model_path@.len() != t[9].model_path@.len());
        } else if a == 5 && b == 10 {
            assert(t[5].model_path@.len() != t[10].model_path@.len());
        } else if a == 5 && b == 11 {
            assert(t[5].model_path@.len() != t[11].model_path@.len());
        } else if a == 5 && b == 12 {
            assert(t[5].model_path@.len() != t[12].model_path@.len());
        } else if a == 5 && b == 13 {
            assert(t[5].model_path@.len() != t[13].model_path@.len());
        } else if a == 5 && b == 14 {
            assert(t[5].model_path@.len() != t[14].model_path@.len());
        } else if a == 5 && b == 15 {
            assert(t[5].model_path@.len() != t[15].model_path@.len());
        } else if a == 5 && b == 16 {
            assert(t[5].model_path@.len() != t[16].model_path@.len());
        } else if a == 5 && b == 17 {
            assert(t[5].model_path@.len() != t[17].model_path@.len());
        } else if a == 5 && b == 18 {
            assert(t[5].model_path@.len() != t[18].model_path@.len());
        } else if a == 5 && b == 19 {
            assert(t[5].model_path@.len() != t[19].model_path@.len());
        } else if a == 5 && b == 20 {
            assert(t[5].model_path@.len() != t[20].model_path@.len());
        } else if a == 5 && b == 21 {
            assert(t[5].model_path@.len() != t[21].model_path@.len());
        } else if a == 5 && b == 22 {
            assert(t[5].model_path@.len() != t[22].model_path@.len());
        } else if a == 5 && b == 23 {
            assert(t[5].model_path@.len() != t[23].model_path@.len());
        } else if a == 6 && b == 7 {
            assert(t[6].model_path@[29] != t[7].model_path@[29]);
        } else if a == 6 && b == 8 {
            assert(t[6].model_path@.len() != t[8].model_path@.len());
        } else if a == 6 && b == 9 {
            assert(t[6].model_path@.len() != t[9].model_path@.len());
        } else if a == 6 && b == 10 {
            assert(t[6].model_path@.len() != t[10].model_path@.len());
        } else if a == 6 && b == 11 {
            assert(t[6].model_path@.len() != t[11].model_path@.len());
        } else if a == 6 && b == 12 {
            assert(t[6].model_path@.len() != t[12].model_path@.len());
        } else if a == 6 && b == 13 {
            assert(t[6].model_path@.len() != t[13].model_path@.len());
        } else if a == 6 && b == 14 {
            assert(t[6].model_path@.len() != t[14].model_path@.len());
        } else if a == 6 && b == 15 {
            assert(t[6].model_path@.len() != t[15].model_path@.len());
        } else if a == 6 && b == 16 {
            assert(t[6].model_path@.len() != t[16].model_path@.len());
        } else if a == 6 && b == 17 {
            assert(t[6].model_path@.len() != t[17].model_path@.len());
        } else if a == 6 && b == 18 {
            assert(t[6].model_path@.len() != t[18].model_path@.len());
        } else if a == 6 && b == 19 {
            assert(t[6].model_path@.len() != t[19].model_path@.len());
        } else if a == 6 && b == 20 {
            assert(t[6].model_path@.len() != t[20].model_path@.len());
        } else if a == 6 && b == 21 {
            assert(t[6].model_path@.len() != t[21].model_path@.len());
        } else if a == 6 && b == 22 {
            assert(t[6].model_path@.len() != t[22].model_path@.len());
        } else if a == 6 && b == 23 {
            assert(t[6].model_path@.len() != t[23].model_path@.len());
        } else if a == 7 && b == 8 {
            assert(t[7].model_path@.len() != t[8].model_path@.len());
        } else if a == 7 && b == 9 {
            assert(t[7].model_path@.len() != t[9].model_path@.len());
        } else if a == 7 && b == 10 {
            assert(t[7].model_path@.len() != t[10].model_path@.len());
        } else if a == 7 && b == 11 {
            assert(t[7].model_path@.len() != t[11].model_path@.len());
        } else if a == 7 && b == 12 {
            assert(t[7].model_path@.len() != t[12].model_path@.len());
        } else if a == 7 && b == 13 {
            assert(t[7].model_path@.len() != t[13].model_path@.len());
        } else if a == 7 && b == 14 {
            assert(t[7].model_path@.len() != t[14].model_path@.len());
        } else if a == 7 && b == 15 {
            assert(t[7].model_path@.len() != t[15].model_path@.len());
        } else if a == 7 && b == 16 {
            assert(t[7].model_path@.len() != t[16].model_path@.len());
        } else if a == 7 && b == 17 {
            assert(t[7].model_path@.len() != t[17].model_path@.len());
        } else if a == 7 && b == 18 {
            assert(t[7].model_path@.len() != t[18].model_path@.len());
        } else if a == 7 && b == 19 {
            assert(t[7].model_path@.len() != t[19].model_path@.len());
        } else if a == 7 && b == 20 {
            assert(t[7].model_path@.len() != t[20].model_path@.len());
        } else if a == 7 && b == 21 {
            assert(t[7].model_path@.len() != t[21].model_path@.len());
        } else if a == 7 && b == 22 {
            assert(t[7].model_path@.len() != t[22].model_path@.len());
        } else if a == 7 && b == 23 {
            assert(t[7].model_path@.len() != t[23].model_path@.len());
        } else if a == 8 && b == 9 {
            assert(t[8].model_path@[29] != t[9].model_path@[29]);
        } else if a == 8 && b == 10 {
            assert(t[8].model_path@[29] != t[10].model_path@[29]);
        } else if a == 8 && b == 11 {
            assert(t[8].model_path@[29] != t[11].model_path@[29]);
        } else if a == 8 && b == 12 {
            assert(t[8].model_path@[29] != t[12].model_path@[29]);
        } else if a == 8 && b == 13 {
            assert(t[8].model_path@.len() != t[13].model_path@.len());
        } else if a == 8 && b == 14 {
            assert(t[8].model_path@[29] != t[14].model_path@[29]);
        } else if a == 8 && b == 15 {
            assert(t[8].model_path@[29] != t[15].model_path@[29]);
        } else if a == 8 && b == 16 {
            assert(t[8].model_path@[29] != t[16].model_path@[29]);
        } else if a == 8 && b == 17 {
            assert(t[8].model_path@[29] != t[17].model_path@[29]);
        } else if a == 8 && b == 18 {
            assert(t[8].model_path@.len() != t[18].model_path@.len());
        } else if a == 8 && b == 19 {
            assert(t[8].model_path@.len() != t[19].model_path@.len());
        } else if a == 8 && b == 20 {
            assert(t[8].model_path@.len() != t[20].model_path@.len());
        } else if a == 8 && b == 21 {
            assert(t[8].model_path@.len() != t[21].model_path@.len());
        } else if a == 8 && b == 22 {
            assert(t[8].model_path@.len() != t[22].model_path@.len());
        } else if a == 8 && b == 23 {
            assert(t[8].model_path@.len() != t[23].model_path@.len());
        } else if a == 9 && b == 10 {
            assert(t[9].model_path@[30] != t[10].model_path@[30]);
        } else if a == 9 && b == 11 {
            assert(t[9].model_path@[30] != t[11].model_path@[30]);
        } else if a == 9 && b == 12 {
            assert(t[9].model_path@[30] != t[12].model_path@[30]);
        } else if a == 9 && b == 13 {
            assert(t[9].model_path@.len() != t[13].model_path@.len());
        } else if a == 9 && b == 14 {
            assert(t[9].model_path@[30] != t[14].model_path@[30]);
        } else if a == 9 && b == 15 {
            assert(t[9].model_path@[30] != t[15].model_path@[30]);
        } else if a == 9 && b == 16 {
            assert(t[9].model_path@[30] != t[16].model_path@[30]);
        } else if a == 9 && b == 17 {
            assert(t[9].model_path@[30] != t[17].model_path@[30]);
        } else if a == 9 && b == 18 {
            assert(t[9].model_path@.len() != t[18].model_path@.len());
        } else if a == 9 && b == 19 {
            assert(t[9].model_path@.len() != t[19].model_path@.len());
        } else if a == 9 && b == 20 {
            assert(t[9].model_path@.len() != t[20].model_path@.len());
        } else if a == 9 && b == 21 {
            assert(t[9].model_path@.len() != t[21].model_path@.len());
        } else if a == 9 && b == 22 {
            assert(t[9].model_path@.len() != t[22].model_path@.len());
        } else if a == 9 && b == 23 {
            assert(t[9].model_path@.len() != t[23].model_path@.len());
        } else if a == 10 && b == 11 {
            assert(t[10].model_path@[30] != t[11].model_path@[30]);
        } else if a == 10 && b == 12 {
            assert(t[10].model_path@[30] != t[12].model_path@[30]);
        } else if a == 10 && b == 13 {
            assert(t[10].model_path@.len() != t[13].model_path@.len());
        } else if a == 10 && b == 14 {
            assert(t[10].model_path@[30] != t[14].model_path@[30]);
        } else if a == 10 && b == 15 {
            assert(t[10].model_path@[30] != t[15].model_path@[30]);
        } else if a == 10 && b == 16 {
            assert(t[10].model_path@[30] != t[16].model_path@[30]);
        } else if a == 10 && b == 17 {
            assert(t[10].model_path@[30] != t[17].model_path@[30]);
        } else if a == 10 && b == 18 {
            assert(t[10].model_path@.len() != t[18].model_path@.len());
        } else if a == 10 && b == 19 {
            assert(t[10].model_path@.len() != t[19].model_path@.len());
        } else if a == 10 && b == 20 {
            assert(t[10].model_path@.len() != t[20].model_path@.len());
        } else if a == 10 && b == 21 {
            assert(t[10].model_path@.len() != t[21].model_path@.len());
        } else if a == 10 && b == 22 {
            assert(t[10].model_path@.len() != t[22].model_path@.len());
        } else if a == 10 && b == 23 {
            assert(t[10].model_path@.len() != t[23].model_path@.len());
        } else if a == 11 && b == 12 {
            assert(t[11].model_path@[30] != t[12].model_path@[30]);
        } else if a == 11 && b == 13 {
            assert(t[11].model_path@.len() != t[13].model_path@.len());
        } else if a == 11 && b == 14 {
            assert(t[11].model_path@[30] != t[14].model_path@[30]);
        } else if a == 11 && b == 15 {
            assert(t[11].model_path@[30] != t[15].model_path@[30]);
        } else if a == 11 && b == 16 {
            assert(t[11].model_path@[30] != t[16].model_path@[30]);
        } else if a == 11 && b == 17 {
            assert(t[11].model_path@[30] != t[17].model_path@[30]);
        } else if a == 11 && b == 18 {
            assert(t[11].model_path@.len() != t[18].model_path@.len());
        } else if a == 11 && b == 19 {
            assert(t[11].model_path@.len() != t[19].model_path@.len());
        } else if a == 11 && b == 20 {
            assert(t[11].model_path@.len() != t[20].model_path@.len());
        } else if a == 11 && b == 21 {
            assert(t[11].model_path@.len() != t[21].model_path@.len());
        } else if a == 11 && b == 22 {
            assert(t[11].model_path@.len() != t[22].model_path@.len());
        } else if a == 11 && b == 23 {
            assert(t[11].model_path@.len() != t[23].model_path@.len());
        } else if a == 12 && b == 13 {
            assert(t[12].model_path@.len() != t[13].model_path@.len());
        } else if a == 12 && b == 14 {
            assert(t[12].model_path@[30] != t[14].model_path@[30]);
        } else if a == 12 && b == 15 {
            assert(t[12].model_path@[30] != t[15].model_path@[30]);
        } else if a == 12 && b == 16 {
            assert(t[12].model_path@[30] != t[16].model_path@[30]);
        } else if a == 12 && b == 17 {
            assert(t[12].model_path@[30] != t[17].model_path@[30]);
        } else if a == 12 && b == 18 {
            assert(t[12].model_path@.len() != t[18].model_path@.len());
        } else if a == 12 && b == 19 {
            assert(t[12].model_path@.len() != t[19].model_path@.len());
        } else if a == 12 && b == 20 {
            assert(t[12].model_path@.len() != t[20].model_path@.len());
        } else if a == 12 && b == 21 {
            assert(t[12].model_path@.len() != t[21].model_path@.len());
        } else if a == 12 && b == 22 {
            assert(t[12].model_path@.len() != t[22].model_path@.len());
        } else if a == 12 && b == 23 {
            assert(t[12].model_path@.len() != t[23].model_path@.len());
        } else if a == 13 && b == 14 {
            assert(t[13].model_path@.len() != t[14].model_path@.len());
        } else if a == 13 && b == 15 {
            assert(t[13].model_path@.len() != t[15].model_path@.len());
        } else if a == 13 && b == 16 {
            assert(t[13].model_path@.len() != t[16].model_path@.len());
        } else if a == 13 && b == 17 {
            assert(t[13].model_path@.len() != t[17].model_path@.len());
        } else if a == 13 && b == 18 {
            assert(t[13].model_path@[30] != t[18].model_path@[30]);
        } else if a == 13 && b == 19 {
            assert(t[13].model_path@[29] != t[19].model_path@[29]);
        } else if a == 13 && b == 20 {
            assert(t[13].model_path@[29] != t[20].model_path@[29]);
        } else if a == 13 && b == 21 {
            assert(t[13].model_path@[29] != t[21].model_path@[29]);
        } else if a == 13 && b == 22 {
            assert(t[13].model_path@[29] != t[22].model_path@[29]);
        } else if a == 13 && b == 23 {
            assert(t[13].model_path@.len() != t[23].model_path@.len());
        } else if a == 14 && b == 15 {
            assert(t[14].model_path@[30] != t[15].model_path@[30]);
        } else if a == 14 && b == 16 {
            assert(t[14].model_path@[30] != t[16].model_path@[30]);
        } else if a == 14 && b == 17 {
            assert(t[14].model_path@[30] != t[17].model_path@[30]);
        } else if a == 14 && b == 18 {
            assert(t[14].model_path@.len() != t[18].model_path@.len());
        } else if a == 14 && b == 19 {
            assert(t[14].model_path@.len() != t[19].model_path@.len());
        } else if a == 14 && b == 20 {
            assert(t[14].model_path@.len() != t[20].model_path@.len());
        } else if a == 14 && b == 21 {
            assert(t[14].model_path@.len() != t[21].model_path@.len());
        } else if a == 14 && b == 22 {
            assert(t[14].model_path@.len() != t[22].model_path@.len());
        } else if a == 14 && b == 23 {
            assert(t[14].model_path@.len() != t[23].model_path@.len());
        } else if a == 15 && b == 16 {
            assert(t[15].model_path@[30] != t[16].model_path@[30]);
        } else if a == 15 && b == 17 {
            assert(t[15].model_path@[30] != t[17].model_path@[30]);
        } else if a == 15 && b == 18 {
            assert(t[15].model_path@.len() != t[18].model_path@.len());
        } else if a == 15 && b == 19 {
            assert(t[15].model_path@.len() != t[19].model_path@.len());
        } else if a == 15 && b == 20 {
            assert(t[15].model_path@.len() != t[20].model_path@.len());
        } else if a == 15 && b == 21 {
            assert(t[15].model_path@.len() != t[21].model_path@.len());
        } else if a == 15 && b == 22 {
            assert(t[15].model_path@.len() != t[22].model_path@.len());
        } else if a == 15 && b == 23 {
            assert(t[15].model_path@.len() != t[23].model_path@.len());
        } else if a == 16 && b == 17 {
            assert(t[16].model_path@[30] != t[17].model_path@[30]);
        } else if a == 16 && b == 18 {
            assert(t[16].model_path@.len() != t[18].model_path@.len());
        } else if a == 16 && b == 19 {
            assert(t[16].model_path@.len() != t[19].model_path@.len());
        } else if a == 16 && b == 20 {
            assert(t[16].model_path@.len() != t[20].model_path@.len());
        } else if a == 16 && b == 21 {
            assert(t[16].model_path@.len() != t[21].model_path@.len());
        } else if a == 16 && b == 22 {
            assert(t[16].model_path@.len() != t[22].model_path@.len());
        } else if a == 16 && b == 23 {
            assert(t[16].model_path@.len() != t[23].model_path@.len());
        } else if a == 17 && b == 18 {
            assert(t[17].model_path@.len() != t[18].model_path@.len());
        } else if a == 17 && b == 19 {
            assert(t[17].model_path@.len() != t[19].model_path@.len());
        } else if a == 17 && b == 20 {
            assert(t[17].model_path@.len() != t[20].model_path@.len());
        } else if a == 17 && b == 21 {
            assert(t[17].model_path@.len() != t[21].model_path@.len());
        } else if a == 17 && b == 22 {
            assert(t[17].model_path@.len() != t[22].model_path@.len());
        } else if a == 17 && b == 23 {
            assert(t[17].model_path@.len() != t[23].model_path@.len());
        } else if a == 18 && b == 19 {
            assert(t[18].model_path@[29] != t[19].model_path@[29]);
        } else if a == 18 && b == 20 {
            assert(t[18].model_path@[29] != t[20].model_path@[29]);
        } else if a == 18 && b == 21 {
            assert(t[18].model_path@[29] != t[21].model_path@[29]);
        } else if a == 18 && b == 22 {
            assert(t[18].model_path@[29] != t[22].model_path@[29]);
        } else if a == 18 && b == 23 {
            assert(t[18].model_path@.len() != t[23].model_path@.len());
        } else if a == 19 && b == 20 {
            assert(t[19].model_path@[30] != t[20].model_path@[30]);
        } else if a == 19 && b == 21 {
            assert(t[19].model_path@[30] != t[21].model_path@[30]);
        } else if a == 19 && b == 22 {
            assert(t[19].model_path@[30] != t[22].model_path@[30]);
        } else if a == 19 && b == 23 {
            assert(t[19].model_path@.len() != t[23].model_path@.len());
        } else if a == 20 && b == 21 {
            assert(t[20].model_path@[30] != t[21].model_path@[30]);
        } else if a == 20 && b == 22 {
            assert(t[20].model_path@[30] != t[22].model_path@[30]);
        } else if a == 20 && b == 23 {
            assert(t[20].model_path@.len() != t[23].model_path@.len());
        } else if a == 21 && b == 22 {
            assert(t[21].model_path@[30] != t[22].model_path@[30]);
        } else if a == 21 && b == 23 {
            assert(t[21].model_path@.len() != t[23].model_path@.len());
        } else if a == 22 && b == 23 {
            assert(t[22].model_path@.len() != t[23].model_path@.len());
        }
    }
}

/// Every capture names a file that writes each value of its setting in its
/// own place, between the texts that mark that place in the file name.
pub proof fn lemma_files_write_settings()
    ensures
        forall|i: int| 0 <= i < spec_captures().len() ==> {
            &&& names_value((#[trigger] spec_captures()[i]).model_path@, "l_5_sustain_"@ + spec_captures()[i].keys[0]@ + "_tone_"@)
            &&& names_value((#[trigger] spec_captures()[i]).model_path@, "_tone_"@ + spec_captures()[i].keys[1]@ + ".nam"@)
        },
{
    reveal_strlit("l_5_sustain_");
    reveal_strlit("_tone_");
    reveal_strlit("_tone_");
    reveal_strlit(".nam");
    reveal_strlit("pedals/earthquaker_hizumitas/1_hizumitas_vol_5_sustain_0_tone_0.nam");
    reveal_strlit("pedals/earthquaker_hizumitas/2_hizumitas_vol_5_sustain_3_tone_0.nam");
    reveal_strlit("pedals/earthquaker_hizumitas/3_hizumitas_vol_5_sustain_5_tone_0.nam");
    reveal_strlit("pedals/earthquaker_hizumitas/4_hizumitas_vol_5_sustain_7_tone_0.nam");
    reveal_strlit("pedals/earthquaker_hizumitas/5_hizumitas_vol_5_sustain_10_tone_0.nam");
    reveal_strlit("pedals/earthquaker_hizumitas/6_hizumitas_vol_5_sustain_3_tone_3.nam");
    reveal_strlit("pedals/earthquaker_hizumitas/7_hizumitas_vol_5_sustain_5_tone_3.nam");
    reveal_strlit("pedals/earthquaker_hizumitas/8_hizumitas_vol_5_sustain_7_tone_3.nam");
    reveal_strlit("pedals/earthquaker_hizumitas/9_hizumitas_vol_5_sustain_10_tone_3.nam");
    reveal_strlit("pedals/earthquaker_hizumitas/10_hizumitas_vol_5_sustain_0_tone_5.nam");
    reveal_strlit("pedals/earthquaker_hizumitas/11_hizumitas_vol_5_sustain_3_tone_5.nam");
    reveal_strlit("pedals/earthquaker_hizumitas/12_hizumitas_vol_5_sustain_5_tone_5.nam");
    reveal_strlit("pedals/earthquaker_hizumitas/13_hizumitas_vol_5_sustain_7_tone_5.nam");
    reveal_strlit("pedals/earthquaker_hizumitas/14_hizumitas_vol_5_sustain_10_tone_5.nam");
    reveal_strlit("pedals/earthquaker_hizumitas/15_hizumitas_vol_5_sustain_0_tone_7.nam");
    reveal_strlit("pedals/earthquaker_hizumitas/16_hizumitas_vol_5_sustain_3_tone_7.nam");
    reveal_strlit("pedals/earthquaker_hizumitas/17_hizumitas_vol_5_sustain_5_tone_7.nam");
    reveal_strlit("pedals/earthquaker_hizumitas/18_hizumitas_vol_5_sustain_7_tone_7.nam");
    reveal_strlit("pedals/earthquaker_hizumitas/19_hizumitas_vol_5_sustain_10_tone_7.nam");
    reveal_strlit("pedals/earthquaker_hizumitas/20_hizumitas_vol_5_sustain_0_tone_10.nam");
    reveal_strlit("pedals/earthquaker_hizumitas/21_hizumitas_vol_5_sustain_3_tone_10.nam");
    reveal_strlit("pedals/earthquaker_hizumitas/22_hizumitas_vol_5_sustain_5_tone_10.nam");
    reveal_strlit("pedals/earthquaker_hizumitas/23_hizumitas_vol_5_sustain_7_tone_10.nam");
    reveal_strlit("pedals/earthquaker_hizumitas/24_hizumitas_vol_5_sustain_10_tone_10.nam");
    reveal_strlit("0");
    reveal_strlit("3");
    reveal_strlit("5");
    reveal_strlit("7");
    reveal_strlit("10");
    let t = spec_captures();
    assert forall|i: int| 0 <= i < t.len() implies {
        &&& names_value((#[trigger] t[i]).model_path@, "l_5_sustain_"@ + t[i].keys[0]@ + "_tone_"@)
        &&& names_value((#[trigger] t[i]).model_path@, "_tone_"@ + t[i].keys[1]@ + ".nam"@)
    } by {
        let path = t[i].model_path@;
        if i == 0 {
            let v0 = "l_5_sustain_"@ + t[i].keys[0]@ + "_tone_"@;
            assert(path.subrange(43int, 43int + v0.len()) =~= v0);
            let v1 = "_tone_"@ + t[i].keys[1]@ + ".nam"@;
            assert(path.subrange(56int, 56int + v1.len()) =~= v1);
        } else if i == 1 {
            let v0 = "l_5_sustain_"@ + t[i].keys[0]@ + "_tone_"@;
            assert(path.subrange(43int, 43int + v0.len()) =~= v0);
            let v1 = "_tone_"@ + t[i].keys[1]@ + ".nam"@;
            assert(path.subrange(56int, 56int + v1.len()) =~= v1);
        } else if i == 2 {
            let v0 = "l_5_sustain_"@ + t[i].keys[0]@ + "_tone_"@;
            assert(path.subrange(43int, 43int + v0.len()) =~= v0);
            let v1 = "_tone_"@ + t[i].keys[1]@ + ".nam"@;
            assert(path.subrange(56int, 56int + v1.len()) =~= v1);
        } else if i == 3 {
            let v0 = "l_5_sustain_"@ + t[i].keys[0]@ + "_tone_"@;
            assert(path.subrange(43int, 43int + v0.len()) =~= v0);
            let v1 = "_tone_"@ + t[i].keys[1]@ + ".nam"@;
            assert(path.subrange(56int, 56int + v1.len()) =~= v1);
        } else if i == 4 {
            let v0 = "l_5_sustain_"@ + t[i].keys[0]@ + "_tone_"@;
            assert(path.subrange(43int, 43int + v0.len()) =~= v0);
            let v1 = "_tone_"@ + t[i].keys[1]@ + ".nam"@;
            assert(path.subrange(57int, 57int + v1.len()) =~= v1);
        } else if i == 5 {
            let v0 = "l_5_sustain_"@ + t[i].keys[0]@ + "_tone_"@;
            assert(path.subrange(43int, 43int + v0.len()) =~= v0);
            let v1 = "_tone_"@ + t[i].keys[1]@ + ".nam"@;
            assert(path.subrange(56int, 56int + v1.len()) =~= v1);
        } else if i == 6 {
            let v0 = "l_5_sustain_"@ + t[i].keys[0]@ + "_tone_"@;
            assert(path.subrange(43int, 43int + v0.len()) =~= v0);
            let v1 = "_tone_"@ + t[i].keys[1]@ + ".nam"@;
            assert(path.subrange(56int, 56int + v1.len()) =~= v1);
        } else if i == 7 {
            let v0 = "l_5_sustain_"@ + t[i].keys[0]@ + "_tone_"@;
            assert(path.subrange(43int, 43int + v0.len()) =~= v0);
            let v1 = "_tone_"@ + t[i].keys[1]@ + ".nam"@;
            assert(path.subrange(56int, 56int + v1.len()) =~= v1);
        } else if i == 8 {
            let v0 = "l_5_sustain_"@ + t[i].keys[0]@ + "_tone_"@;
            assert(path.subrange(43int, 43int + v0.len()) =~= v0);
            let v1 = "_tone_"@ + t[i].keys[1]@ + ".nam"@;
            assert(path.subrange(57int, 57int + v1.len()) =~= v1);
        } else if i == 9 {
            let v0 = "l_5_sustain_"@ + t[i].keys[0]@ + "_tone_"@;
            assert(path.subrange(44int, 44int + v0.len()) =~= v0);
            let v1 = "_tone_"@ + t[i].keys[1]@ + ".nam"@;
            assert(path.subrange(57int, 57int + v1.len()) =~= v1);
        } else if i == 10 {
            let v0 = "l_5_sustain_"@ + t[i].keys[0]@ + "_tone_"@;
            assert(path.subrange(44int, 44int + v0.len()) =~= v0);
            let v1 = "_tone_"@ + t[i].keys[1]@ + ".nam"@;
            assert(path.subrange(57int, 57int + v1.len()) =~= v1);
        } else if i == 11 {
            let v0 = "l_5_sustain_"@ + t[i].keys[0]@ + "_tone_"@;
            assert(path.subrange(44int, 44int + v0.len()) =~= v0);
            let v1 = "_tone_"@ + t[i].keys[1]@ + ".nam"@;
            assert(path.subrange(57int, 57int + v1.len()) =~= v1);
        } else if i == 12 {
            let v0 = "l_5_sustain_"@ + t[i].keys[0]@ + "_tone_"@;
            assert(path.subrange(44int, 44int + v0.len()) =~= v0);
            let v1 = "_tone_"@ + t[i].keys[1]@ + ".nam"@;
            assert(path.subrange(57int, 57int + v1.len()) =~= v1);
        } else if i == 13 {
            let v0 = "l_5_sustain_"@ + t[i].keys[0]@ + "_tone_"@;
            assert(path.subrange(44int, 44int + v0.len()) =~= v0);
            let v1 = "_tone_"@ + t[i].keys[1]@ + ".nam"@;
            assert(path.subrange(58int, 58int + v1.len()) =~= v1);
        } else if i == 14 {
            let v0 = "l_5_sustain_"@ + t[i].keys[0]@ + "_tone_"@;
            assert(path.subrange(44int, 44int + v0.len()) =~= v0);
            let v1 = "_tone_"@ + t[i].keys[1]@ + ".nam"@;
            assert(path.subrange(57int, 57int + v1.len()) =~= v1);
        } else if i == 15 {
            let v0 = "l_5_sustain_"@ + t[i].keys[0]@ + "_tone_"@;
            assert(path.subrange(44int, 44int + v0.len()) =~= v0);
            let v1 = "_tone_"@ + t[i].keys[1]@ + ".nam"@;
            assert(path.subrange(57int, 57int + v1.len()) =~= v1);
        } else if i == 16 {
            let v0 = "l_5_sustain_"@ + t[i].keys[0]@ + "_tone_"@;
            assert(path.subrange(44int, 44int + v0.len()) =~= v0);
            let v1 = "_tone_"@ + t[i].keys[1]@ + ".nam"@;
            assert(path.subrange(57int, 57int + v1.len()) =~= v1);
        } else if i == 17 {
            let v0 = "l_5_sustain_"@ + t[i].keys[0]@ + "_tone_"@;
            assert(path.subrange(44int, 44int + v0.len()) =~= v0);
            let v1 = "_tone_"@ + t[i].keys[1]@ + ".nam"@;
            assert(path.subrange(57int, 57int + v1.len()) =~= v1);
        } else if i == 18 {
            let v0 = "l_5_sustain_"@ + t[i].keys[0]@ + "_tone_"@;
            assert(path.subrange(44int, 44int + v0.len()) =~= v0);
            let v1 = "_tone_"@ + t[i].keys[1]@ + ".nam"@;
            assert(path.subrange(58int, 58int + v1.len()) =~= v1);
        } else if i == 19 {
            let v0 = "l_5_sustain_"@ + t[i].keys[0]@ + "_tone_"@;
            assert(path.subrange(44int, 44int + v0.len()) =~= v0);
            let v1 = "_tone_"@ + t[i].keys[1]@ + ".nam"@;
            assert(path.subrange(57int, 57int + v1.len()) =~= v1);
        } else if i == 20 {
            let v0 = "l_5_sustain_"@ + t[i].keys[0]@ + "_tone_"@;
            assert(path.subrange(44int, 44int + v0.len()) =~= v0);
            let v1 = "_tone_"@ + t[i].keys[1]@ + ".nam"@;
            assert(path.subrange(57int, 57int + v1.len()) =~= v1);
        } else if i == 21 {
            let v0 = "l_5_sustain_"@ + t[i].keys[0]@ + "_tone_"@;
            assert(path.subrange(44int, 44int + v0.len()) =~= v0);
            let v1 = "_tone_"@ + t[i].keys[1]@ + ".nam"@;
            assert(path.subrange(57int, 57int + v1.len()) =~= v1);
        } else if i == 22 {
            let v0 = "l_5_sustain_"@ + t[i].keys[0]@ + "_tone_"@;
            assert(path.subrange(44int, 44int + v0.len()) =~= v0);
            let v1 = "_tone_"@ + t[i].keys[1]@ + ".nam"@;
            assert(path.subrange(57int, 57int + v1.len()) =~= v1);
        } else if i == 23 {
            let v0 = "l_5_sustain_"@ + t[i].keys[0]@ + "_tone_"@;
            assert(path.subrange(44int, 44int + v0.len()) =~= v0);
            let v1 = "_tone_"@ + t[i].keys[1]@ + ".nam"@;
            assert(path.subrange(58int, 58int + v1.len()) =~= v1);
        }
    }
}

} // verus!
