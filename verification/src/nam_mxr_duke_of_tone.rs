//! The "MXR Duke of Tone" gain model (mxr), played from neural captures, one per recorded setting.

use vstd::prelude::*;
use crate::capture::{
    names_value, files_name_settings, files_distinct,
    Capture, CaptureView, table_view, find_capture, first_selected, asset_text, lemma_first_selected,
    lemma_selected_at, captures_follow_schema, default_setting, defaults_present, captures_distinct,
    every_setting_selects, setting_of_choices,
};
use crate::error::GainError;
use crate::model::{BackendKind, Instruments, KnobLayoutEntry, ModelDefinition, ModelDefinitionView};
use crate::schema::{
    EffectType, EnumChoice, ModelSchema, ModelSchemaView, ParameterKindView, ParameterSpecView,
    choice, enum_parameter, parameters_view, schema_well_formed, choices_at, str_texts, is_choice,
    parameter_well_formed, choice_values, parameter_paths,
};
use crate::text::{concat, join, texts};

verus! {

pub const MODEL_ID: &'static str = "nam_mxr_duke_of_tone";
pub const DISPLAY_NAME: &'static str = "MXR Duke of Tone";
pub const BRAND: &'static str = "mxr";

pub open spec fn spec_model_schema() -> ModelSchemaView {
    ModelSchemaView {
        effect_type: EffectType::Gain,
        model: MODEL_ID,
        display_name: DISPLAY_NAME,
        audio_mode: None,
        parameters: Some(seq![
            ParameterSpecView {
                path: "mode",
                label: "Mode",
                group: Some("Pedal"),
                kind: ParameterKindView::Enum {
                    default: Some("od"),
                    choices: seq![
                        EnumChoice { value: "od", label: "Overdrive" },
                        EnumChoice { value: "dist", label: "Distortion" },
                    ],
                },
            },
            ParameterSpecView {
                path: "voicing",
                label: "Voicing",
                group: Some("Pedal"),
                kind: ParameterKindView::Enum {
                    default: Some("color"),
                    choices: seq![
                        EnumChoice { value: "high", label: "High Gain" },
                        EnumChoice { value: "cranked", label: "Cranked" },
                        EnumChoice { value: "color", label: "Colour" },
                        EnumChoice { value: "low", label: "Low Gain" },
                        EnumChoice { value: "med", label: "Medium" },
                    ],
                },
            },
            ParameterSpecView {
                path: "tone",
                label: "Tone",
                group: Some("Pedal"),
                kind: ParameterKindView::Enum {
                    default: Some("1030"),
                    choices: seq![
                        EnumChoice { value: "230", label: "2:30" },
                        EnumChoice { value: "1030", label: "10:30" },
                        EnumChoice { value: "1200", label: "12:00" },
                    ],
                },
            },
        ]),
    }
}

/// The parameters of the model.
pub fn model_schema() -> (schema: ModelSchema)
    ensures
        schema@ == spec_model_schema(),
{
    let parameters = vec![
        enum_parameter(
            "mode",
            "Mode",
            Some("Pedal"),
            Some("od"),
            vec![
                choice("od", "Overdrive"),
                choice("dist", "Distortion"),
            ],
        ),
        enum_parameter(
            "voicing",
            "Voicing",
            Some("Pedal"),
            Some("color"),
            vec![
                choice("high", "High Gain"),
                choice("cranked", "Cranked"),
                choice("color", "Colour"),
                choice("low", "Low Gain"),
                choice("med", "Medium"),
            ],
        ),
        enum_parameter(
            "tone",
            "Tone",
            Some("Pedal"),
            Some("1030"),
            vec![
                choice("230", "2:30"),
                choice("1030", "10:30"),
                choice("1200", "12:00"),
            ],
        ),
    ];
    assert(parameters_view(parameters@) =~= spec_model_schema().parameters.unwrap());
    ModelSchema {
        effect_type: EffectType::Gain,
        model: MODEL_ID,
        display_name: DISPLAY_NAME,
        audio_mode: None,
        parameters: Some(parameters),
    }
}

/// The positions, in the schema, of the parameters that select a capture.
pub open spec fn key_params() -> Seq<int> {
    seq![0, 1, 2]
}

pub open spec fn spec_captures() -> Seq<CaptureView> {
    seq![
        CaptureView { keys: seq!["od", "high", "230"], model_path: "pedals/mxr_duke_of_tone/dot_od_high_vol_330_tone_230_drive_300.nam" },
        CaptureView { keys: seq!["od", "high", "1030"], model_path: "pedals/mxr_duke_of_tone/dot_od_high_vol_330_tone_1030_drive_300.nam" },
        CaptureView { keys: seq!["od", "high", "1200"], model_path: "pedals/mxr_duke_of_tone/dot_od_high_vol_330_tone_1200_drive_300.nam" },
        CaptureView { keys: seq!["od", "cranked", "230"], model_path: "pedals/mxr_duke_of_tone/dot_od_cranked_vol_330_tone_230_drive_500.nam" },
        CaptureView { keys: seq!["od", "cranked", "1030"], model_path: "pedals/mxr_duke_of_tone/dot_od_cranked_vol_330_tone_1030_drive_500.nam" },
        CaptureView { keys: seq!["od", "cranked", "1200"], model_path: "pedals/mxr_duke_of_tone/dot_od_cranked_vol_330_tone_1200_drive_500.nam" },
        CaptureView { keys: seq!["od", "color", "230"], model_path: "pedals/mxr_duke_of_tone/dot_od_color_vol_330_tone_230_drive_700.nam" },
        CaptureView { keys: seq!["od", "color", "1030"], model_path: "pedals/mxr_duke_of_tone/dot_od_color_vol_330_tone_1030_drive_700.nam" },
        CaptureView { keys: seq!["od", "color", "1200"], model_path: "pedals/mxr_duke_of_tone/dot_od_color_vol_330_tone_1200_drive_700.nam" },
        CaptureView { keys: seq!["od", "low", "230"], model_path: "pedals/mxr_duke_of_tone/dot_od_low_vol_330_tone_230_drive_900.nam" },
        CaptureView { keys: seq!["od", "low", "1030"], model_path: "pedals/mxr_duke_of_tone/dot_od_low_vol_330_tone_1030_drive_900.nam" },
        CaptureView { keys: seq!["od", "low", "1200"], model_path: "pedals/mxr_duke_of_tone/dot_od_low_vol_330_tone_1200_drive_900.nam" },
        CaptureView { keys: seq!["od", "med", "230"], model_path: "pedals/mxr_duke_of_tone/dot_od_med_vol_330_tone_230_drive_1200.nam" },
        CaptureView { keys: seq!["od", "med", "1030"], model_path: "pedals/mxr_duke_of_tone/dot_od_med_vol_330_tone_1030_drive_1200.nam" },
        CaptureView { keys: seq!["od", "med", "1200"], model_path: "pedals/mxr_duke_of_tone/dot_od_med_vol_330_tone_1200_drive_1200.nam" },
        CaptureView { keys: seq!["dist", "high", "230"], model_path: "pedals/mxr_duke_of_tone/dot_dist_high_vol_330_tone_230_drive_300.nam" },
        CaptureView { keys: seq!["dist", "high", "1030"], model_path: "pedals/mxr_duke_of_tone/dot_dist_high_vol_330_tone_1030_drive_300.nam" },
        CaptureView { keys: seq!["dist", "high", "1200"], model_path: "pedals/mxr_duke_of_tone/dot_dist_high_vol_330_tone_1200_drive_300.nam" },
        CaptureView { keys: seq!["dist", "cranked", "230"], model_path: "pedals/mxr_duke_of_tone/dot_dist_cranked_vol_330_tone_230_drive_500.nam" },
        CaptureView { keys: seq!["dist", "cranked", "1030"], model_path: "pedals/mxr_duke_of_tone/dot_dist_cranked_vol_330_tone_1030_drive_500.nam" },
        CaptureView { keys: seq!["dist", "cranked", "1200"], model_path: "pedals/mxr_duke_of_tone/dot_dist_cranked_vol_330_tone_1200_drive_500.nam" },
        CaptureView { keys: seq!["dist", "color", "230"], model_path: "pedals/mxr_duke_of_tone/dot_dist_color_vol_330_tone_230_drive_700.nam" },
        CaptureView { keys: seq!["dist", "color", "1030"], model_path: "pedals/mxr_duke_of_tone/dot_dist_color_vol_330_tone_1030_drive_700.nam" },
        CaptureView { keys: seq!["dist", "color", "1200"], model_path: "pedals/mxr_duke_of_tone/dot_dist_color_vol_330_tone_1200_drive_700.nam" },
        CaptureView { keys: seq!["dist", "low", "230"], model_path: "pedals/mxr_duke_of_tone/dot_dist_low_vol_330_tone_230_drive_900.nam" },
        CaptureView { keys: seq!["dist", "low", "1030"], model_path: "pedals/mxr_duke_of_tone/dot_dist_low_vol_330_tone_1030_drive_900.nam" },
        CaptureView { keys: seq!["dist", "low", "1200"], model_path: "pedals/mxr_duke_of_tone/dot_dist_low_vol_330_tone_1200_drive_900.nam" },
        CaptureView { keys: seq!["dist", "med", "230"], model_path: "pedals/mxr_duke_of_tone/dot_dist_med_vol_330_tone_230_drive_1200.nam" },
        CaptureView { keys: seq!["dist", "med", "1030"], model_path: "pedals/mxr_duke_of_tone/dot_dist_med_vol_330_tone_1030_drive_1200.nam" },
        CaptureView { keys: seq!["dist", "med", "1200"], model_path: "pedals/mxr_duke_of_tone/dot_dist_med_vol_330_tone_1200_drive_1200.nam" },
    ]
}

/// The captures of the pedal, each with its (mode, voicing, tone) setting.
pub fn captures() -> (table: Vec<Capture>)
    ensures
        table_view(table@) == spec_captures(),
{
    let table = vec![
        Capture::three("od", "high", "230", "pedals/mxr_duke_of_tone/dot_od_high_vol_330_tone_230_drive_300.nam"),
        Capture::three("od", "high", "1030", "pedals/mxr_duke_of_tone/dot_od_high_vol_330_tone_1030_drive_300.nam"),
        Capture::three("od", "high", "1200", "pedals/mxr_duke_of_tone/dot_od_high_vol_330_tone_1200_drive_300.nam"),
        Capture::three("od", "cranked", "230", "pedals/mxr_duke_of_tone/dot_od_cranked_vol_330_tone_230_drive_500.nam"),
        Capture::three("od", "cranked", "1030", "pedals/mxr_duke_of_tone/dot_od_cranked_vol_330_tone_1030_drive_500.nam"),
        Capture::three("od", "cranked", "1200", "pedals/mxr_duke_of_tone/dot_od_cranked_vol_330_tone_1200_drive_500.nam"),
        Capture::three("od", "color", "230", "pedals/mxr_duke_of_tone/dot_od_color_vol_330_tone_230_drive_700.nam"),
        Capture::three("od", "color", "1030", "pedals/mxr_duke_of_tone/dot_od_color_vol_330_tone_1030_drive_700.nam"),
        Capture::three("od", "color", "1200", "pedals/mxr_duke_of_tone/dot_od_color_vol_330_tone_1200_drive_700.nam"),
        Capture::three("od", "low", "230", "pedals/mxr_duke_of_tone/dot_od_low_vol_330_tone_230_drive_900.nam"),
        Capture::three("od", "low", "1030", "pedals/mxr_duke_of_tone/dot_od_low_vol_330_tone_1030_drive_900.nam"),
        Capture::three("od", "low", "1200", "pedals/mxr_duke_of_tone/dot_od_low_vol_330_tone_1200_drive_900.nam"),
        Capture::three("od", "med", "230", "pedals/mxr_duke_of_tone/dot_od_med_vol_330_tone_230_drive_1200.nam"),
        Capture::three("od", "med", "1030", "pedals/mxr_duke_of_tone/dot_od_med_vol_330_tone_1030_drive_1200.nam"),
        Capture::three("od", "med", "1200", "pedals/mxr_duke_of_tone/dot_od_med_vol_330_tone_1200_drive_1200.nam"),
        Capture::three("dist", "high", "230", "pedals/mxr_duke_of_tone/dot_dist_high_vol_330_tone_230_drive_300.nam"),
        Capture::three("dist", "high", "1030", "pedals/mxr_duke_of_tone/dot_dist_high_vol_330_tone_1030_drive_300.nam"),
        Capture::three("dist", "high", "1200", "pedals/mxr_duke_of_tone/dot_dist_high_vol_330_tone_1200_drive_300.nam"),
        Capture::three("dist", "cranked", "230", "pedals/mxr_duke_of_tone/dot_dist_cranked_vol_330_tone_230_drive_500.nam"),
        Capture::three("dist", "cranked", "1030", "pedals/mxr_duke_of_tone/dot_dist_cranked_vol_330_tone_1030_drive_500.nam"),
        Capture::three("dist", "cranked", "1200", "pedals/mxr_duke_of_tone/dot_dist_cranked_vol_330_tone_1200_drive_500.nam"),
        Capture::three("dist", "color", "230", "pedals/mxr_duke_of_tone/dot_dist_color_vol_330_tone_230_drive_700.nam"),
        Capture::three("dist", "color", "1030", "pedals/mxr_duke_of_tone/dot_dist_color_vol_330_tone_1030_drive_700.nam"),
        Capture::three("dist", "color", "1200", "pedals/mxr_duke_of_tone/dot_dist_color_vol_330_tone_1200_drive_700.nam"),
        Capture::three("dist", "low", "230", "pedals/mxr_duke_of_tone/dot_dist_low_vol_330_tone_230_drive_900.nam"),
        Capture::three("dist", "low", "1030", "pedals/mxr_duke_of_tone/dot_dist_low_vol_330_tone_1030_drive_900.nam"),
        Capture::three("dist", "low", "1200", "pedals/mxr_duke_of_tone/dot_dist_low_vol_330_tone_1200_drive_900.nam"),
        Capture::three("dist", "med", "230", "pedals/mxr_duke_of_tone/dot_dist_med_vol_330_tone_230_drive_1200.nam"),
        Capture::three("dist", "med", "1030", "pedals/mxr_duke_of_tone/dot_dist_med_vol_330_tone_1030_drive_1200.nam"),
        Capture::three("dist", "med", "1200", "pedals/mxr_duke_of_tone/dot_dist_med_vol_330_tone_1200_drive_1200.nam"),
    ];
    assert(table_view(table@) =~= spec_captures());
    table
}

/// What the model reports for a setting at which no capture was recorded.
pub open spec fn unsupported_message(mode: Seq<char>, voicing: Seq<char>, tone: Seq<char>) -> Seq<char> {
    concat(seq!["gain '"@, MODEL_ID@, "' has no capture for mode="@, mode, " voicing="@, voicing, " tone="@, tone])
}

/// The index of the capture that (mode, voicing, tone) selects.
pub open spec fn selection(mode: Seq<char>, voicing: Seq<char>, tone: Seq<char>) -> Option<int> {
    first_selected(spec_captures(), seq![mode, voicing, tone])
}

fn unsupported(mode: &str, voicing: &str, tone: &str) -> (e: GainError)
    ensures
        e matches GainError::UnsupportedSetting(m) && m@ == unsupported_message(mode@, voicing@, tone@),
{
    let parts = vec!["gain '", MODEL_ID, "' has no capture for mode=", mode, " voicing=", voicing, " tone=", tone];
    let m = join(&parts);
    assert(texts(parts@) =~= seq!["gain '"@, MODEL_ID@, "' has no capture for mode="@, mode@, " voicing="@, voicing@, " tone="@, tone@]);
    GainError::UnsupportedSetting(m)
}

/// The capture recorded at (mode, voicing, tone).
pub fn resolve_capture(mode: &str, voicing: &str, tone: &str) -> (selected: Result<&'static str, GainError>)
    ensures
        match selection(mode@, voicing@, tone@) {
            Some(i) => selected matches Ok(path) && path == spec_captures()[i].model_path,
            None => selected matches Err(GainError::UnsupportedSetting(m)) && m@ == unsupported_message(mode@, voicing@, tone@),
        },
{
    let table = captures();
    let request = vec![mode, voicing, tone];
    assert(texts(request@) =~= seq![mode@, voicing@, tone@]);
    match find_capture(&table, &request) {
        Some(i) => {
            proof {
                lemma_first_selected(spec_captures(), seq![mode@, voicing@, tone@]);
            }
            Ok(table[i].model_path)
        },
        None => Err(unsupported(mode, voicing, tone)),
    }
}

/// Accepts (mode, voicing, tone) exactly where a capture was recorded there.
pub fn validate_params(mode: &str, voicing: &str, tone: &str) -> (checked: Result<(), GainError>)
    ensures
        match selection(mode@, voicing@, tone@) {
            Some(i) => checked is Ok,
            None => checked matches Err(GainError::UnsupportedSetting(m)) && m@ == unsupported_message(mode@, voicing@, tone@),
        },
{
    match resolve_capture(mode, voicing, tone) {
        Ok(_) => Ok(()),
        Err(e) => Err(e),
    }
}

/// Names the capture file that (mode, voicing, tone) selects.
pub fn asset_summary(mode: &str, voicing: &str, tone: &str) -> (summary: Result<String, GainError>)
    ensures
        match selection(mode@, voicing@, tone@) {
            Some(i) => summary matches Ok(s) && s@ == asset_text(spec_captures()[i].model_path@),
            None => summary matches Err(GainError::UnsupportedSetting(m)) && m@ == unsupported_message(mode@, voicing@, tone@),
        },
{
    match resolve_capture(mode, voicing, tone) {
        Ok(c) => {
            let parts = vec!["model='", c, "'"];
            assert(texts(parts@) =~= seq!["model='"@, c@, "'"@]);
            Ok(join(&parts))
        },
        Err(e) => Err(e),
    }
}

pub open spec fn spec_model_definition() -> ModelDefinitionView {
    ModelDefinitionView {
        id: MODEL_ID,
        display_name: DISPLAY_NAME,
        brand: BRAND,
        backend_kind: BackendKind::Nam,
        supported_instruments: Instruments::GuitarBass,
        knob_layout: seq![],
    }
}

/// What the registry lists for this model.
pub fn model_definition() -> (d: ModelDefinition)
    ensures
        d@ == spec_model_definition(),
{
    let knob_layout: Vec<KnobLayoutEntry> = Vec::new();
    let d = ModelDefinition {
        id: MODEL_ID,
        display_name: DISPLAY_NAME,
        brand: BRAND,
        backend_kind: BackendKind::Nam,
        supported_instruments: Instruments::GuitarBass,
        knob_layout,
    };
    assert(d@.knob_layout =~= spec_model_definition().knob_layout);
    d
}

/// The schema is sound: every parameter is, and no two share a path.
pub proof fn lemma_schema_well_formed()
    ensures
        schema_well_formed(spec_model_schema()),
{
    reveal_strlit("mode");
    reveal_strlit("voicing");
    reveal_strlit("tone");
    reveal_strlit("od");
    reveal_strlit("dist");
    reveal_strlit("high");
    reveal_strlit("cranked");
    reveal_strlit("color");
    reveal_strlit("low");
    reveal_strlit("med");
    reveal_strlit("230");
    reveal_strlit("1030");
    reveal_strlit("1200");
    let ps = spec_model_schema().parameters.unwrap();
    assert forall|i: int| 0 <= i < ps.len() implies parameter_well_formed(#[trigger] ps[i]) by {
        if ps[i].kind is Enum {
            let vs = choice_values(ps[i].kind->Enum_choices);
            assert forall|a: int, b: int| 0 <= a < b < vs.len() implies vs[a] != vs[b] by {
                if vs[a] == vs[b] {
                    assert(vs[a].len() == vs[b].len());
                    assert(vs[a][0] == vs[b][0]);
                    assert(vs[a][1] == vs[b][1]);
                }
            }
        }
        if i == 0 {
            assert(ps[0].kind->Enum_choices[0].value@ == "od"@);
        } else if i == 1 {
            assert(ps[1].kind->Enum_choices[2].value@ == "color"@);
        } else if i == 2 {
            assert(ps[2].kind->Enum_choices[1].value@ == "1030"@);
        }
    }
    let paths = parameter_paths(ps);
    assert forall|a: int, b: int| 0 <= a < b < paths.len() implies paths[a] != paths[b] by {
        if paths[a] == paths[b] {
            assert(paths[a].len() == paths[b].len());
            assert(paths[a][0] == paths[b][0]);
        }
    }
}

/// Each capture is recorded at choices the schema offers.
pub proof fn lemma_captures_follow_schema()
    ensures
        captures_follow_schema(spec_model_schema(), key_params(), spec_captures()),
{
    let s = spec_model_schema();
    let t = spec_captures();
    assert forall|i: int, k: int| 0 <= i < t.len() && 0 <= k < key_params().len() implies {
        &&& #[trigger] t[i].keys.len() == key_params().len()
        &&& is_choice(choices_at(s, key_params()[k]), #[trigger] t[i].keys[k]@)
    } by {
        let cs = choices_at(s, key_params()[k]);
        if k == 0 {
            if t[i].keys[0] == "od" {
                assert(cs[0].value@ == t[i].keys[k]@);
            } else {
                assert(cs[1].value@ == t[i].keys[k]@);
            }
        } else if k == 1 {
            if t[i].keys[1] == "high" {
                assert(cs[0].value@ == t[i].keys[k]@);
            } else if t[i].keys[1] == "cranked" {
                assert(cs[1].value@ == t[i].keys[k]@);
            } else if t[i].keys[1] == "color" {
                assert(cs[2].value@ == t[i].keys[k]@);
            } else if t[i].keys[1] == "low" {
                assert(cs[3].value@ == t[i].keys[k]@);
            } else {
                assert(cs[4].value@ == t[i].keys[k]@);
            }
        } else if k == 2 {
            if t[i].keys[2] == "230" {
                assert(cs[0].value@ == t[i].keys[k]@);
            } else if t[i].keys[2] == "1030" {
                assert(cs[1].value@ == t[i].keys[k]@);
            } else {
                assert(cs[2].value@ == t[i].keys[k]@);
            }
        }
    }
}

/// No two captures share a setting.
pub proof fn lemma_captures_distinct()
    ensures
        captures_distinct(spec_captures()),
{
    reveal_strlit("od");
    reveal_strlit("high");
    reveal_strlit("230");
    reveal_strlit("1030");
    reveal_strlit("1200");
    reveal_strlit("cranked");
    reveal_strlit("color");
    reveal_strlit("low");
    reveal_strlit("med");
    reveal_strlit("dist");
    let t = spec_captures();
    assert forall|a: int, b: int| 0 <= a < b < t.len() implies str_texts(t[a].keys) != str_texts(t[b].keys) by {
        let x = str_texts(t[a].keys);
        let y = str_texts(t[b].keys);
        if x == y {
            assert(x[0].len() == y[0].len());
            assert(x[1].len() == y[1].len());
            assert(x[1][0] == y[1][0]);
            assert(x[2].len() == y[2].len());
            assert(x[2][0] == y[2][0]);
            assert(x[2][1] == y[2][1]);
        }
    }
}

/// Every setting the schema offers selects a capture; so do the defaults.
pub proof fn lemma_every_setting_selects()
    ensures
        every_setting_selects(spec_model_schema(), key_params(), spec_captures()),
        defaults_present(spec_model_schema(), key_params()),
        first_selected(spec_captures(), default_setting(spec_model_schema(), key_params())) is Some,
{
    let s = spec_model_schema();
    let t = spec_captures();
    assert forall|r: Seq<Seq<char>>| setting_of_choices(s, key_params(), r) implies
        (#[trigger] first_selected(t, r)) is Some by {
        let c0 = choices_at(s, 0);
        let i0 = choose|i: int| 0 <= i < c0.len() && c0[i].value@ == r[0];
        let c1 = choices_at(s, 1);
        let i1 = choose|i: int| 0 <= i < c1.len() && c1[i].value@ == r[1];
        let c2 = choices_at(s, 2);
        let i2 = choose|i: int| 0 <= i < c2.len() && c2[i].value@ == r[2];
        if i0 == 0 && i1 == 0 && i2 == 0 {
            lemma_selected_at(t, r, 0);
        } else if i0 == 0 && i1 == 0 && i2 == 1 {
            lemma_selected_at(t, r, 1);
        } else if i0 == 0 && i1 == 0 && i2 == 2 {
            lemma_selected_at(t, r, 2);
        } else if i0 == 0 && i1 == 1 && i2 == 0 {
            lemma_selected_at(t, r, 3);
        } else if i0 == 0 && i1 == 1 && i2 == 1 {
            lemma_selected_at(t, r, 4);
        } else if i0 == 0 && i1 == 1 && i2 == 2 {
            lemma_selected_at(t, r, 5);
        } else if i0 == 0 && i1 == 2 && i2 == 0 {
            lemma_selected_at(t, r, 6);
        } else if i0 == 0 && i1 == 2 && i2 == 1 {
            lemma_selected_at(t, r, 7);
        } else if i0 == 0 && i1 == 2 && i2 == 2 {
            lemma_selected_at(t, r, 8);
        } else if i0 == 0 && i1 == 3 && i2 == 0 {
            lemma_selected_at(t, r, 9);
        } else if i0 == 0 && i1 == 3 && i2 == 1 {
            lemma_selected_at(t, r, 10);
        } else if i0 == 0 && i1 == 3 && i2 == 2 {
            lemma_selected_at(t, r, 11);
        } else if i0 == 0 && i1 == 4 && i2 == 0 {
            lemma_selected_at(t, r, 12);
        } else if i0 == 0 && i1 == 4 && i2 == 1 {
            lemma_selected_at(t, r, 13);
        } else if i0 == 0 && i1 == 4 && i2 == 2 {
            lemma_selected_at(t, r, 14);
        } else if i0 == 1 && i1 == 0 && i2 == 0 {
            lemma_selected_at(t, r, 15);
        } else if i0 == 1 && i1 == 0 && i2 == 1 {
            lemma_selected_at(t, r, 16);
        } else if i0 == 1 && i1 == 0 && i2 == 2 {
            lemma_selected_at(t, r, 17);
        } else if i0 == 1 && i1 == 1 && i2 == 0 {
            lemma_selected_at(t, r, 18);
        } else if i0 == 1 && i1 == 1 && i2 == 1 {
            lemma_selected_at(t, r, 19);
        } else if i0 == 1 && i1 == 1 && i2 == 2 {
            lemma_selected_at(t, r, 20);
        } else if i0 == 1 && i1 == 2 && i2 == 0 {
            lemma_selected_at(t, r, 21);
        } else if i0 == 1 && i1 == 2 && i2 == 1 {
            lemma_selected_at(t, r, 22);
        } else if i0 == 1 && i1 == 2 && i2 == 2 {
            lemma_selected_at(t, r, 23);
        } else if i0 == 1 && i1 == 3 && i2 == 0 {
            lemma_selected_at(t, r, 24);
        } else if i0 == 1 && i1 == 3 && i2 == 1 {
            lemma_selected_at(t, r, 25);
        } else if i0 == 1 && i1 == 3 && i2 == 2 {
            lemma_selected_at(t, r, 26);
        } else if i0 == 1 && i1 == 4 && i2 == 0 {
            lemma_selected_at(t, r, 27);
        } else if i0 == 1 && i1 == 4 && i2 == 1 {
            lemma_selected_at(t, r, 28);
        } else if i0 == 1 && i1 == 4 && i2 == 2 {
            lemma_selected_at(t, r, 29);
        }
    }
    let dflt = default_setting(s, key_params());
    assert(dflt =~= seq!["od"@, "color"@, "1030"@]);
    lemma_selected_at(t, dflt, 7);
}

/// Every capture names a file that writes each value of its setting, and
/// no two captures name the same file.
pub proof fn lemma_capture_files()
    ensures
        files_name_settings(spec_captures()),
        files_distinct(spec_captures()),
{
    reveal_strlit("pedals/mxr_duke_of_tone/dot_od_high_vol_330_tone_230_drive_300.nam");
    reveal_strlit("pedals/mxr_duke_of_tone/dot_od_high_vol_330_tone_1030_drive_300.nam");
    reveal_strlit("pedals/mxr_duke_of_tone/dot_od_high_vol_330_tone_1200_drive_300.nam");
    reveal_strlit("pedals/mxr_duke_of_tone/dot_od_cranked_vol_330_tone_230_drive_500.nam");
    reveal_strlit("pedals/mxr_duke_of_tone/dot_od_cranked_vol_330_tone_1030_drive_500.nam");
    reveal_strlit("pedals/mxr_duke_of_tone/dot_od_cranked_vol_330_tone_1200_drive_500.nam");
    reveal_strlit("pedals/mxr_duke_of_tone/dot_od_color_vol_330_tone_230_drive_700.nam");
    reveal_strlit("pedals/mxr_duke_of_tone/dot_od_color_vol_330_tone_1030_drive_700.nam");
    reveal_strlit("pedals/mxr_duke_of_tone/dot_od_color_vol_330_tone_1200_drive_700.nam");
    reveal_strlit("pedals/mxr_duke_of_tone/dot_od_low_vol_330_tone_230_drive_900.nam");
    reveal_strlit("pedals/mxr_duke_of_tone/dot_od_low_vol_330_tone_1030_drive_900.nam");
    reveal_strlit("pedals/mxr_duke_of_tone/dot_od_low_vol_330_tone_1200_drive_900.nam");
    reveal_strlit("pedals/mxr_duke_of_tone/dot_od_med_vol_330_tone_230_drive_1200.nam");
    reveal_strlit("pedals/mxr_duke_of_tone/dot_od_med_vol_330_tone_1030_drive_1200.nam");
    reveal_strlit("pedals/mxr_duke_of_tone/dot_od_med_vol_330_tone_1200_drive_1200.nam");
    reveal_strlit("pedals/mxr_duke_of_tone/dot_dist_high_vol_330_tone_230_drive_300.nam");
    reveal_strlit("pedals/mxr_duke_of_tone/dot_dist_high_vol_330_tone_1030_drive_300.nam");
    reveal_strlit("pedals/mxr_duke_of_tone/dot_dist_high_vol_330_tone_1200_drive_300.nam");
    reveal_strlit("pedals/mxr_duke_of_tone/dot_dist_cranked_vol_330_tone_230_drive_500.nam");
    reveal_strlit("pedals/mxr_duke_of_tone/dot_dist_cranked_vol_330_tone_1030_drive_500.nam");
    reveal_strlit("pedals/mxr_duke_of_tone/dot_dist_cranked_vol_330_tone_1200_drive_500.nam");
    reveal_strlit("pedals/mxr_duke_of_tone/dot_dist_color_vol_330_tone_230_drive_700.nam");
    reveal_strlit("pedals/mxr_duke_of_tone/dot_dist_color_vol_330_tone_1030_drive_700.nam");
    reveal_strlit("pedals/mxr_duke_of_tone/dot_dist_color_vol_330_tone_1200_drive_700.nam");
    reveal_strlit("pedals/mxr_duke_of_tone/dot_dist_low_vol_330_tone_230_drive_900.nam");
    reveal_strlit("pedals/mxr_duke_of_tone/dot_dist_low_vol_330_tone_1030_drive_900.nam");
    reveal_strlit("pedals/mxr_duke_of_tone/dot_dist_low_vol_330_tone_1200_drive_900.nam");
    reveal_strlit("pedals/mxr_duke_of_tone/dot_dist_med_vol_330_tone_230_drive_1200.nam");
    reveal_strlit("pedals/mxr_duke_of_tone/dot_dist_med_vol_330_tone_1030_drive_1200.nam");
    reveal_strlit("pedals/mxr_duke_of_tone/dot_dist_med_vol_330_tone_1200_drive_1200.nam");
    reveal_strlit("od");
    reveal_strlit("high");
    reveal_strlit("230");
    reveal_strlit("1030");
    reveal_strlit("1200");
    reveal_strlit("cranked");
    reveal_strlit("color");
    reveal_strlit("low");
    reveal_strlit("med");
    reveal_strlit("dist");
    let t = spec_captures();
    assert forall|i: int, k: int| 0 <= i < t.len() && 0 <= k < t[i].keys.len() implies
        names_value(#[trigger] t[i].model_path@, #[trigger] t[i].keys[k]@) by {
        let path = t[i].model_path@;
        let key = t[i].keys[k]@;
        if i == 0 {
            if k == 0 {
                assert(path.subrange(28int, 28int + key.len()) =~= key);
            } else if k == 1 {
                assert(path.subrange(31int, 31int + key.len()) =~= key);
            } else if k == 2 {
                assert(path.subrange(49int, 49int + key.len()) =~= key);
            }
        } else if i == 1 {
            if k == 0 {
                assert(path.subrange(28int, 28int + key.len()) =~= key);
            } else if k == 1 {
                assert(path.subrange(31int, 31int + key.len()) =~= key);
            } else if k == 2 {
                assert(path.subrange(49int, 49int + key.len()) =~= key);
            }
        } else if i == 2 {
            if k == 0 {
                assert(path.subrange(28int, 28int + key.len()) =~= key);
            } else if k == 1 {
                assert(path.subrange(31int, 31int + key.len()) =~= key);
            } else if k == 2 {
                assert(path.subrange(49int, 49int + key.len()) =~= key);
            }
        } else if i == 3 {
            if k == 0 {
                assert(path.subrange(28int, 28int + key.len()) =~= key);
            } else if k == 1 {
                assert(path.subrange(31int, 31int + key.len()) =~= key);
            } else if k == 2 {
                assert(path.subrange(52int, 52int + key.len()) =~= key);
            }
        } else if i == 4 {
            if k == 0 {
                assert(path.subrange(28int, 28int + key.len()) =~= key);
            } else if k == 1 {
                assert(path.subrange(31int, 31int + key.len()) =~= key);
            } else if k == 2 {
                assert(path.subrange(52int, 52int + key.len()) =~= key);
            }
        } else if i == 5 {
            if k == 0 {
                assert(path.subrange(28int, 28int + key.len()) =~= key);
            } else if k == 1 {
                assert(path.subrange(31int, 31int + key.len()) =~= key);
            } else if k == 2 {
                assert(path.subrange(52int, 52int + key.len()) =~= key);
            }
        } else if i == 6 {
            if k == 0 {
                assert(path.subrange(28int, 28int + key.len()) =~= key);
            } else if k == 1 {
                assert(path.subrange(31int, 31int + key.len()) =~= key);
            } else if k == 2 {
                assert(path.subrange(50int, 50int + key.len()) =~= key);
            }
        } else if i == 7 {
            if k == 0 {
                assert(path.subrange(28int, 28int + key.len()) =~= key);
            } else if k == 1 {
                assert(path.subrange(31int, 31int + key.len()) =~= key);
            } else if k == 2 {
                assert(path.subrange(50int, 50int + key.len()) =~= key);
            }
        } else if i == 8 {
            if k == 0 {
                assert(path.subrange(28int, 28int + key.len()) =~= key);
            } else if k == 1 {
                assert(path.subrange(31int, 31int + key.len()) =~= key);
            } else if k == 2 {
                assert(path.subrange(50int, 50int + key.len()) =~= key);
            }
        } else if i == 9 {
            if k == 0 {
                assert(path.subrange(28int, 28int + key.len()) =~= key);
            } else if k == 1 {
                assert(path.subrange(31int, 31int + key.len()) =~= key);
            } else if k == 2 {
                assert(path.subrange(48int, 48int + key.len()) =~= key);
            }
        } else if i == 10 {
            if k == 0 {
                assert(path.subrange(28int, 28int + key.len()) =~= key);
            } else if k == 1 {
                assert(path.subrange(31int, 31int + key.len()) =~= key);
            } else if k == 2 {
                assert(path.subrange(48int, 48int + key.len()) =~= key);
            }
        } else if i == 11 {
            if k == 0 {
                assert(path.subrange(28int, 28int + key.len()) =~= key);
            } else if k == 1 {
                assert(path.subrange(31int, 31int + key.len()) =~= key);
            } else if k == 2 {
                assert(path.subrange(48int, 48int + key.len()) =~= key);
            }
        } else if i == 12 {
            if k == 0 {
                assert(path.subrange(28int, 28int + key.len()) =~= key);
            } else if k == 1 {
                assert(path.subrange(31int, 31int + key.len()) =~= key);
            } else if k == 2 {
                assert(path.subrange(48int, 48int + key.len()) =~= key);
            }
        } else if i == 13 {
            if k == 0 {
                assert(path.subrange(28int, 28int + key.len()) =~= key);
            } else if k == 1 {
                assert(path.subrange(31int, 31int + key.len()) =~= key);
            } else if k == 2 {
                assert(path.subrange(48int, 48int + key.len()) =~= key);
            }
        } else if i == 14 {
            if k == 0 {
                assert(path.subrange(28int, 28int + key.len()) =~= key);
            } else if k == 1 {
                assert(path.subrange(31int, 31int + key.len()) =~= key);
            } else if k == 2 {
                assert(path.subrange(48int, 48int + key.len()) =~= key);
            }
        } else if i == 15 {
            if k == 0 {
                assert(path.subrange(28int, 28int + key.len()) =~= key);
            } else if k == 1 {
                assert(path.subrange(33int, 33int + key.len()) =~= key);
            } else if k == 2 {
                assert(path.subrange(51int, 51int + key.len()) =~= key);
            }
        } else if i == 16 {
            if k == 0 {
                assert(path.subrange(28int, 28int + key.len()) =~= key);
            } else if k == 1 {
                assert(path.subrange(33int, 33int + key.len()) =~= key);
            } else if k == 2 {
                assert(path.subrange(51int, 51int + key.len()) =~= key);
            }
        } else if i == 17 {
            if k == 0 {
                assert(path.subrange(28int, 28int + key.len()) =~= key);
            } else if k == 1 {
                assert(path.subrange(33int, 33int + key.len()) =~= key);
            } else if k == 2 {
                assert(path.subrange(51int, 51int + key.len()) =~= key);
            }
        } else if i == 18 {
            if k == 0 {
                assert(path.subrange(28int, 28int + key.len()) =~= key);
            } else if k == 1 {
                assert(path.subrange(33int, 33int + key.len()) =~= key);
            } else if k == 2 {
                assert(path.subrange(54int, 54int + key.len()) =~= key);
            }
        } else if i == 19 {
            if k == 0 {
                assert(path.subrange(28int, 28int + key.len()) =~= key);
            } else if k == 1 {
                assert(path.subrange(33int, 33int + key.len()) =~= key);
            } else if k == 2 {
                assert(path.subrange(54int, 54int + key.len()) =~= key);
            }
        } else if i == 20 {
            if k == 0 {
                assert(path.subrange(28int, 28int + key.len()) =~= key);
            } else if k == 1 {
                assert(path.subrange(33int, 33int + key.len()) =~= key);
            } else if k == 2 {
                assert(path.subrange(54int, 54int + key.len()) =~= key);
            }
        } else if i == 21 {
            if k == 0 {
                assert(path.subrange(28int, 28int + key.len()) =~= key);
            } else if k == 1 {
                assert(path.subrange(33int, 33int + key.len()) =~= key);
            } else if k == 2 {
                assert(path.subrange(52int, 52int + key.len()) =~= key);
            }
        } else if i == 22 {
            if k == 0 {
                assert(path.subrange(28int, 28int + key.len()) =~= key);
            } else if k == 1 {
                assert(path.subrange(33int, 33int + key.len()) =~= key);
            } else if k == 2 {
                assert(path.subrange(52int, 52int + key.len()) =~= key);
            }
        } else if i == 23 {
            if k == 0 {
                assert(path.subrange(28int, 28int + key.len()) =~= key);
            } else if k == 1 {
                assert(path.subrange(33int, 33int + key.len()) =~= key);
            } else if k == 2 {
                assert(path.subrange(52int, 52int + key.len()) =~= key);
            }
        } else if i == 24 {
            if k == 0 {
                assert(path.subrange(28int, 28int + key.len()) =~= key);
            } else if k == 1 {
                assert(path.subrange(33int, 33int + key.len()) =~= key);
            } else if k == 2 {
                assert(path.subrange(50int, 50int + key.len()) =~= key);
            }
        } else if i == 25 {
            if k == 0 {
                assert(path.subrange(28int, 28int + key.len()) =~= key);
            } else if k == 1 {
                assert(path.subrange(33int, 33int + key.len()) =~= key);
            } else if k == 2 {
                assert(path.subrange(50int, 50int + key.len()) =~= key);
            }
        } else if i == 26 {
            if k == 0 {
                assert(path.subrange(28int, 28int + key.len()) =~= key);
            } else if k == 1 {
                assert(path.subrange(33int, 33int + key.len()) =~= key);
            } else if k == 2 {
                assert(path.subrange(50int, 50int + key.len()) =~= key);
            }
        } else if i == 27 {
            if k == 0 {
                assert(path.subrange(28int, 28int + key.len()) =~= key);
            } else if k == 1 {
                assert(path.subrange(33int, 33int + key.len()) =~= key);
            } else if k == 2 {
                assert(path.subrange(50int, 50int + key.len()) =~= key);
            }
        } else if i == 28 {
            if k == 0 {
                assert(path.subrange(28int, 28int + key.len()) =~= key);
            } else if k == 1 {
                assert(path.subrange(33int, 33int + key.len()) =~= key);
            } else if k == 2 {
                assert(path.subrange(50int, 50int + key.len()) =~= key);
            }
        } else if i == 29 {
            if k == 0 {
                assert(path.subrange(28int, 28int + key.len()) =~= key);
            } else if k == 1 {
                assert(path.subrange(33int, 33int + key.len()) =~= key);
            } else if k == 2 {
                assert(path.subrange(50int, 50int + key.len()) =~= key);
            }
        }
    }
    assert forall|a: int, b: int| 0 <= a < b < 30 implies t[a].model_path@ != t[b].model_path@ by {
        if a == 0 && b == 1 {
            assert(t[0].model_path@.len() != t[1].model_path@.len());
        } else if a == 0 && b == 2 {
            assert(t[0].model_path@.len() != t[2].model_path@.len());
        } else if a == 0 && b == 3 {
            assert(t[0].model_path@.len() != t[3].model_path@.len());
        } else if a == 0 && b == 4 {
            assert(t[0].model_path@.len() != t[4].model_path@.len());
        } else if a == 0 && b == 5 {
            assert(t[0].model_path@.len() != t[5].model_path@.len());
        } else if a == 0 && b == 6 {
            assert(t[0].model_path@.len() != t[6].model_path@.len());
        } else if a == 0 && b == 7 {
            assert(t[0].model_path@.len() != t[7].model_path@.len());
        } else if a == 0 && b == 8 {
            assert(t[0].model_path@.len() != t[8].model_path@.len());
        } else if a == 0 && b == 9 {
            assert(t[0].model_path@.len() != t[9].model_path@.len());
        } else if a == 0 && b == 10 {
            assert(t[0].model_path@[31] != t[10].model_path@[31]);
        } else if a == 0 && b == 11 {
            assert(t[0].model_path@[31] != t[11].model_path@[31]);
        } else if a == 0 && b == 12 {
            assert(t[0].model_path@[31] != t[12].model_path@[31]);
        } else if a == 0 && b == 13 {
            assert(t[0].model_path@.len() != t[13].model_path@.len());
        } else if a == 0 && b == 14 {
            assert(t[0].model_path@.len() != t[14].model_path@.len());
        } else if a == 0 && b == 15 {
            assert(t[0].model_path@.len() != t[15].model_path@.len());
        } else if a == 0 && b == 16 {
            assert(t[0].model_path@.len() != t[16].model_path@.len());
        } else if a == 0 && b == 17 {
            assert(t[0].model_path@.len() != t[17].model_path@.len());
        } else if a == 0 && b == 18 {
            assert(t[0].model_path@.len() != t[18].model_path@.len());
        } else if a == 0 && b == 19 {
            assert(t[0].model_path@.len() != t[19].model_path@.len());
        } else if a == 0 && b == 20 {
            assert(t[0].model_path@.len() != t[20].model_path@.len());
        } else if a == 0 && b == 21 {
            assert(t[0].model_path@.len() != t[21].model_path@.len());
        } else if a == 0 && b == 22 {
            assert(t[0].model_path@.len() != t[22].model_path@.len());
        } else if a == 0 && b == 23 {
            assert(t[0].model_path@.len() != t[23].model_path@.len());
        } else if a == 0 && b == 24 {
            assert(t[0].model_path@.len() != t[24].model_path@.len());
        } else if a == 0 && b == 25 {
            assert(t[0].model_path@.len() != t[25].model_path@.len());
        } else if a == 0 && b == 26 {
            assert(t[0].model_path@.len() != t[26].model_path@.len());
        } else if a == 0 && b == 27 {
            assert(t[0].model_path@.len() != t[27].model_path@.len());
        } else if a == 0 && b == 28 {
            assert(t[0].model_path@.len() != t[28].model_path@.len());
        } else if a == 0 && b == 29 {
            assert(t[0].model_path@.len() != t[29].model_path@.len());
        } else if a == 1 && b == 2 {
            assert(t[1].model_path@[50] != t[2].model_path@[50]);
        } else if a == 1 && b == 3 {
            assert(t[1].model_path@.len() != t[3].model_path@.len());
        } else if a == 1 && b == 4 {
            assert(t[1].model_path@.len() != t[4].model_path@.len());
        } else if a == 1 && b == 5 {
            assert(t[1].model_path@.len() != t[5].model_path@.len());
        } else if a == 1 && b == 6 {
            assert(t[1].model_path@[31] != t[6].model_path@[31]);
        } else if a == 1 && b == 7 {
            assert(t[1].model_path@.len() != t[7].model_path@.len());
        } else if a == 1 && b == 8 {
            assert(t[1].model_path@.len() != t[8].model_path@.len());
        } else if a == 1 && b == 9 {
            assert(t[1].model_path@.len() != t[9].model_path@.len());
        } else if a == 1 && b == 10 {
            assert(t[1].model_path@.len() != t[10].model_path@.len());
        } else if a == 1 && b == 11 {
            assert(t[1].model_path@.len() != t[11].model_path@.len());
        } else if a == 1 && b == 12 {
            assert(t[1].model_path@.len() != t[12].model_path@.len());
        } else if a == 1 && b == 13 {
            assert(t[1].model_path@[31] != t[13].model_path@[31]);
        } else if a == 1 && b == 14 {
            assert(t[1].model_path@[31] != t[14].model_path@[31]);
        } else if a == 1 && b == 15 {
            assert(t[1].model_path@.len() != t[15].model_path@.len());
        } else if a == 1 && b == 16 {
            assert(t[1].model_path@.len() != t[16].model_path@.len());
        } else if a == 1 && b == 17 {
            assert(t[1].model_path@.len() != t[17].model_path@.len());
        } else if a == 1 && b == 18 {
            assert(t[1].model_path@.len() != t[18].model_path@.len());
        } else if a == 1 && b == 19 {
            assert(t[1].model_path@.len() != t[19].model_path@.len());
        } else if a == 1 && b == 20 {
            assert(t[1].model_path@.len() != t[20].model_path@.len());
        } else if a == 1 && b == 21 {
            assert(t[1].model_path@.len() != t[21].model_path@.len());
        } else if a == 1 && b == 22 {
            assert(t[1].model_path@.len() != t[22].model_path@.len());
        } else if a == 1 && b == 23 {
            assert(t[1].model_path@.len() != t[23].model_path@.len());
        } else if a == 1 && b == 24 {
            assert(t[1].model_path@[28] != t[24].model_path@[28]);
        } else if a == 1 && b == 25 {
            assert(t[1].model_path@.len() != t[25].model_path@.len());
        } else if a == 1 && b == 26 {
            assert(t[1].model_path@.len() != t[26].model_path@.len());
        } else if a == 1 && b == 27 {
            assert(t[1].model_path@.len() != t[27].model_path@.len());
        } else if a == 1 && b == 28 {
            assert(t[1].model_path@.len() != t[28].model_path@.len());
        } else if a == 1 && b == 29 {
            assert(t[1].model_path@.len() != t[29].model_path@.len());
        } else if a == 2 && b == 3 {
            assert(t[2].model_path@.len() != t[3].model_path@.len());
        } else if a == 2 && b == 4 {
            assert(t[2].model_path@.len() != t[4].model_path@.len());
        } else if a == 2 && b == 5 {
            assert(t[2].model_path@.len() != t[5].model_path@.len());
        } else if a == 2 && b == 6 {
            assert(t[2].model_path@[31] != t[6].model_path@[31]);
        } else if a == 2 && b == 7 {
            assert(t[2].model_path@.len() != t[7].model_path@.len());
        } else if a == 2 && b == 8 {
            assert(t[2].model_path@.len() != t[8].model_path@.len());
        } else if a == 2 && b == 9 {
            assert(t[2].model_path@.len() != t[9].model_path@.len());
        } else if a == 2 && b == 10 {
            assert(t[2].model_path@.len() != t[10].model_path@.len());
        } else if a == 2 && b == 11 {
            assert(t[2].model_path@.len() != t[11].model_path@.len());
        } else if a == 2 && b == 12 {
            assert(t[2].model_path@.len() != t[12].model_path@.len());
        } else if a == 2 && b == 13 {
            assert(t[2].model_path@[31] != t[13].model_path@[31]);
        } else if a == 2 && b == 14 {
            assert(t[2].model_path@[31] != t[14].model_path@[31]);
        } else if a == 2 && b == 15 {
            assert(t[2].model_path@.len() != t[15].model_path@.len());
        } else if a == 2 && b == 16 {
            assert(t[2].model_path@.len() != t[16].model_path@.len());
        } else if a == 2 && b == 17 {
            assert(t[2].model_path@.len() != t[17].model_path@.len());
        } else if a == 2 && b == 18 {
            assert(t[2].model_path@.len() != t[18].model_path@.len());
        } else if a == 2 && b == 19 {
            assert(t[2].model_path@.len() != t[19].model_path@.len());
        } else if a == 2 && b == 20 {
            assert(t[2].model_path@.len() != t[20].model_path@.len());
        } else if a == 2 && b == 21 {
            assert(t[2].model_path@.len() != t[21].model_path@.len());
        } else if a == 2 && b == 22 {
            assert(t[2].model_path@.len() != t[22].model_path@.len());
        } else if a == 2 && b == 23 {
            assert(t[2].model_path@.len() != t[23].model_path@.len());
        } else if a == 2 && b == 24 {
            assert(t[2].model_path@[28] != t[24].model_path@[28]);
        } else if a == 2 && b == 25 {
            assert(t[2].model_path@.len() != t[25].model_path@.len());
        } else if a == 2 && b == 26 {
            assert(t[2].model_path@.len() != t[26].model_path@.len());
        } else if a == 2 && b == 27 {
            assert(t[2].model_path@.len() != t[27].model_path@.len());
        } else if a == 2 && b == 28 {
            assert(t[2].model_path@.len() != t[28].model_path@.len());
        } else if a == 2 && b == 29 {
            assert(t[2].model_path@.len() != t[29].model_path@.len());
        } else if a == 3 && b == 4 {
            assert(t[3].model_path@.len() != t[4].model_path@.len());
        } else if a == 3 && b == 5 {
            assert(t[3].model_path@.len() != t[5].model_path@.len());
        } else if a == 3 && b == 6 {
            assert(t[3].model_path@.len() != t[6].model_path@.len());
        } else if a == 3 && b == 7 {
            assert(t[3].model_path@.len() != t[7].model_path@.len());
        } else if a == 3 && b == 8 {
            assert(t[3].model_path@.len() != t[8].model_path@.len());
        } else if a == 3 && b == 9 {
            assert(t[3].model_path@.len() != t[9].model_path@.len());
        } else if a == 3 && b == 10 {
            assert(t[3].model_path@.len() != t[10].model_path@.len());
        } else if a == 3 && b == 11 {
            assert(t[3].model_path@.len() != t[11].model_path@.len());
        } else if a == 3 && b == 12 {
            assert(t[3].model_path@.len() != t[12].model_path@.len());
        } else if a == 3 && b == 13 {
            assert(t[3].model_path@.len() != t[13].model_path@.len());
        } else if a == 3 && b == 14 {
            assert(t[3].model_path@.len() != t[14].model_path@.len());
        } else if a == 3 && b == 15 {
            assert(t[3].model_path@.len() != t[15].model_path@.len());
        } else if a == 3 && b == 16 {
            assert(t[3].model_path@[28] != t[16].model_path@[28]);
        } else if a == 3 && b == 17 {
            assert(t[3].model_path@[28] != t[17].model_path@[28]);
        } else if a == 3 && b == 18 {
            assert(t[3].model_path@.len() != t[18].model_path@.len());
        } else if a == 3 && b == 19 {
            assert(t[3].model_path@.len() != t[19].model_path@.len());
        } else if a == 3 && b == 20 {
            assert(t[3].model_path@.len() != t[20].model_path@.len());
        } else if a == 3 && b == 21 {
            assert(t[3].model_path@[28] != t[21].model_path@[28]);
        } else if a == 3 && b == 22 {
            assert(t[3].model_path@.len() != t[22].model_path@.len());
        } else if a == 3 && b == 23 {
            assert(t[3].model_path@.len() != t[23].model_path@.len());
        } else if a == 3 && b == 24 {
            assert(t[3].model_path@.len() != t[24].model_path@.len());
        } else if a == 3 && b == 25 {
            assert(t[3].model_path@.len() != t[25].model_path@.len());
        } else if a == 3 && b == 26 {
            assert(t[3].model_path@.len() != t[26].model_path@.len());
        } else if a == 3 && b == 27 {
            assert(t[3].model_path@.len() != t[27].model_path@.len());
        } else if a == 3 && b == 28 {
            assert(t[3].model_path@[28] != t[28].model_path@[28]);
        } else if a == 3 && b == 29 {
            assert(t[3].model_path@[28] != t[29].model_path@[28]);
        } else if a == 4 && b == 5 {
            assert(t[4].model_path@[53] != t[5].model_path@[53]);
        } else if a == 4 && b == 6 {
            assert(t[4].model_path@.len() != t[6].model_path@.len());
        } else if a == 4 && b == 7 {
            assert(t[4].model_path@.len() != t[7].model_path@.len());
        } else if a == 4 && b == 8 {
            assert(t[4].model_path@.len() != t[8].model_path@.len());
        } else if a == 4 && b == 9 {
            assert(t[4].model_path@.len() != t[9].model_path@.len());
        } else if a == 4 && b == 10 {
            assert(t[4].model_path@.len() != t[10].model_path@.len());
        } else if a == 4 && b == 11 {
            assert(t[4].model_path@.len() != t[11].model_path@.len());
        } else if a == 4 && b == 12 {
            assert(t[4].model_path@.len() != t[12].model_path@.len());
        } else if a == 4 && b == 13 {
            assert(t[4].model_path@.len() != t[13].model_path@.len());
        } else if a == 4 && b == 14 {
            assert(t[4].model_path@.len() != t[14].model_path@.len());
        } else if a == 4 && b == 15 {
            assert(t[4].model_path@.len() != t[15].model_path@.len());
        } else if a == 4 && b == 16 {
            assert(t[4].model_path@.len() != t[16].model_path@.len());
        } else if a == 4 && b == 17 {
            assert(t[4].model_path@.len() != t[17].model_path@.len());
        } else if a == 4 && b == 18 {
            assert(t[4].model_path@.len() != t[18].model_path@.len());
        } else if a == 4 && b == 19 {
            assert(t[4].model_path@.len() != t[19].model_path@.len());
        } else if a == 4 && b == 20 {
            assert(t[4].model_path@.len() != t[20].model_path@.len());
        } else if a == 4 && b == 21 {
            assert(t[4].model_path@.len() != t[21].model_path@.len());
        } else if a == 4 && b == 22 {
            assert(t[4].model_path@[28] != t[22].model_path@[28]);
        } else if a == 4 && b == 23 {
            assert(t[4].model_path@[28] != t[23].model_path@[28]);
        } else if a == 4 && b == 24 {
            assert(t[4].model_path@.len() != t[24].model_path@.len());
        } else if a == 4 && b == 25 {
            assert(t[4].model_path@.len() != t[25].model_path@.len());
        } else if a == 4 && b == 26 {
            assert(t[4].model_path@.len() != t[26].model_path@.len());
        } else if a == 4 && b == 27 {
            assert(t[4].model_path@.len() != t[27].model_path@.len());
        } else if a == 4 && b == 28 {
            assert(t[4].model_path@.len() != t[28].model_path@.len());
        } else if a == 4 && b == 29 {
            assert(t[4].model_path@.len() != t[29].model_path@.len());
        } else if a == 5 && b == 6 {
            assert(t[5].model_path@.len() != t[6].model_path@.len());
        } else if a == 5 && b == 7 {
            assert(t[5].model_path@.len() != t[7].model_path@.len());
        } else if a == 5 && b == 8 {
            assert(t[5].model_path@.len() != t[8].model_path@.len());
        } else if a == 5 && b == 9 {
            assert(t[5].model_path@.len() != t[9].model_path@.len());
        } else if a == 5 && b == 10 {
            assert(t[5].model_path@.len() != t[10].model_path@.len());
        } else if a == 5 && b == 11 {
            assert(t[5].model_path@.len() != t[11].model_path@.len());
        } else if a == 5 && b == 12 {
            assert(t[5].model_path@.len() != t[12].model_path@.len());
        } else if a == 5 && b == 13 {
            assert(t[5].model_path@.len() != t[13].model_path@.len());
        } else if a == 5 && b == 14 {
            assert(t[5].model_path@.len() != t[14].model_path@.len());
        } else if a == 5 && b == 15 {
            assert(t[5].model_path@.len() != t[15].model_path@.len());
        } else if a == 5 && b == 16 {
            assert(t[5].model_path@.len() != t[16].model_path@.len());
        } else if a == 5 && b == 17 {
            assert(t[5].model_path@.len() != t[17].model_path@.len());
        } else if a == 5 && b == 18 {
            assert(t[5].model_path@.len() != t[18].model_path@.len());
        } else if a == 5 && b == 19 {
            assert(t[5].model_path@.len() != t[19].model_path@.len());
        } else if a == 5 && b == 20 {
            assert(t[5].model_path@.len() != t[20].model_path@.len());
        } else if a == 5 && b == 21 {
            assert(t[5].model_path@.len() != t[21].model_path@.len());
        } else if a == 5 && b == 22 {
            assert(t[5].model_path@[28] != t[22].model_path@[28]);
        } else if a == 5 && b == 23 {
            assert(t[5].model_path@[28] != t[23].model_path@[28]);
        } else if a == 5 && b == 24 {
            assert(t[5].model_path@.len() != t[24].model_path@.len());
        } else if a == 5 && b == 25 {
            assert(t[5].model_path@.len() != t[25].model_path@.len());
        } else if a == 5 && b == 26 {
            assert(t[5].model_path@.len() != t[26].model_path@.len());
        } else if a == 5 && b == 27 {
            assert(t[5].model_path@.len() != t[27].model_path@.len());
        } else if a == 5 && b == 28 {
            assert(t[5].model_path@.len() != t[28].model_path@.len());
        } else if a == 5 && b == 29 {
            assert(t[5].model_path@.len() != t[29].model_path@.len());
        } else if a == 6 && b == 7 {
            assert(t[6].model_path@.len() != t[7].model_path@.len());
        } else if a == 6 && b == 8 {
            assert(t[6].model_path@.len() != t[8].model_path@.len());
        } else if a == 6 && b == 9 {
            assert(t[6].model_path@.len() != t[9].model_path@.len());
        } else if a == 6 && b == 10 {
            assert(t[6].model_path@.len() != t[10].model_path@.len());
        } else if a == 6 && b == 11 {
            assert(t[6].model_path@.len() != t[11].model_path@.len());
        } else if a == 6 && b == 12 {
            assert(t[6].model_path@.len() != t[12].model_path@.len());
        } else if a == 6 && b == 13 {
            assert(t[6].model_path@[31] != t[13].model_path@[31]);
        } else if a == 6 && b == 14 {
            assert(t[6].model_path@[31] != t[14].model_path@[31]);
        } else if a == 6 && b == 15 {
            assert(t[6].model_path@.len() != t[15].model_path@.len());
        } else if a == 6 && b == 16 {
            assert(t[6].model_path@.len() != t[16].model_path@.len());
        } else if a == 6 && b == 17 {
            assert(t[6].model_path@.len() != t[17].model_path@.len());
        } else if a == 6 && b == 18 {
            assert(t[6].model_path@.len() != t[18].model_path@.len());
        } else if a == 6 && b == 19 {
            assert(t[6].model_path@.len() != t[19].model_path@.len());
        } else if a == 6 && b == 20 {
            assert(t[6].model_path@.len() != t[20].model_path@.len());
        } else if a == 6 && b == 21 {
            assert(t[6].model_path@.len() != t[21].model_path@.len());
        } else if a == 6 && b == 22 {
            assert(t[6].model_path@.len() != t[22].model_path@.len());
        } else if a == 6 && b == 23 {
            assert(t[6].model_path@.len() != t[23].model_path@.len());
        } else if a == 6 && b == 24 {
            assert(t[6].model_path@[28] != t[24].model_path@[28]);
        } else if a == 6 && b == 25 {
            assert(t[6].model_path@.len() != t[25].model_path@.len());
        } else if a == 6 && b == 26 {
            assert(t[6].model_path@.len() != t[26].model_path@.len());
        } else if a == 6 && b == 27 {
            assert(t[6].model_path@.len() != t[27].model_path@.len());
        } else if a == 6 && b == 28 {
            assert(t[6].model_path@.len() != t[28].model_path@.len());
        } else if a == 6 && b == 29 {
            assert(t[6].model_path@.len() != t[29].model_path@.len());
        } else if a == 7 && b == 8 {
            assert(t[7].model_path@[51] != t[8].model_path@[51]);
        } else if a == 7 && b == 9 {
            assert(t[7].model_path@.len() != t[9].model_path@.len());
        } else if a == 7 && b == 10 {
            assert(t[7].model_path@.len() != t[10].model_path@.len());
        } else if a == 7 && b == 11 {
            assert(t[7].model_path@.len() != t[11].model_path@.len());
        } else if a == 7 && b == 12 {
            assert(t[7].model_path@.len() != t[12].model_path@.len());
        } else if a == 7 && b == 13 {
            assert(t[7].model_path@.len() != t[13].model_path@.len());
        } else if a == 7 && b == 14 {
            assert(t[7].model_path@.len() != t[14].model_path@.len());
        } else if a == 7 && b == 15 {
            assert(t[7].model_path@[28] != t[15].model_path@[28]);
        } else if a == 7 && b == 16 {
            assert(t[7].model_path@.len() != t[16].model_path@.len());
        } else if a == 7 && b == 17 {
            assert(t[7].model_path@.len() != t[17].model_path@.len());
        } else if a == 7 && b == 18 {
            assert(t[7].model_path@.len() != t[18].model_path@.len());
        } else if a == 7 && b == 19 {
            assert(t[7].model_path@.len() != t[19].model_path@.len());
        } else if a == 7 && b == 20 {
            assert(t[7].model_path@.len() != t[20].model_path@.len());
        } else if a == 7 && b == 21 {
            assert(t[7].model_path@.len() != t[21].model_path@.len());
        } else if a == 7 && b == 22 {
            assert(t[7].model_path@.len() != t[22].model_path@.len());
        } else if a == 7 && b == 23 {
            assert(t[7].model_path@.len() != t[23].model_path@.len());
        } else if a == 7 && b == 24 {
            assert(t[7].model_path@.len() != t[24].model_path@.len());
        } else if a == 7 && b == 25 {
            assert(t[7].model_path@[28] != t[25].model_path@[28]);
        } else if a == 7 && b == 26 {
            assert(t[7].model_path@[28] != t[26].model_path@[28]);
        } else if a == 7 && b == 27 {
            assert(t[7].model_path@[28] != t[27].model_path@[28]);
        } else if a == 7 && b == 28 {
            assert(t[7].model_path@.len() != t[28].model_path@.len());
        } else if a == 7 && b == 29 {
            assert(t[7].model_path@.len() != t[29].model_path@.len());
        } else if a == 8 && b == 9 {
            assert(t[8].model_path@.len() != t[9].model_path@.len());
        } else if a == 8 && b == 10 {
            assert(t[8].model_path@.len() != t[10].model_path@.len());
        } else if a == 8 && b == 11 {
            assert(t[8].model_path@.len() != t[11].model_path@.len());
        } else if a == 8 && b == 12 {
            assert(t[8].model_path@.len() != t[12].model_path@.len());
        } else if a == 8 && b == 13 {
            assert(t[8].model_path@.len() != t[13].model_path@.len());
        } else if a == 8 && b == 14 {
            assert(t[8].model_path@.len() != t[14].model_path@.len());
        } else if a == 8 && b == 15 {
            assert(t[8].model_path@[28] != t[15].model_path@[28]);
        } else if a == 8 && b == 16 {
            assert(t[8].model_path@.len() != t[16].model_path@.len());
        } else if a == 8 && b == 17 {
            assert(t[8].model_path@.len() != t[17].model_path@.len());
        } else if a == 8 && b == 18 {
            assert(t[8].model_path@.len() != t[18].model_path@.len());
        } else if a == 8 && b == 19 {
            assert(t[8].model_path@.len() != t[19].model_path@.len());
        } else if a == 8 && b == 20 {
            assert(t[8].model_path@.len() != t[20].model_path@.len());
        } else if a == 8 && b == 21 {
            assert(t[8].model_path@.len() != t[21].model_path@.len());
        } else if a == 8 && b == 22 {
            assert(t[8].model_path@.len() != t[22].model_path@.len());
        } else if a == 8 && b == 23 {
            assert(t[8].model_path@.len() != t[23].model_path@.len());
        } else if a == 8 && b == 24 {
            assert(t[8].model_path@.len() != t[24].model_path@.len());
        } else if a == 8 && b == 25 {
            assert(t[8].model_path@[28] != t[25].model_path@[28]);
        } else if a == 8 && b == 26 {
            assert(t[8].model_path@[28] != t[26].model_path@[28]);
        } else if a == 8 && b == 27 {
            assert(t[8].model_path@[28] != t[27].model_path@[28]);
        } else if a == 8 && b == 28 {
            assert(t[8].model_path@.len() != t[28].model_path@.len());
        } else if a == 8 && b == 29 {
            assert(t[8].model_path@.len() != t[29].model_path@.len());
        } else if a == 9 && b == 10 {
            assert(t[9].model_path@.len() != t[10].model_path@.len());
        } else if a == 9 && b == 11 {
            assert(t[9].model_path@.len() != t[11].model_path@.len());
        } else if a == 9 && b == 12 {
            assert(t[9].model_path@.len() != t[12].model_path@.len());
        } else if a == 9 && b == 13 {
            assert(t[9].model_path@.len() != t[13].model_path@.len());
        } else if a == 9 && b == 14 {
            assert(t[9].model_path@.len() != t[14].model_path@.len());
        } else if a == 9 && b == 15 {
            assert(t[9].model_path@.len() != t[15].model_path@.len());
        } else if a == 9 && b == 16 {
            assert(t[9].model_path@.len() != t[16].model_path@.len());
        } else if a == 9 && b == 17 {
            assert(t[9].model_path@.len() != t[17].model_path@.len());
        } else if a == 9 && b == 18 {
            assert(t[9].model_path@.len() != t[18].model_path@.len());
        } else if a == 9 && b == 19 {
            assert(t[9].model_path@.len() != t[19].model_path@.len());
        } else if a == 9 && b == 20 {
            assert(t[9].model_path@.len() != t[20].model_path@.len());
        } else if a == 9 && b == 21 {
            assert(t[9].model_path@.len() != t[21].model_path@.len());
        } else if a == 9 && b == 22 {
            assert(t[9].model_path@.len() != t[22].model_path@.len());
        } else if a == 9 && b == 23 {
            assert(t[9].model_path@.len() != t[23].model_path@.len());
        } else if a == 9 && b == 24 {
            assert(t[9].model_path@.len() != t[24].model_path@.len());
        } else if a == 9 && b == 25 {
            assert(t[9].model_path@.len() != t[25].model_path@.len());
        } else if a == 9 && b == 26 {
            assert(t[9].model_path@.len() != t[26].model_path@.len());
        } else if a == 9 && b == 27 {
            assert(t[9].model_path@.len() != t[27].model_path@.len());
        } else if a == 9 && b == 28 {
            assert(t[9].model_path@.len() != t[28].model_path@.len());
        } else if a == 9 && b == 29 {
            assert(t[9].model_path@.len() != t[29].model_path@.len());
        } else if a == 10 && b == 11 {
            assert(t[10].model_path@[49] != t[11].model_path@[49]);
        } else if a == 10 && b == 12 {
            assert(t[10].model_path@[31] != t[12].model_path@[31]);
        } else if a == 10 && b == 13 {
            assert(t[10].model_path@.len() != t[13].model_path@.len());
        } else if a == 10 && b == 14 {
            assert(t[10].model_path@.len() != t[14].model_path@.len());
        } else if a == 10 && b == 15 {
            assert(t[10].model_path@.len() != t[15].model_path@.len());
        } else if a == 10 && b == 16 {
            assert(t[10].model_path@.len() != t[16].model_path@.len());
        } else if a == 10 && b == 17 {
            assert(t[10].model_path@.len() != t[17].model_path@.len());
        } else if a == 10 && b == 18 {
            assert(t[10].model_path@.len() != t[18].model_path@.len());
        } else if a == 10 && b == 19 {
            assert(t[10].model_path@.len() != t[19].model_path@.len());
        } else if a == 10 && b == 20 {
            assert(t[10].model_path@.len() != t[20].model_path@.len());
        } else if a == 10 && b == 21 {
            assert(t[10].model_path@.len() != t[21].model_path@.len());
        } else if a == 10 && b == 22 {
            assert(t[10].model_path@.len() != t[22].model_path@.len());
        } else if a == 10 && b == 23 {
            assert(t[10].model_path@.len() != t[23].model_path@.len());
        } else if a == 10 && b == 24 {
            assert(t[10].model_path@.len() != t[24].model_path@.len());
        } else if a == 10 && b == 25 {
            assert(t[10].model_path@.len() != t[25].model_path@.len());
        } else if a == 10 && b == 26 {
            assert(t[10].model_path@.len() != t[26].model_path@.len());
        } else if a == 10 && b == 27 {
            assert(t[10].model_path@.len() != t[27].model_path@.len());
        } else if a == 10 && b == 28 {
            assert(t[10].model_path@.len() != t[28].model_path@.len());
        } else if a == 10 && b == 29 {
            assert(t[10].model_path@.len() != t[29].model_path@.len());
        } else if a == 11 && b == 12 {
            assert(t[11].model_path@[31] != t[12].model_path@[31]);
        } else if a == 11 && b == 13 {
            assert(t[11].model_path@.len() != t[13].model_path@.len());
        } else if a == 11 && b == 14 {
            assert(t[11].model_path@.len() != t[14].model_path@.len());
        } else if a == 11 && b == 15 {
            assert(t[11].model_path@.len() != t[15].model_path@.len());
        } else if a == 11 && b == 16 {
            assert(t[11].model_path@.len() != t[16].model_path@.len());
        } else if a == 11 && b == 17 {
            assert(t[11].model_path@.len() != t[17].model_path@.len());
        } else if a == 11 && b == 18 {
            assert(t[11].model_path@.len() != t[18].model_path@.len());
        } else if a == 11 && b == 19 {
            assert(t[11].model_path@.len() != t[19].model_path@.len());
        } else if a == 11 && b == 20 {
            assert(t[11].model_path@.len() != t[20].model_path@.len());
        } else if a == 11 && b == 21 {
            assert(t[11].model_path@.len() != t[21].model_path@.len());
        } else if a == 11 && b == 22 {
            assert(t[11].model_path@.len() != t[22].model_path@.len());
        } else if a == 11 && b == 23 {
            assert(t[11].model_path@.len() != t[23].model_path@.len());
        } else if a == 11 && b == 24 {
            assert(t[11].model_path@.len() != t[24].model_path@.len());
        } else if a == 11 && b == 25 {
            assert(t[11].model_path@.len() != t[25].model_path@.len());
        } else if a == 11 && b == 26 {
            assert(t[11].model_path@.len() != t[26].model_path@.len());
        } else if a == 11 && b == 27 {
            assert(t[11].model_path@.len() != t[27].model_path@.len());
        } else if a == 11 && b == 28 {
            assert(t[11].model_path@.len() != t[28].model_path@.len());
        } else if a == 11 && b == 29 {
            assert(t[11].model_path@.len() != t[29].model_path@.len());
        } else if a == 12 && b == 13 {
            assert(t[12].model_path@.len() != t[13].model_path@.len());
        } else if a == 12 && b == 14 {
            assert(t[12].model_path@.len() != t[14].model_path@.len());
        } else if a == 12 && b == 15 {
            assert(t[12].model_path@.len() != t[15].model_path@.len());
        } else if a == 12 && b == 16 {
            assert(t[12].model_path@.len() != t[16].model_path@.len());
        } else if a == 12 && b == 17 {
            assert(t[12].model_path@.len() != t[17].model_path@.len());
        } else if a == 12 && b == 18 {
            assert(t[12].model_path@.len() != t[18].model_path@.len());
        } else if a == 12 && b == 19 {
            assert(t[12].model_path@.len() != t[19].model_path@.len());
        } else if a == 12 && b == 20 {
            assert(t[12].model_path@.len() != t[20].model_path@.len());
        } else if a == 12 && b == 21 {
            assert(t[12].model_path@.len() != t[21].model_path@.len());
        } else if a == 12 && b == 22 {
            assert(t[12].model_path@.len() != t[22].model_path@.len());
        } else if a == 12 && b == 23 {
            assert(t[12].model_path@.len() != t[23].model_path@.len());
        } else if a == 12 && b == 24 {
            assert(t[12].model_path@.len() != t[24].model_path@.len());
        } else if a == 12 && b == 25 {
            assert(t[12].model_path@.len() != t[25].model_path@.len());
        } else if a == 12 && b == 26 {
            assert(t[12].model_path@.len() != t[26].model_path@.len());
        } else if a == 12 && b == 27 {
            assert(t[12].model_path@.len() != t[27].model_path@.len());
        } else if a == 12 && b == 28 {
            assert(t[12].model_path@.len() != t[28].model_path@.len());
        } else if a == 12 && b == 29 {
            assert(t[12].model_path@.len() != t[29].model_path@.len());
        } else if a == 13 && b == 14 {
            assert(t[13].model_path@[49] != t[14].model_path@[49]);
        } else if a == 13 && b == 15 {
            assert(t[13].model_path@.len() != t[15].model_path@.len());
        } else if a == 13 && b == 16 {
            assert(t[13].model_path@.len() != t[16].model_path@.len());
        } else if a == 13 && b == 17 {
            assert(t[13].model_path@.len() != t[17].model_path@.len());
        } else if a == 13 && b == 18 {
            assert(t[13].model_path@.len() != t[18].model_path@.len());
        } else if a == 13 && b == 19 {
            assert(t[13].model_path@.len() != t[19].model_path@.len());
        } else if a == 13 && b == 20 {
            assert(t[13].model_path@.len() != t[20].model_path@.len());
        } else if a == 13 && b == 21 {
            assert(t[13].model_path@.len() != t[21].model_path@.len());
        } else if a == 13 && b == 22 {
            assert(t[13].model_path@.len() != t[22].model_path@.len());
        } else if a == 13 && b == 23 {
            assert(t[13].model_path@.len() != t[23].model_path@.len());
        } else if a == 13 && b == 24 {
            assert(t[13].model_path@[28] != t[24].model_path@[28]);
        } else if a == 13 && b == 25 {
            assert(t[13].model_path@.len() != t[25].model_path@.len());
        } else if a == 13 && b == 26 {
            assert(t[13].model_path@.len() != t[26].model_path@.len());
        } else if a == 13 && b == 27 {
            assert(t[13].model_path@.len() != t[27].model_path@.len());
        } else if a == 13 && b == 28 {
            assert(t[13].model_path@.len() != t[28].model_path@.len());
        } else if a == 13 && b == 29 {
            assert(t[13].model_path@.len() != t[29].model_path@.len());
        } else if a == 14 && b == 15 {
            assert(t[14].model_path@.len() != t[15].model_path@.len());
        } else if a == 14 && b == 16 {
            assert(t[14].model_path@.len() != t[16].model_path@.len());
        } else if a == 14 && b == 17 {
            assert(t[14].model_path@.len() != t[17].model_path@.len());
        } else if a == 14 && b == 18 {
            assert(t[14].model_path@.len() != t[18].model_path@.len());
        } else if a == 14 && b == 19 {
            assert(t[14].model_path@.len() != t[19].model_path@.len());
        } else if a == 14 && b == 20 {
            assert(t[14].model_path@.len() != t[20].model_path@.len());
        } else if a == 14 && b == 21 {
            assert(t[14].model_path@.len() != t[21].model_path@.len());
        } else if a == 14 && b == 22 {
            assert(t[14].model_path@.len() != t[22].model_path@.len());
        } else if a == 14 && b == 23 {
            assert(t[14].model_path@.len() != t[23].model_path@.len());
        } else if a == 14 && b == 24 {
            assert(t[14].model_path@[28] != t[24].model_path@[28]);
        } else if a == 14 && b == 25 {
            assert(t[14].model_path@.len() != t[25].model_path@.len());
        } else if a == 14 && b == 26 {
            assert(t[14].model_path@.len() != t[26].model_path@.len());
        } else if a == 14 && b == 27 {
            assert(t[14].model_path@.len() != t[27].model_path@.len());
        } else if a == 14 && b == 28 {
            assert(t[14].model_path@.len() != t[28].model_path@.len());
        } else if a == 14 && b == 29 {
            assert(t[14].model_path@.len() != t[29].model_path@.len());
        } else if a == 15 && b == 16 {
            assert(t[15].model_path@.len() != t[16].model_path@.len());
        } else if a == 15 && b == 17 {
            assert(t[15].model_path@.len() != t[17].model_path@.len());
        } else if a == 15 && b == 18 {
            assert(t[15].model_path@.len() != t[18].model_path@.len());
        } else if a == 15 && b == 19 {
            assert(t[15].model_path@.len() != t[19].model_path@.len());
        } else if a == 15 && b == 20 {
            assert(t[15].model_path@.len() != t[20].model_path@.len());
        } else if a == 15 && b == 21 {
            assert(t[15].model_path@.len() != t[21].model_path@.len());
        } else if a == 15 && b == 22 {
            assert(t[15].model_path@.len() != t[22].model_path@.len());
        } else if a == 15 && b == 23 {
            assert(t[15].model_path@.len() != t[23].model_path@.len());
        } else if a == 15 && b == 24 {
            assert(t[15].model_path@.len() != t[24].model_path@.len());
        } else if a == 15 && b == 25 {
            assert(t[15].model_path@[33] != t[25].model_path@[33]);
        } else if a == 15 && b == 26 {
            assert(t[15].model_path@[33] != t[26].model_path@[33]);
        } else if a == 15 && b == 27 {
            assert(t[15].model_path@[33] != t[27].model_path@[33]);
        } else if a == 15 && b == 28 {
            assert(t[15].model_path@.len() != t[28].model_path@.len());
        } else if a == 15 && b == 29 {
            assert(t[15].model_path@.len() != t[29].model_path@.len());
        } else if a == 16 && b == 17 {
            assert(t[16].model_path@[52] != t[17].model_path@[52]);
        } else if a == 16 && b == 18 {
            assert(t[16].model_path@.len() != t[18].model_path@.len());
        } else if a == 16 && b == 19 {
            assert(t[16].model_path@.len() != t[19].model_path@.len());
        } else if a == 16 && b == 20 {
            assert(t[16].model_path@.len() != t[20].model_path@.len());
        } else if a == 16 && b == 21 {
            assert(t[16].model_path@[33] != t[21].model_path@[33]);
        } else if a == 16 && b == 22 {
            assert(t[16].model_path@.len() != t[22].model_path@.len());
        } else if a == 16 && b == 23 {
            assert(t[16].model_path@.len() != t[23].model_path@.len());
        } else if a == 16 && b == 24 {
            assert(t[16].model_path@.len() != t[24].model_path@.len());
        } else if a == 16 && b == 25 {
            assert(t[16].model_path@.len() != t[25].model_path@.len());
        } else if a == 16 && b == 26 {
            assert(t[16].model_path@.len() != t[26].model_path@.len());
        } else if a == 16 && b == 27 {
            assert(t[16].model_path@.len() != t[27].model_path@.len());
        } else if a == 16 && b == 28 {
            assert(t[16].model_path@[33] != t[28].model_path@[33]);
        } else if a == 16 && b == 29 {
            assert(t[16].model_path@[33] != t[29].model_path@[33]);
        } else if a == 17 && b == 18 {
            assert(t[17].model_path@.len() != t[18].model_path@.len());
        } else if a == 17 && b == 19 {
            assert(t[17].model_path@.len() != t[19].model_path@.len());
        } else if a == 17 && b == 20 {
            assert(t[17].model_path@.len() != t[20].model_path@.len());
        } else if a == 17 && b == 21 {
            assert(t[17].model_path@[33] != t[21].model_path@[33]);
        } else if a == 17 && b == 22 {
            assert(t[17].model_path@.len() != t[22].model_path@.len());
        } else if a == 17 && b == 23 {
            assert(t[17].model_path@.len() != t[23].model_path@.len());
        } else if a == 17 && b == 24 {
            assert(t[17].model_path@.len() != t[24].model_path@.len());
        } else if a == 17 && b == 25 {
            assert(t[17].model_path@.len() != t[25].model_path@.len());
        } else if a == 17 && b == 26 {
            assert(t[17].model_path@.len() != t[26].model_path@.len());
        } else if a == 17 && b == 27 {
            assert(t[17].model_path@.len() != t[27].model_path@.len());
        } else if a == 17 && b == 28 {
            assert(t[17].model_path@[33] != t[28].model_path@[33]);
        } else if a == 17 && b == 29 {
            assert(t[17].model_path@[33] != t[29].model_path@[33]);
        } else if a == 18 && b == 19 {
            assert(t[18].model_path@.len() != t[19].model_path@.len());
        } else if a == 18 && b == 20 {
            assert(t[18].model_path@.len() != t[20].model_path@.len());
        } else if a == 18 && b == 21 {
            assert(t[18].model_path@.len() != t[21].model_path@.len());
        } else if a == 18 && b == 22 {
            assert(t[18].model_path@.len() != t[22].model_path@.len());
        } else if a == 18 && b == 23 {
            assert(t[18].model_path@.len() != t[23].model_path@.len());
        } else if a == 18 && b == 24 {
            assert(t[18].model_path@.len() != t[24].model_path@.len());
        } else if a == 18 && b == 25 {
            assert(t[18].model_path@.len() != t[25].model_path@.len());
        } else if a == 18 && b == 26 {
            assert(t[18].model_path@.len() != t[26].model_path@.len());
        } else if a == 18 && b == 27 {
            assert(t[18].model_path@.len() != t[27].model_path@.len());
        } else if a == 18 && b == 28 {
            assert(t[18].model_path@.len() != t[28].model_path@.len());
        } else if a == 18 && b == 29 {
            assert(t[18].model_path@.len() != t[29].model_path@.len());
        } else if a == 19 && b == 20 {
            assert(t[19].model_path@[55] != t[20].model_path@[55]);
        } else if a == 19 && b == 21 {
            assert(t[19].model_path@.len() != t[21].model_path@.len());
        } else if a == 19 && b == 22 {
            assert(t[19].model_path@.len() != t[22].model_path@.len());
        } else if a == 19 && b == 23 {
            assert(t[19].model_path@.len() != t[23].model_path@.len());
        } else if a == 19 && b == 24 {
            assert(t[19].model_path@.len() != t[24].model_path@.len());
        } else if a == 19 && b == 25 {
            assert(t[19].model_path@.len() != t[25].model_path@.len());
        } else if a == 19 && b == 26 {
            assert(t[19].model_path@.len() != t[26].model_path@.len());
        } else if a == 19 && b == 27 {
            assert(t[19].model_path@.len() != t[27].model_path@.len());
        } else if a == 19 && b == 28 {
            assert(t[19].model_path@.len() != t[28].model_path@.len());
        } else if a == 19 && b == 29 {
            assert(t[19].model_path@.len() != t[29].model_path@.len());
        } else if a == 20 && b == 21 {
            assert(t[20].model_path@.len() != t[21].model_path@.len());
        } else if a == 20 && b == 22 {
            assert(t[20].model_path@.len() != t[22].model_path@.len());
        } else if a == 20 && b == 23 {
            assert(t[20].model_path@.len() != t[23].model_path@.len());
        } else if a == 20 && b == 24 {
            assert(t[20].model_path@.len() != t[24].model_path@.len());
        } else if a == 20 && b == 25 {
            assert(t[20].model_path@.len() != t[25].model_path@.len());
        } else if a == 20 && b == 26 {
            assert(t[20].model_path@.len() != t[26].model_path@.len());
        } else if a == 20 && b == 27 {
            assert(t[20].model_path@.len() != t[27].model_path@.len());
        } else if a == 20 && b == 28 {
            assert(t[20].model_path@.len() != t[28].model_path@.len());
        } else if a == 20 && b == 29 {
            assert(t[20].model_path@.len() != t[29].model_path@.len());
        } else if a == 21 && b == 22 {
            assert(t[21].model_path@.len() != t[22].model_path@.len());
        } else if a == 21 && b == 23 {
            assert(t[21].model_path@.len() != t[23].model_path@.len());
        } else if a == 21 && b == 24 {
            assert(t[21].model_path@.len() != t[24].model_path@.len());
        } else if a == 21 && b == 25 {
            assert(t[21].model_path@.len() != t[25].model_path@.len());
        } else if a == 21 && b == 26 {
            assert(t[21].model_path@.len() != t[26].model_path@.len());
        } else if a == 21 && b == 27 {
            assert(t[21].model_path@.len() != t[27].model_path@.len());
        } else if a == 21 && b == 28 {
            assert(t[21].model_path@[33] != t[28].model_path@[33]);
        } else if a == 21 && b == 29 {
            assert(t[21].model_path@[33] != t[29].model_path@[33]);
        } else if a == 22 && b == 23 {
            assert(t[22].model_path@[53] != t[23].model_path@[53]);
        } else if a == 22 && b == 24 {
            assert(t[22].model_path@.len() != t[24].model_path@.len());
        } else if a == 22 && b == 25 {
            assert(t[22].model_path@.len() != t[25].model_path@.len());
        } else if a == 22 && b == 26 {
            assert(t[22].model_path@.len() != t[26].model_path@.len());
        } else if a == 22 && b == 27 {
            assert(t[22].model_path@.len() != t[27].model_path@.len());
        } else if a == 22 && b == 28 {
            assert(t[22].model_path@.len() != t[28].model_path@.len());
        } else if a == 22 && b == 29 {
            assert(t[22].model_path@.len() != t[29].model_path@.len());
        } else if a == 23 && b == 24 {
            assert(t[23].model_path@.len() != t[24].model_path@.len());
        } else if a == 23 && b == 25 {
            assert(t[23].model_path@.len() != t[25].model_path@.len());
        } else if a == 23 && b == 26 {
            assert(t[23].model_path@.len() != t[26].model_path@.len());
        } else if a == 23 && b == 27 {
            assert(t[23].model_path@.len() != t[27].model_path@.len());
        } else if a == 23 && b == 28 {
            assert(t[23].model_path@.len() != t[28].model_path@.len());
        } else if a == 23 && b == 29 {
            assert(t[23].model_path@.len() != t[29].model_path@.len());
        } else if a == 24 && b == 25 {
            assert(t[24].model_path@.len() != t[25].model_path@.len());
        } else if a == 24 && b == 26 {
            assert(t[24].model_path@.len() != t[26].model_path@.len());
        } else if a == 24 && b == 27 {
            assert(t[24].model_path@.len() != t[27].model_path@.len());
        } else if a == 24 && b == 28 {
            assert(t[24].model_path@.len() != t[28].model_path@.len());
        } else if a == 24 && b == 29 {
            assert(t[24].model_path@.len() != t[29].model_path@.len());
        } else if a == 25 && b == 26 {
            assert(t[25].model_path@[51] != t[26].model_path@[51]);
        } else if a == 25 && b == 27 {
            assert(t[25].model_path@[33] != t[27].model_path@[33]);
        } else if a == 25 && b == 28 {
            assert(t[25].model_path@.len() != t[28].model_path@.len());
        } else if a == 25 && b == 29 {
            assert(t[25].model_path@.len() != t[29].model_path@.len());
        } else if a == 26 && b == 27 {
            assert(t[26].model_path@[33] != t[27].model_path@[33]);
        } else if a == 26 && b == 28 {
            assert(t[26].model_path@.len() != t[28].model_path@.len());
        } else if a == 26 && b == 29 {
            assert(t[26].model_path@.len() != t[29].model_path@.len());
        } else if a == 27 && b == 28 {
            assert(t[27].model_path@.len() != t[28].model_path@.len());
        } else if a == 27 && b == 29 {
            assert(t[27].model_path@.len() != t[29].model_path@.len());
        } else if a == 28 && b == 29 {
            assert(t[28].model_path@[51] != t[29].model_path@[51]);
        }
    }
}

/// Every capture names a file that writes each value of its setting in its
/// own place, between the texts that mark that place in the file name.
pub proof fn lemma_files_write_settings()
    ensures
        forall|i: int| 0 <= i < spec_captures().len() ==> {
            &&& names_value((#[trigger] spec_captures()[i]).model_path@, "dot_"@ + spec_captures()[i].keys[0]@ + "_"@)
            &&& names_value((#[trigger] spec_captures()[i]).model_path@, "_"@ + spec_captures()[i].keys[1]@ + "_vol_3"@)
            &&& names_value((#[trigger] spec_captures()[i]).model_path@, "ol_330_tone_"@ + spec_captures()[i].keys[2]@ + "_drive"@)
        },
{
    reveal_strlit("dot_");
    reveal_strlit("_");
    reveal_strlit("_");
    reveal_strlit("_vol_3");
    reveal_strlit("ol_330_tone_");
    reveal_strlit("_drive");
    reveal_strlit("pedals/mxr_duke_of_tone/dot_od_high_vol_330_tone_230_drive_300.nam");
    reveal_strlit("pedals/mxr_duke_of_tone/dot_od_high_vol_330_tone_1030_drive_300.nam");
    reveal_strlit("pedals/mxr_duke_of_tone/dot_od_high_vol_330_tone_1200_drive_300.nam");
    reveal_strlit("pedals/mxr_duke_of_tone/dot_od_cranked_vol_330_tone_230_drive_500.nam");
    reveal_strlit("pedals/mxr_duke_of_tone/dot_od_cranked_vol_330_tone_1030_drive_500.nam");
    reveal_strlit("pedals/mxr_duke_of_tone/dot_od_cranked_vol_330_tone_1200_drive_500.nam");
    reveal_strlit("pedals/mxr_duke_of_tone/dot_od_color_vol_330_tone_230_drive_700.nam");
    reveal_strlit("pedals/mxr_duke_of_tone/dot_od_color_vol_330_tone_1030_drive_700.nam");
    reveal_strlit("pedals/mxr_duke_of_tone/dot_od_color_vol_330_tone_1200_drive_700.nam");
    reveal_strlit("pedals/mxr_duke_of_tone/dot_od_low_vol_330_tone_230_drive_900.nam");
    reveal_strlit("pedals/mxr_duke_of_tone/dot_od_low_vol_330_tone_1030_drive_900.nam");
    reveal_strlit("pedals/mxr_duke_of_tone/dot_od_low_vol_330_tone_1200_drive_900.nam");
    reveal_strlit("pedals/mxr_duke_of_tone/dot_od_med_vol_330_tone_230_drive_1200.nam");
    reveal_strlit("pedals/mxr_duke_of_tone/dot_od_med_vol_330_tone_1030_drive_1200.nam");
    reveal_strlit("pedals/mxr_duke_of_tone/dot_od_med_vol_330_tone_1200_drive_1200.nam");
    reveal_strlit("pedals/mxr_duke_of_tone/dot_dist_high_vol_330_tone_230_drive_300.nam");
    reveal_strlit("pedals/mxr_duke_of_tone/dot_dist_high_vol_330_tone_1030_drive_300.nam");
    reveal_strlit("pedals/mxr_duke_of_tone/dot_dist_high_vol_330_tone_1200_drive_300.nam");
    reveal_strlit("pedals/mxr_duke_of_tone/dot_dist_cranked_vol_330_tone_230_drive_500.nam");
    reveal_strlit("pedals/mxr_duke_of_tone/dot_dist_cranked_vol_330_tone_1030_drive_500.nam");
    reveal_strlit("pedals/mxr_duke_of_tone/dot_dist_cranked_vol_330_tone_1200_drive_500.nam");
    reveal_strlit("pedals/mxr_duke_of_tone/dot_dist_color_vol_330_tone_230_drive_700.nam");
    reveal_strlit("pedals/mxr_duke_of_tone/dot_dist_color_vol_330_tone_1030_drive_700.nam");
    reveal_strlit("pedals/mxr_duke_of_tone/dot_dist_color_vol_330_tone_1200_drive_700.nam");
    reveal_strlit("pedals/mxr_duke_of_tone/dot_dist_low_vol_330_tone_230_drive_900.nam");
    reveal_strlit("pedals/mxr_duke_of_tone/dot_dist_low_vol_330_tone_1030_drive_900.nam");
    reveal_strlit("pedals/mxr_duke_of_tone/dot_dist_low_vol_330_tone_1200_drive_900.nam");
    reveal_strlit("pedals/mxr_duke_of_tone/dot_dist_med_vol_330_tone_230_drive_1200.nam");
    reveal_strlit("pedals/mxr_duke_of_tone/dot_dist_med_vol_330_tone_1030_drive_1200.nam");
    reveal_strlit("pedals/mxr_duke_of_tone/dot_dist_med_vol_330_tone_1200_drive_1200.nam");
    reveal_strlit("od");
    reveal_strlit("high");
    reveal_strlit("230");
    reveal_strlit("1030");
    reveal_strlit("1200");
    reveal_strlit("cranked");
    reveal_strlit("color");
    reveal_strlit("low");
    reveal_strlit("med");
    reveal_strlit("dist");
    let t = spec_captures();
    assert forall|i: int| 0 <= i < t.len() implies {
        &&& names_value((#[trigger] t[i]).model_path@, "dot_"@ + t[i].keys[0]@ + "_"@)
        &&& names_value((#[trigger] t[i]).model_path@, "_"@ + t[i].keys[1]@ + "_vol_3"@)
        &&& names_value((#[trigger] t[i]).model_path@, "ol_330_tone_"@ + t[i].keys[2]@ + "_drive"@)
    } by {
        let path = t[i].model_path@;
        if i == 0 {
            let v0 = "dot_"@ + t[i].keys[0]@ + "_"@;
            assert(path.subrange(24int, 24int + v0.len()) =~= v0);
            let v1 = "_"@ + t[i].keys[1]@ + "_vol_3"@;
            assert(path.subrange(30int, 30int + v1.len()) =~= v1);
            let v2 = "ol_330_tone_"@ + t[i].keys[2]@ + "_drive"@;
            assert(path.subrange(37int, 37int + v2.len()) =~= v2);
        } else if i == 1 {
            let v0 = "dot_"@ + t[i].keys[0]@ + "_"@;
            assert(path.subrange(24int, 24int + v0.len()) =~= v0);
            let v1 = "_"@ + t[i].keys[1]@ + "_vol_3"@;
            assert(path.subrange(30int, 30int + v1.len()) =~= v1);
            let v2 = "ol_330_tone_"@ + t[i].keys[2]@ + "_drive"@;
            assert(path.subrange(37int, 37int + v2.len()) =~= v2);
        } else if i == 2 {
            let v0 = "dot_"@ + t[i].keys[0]@ + "_"@;
            assert(path.subrange(24int, 24int + v0.len()) =~= v0);
            let v1 = "_"@ + t[i].keys[1]@ + "_vol_3"@;
            assert(path.subrange(30int, 30int + v1.len()) =~= v1);
            let v2 = "ol_330_tone_"@ + t[i].keys[2]@ + "_drive"@;
            assert(path.subrange(37int, 37int + v2.len()) =~= v2);
        } else if i == 3 {
            let v0 = "dot_"@ + t[i].keys[0]@ + "_"@;
            assert(path.subrange(24int, 24int + v0.len()) =~= v0);
            let v1 = "_"@ + t[i].keys[1]@ + "_vol_3"@;
            assert(path.subrange(30int, 30int + v1.len()) =~= v1);
            let v2 = "ol_330_tone_"@ + t[i].keys[2]@ + "_drive"@;
            assert(path.subrange(40int, 40int + v2.len()) =~= v2);
        } else if i == 4 {
            let v0 = "dot_"@ + t[i].keys[0]@ + "_"@;
            assert(path.subrange(24int, 24int + v0.len()) =~= v0);
            let v1 = "_"@ + t[i].keys[1]@ + "_vol_3"@;
            assert(path.subrange(30int, 30int + v1.len()) =~= v1);
            let v2 = "ol_330_tone_"@ + t[i].keys[2]@ + "_drive"@;
            assert(path.subrange(40int, 40int + v2.len()) =~= v2);
        } else if i == 5 {
            let v0 = "dot_"@ + t[i].keys[0]@ + "_"@;
            assert(path.subrange(24int, 24int + v0.len()) =~= v0);
            let v1 = "_"@ + t[i].keys[1]@ + "_vol_3"@;
            assert(path.subrange(30int, 30int + v1.len()) =~= v1);
            let v2 = "ol_330_tone_"@ + t[i].keys[2]@ + "_drive"@;
            assert(path.subrange(40int, 40int + v2.len()) =~= v2);
        } else if i == 6 {
            let v0 = "dot_"@ + t[i].keys[0]@ + "_"@;
            assert(path.subrange(24int, 24int + v0.len()) =~= v0);
            let v1 = "_"@ + t[i].keys[1]@ + "_vol_3"@;
            assert(path.subrange(30int, 30int + v1.len()) =~= v1);
            let v2 = "ol_330_tone_"@ + t[i].keys[2]@ + "_drive"@;
            assert(path.subrange(38int, 38int + v2.len()) =~= v2);
        } else if i == 7 {
            let v0 = "dot_"@ + t[i].keys[0]@ + "_"@;
            assert(path.subrange(24int, 24int + v0.len()) =~= v0);
            let v1 = "_"@ + t[i].keys[1]@ + "_vol_3"@;
            assert(path.subrange(30int, 30int + v1.len()) =~= v1);
            let v2 = "ol_330_tone_"@ + t[i].keys[2]@ + "_drive"@;
            assert(path.subrange(38int, 38int + v2.len()) =~= v2);
        } else if i == 8 {
            let v0 = "dot_"@ + t[i].keys[0]@ + "_"@;
            assert(path.subrange(24int, 24int + v0.len()) =~= v0);
            let v1 = "_"@ + t[i].keys[1]@ + "_vol_3"@;
            assert(path.subrange(30int, 30int + v1.len()) =~= v1);
            let v2 = "ol_330_tone_"@ + t[i].keys[2]@ + "_drive"@;
            assert(path.subrange(38int, 38int + v2.len()) =~= v2);
        } else if i == 9 {
            let v0 = "dot_"@ + t[i].keys[0]@ + "_"@;
            assert(path.subrange(24int, 24int + v0.len()) =~= v0);
            let v1 = "_"@ + t[i].keys[1]@ + "_vol_3"@;
            assert(path.subrange(30int, 30int + v1.len()) =~= v1);
            let v2 = "ol_330_tone_"@ + t[i].keys[2]@ + "_drive"@;
            assert(path.subrange(36int, 36int + v2.len()) =~= v2);
        } else if i == 10 {
            let v0 = "dot_"@ + t[i].keys[0]@ + "_"@;
            assert(path.subrange(24int, 24int + v0.len()) =~= v0);
            let v1 = "_"@ + t[i].keys[1]@ + "_vol_3"@;
            assert(path.subrange(30int, 30int + v1.len()) =~= v1);
            let v2 = "ol_330_tone_"@ + t[i].keys[2]@ + "_drive"@;
            assert(path.subrange(36int, 36int + v2.len()) =~= v2);
        } else if i == 11 {
            let v0 = "dot_"@ + t[i].keys[0]@ + "_"@;
            assert(path.subrange(24int, 24int + v0.len()) =~= v0);
            let v1 = "_"@ + t[i].keys[1]@ + "_vol_3"@;
            assert(path.subrange(30int, 30int + v1.len()) =~= v1);
            let v2 = "ol_330_tone_"@ + t[i].keys[2]@ + "_drive"@;
            assert(path.subrange(36int, 36int + v2.len()) =~= v2);
        } else if i == 12 {
            let v0 = "dot_"@ + t[i].keys[0]@ + "_"@;
            assert(path.subrange(24int, 24int + v0.len()) =~= v0);
            let v1 = "_"@ + t[i].keys[1]@ + "_vol_3"@;
            assert(path.subrange(30int, 30int + v1.len()) =~= v1);
            let v2 = "ol_330_tone_"@ + t[i].keys[2]@ + "_drive"@;
            assert(path.subrange(36int, 36int + v2.len()) =~= v2);
        } else if i == 13 {
            let v0 = "dot_"@ + t[i].keys[0]@ + "_"@;
            assert(path.subrange(24int, 24int + v0.len()) =~= v0);
            let v1 = "_"@ + t[i].keys[1]@ + "_vol_3"@;
            assert(path.subrange(30int, 30int + v1.len()) =~= v1);
            let v2 = "ol_330_tone_"@ + t[i].keys[2]@ + "_drive"@;
            assert(path.subrange(36int, 36int + v2.len()) =~= v2);
        } else if i == 14 {
            let v0 = "dot_"@ + t[i].keys[0]@ + "_"@;
            assert(path.subrange(24int, 24int + v0.len()) =~= v0);
            let v1 = "_"@ + t[i].keys[1]@ + "_vol_3"@;
            assert(path.subrange(30int, 30int + v1.len()) =~= v1);
            let v2 = "ol_330_tone_"@ + t[i].keys[2]@ + "_drive"@;
            assert(path.subrange(36int, 36int + v2.len()) =~= v2);
        } else if i == 15 {
            let v0 = "dot_"@ + t[i].keys[0]@ + "_"@;
            assert(path.subrange(24int, 24int + v0.len()) =~= v0);
            let v1 = "_"@ + t[i].keys[1]@ + "_vol_3"@;
            assert(path.subrange(32int, 32int + v1.len()) =~= v1);
            let v2 = "ol_330_tone_"@ + t[i].keys[2]@ + "_drive"@;
            assert(path.subrange(39int, 39int + v2.len()) =~= v2);
        } else if i == 16 {
            let v0 = "dot_"@ + t[i].keys[0]@ + "_"@;
            assert(path.subrange(24int, 24int + v0.len()) =~= v0);
            let v1 = "_"@ + t[i].keys[1]@ + "_vol_3"@;
            assert(path.subrange(32int, 32int + v1.len()) =~= v1);
            let v2 = "ol_330_tone_"@ + t[i].keys[2]@ + "_drive"@;
            assert(path.subrange(39int, 39int + v2.len()) =~= v2);
        } else if i == 17 {
            let v0 = "dot_"@ + t[i].keys[0]@ + "_"@;
            assert(path.subrange(24int, 24int + v0.len()) =~= v0);
            let v1 = "_"@ + t[i].keys[1]@ + "_vol_3"@;
            assert(path.subrange(32int, 32int + v1.len()) =~= v1);
            let v2 = "ol_330_tone_"@ + t[i].keys[2]@ + "_drive"@;
            assert(path.subrange(39int, 39int + v2.len()) =~= v2);
        } else if i == 18 {
            let v0 = "dot_"@ + t[i].keys[0]@ + "_"@;
            assert(path.subrange(24int, 24int + v0.len()) =~= v0);
            let v1 = "_"@ + t[i].keys[1]@ + "_vol_3"@;
            assert(path.subrange(32int, 32int + v1.len()) =~= v1);
            let v2 = "ol_330_tone_"@ + t[i].keys[2]@ + "_drive"@;
            assert(path.subrange(42int, 42int + v2.len()) =~= v2);
        } else if i == 19 {
            let v0 = "dot_"@ + t[i].keys[0]@ + "_"@;
            assert(path.subrange(24int, 24int + v0.len()) =~= v0);
            let v1 = "_"@ + t[i].keys[1]@ + "_vol_3"@;
            assert(path.subrange(32int, 32int + v1.len()) =~= v1);
            let v2 = "ol_330_tone_"@ + t[i].keys[2]@ + "_drive"@;
            assert(path.subrange(42int, 42int + v2.len()) =~= v2);
        } else if i == 20 {
            let v0 = "dot_"@ + t[i].keys[0]@ + "_"@;
            assert(path.subrange(24int, 24int + v0.len()) =~= v0);
            let v1 = "_"@ + t[i].keys[1]@ + "_vol_3"@;
            assert(path.subrange(32int, 32int + v1.len()) =~= v1);
            let v2 = "ol_330_tone_"@ + t[i].keys[2]@ + "_drive"@;
            assert(path.subrange(42int, 42int + v2.len()) =~= v2);
        } else if i == 21 {
            let v0 = "dot_"@ + t[i].keys[0]@ + "_"@;
            assert(path.subrange(24int, 24int + v0.len()) =~= v0);
            let v1 = "_"@ + t[i].keys[1]@ + "_vol_3"@;
            assert(path.subrange(32int, 32int + v1.len()) =~= v1);
            let v2 = "ol_330_tone_"@ + t[i].keys[2]@ + "_drive"@;
            assert(path.subrange(40int, 40int + v2.len()) =~= v2);
        } else if i == 22 {
            let v0 = "dot_"@ + t[i].keys[0]@ + "_"@;
            assert(path.subrange(24int, 24int + v0.len()) =~= v0);
            let v1 = "_"@ + t[i].keys[1]@ + "_vol_3"@;
            assert(path.subrange(32int, 32int + v1.len()) =~= v1);
            let v2 = "ol_330_tone_"@ + t[i].keys[2]@ + "_drive"@;
            assert(path.subrange(40int, 40int + v2.len()) =~= v2);
        } else if i == 23 {
            let v0 = "dot_"@ + t[i].keys[0]@ + "_"@;
            assert(path.subrange(24int, 24int + v0.len()) =~= v0);
            let v1 = "_"@ + t[i].keys[1]@ + "_vol_3"@;
            assert(path.subrange(32int, 32int + v1.len()) =~= v1);
            let v2 = "ol_330_tone_"@ + t[i].keys[2]@ + "_drive"@;
            assert(path.subrange(40int, 40int + v2.len()) =~= v2);
        } else if i == 24 {
            let v0 = "dot_"@ + t[i].keys[0]@ + "_"@;
            assert(path.subrange(24int, 24int + v0.len()) =~= v0);
            let v1 = "_"@ + t[i].keys[1]@ + "_vol_3"@;
            assert(path.subrange(32int, 32int + v1.len()) =~= v1);
            let v2 = "ol_330_tone_"@ + t[i].keys[2]@ + "_drive"@;
            assert(path.subrange(38int, 38int + v2.len()) =~= v2);
        } else if i == 25 {
            let v0 = "dot_"@ + t[i].keys[0]@ + "_"@;
            assert(path.subrange(24int, 24int + v0.len()) =~= v0);
            let v1 = "_"@ + t[i].keys[1]@ + "_vol_3"@;
            assert(path.subrange(32int, 32int + v1.len()) =~= v1);
            let v2 = "ol_330_tone_"@ + t[i].keys[2]@ + "_drive"@;
            assert(path.subrange(38int, 38int + v2.len()) =~= v2);
        } else if i == 26 {
            let v0 = "dot_"@ + t[i].keys[0]@ + "_"@;
            assert(path.subrange(24int, 24int + v0.len()) =~= v0);
            let v1 = "_"@ + t[i].keys[1]@ + "_vol_3"@;
            assert(path.subrange(32int, 32int + v1.len()) =~= v1);
            let v2 = "ol_330_tone_"@ + t[i].keys[2]@ + "_drive"@;
            assert(path.subrange(38int, 38int + v2.len()) =~= v2);
        } else if i == 27 {
            let v0 = "dot_"@ + t[i].keys[0]@ + "_"@;
            assert(path.subrange(24int, 24int + v0.len()) =~= v0);
            let v1 = "_"@ + t[i].keys[1]@ + "_vol_3"@;
            assert(path.subrange(32int, 32int + v1.len()) =~= v1);
            let v2 = "ol_330_tone_"@ + t[i].keys[2]@ + "_drive"@;
            assert(path.subrange(38int, 38int + v2.len()) =~= v2);
        } else if i == 28 {
            let v0 = "dot_"@ + t[i].keys[0]@ + "_"@;
            assert(path.subrange(24int, 24int + v0.len()) =~= v0);
            let v1 = "_"@ + t[i].keys[1]@ + "_vol_3"@;
            assert(path.subrange(32int, 32int + v1.len()) =~= v1);
            let v2 = "ol_330_tone_"@ + t[i].keys[2]@ + "_drive"@;
            assert(path.subrange(38int, 38int + v2.len()) =~= v2);
        } else if i == 29 {
            let v0 = "dot_"@ + t[i].keys[0]@ + "_"@;
            assert(path.subrange(24int, 24int + v0.len()) =~= v0);
            let v1 = "_"@ + t[i].keys[1]@ + "_vol_3"@;
            assert(path.subrange(32int, 32int + v1.len()) =~= v1);
            let v2 = "ol_330_tone_"@ + t[i].keys[2]@ + "_drive"@;
            assert(path.subrange(38int, 38int + v2.len()) =~= v2);
        }
    }
}

} // verus!
