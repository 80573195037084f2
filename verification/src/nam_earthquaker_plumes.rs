//! The "EarthQuaker Plumes" gain model (earthquaker), played from neural captures, one per recorded setting.

use vstd::prelude::*;
use crate::capture::{
    files_distinct,
    Capture, CaptureView, table_view, find_capture, first_selected, asset_text, lemma_first_selected,
    lemma_selected_at, captures_follow_schema, default_setting, defaults_present, captures_distinct,
    every_setting_selects, setting_of_choices,
};
use crate::error::GainError;
use crate::model::{BackendKind, Instruments, KnobLayoutEntry, ModelDefinition, ModelDefinitionView};
use crate::schema::{
    EffectType, EnumChoice, ModelSchema, ModelSchemaView, ParameterKindView, ParameterSpecView,
    choice, enum_parameter, parameters_view, schema_well_formed, choices_at, str_texts, is_choice,
    parameter_well_formed, choice_values, parameter_paths,
};
use crate::text::{concat, join, texts};

verus! {

pub const MODEL_ID: &'static str = "nam_earthquaker_plumes";
pub const DISPLAY_NAME: &'static str = "EarthQuaker Plumes";
pub const BRAND: &'static str = "earthquaker";

pub open spec fn spec_model_schema() -> ModelSchemaView {
    ModelSchemaView {
        effect_type: EffectType::Gain,
        model: MODEL_ID,
        display_name: DISPLAY_NAME,
        audio_mode: None,
        parameters: Some(seq![
            ParameterSpecView {
                path: "drive",
                label: "Drive",
                group: Some("Pedal"),
                kind: ParameterKindView::Enum {
                    default: Some("mid"),
                    choices: seq![
                        EnumChoice { value: "low", label: "Low (clean)" },
                        EnumChoice { value: "mid", label: "Mid" },
                        EnumChoice { value: "high", label: "High" },
                    ],
                },
            },
            ParameterSpecView {
                path: "tone",
                label: "Tone",
                group: Some("Pedal"),
                kind: ParameterKindView::Enum {
                    default: Some("50"),
                    choices: seq![
                        EnumChoice { value: "0", label: "0%" },
                        EnumChoice { value: "25", label: "25%" },
                        EnumChoice { value: "50", label: "50%" },
                        EnumChoice { value: "75", label: "75%" },
                        EnumChoice { value: "100", label: "100%" },
                    ],
                },
            },
        ]),
    }
}

/// The parameters of the model.
pub fn model_schema() -> (schema: ModelSchema)
    ensures
        schema@ == spec_model_schema(),
{
    let parameters = vec![
        enum_parameter(
            "drive",
            "Drive",
            Some("Pedal"),
            Some("mid"),
            vec![
                choice("low", "Low (clean)"),
                choice("mid", "Mid"),
                choice("high", "High"),
            ],
        ),
        enum_parameter(
            "tone",
            "Tone",
            Some("Pedal"),
            Some("50"),
            vec![
                choice("0", "0%"),
                choice("25", "25%"),
                choice("50", "50%"),
                choice("75", "75%"),
                choice("100", "100%"),
            ],
        ),
    ];
    assert(parameters_view(parameters@) =~= spec_model_schema().parameters.unwrap());
    ModelSchema {
        effect_type: EffectType::Gain,
        model: MODEL_ID,
        display_name: DISPLAY_NAME,
        audio_mode: None,
        parameters: Some(parameters),
    }
}

/// The positions, in the schema, of the parameters that select a capture.
pub open spec fn key_params() -> Seq<int> {
    seq![0, 1]
}

pub open spec fn spec_captures() -> Seq<CaptureView> {
    seq![
        CaptureView { keys: seq!["low", "0"], model_path: "pedals/earthquaker_plumes/plumes_switch_3_level_100_gain_0_tone_0.nam" },
        CaptureView { keys: seq!["low", "25"], model_path: "pedals/earthquaker_plumes/plumes_switch_3_level_100_gain_0_tone_25.nam" },
        CaptureView { keys: seq!["low", "50"], model_path: "pedals/earthquaker_plumes/plumes_switch_3_level_100_gain_0_tone_50.nam" },
        CaptureView { keys: seq!["low", "75"], model_path: "pedals/earthquaker_plumes/plumes_switch_3_level_100_gain_0_tone_75.nam" },
        CaptureView { keys: seq!["low", "100"], model_path: "pedals/earthquaker_plumes/plumes_switch_3_level_100_gain_0_tone_100.nam" },
        CaptureView { keys: seq!["mid", "0"], model_path: "pedals/earthquaker_plumes/plumes_switch_3_level_50_gain_50_tone_0.nam" },
        CaptureView { keys: seq!["mid", "25"], model_path: "pedals/earthquaker_plumes/plumes_switch_3_level_50_gain_50_tone_25.nam" },
        CaptureView { keys: seq!["mid", "50"], model_path: "pedals/earthquaker_plumes/plumes_switch_3_level_50_gain_50_tone_50.nam" },
        CaptureView { keys: seq!["mid", "75"], model_path: "pedals/earthquaker_plumes/plumes_switch_3_level_50_gain_50_tone_75.nam" },
        CaptureView { keys: seq!["mid", "100"], model_path: "pedals/earthquaker_plumes/plumes_switch_3_level_50_gain_50_tone_100.nam" },
        CaptureView { keys: seq!["high", "0"], model_path: "pedals/earthquaker_plumes/plumes_switch_3_level_25_gain_75_tone_0.nam" },
        CaptureView { keys: seq!["high", "25"], model_path: "pedals/earthquaker_plumes/plumes_switch_3_level_25_gain_75_tone_25.nam" },
        CaptureView { keys: seq!["high", "50"], model_path: "pedals/earthquaker_plumes/plumes_switch_3_level_25_gain_75_tone_50.nam" },
        CaptureView { keys: seq!["high", "75"], model_path: "pedals/earthquaker_plumes/plumes_switch_3_level_25_gain_75_tone_75.nam" },
        CaptureView { keys: seq!["high", "100"], model_path: "pedals/earthquaker_plumes/plumes_switch_3_level_25_gain_75_tone_100.nam" },
    ]
}

/// The captures of the pedal, each with its (drive, tone) setting.
pub fn captures() -> (table: Vec<Capture>)
    ensures
        table_view(table@) == spec_captures(),
{
    let table = vec![
        Capture::two("low", "0", "pedals/earthquaker_plumes/plumes_switch_3_level_100_gain_0_tone_0.nam"),
        Capture::two("low", "25", "pedals/earthquaker_plumes/plumes_switch_3_level_100_gain_0_tone_25.nam"),
        Capture::two("low", "50", "pedals/earthquaker_plumes/plumes_switch_3_level_100_gain_0_tone_50.nam"),
        Capture::two("low", "75", "pedals/earthquaker_plumes/plumes_switch_3_level_100_gain_0_tone_75.nam"),
        Capture::two("low", "100", "pedals/earthquaker_plumes/plumes_switch_3_level_100_gain_0_tone_100.nam"),
        Capture::two("mid", "0", "pedals/earthquaker_plumes/plumes_switch_3_level_50_gain_50_tone_0.nam"),
        Capture::two("mid", "25", "pedals/earthquaker_plumes/plumes_switch_3_level_50_gain_50_tone_25.nam"),
        Capture::two("mid", "50", "pedals/earthquaker_plumes/plumes_switch_3_level_50_gain_50_tone_50.nam"),
        Capture::two("mid", "75", "pedals/earthquaker_plumes/plumes_switch_3_level_50_gain_50_tone_75.nam"),
        Capture::two("mid", "100", "pedals/earthquaker_plumes/plumes_switch_3_level_50_gain_50_tone_100.nam"),
        Capture::two("high", "0", "pedals/earthquaker_plumes/plumes_switch_3_level_25_gain_75_tone_0.nam"),
        Capture::two("high", "25", "pedals/earthquaker_plumes/plumes_switch_3_level_25_gain_75_tone_25.nam"),
        Capture::two("high", "50", "pedals/earthquaker_plumes/plumes_switch_3_level_25_gain_75_tone_50.nam"),
        Capture::two("high", "75", "pedals/earthquaker_plumes/plumes_switch_3_level_25_gain_75_tone_75.nam"),
        Capture::two("high", "100", "pedals/earthquaker_plumes/plumes_switch_3_level_25_gain_75_tone_100.nam"),
    ];
    assert(table_view(table@) =~= spec_captures());
    table
}

/// What the model reports for a setting at which no capture was recorded.
pub open spec fn unsupported_message(drive: Seq<char>, tone: Seq<char>) -> Seq<char> {
    concat(seq!["gain '"@, MODEL_ID@, "' has no capture for drive="@, drive, " tone="@, tone])
}

/// The index of the capture that (drive, tone) selects.
pub open spec fn selection(drive: Seq<char>, tone: Seq<char>) -> Option<int> {
    first_selected(spec_captures(), seq![drive, tone])
}

fn unsupported(drive: &str, tone: &str) -> (e: GainError)
    ensures
        e matches GainError::UnsupportedSetting(m) && m@ == unsupported_message(drive@, tone@),
{
    let parts = vec!["gain '", MODEL_ID, "' has no capture for drive=", drive, " tone=", tone];
    let m = join(&parts);
    assert(texts(parts@) =~= seq!["gain '"@, MODEL_ID@, "' has no capture for drive="@, drive@, " tone="@, tone@]);
    GainError::UnsupportedSetting(m)
}

/// The capture recorded at (drive, tone).
pub fn resolve_capture(drive: &str, tone: &str) -> (selected: Result<&'static str, GainError>)
    ensures
        match selection(drive@, tone@) {
            Some(i) => selected matches Ok(path) && path == spec_captures()[i].model_path,
            None => selected matches Err(GainError::UnsupportedSetting(m)) && m@ == unsupported_message(drive@, tone@),
        },
{
    let table = captures();
    let request = vec![drive, tone];
    assert(texts(request@) =~= seq![drive@, tone@]);
    match find_capture(&table, &request) {
        Some(i) => {
            proof {
                lemma_first_selected(spec_captures(), seq![drive@, tone@]);
            }
            Ok(table[i].model_path)
        },
        None => Err(unsupported(drive, tone)),
    }
}

/// Accepts (drive, tone) exactly where a capture was recorded there.
pub fn validate_params(drive: &str, tone: &str) -> (checked: Result<(), GainError>)
    ensures
        match selection(drive@, tone@) {
            Some(i) => checked is Ok,
            None => checked matches Err(GainError::UnsupportedSetting(m)) && m@ == unsupported_message(drive@, tone@),
        },
{
    match resolve_capture(drive, tone) {
        Ok(_) => Ok(()),
        Err(e) => Err(e),
    }
}

/// Names the capture file that (drive, tone) selects.
pub fn asset_summary(drive: &str, tone: &str) -> (summary: Result<String, GainError>)
    ensures
        match selection(drive@, tone@) {
            Some(i) => summary matches Ok(s) && s@ == asset_text(spec_captures()[i].model_path@),
            None => summary matches Err(GainError::UnsupportedSetting(m)) && m@ == unsupported_message(drive@, tone@),
        },
{
    match resolve_capture(drive, tone) {
        Ok(c) => {
            let parts = vec!["model='", c, "'"];
            assert(texts(parts@) =~= seq!["model='"@, c@, "'"@]);
            Ok(join(&parts))
        },
        Err(e) => Err(e),
    }
}

pub open spec fn spec_model_definition() -> ModelDefinitionView {
    ModelDefinitionView {
        id: MODEL_ID,
        display_name: DISPLAY_NAME,
        brand: BRAND,
        backend_kind: BackendKind::Nam,
        supported_instruments: Instruments::GuitarBass,
        knob_layout: seq![],
    }
}

/// What the registry lists for this model.
pub fn model_definition() -> (d: ModelDefinition)
    ensures
        d@ == spec_model_definition(),
{
    let knob_layout: Vec<KnobLayoutEntry> = Vec::new();
    let d = ModelDefinition {
        id: MODEL_ID,
        display_name: DISPLAY_NAME,
        brand: BRAND,
        backend_kind: BackendKind::Nam,
        supported_instruments: Instruments::GuitarBass,
        knob_layout,
    };
    assert(d@.knob_layout =~= spec_model_definition().knob_layout);
    d
}

/// The schema is sound: every parameter is, and no two share a path.
pub proof fn lemma_schema_well_formed()
    ensures
        schema_well_formed(spec_model_schema()),
{
    reveal_strlit("drive");
    reveal_strlit("tone");
    reveal_strlit("low");
    reveal_strlit("mid");
    reveal_strlit("high");
    reveal_strlit("0");
    reveal_strlit("25");
    reveal_strlit("50");
    reveal_strlit("75");
    reveal_strlit("100");
    let ps = spec_model_schema().parameters.unwrap();
    assert forall|i: int| 0 <= i < ps.len() implies parameter_well_formed(#[trigger] ps[i]) by {
        if ps[i].kind is Enum {
            let vs = choice_values(ps[i].kind->Enum_choices);
            assert forall|a: int, b: int| 0 <= a < b < vs.len() implies vs[a] != vs[b] by {
                if vs[a] == vs[b] {
                    assert(vs[a].len() == vs[b].len());
                    assert(vs[a][0] == vs[b][0]);
                }
            }
        }
        if i == 0 {
            assert(ps[0].kind->Enum_choices[1].value@ == "mid"@);
        } else if i == 1 {
            assert(ps[1].kind->Enum_choices[2].value@ == "50"@);
        }
    }
    let paths = parameter_paths(ps);
    assert forall|a: int, b: int| 0 <= a < b < paths.len() implies paths[a] != paths[b] by {
        if paths[a] == paths[b] {
            assert(paths[a].len() == paths[b].len());
        }
    }
}

/// Each capture is recorded at choices the schema offers.
pub proof fn lemma_captures_follow_schema()
    ensures
        captures_follow_schema(spec_model_schema(), key_params(), spec_captures()),
{
    let s = spec_model_schema();
    let t = spec_captures();
    assert forall|i: int, k: int| 0 <= i < t.len() && 0 <= k < key_params().len() implies {
        &&& #[trigger] t[i].keys.len() == key_params().len()
        &&& is_choice(choices_at(s, key_params()[k]), #[trigger] t[i].keys[k]@)
    } by {
        let cs = choices_at(s, key_params()[k]);
        if k == 0 {
            if t[i].keys[0] == "low" {
                assert(cs[0].value@ == t[i].keys[k]@);
            } else if t[i].keys[0] == "mid" {
                assert(cs[1].value@ == t[i].keys[k]@);
            } else {
                assert(cs[2].value@ == t[i].keys[k]@);
            }
        } else if k == 1 {
            if t[i].keys[1] == "0" {
                assert(cs[0].value@ == t[i].keys[k]@);
            } else if t[i].keys[1] == "25" {
                assert(cs[1].value@ == t[i].keys[k]@);
            } else if t[i].keys[1] == "50" {
                assert(cs[2].value@ == t[i].keys[k]@);
            } else if t[i].keys[1] == "75" {
                assert(cs[3].value@ == t[i].keys[k]@);
            } else {
                assert(cs[4].value@ == t[i].keys[k]@);
            }
        }
    }
}

/// No two captures share a setting.
pub proof fn lemma_captures_distinct()
    ensures
        captures_distinct(spec_captures()),
{
    reveal_strlit("low");
    reveal_strlit("0");
    reveal_strlit("25");
    reveal_strlit("50");
    reveal_strlit("75");
    reveal_strlit("100");
    reveal_strlit("mid");
    reveal_strlit("high");
    let t = spec_captures();
    assert forall|a: int, b: int| 0 <= a < b < t.len() implies str_texts(t[a].keys) != str_texts(t[b].keys) by {
        let x = str_texts(t[a].keys);
        let y = str_texts(t[b].keys);
        if x == y {
            assert(x[0].len() == y[0].len());
            assert(x[0][0] == y[0][0]);
            assert(x[1].len() == y[1].len());
            assert(x[1][0] == y[1][0]);
        }
    }
}

/// Every setting the schema offers selects a capture; so do the defaults.
pub proof fn lemma_every_setting_selects()
    ensures
        every_setting_selects(spec_model_schema(), key_params(), spec_captures()),
        defaults_present(spec_model_schema(), key_params()),
        first_selected(spec_captures(), default_setting(spec_model_schema(), key_params())) is Some,
{
    let s = spec_model_schema();
    let t = spec_captures();
    assert forall|r: Seq<Seq<char>>| setting_of_choices(s, key_params(), r) implies
        (#[trigger] first_selected(t, r)) is Some by {
        let c0 = choices_at(s, 0);
        let i0 = choose|i: int| 0 <= i < c0.len() && c0[i].value@ == r[0];
        let c1 = choices_at(s, 1);
        let i1 = choose|i: int| 0 <= i < c1.len() && c1[i].value@ == r[1];
        if i0 == 0 && i1 == 0 {
            lemma_selected_at(t, r, 0);
        } else if i0 == 0 && i1 == 1 {
            lemma_selected_at(t, r, 1);
        } else if i0 == 0 && i1 == 2 {
            lemma_selected_at(t, r, 2);
        } else if i0 == 0 && i1 == 3 {
            lemma_selected_at(t, r, 3);
        } else if i0 == 0 && i1 == 4 {
            lemma_selected_at(t, r, 4);
        } else if i0 == 1 && i1 == 0 {
            lemma_selected_at(t, r, 5);
        } else if i0 == 1 && i1 == 1 {
            lemma_selected_at(t, r, 6);
        } else if i0 == 1 && i1 == 2 {
            lemma_selected_at(t, r, 7);
        } else if i0 == 1 && i1 == 3 {
            lemma_selected_at(t, r, 8);
        } else if i0 == 1 && i1 == 4 {
            lemma_selected_at(t, r, 9);
        } else if i0 == 2 && i1 == 0 {
            lemma_selected_at(t, r, 10);
        } else if i0 == 2 && i1 == 1 {
            lemma_selected_at(t, r, 11);
        } else if i0 == 2 && i1 == 2 {
            lemma_selected_at(t, r, 12);
        } else if i0 == 2 && i1 == 3 {
            lemma_selected_at(t, r, 13);
        } else if i0 == 2 && i1 == 4 {
            lemma_selected_at(t, r, 14);
        }
    }
    let dflt = default_setting(s, key_params());
    assert(dflt =~= seq!["mid"@, "50"@]);
    lemma_selected_at(t, dflt, 7);
}

/// No two captures name the same file.
pub proof fn lemma_capture_files()
    ensures
        files_distinct(spec_captures()),
{
    reveal_strlit("pedals/earthquaker_plumes/plumes_switch_3_level_100_gain_0_tone_0.nam");
    reveal_strlit("pedals/earthquaker_plumes/plumes_switch_3_level_100_gain_0_tone_25.nam");
    reveal_strlit("pedals/earthquaker_plumes/plumes_switch_3_level_100_gain_0_tone_50.nam");
    reveal_strlit("pedals/earthquaker_plumes/plumes_switch_3_level_100_gain_0_tone_75.nam");
    reveal_strlit("pedals/earthquaker_plumes/plumes_switch_3_level_100_gain_0_tone_100.nam");
    reveal_strlit("pedals/earthquaker_plumes/plumes_switch_3_level_50_gain_50_tone_0.nam");
    reveal_strlit("pedals/earthquaker_plumes/plumes_switch_3_level_50_gain_50_tone_25.nam");
    reveal_strlit("pedals/earthquaker_plumes/plumes_switch_3_level_50_gain_50_tone_50.nam");
    reveal_strlit("pedals/earthquaker_plumes/plumes_switch_3_level_50_gain_50_tone_75.nam");
    reveal_strlit("pedals/earthquaker_plumes/plumes_switch_3_level_50_gain_50_tone_100.nam");
    reveal_strlit("pedals/earthquaker_plumes/plumes_switch_3_level_25_gain_75_tone_0.nam");
    reveal_strlit("pedals/earthquaker_plumes/plumes_switch_3_level_25_gain_75_tone_25.nam");
    reveal_strlit("pedals/earthquaker_plumes/plumes_switch_3_level_25_gain_75_tone_50.nam");
    reveal_strlit("pedals/earthquaker_plumes/plumes_switch_3_level_25_gain_75_tone_75.nam");
    reveal_strlit("pedals/earthquaker_plumes/plumes_switch_3_level_25_gain_75_tone_100.nam");
    let t = spec_captures();
    assert forall|a: int, b: int| 0 <= a < b < 15 implies t[a].model_path@ != t[b].model_path@ by {
        if a == 0 && b == 1 {
            assert(t[0].model_path@.len() != t[1].model_path@.len());
        } else if a == 0 && b == 2 {
            assert(t[0].model_path@.len() != t[2].model_path@.len());
        } else if a == 0 && b == 3 {
            assert(t[0].model_path@.len() != t[3].model_path@.len());
        } else if a == 0 && b == 4 {
            assert(t[0].model_path@.len() != t[4].model_path@.len());
        } else if a == 0 && b == 5 {
            assert(t[0].model_path@[48] != t[5].model_path@[48]);
        } else if a == 0 && b == 6 {
            assert(t[0].model_path@.len() != t[6].model_path@.len());
        } else if a == 0 && b == 7 {
            assert(t[0].model_path@.len() != t[7].model_path@.len());
        } else if a == 0 && b == 8 {
            assert(t[0].model_path@.len() != t[8].model_path@.len());
        } else if a == 0 && b == 9 {
            assert(t[0].model_path@.len() != t[9].model_path@.len());
        } else if a == 0 && b == 10 {
            assert(t[0].model_path@[48] != t[10].model_path@[48]);
        } else if a == 0 && b == 11 {
            assert(t[0].model_path@.len() != t[11].model_path@.len());
        } else if a == 0 && b == 12 {
            assert(t[0].model_path@.len() != t[12].model_path@.len());
        } else if a == 0 && b == 13 {
            assert(t[0].model_path@.len() != t[13].model_path@.len());
        } else if a == 0 && b == 14 {
            assert(t[0].model_path@.len() != t[14].model_path@.len());
        } else if a == 1 && b == 2 {
            assert(t[1].model_path@[64] != t[2].model_path@[64]);
        } else if a == 1 && b == 3 {
            assert(t[1].model_path@[64] != t[3].model_path@[64]);
        } else if a == 1 && b == 4 {
            assert(t[1].model_path@.len() != t[4].model_path@.len());
        } else if a == 1 && b == 5 {
            assert(t[1].model_path@.len() != t[5].model_path@.len());
        } else if a == 1 && b == 6 {
            assert(t[1].model_path@[48] != t[6].model_path@[48]);
        } else if a == 1 && b == 7 {
            assert(t[1].model_path@[48] != t[7].model_path@[48]);
        } else if a == 1 && b == 8 {
            assert(t[1].model_path@[48] != t[8].model_path@[48]);
        } else if a == 1 && b == 9 {
            assert(t[1].model_path@.len() != t[9].model_path@.len());
        } else if a == 1 && b == 10 {
            assert(t[1].model_path@.len() != t[10].model_path@.len());
        } else if a == 1 && b == 11 {
            assert(t[1].model_path@[48] != t[11].model_path@[48]);
        } else if a == 1 && b == 12 {
            assert(t[1].model_path@[48] != t[12].model_path@[48]);
        } else if a == 1 && b == 13 {
            assert(t[1].model_path@[48] != t[13].model_path@[48]);
        } else if a == 1 && b == 14 {
            assert(t[1].model_path@.len() != t[14].model_path@.len());
        } else if a == 2 && b == 3 {
            assert(t[2].model_path@[64] != t[3].model_path@[64]);
        } else if a == 2 && b == 4 {
            assert(t[2].model_path@.len() != t[4].model_path@.len());
        } else if a == 2 && b == 5 {
            assert(t[2].model_path@.len() != t[5].model_path@.len());
        } else if a == 2 && b == 6 {
            assert(t[2].model_path@[48] != t[6].model_path@[48]);
        } else if a == 2 && b == 7 {
            assert(t[2].model_path@[48] != t[7].model_path@[48]);
        } else if a == 2 && b == 8 {
            assert(t[2].model_path@[48] != t[8].model_path@[48]);
        } else if a == 2 && b == 9 {
            assert(t[2].model_path@.len() != t[9].model_path@.len());
        } else if a == 2 && b == 10 {
            assert(t[2].model_path@.len() != t[10].model_path@.len());
        } else if a == 2 && b == 11 {
            assert(t[2].model_path@[48] != t[11].model_path@[48]);
        } else if a == 2 && b == 12 {
            assert(t[2].model_path@[48] != t[12].model_path@[48]);
        } else if a == 2 && b == 13 {
            assert(t[2].model_path@[48] != t[13].model_path@[48]);
        } else if a == 2 && b == 14 {
            assert(t[2].model_path@.len() != t[14].model_path@.len());
        } else if a == 3 && b == 4 {
            assert(t[3].model_path@.len() != t[4].model_path@.len());
        } else if a == 3 && b == 5 {
            assert(t[3].model_path@.len() != t[5].model_path@.len());
        } else if a == 3 && b == 6 {
            assert(t[3].model_path@[48] != t[6].model_path@[48]);
        } else if a == 3 && b == 7 {
            assert(t[3].model_path@[48] != t[7].model_path@[48]);
        } else if a == 3 && b == 8 {
            assert(t[3].model_path@[48] != t[8].model_path@[48]);
        } else if a == 3 && b == 9 {
            assert(t[3].model_path@.len() != t[9].model_path@.len());
        } else if a == 3 && b == 10 {
            assert(t[3].model_path@.len() != t[10].model_path@.len());
        } else if a == 3 && b == 11 {
            assert(t[3].model_path@[48] != t[11].model_path@[48]);
        } else if a == 3 && b == 12 {
            assert(t[3].model_path@[48] != t[12].model_path@[48]);
        } else if a == 3 && b == 13 {
            assert(t[3].model_path@[48] != t[13].model_path@[48]);
        } else if a == 3 && b == 14 {
            assert(t[3].model_path@.len() != t[14].model_path@.len());
        } else if a == 4 && b == 5 {
            assert(t[4].model_path@.len() != t[5].model_path@.len());
        } else if a == 4 && b == 6 {
            assert(t[4].model_path@.len() != t[6].model_path@.len());
        } else if a == 4 && b == 7 {
            assert(t[4].model_path@.len() != t[7].model_path@.len());
        } else if a == 4 && b == 8 {
            assert(t[4].model_path@.len() != t[8].model_path@.len());
        } else if a == 4 && b == 9 {
            assert(t[4].model_path@[48] != t[9].model_path@[48]);
        } else if a == 4 && b == 10 {
            assert(t[4].model_path@.len() != t[10].model_path@.len());
        } else if a == 4 && b == 11 {
            assert(t[4].model_path@.len() != t[11].model_path@.len());
        } else if a == 4 && b == 12 {
            assert(t[4].model_path@.len() != t[12].model_path@.len());
        } else if a == 4 && b == 13 {
            assert(t[4].model_path@.len() != t[13].model_path@.len());
        } else if a == 4 && b == 14 {
            assert(t[4].model_path@[48] != t[14].model_path@[48]);
        } else if a == 5 && b == 6 {
            assert(t[5].model_path@.len() != t[6].model_path@.len());
        } else if a == 5 && b == 7 {
            assert(t[5].model_path@.len() != t[7].model_path@.len());
        } else if a == 5 && b == 8 {
            assert(t[5].model_path@.len() != t[8].model_path@.len());
        } else if a == 5 && b == 9 {
            assert(t[5].model_path@.len() != t[9].model_path@.len());
        } else if a == 5 && b == 10 {
            assert(t[5].model_path@[48] != t[10].model_path@[48]);
        } else if a == 5 && b == 11 {
            assert(t[5].model_path@.len() != t[11].model_path@.len());
        } else if a == 5 && b == 12 {
            assert(t[5].model_path@.len() != t[12].model_path@.len());
        } else if a == 5 && b == 13 {
            assert(t[5].model_path@.len() != t[13].model_path@.len());
        } else if a == 5 && b == 14 {
            assert(t[5].model_path@.len() != t[14].model_path@.len());
        } else if a == 6 && b == 7 {
            assert(t[6].model_path@[64] != t[7].model_path@[64]);
        } else if a == 6 && b == 8 {
            assert(t[6].model_path@[64] != t[8].model_path@[64]);
        } else if a == 6 && b == 9 {
            assert(t[6].model_path@.len() != t[9].model_path@.len());
        } else if a == 6 && b == 10 {
            assert(t[6].model_path@.len() != t[10].model_path@.len());
        } else if a == 6 && b == 11 {
            assert(t[6].model_path@[48] != t[11].model_path@[48]);
        } else if a == 6 && b == 12 {
            assert(t[6].model_path@[48] != t[12].model_path@[48]);
        } else if a == 6 && b == 13 {
            assert(t[6].model_path@[48] != t[13].model_path@[48]);
        } else if a == 6 && b == 14 {
            assert(t[6].model_path@.len() != t[14].model_path@.len());
        } else if a == 7 && b == 8 {
            assert(t[7].model_path@[64] != t[8].model_path@[64]);
        } else if a == 7 && b == 9 {
            assert(t[7].model_path@.len() != t[9].model_path@.len());
        } else if a == 7 && b == 10 {
            assert(t[7].model_path@.len() != t[10].model_path@.len());
        } else if a == 7 && b == 11 {
            assert(t[7].model_path@[48] != t[11].model_path@[48]);
        } else if a == 7 && b == 12 {
            assert(t[7].model_path@[48] != t[12].model_path@[48]);
        } else if a == 7 && b == 13 {
            assert(t[7].model_path@[48] != t[13].model_path@[48]);
        } else if a == 7 && b == 14 {
            assert(t[7].model_path@.len() != t[14].model_path@.len());
        } else if a == 8 && b == 9 {
            assert(t[8].model_path@.len() != t[9].model_path@.len());
        } else if a == 8 && b == 10 {
            assert(t[8].model_path@.len() != t[10].model_path@.len());
        } else if a == 8 && b == 11 {
            assert(t[8].model_path@[48] != t[11].model_path@[48]);
        } else if a == 8 && b == 12 {
            assert(t[8].model_path@[48] != t[12].model_path@[48]);
        } else if a == 8 && b == 13 {
            assert(t[8].model_path@[48] != t[13].model_path@[48]);
        } else if a == 8 && b == 14 {
            assert(t[8].model_path@.len() != t[14].model_path@.len());
        } else if a == 9 && b == 10 {
            assert(t[9].model_path@.len() != t[10].model_path@.len());
        } else if a == 9 && b == 11 {
            assert(t[9].model_path@.len() != t[11].model_path@.len());
        } else if a == 9 && b == 12 {
            assert(t[9].model_path@.len() != t[12].model_path@.len());
        } else if a == 9 && b == 13 {
            assert(t[9].model_path@.len() != t[13].model_path@.len());
        } else if a == 9 && b == 14 {
            assert(t[9].model_path@[48] != t[14].model_path@[48]);
        } else if a == 10 && b == 11 {
            assert(t[10].model_path@.len() != t[11].model_path@.len());
        } else if a == 10 && b == 12 {
            assert(t[10].model_path@.len() != t[12].model_path@.len());
        } else if a == 10 && b == 13 {
            assert(t[10].model_path@.len() != t[13].model_path@.len());
        } else if a == 10 && b == 14 {
            assert(t[10].model_path@.len() != t[14].model_path@.len());
        } else if a == 11 && b == 12 {
            assert(t[11].model_path@[64] != t[12].model_path@[64]);
        } else if a == 11 && b == 13 {
            assert(t[11].model_path@[64] != t[13].model_path@[64]);
        } else if a == 11 && b == 14 {
            assert(t[11].model_path@.len() != t[14].model_path@.len());
        } else if a == 12 && b == 13 {
            assert(t[12].model_path@[64] != t[13].model_path@[64]);
        } else if a == 12 && b == 14 {
            assert(t[12].model_path@.len() != t[14].model_path@.len());
        } else if a == 13 && b == 14 {
            assert(t[13].model_path@.len() != t[14].model_path@.len());
        }
    }
}

/// What the file name writes for a switch position: the level and gain it was recorded at.
pub open spec fn switch_text(drive: Seq<char>) -> Seq<char> {
    if drive == "low"@ {
        "level_100_gain_0"@
    } else if drive == "mid"@ {
        "level_50_gain_50"@
    } else if drive == "high"@ {
        "level_25_gain_75"@
    } else {
        drive
    }
}

/// The file recorded at a setting, as the recording names it.
pub open spec fn recorded_file(drive: Seq<char>, tone: Seq<char>) -> Seq<char> {
    "pedals/earthquaker_plumes/plumes_switch_3_"@ + switch_text(drive) + "_tone_"@ + tone + ".nam"@
}

/// Every capture names the file recorded at its own setting.
pub proof fn lemma_captures_name_their_setting()
    ensures
        forall|i: int| 0 <= i < spec_captures().len() ==>
            (#[trigger] spec_captures()[i]).model_path@ == recorded_file(spec_captures()[i].keys[0]@, spec_captures()[i].keys[1]@),
{
    reveal_strlit("pedals/earthquaker_plumes/plumes_switch_3_");
    reveal_strlit("level_100_gain_0");
    reveal_strlit("level_50_gain_50");
    reveal_strlit("level_25_gain_75");
    reveal_strlit("low");
    reveal_strlit("mid");
    reveal_strlit("high");
    reveal_strlit("_tone_");
    reveal_strlit(".nam");
    reveal_strlit("pedals/earthquaker_plumes/plumes_switch_3_level_100_gain_0_tone_0.nam");
    reveal_strlit("pedals/earthquaker_plumes/plumes_switch_3_level_100_gain_0_tone_25.nam");
    reveal_strlit("pedals/earthquaker_plumes/plumes_switch_3_level_100_gain_0_tone_50.nam");
    reveal_strlit("pedals/earthquaker_plumes/plumes_switch_3_level_100_gain_0_tone_75.nam");
    reveal_strlit("pedals/earthquaker_plumes/plumes_switch_3_level_100_gain_0_tone_100.nam");
    reveal_strlit("pedals/earthquaker_plumes/plumes_switch_3_level_50_gain_50_tone_0.nam");
    reveal_strlit("pedals/earthquaker_plumes/plumes_switch_3_level_50_gain_50_tone_25.nam");
    reveal_strlit("pedals/earthquaker_plumes/plumes_switch_3_level_50_gain_50_tone_50.nam");
    reveal_strlit("pedals/earthquaker_plumes/plumes_switch_3_level_50_gain_50_tone_75.nam");
    reveal_strlit("pedals/earthquaker_plumes/plumes_switch_3_level_50_gain_50_tone_100.nam");
    reveal_strlit("pedals/earthquaker_plumes/plumes_switch_3_level_25_gain_75_tone_0.nam");
    reveal_strlit("pedals/earthquaker_plumes/plumes_switch_3_level_25_gain_75_tone_25.nam");
    reveal_strlit("pedals/earthquaker_plumes/plumes_switch_3_level_25_gain_75_tone_50.nam");
    reveal_strlit("pedals/earthquaker_plumes/plumes_switch_3_level_25_gain_75_tone_75.nam");
    reveal_strlit("pedals/earthquaker_plumes/plumes_switch_3_level_25_gain_75_tone_100.nam");
    reveal_strlit("0");
    reveal_strlit("25");
    reveal_strlit("50");
    reveal_strlit("75");
    reveal_strlit("100");
    let t = spec_captures();
    assert forall|i: int| 0 <= i < t.len() implies
        (#[trigger] t[i]).model_path@ == recorded_file(t[i].keys[0]@, t[i].keys[1]@) by {
        if i == 0 {
            assert("mid"@[0] != "low"@[0]);
            assert("high"@.len() != "low"@.len());
            assert(t[i].model_path@ =~= recorded_file("low"@, "0"@));
        } else if i == 1 {
            assert("mid"@[0] != "low"@[0]);
            assert("high"@.len() != "low"@.len());
            assert(t[i].model_path@ =~= recorded_file("low"@, "25"@));
        } else if i == 2 {
            assert("mid"@[0] != "low"@[0]);
            assert("high"@.len() != "low"@.len());
            assert(t[i].model_path@ =~= recorded_file("low"@, "50"@));
        } else if i == 3 {
            assert("mid"@[0] != "low"@[0]);
            assert("high"@.len() != "low"@.len());
            assert(t[i].model_path@ =~= recorded_file("low"@, "75"@));
        } else if i == 4 {
            assert("mid"@[0] != "low"@[0]);
            assert("high"@.len() != "low"@.len());
            assert(t[i].model_path@ =~= recorded_file("low"@, "100"@));
        } else if i == 5 {
            assert("low"@[0] != "mid"@[0]);
            assert("high"@.len() != "mid"@.len());
            assert(t[i].model_path@ =~= recorded_file("mid"@, "0"@));
        } else if i == 6 {
            assert("low"@[0] != "mid"@[0]);
            assert("high"@.len() != "mid"@.len());
            assert(t[i].model_path@ =~= recorded_file("mid"@, "25"@));
        } else if i == 7 {
            assert("low"@[0] != "mid"@[0]);
            assert("high"@.len() != "mid"@.len());
            assert(t[i].model_path@ =~= recorded_file("mid"@, "50"@));
        } else if i == 8 {
            assert("low"@[0] != "mid"@[0]);
            assert("high"@.len() != "mid"@.len());
            assert(t[i].model_path@ =~= recorded_file("mid"@, "75"@));
        } else if i == 9 {
            assert("low"@[0] != "mid"@[0]);
            assert("high"@.len() != "mid"@.len());
            assert(t[i].model_path@ =~= recorded_file("mid"@, "100"@));
        } else if i == 10 {
            assert("low"@.len() != "high"@.len());
            assert("mid"@.len() != "high"@.len());
            assert(t[i].model_path@ =~= recorded_file("high"@, "0"@));
        } else if i == 11 {
            assert("low"@.len() != "high"@.len());
            assert("mid"@.len() != "high"@.len());
            assert(t[i].model_path@ =~= recorded_file("high"@, "25"@));
        } else if i == 12 {
            assert("low"@.len() != "high"@.len());
            assert("mid"@.len() != "high"@.len());
            assert(t[i].model_path@ =~= recorded_file("high"@, "50"@));
        } else if i == 13 {
            assert("low"@.len() != "high"@.len());
            assert("mid"@.len() != "high"@.len());
            assert(t[i].model_path@ =~= recorded_file("high"@, "75"@));
        } else if i == 14 {
            assert("low"@.len() != "high"@.len());
            assert("mid"@.len() != "high"@.len());
            assert(t[i].model_path@ =~= recorded_file("high"@, "100"@));
        }
    }
}

/// A setting that selects a capture selects the file recorded at that setting.
pub proof fn lemma_selected_file(drive: Seq<char>, tone: Seq<char>)
    ensures
        selection(drive, tone) matches Some(i) ==> spec_captures()[i].model_path@ == recorded_file(drive, tone),
{
    lemma_first_selected(spec_captures(), seq![drive, tone]);
    lemma_captures_name_their_setting();
    if let Some(i) = selection(drive, tone) {
        assert(spec_captures()[i].model_path@ == recorded_file(spec_captures()[i].keys[0]@, spec_captures()[i].keys[1]@));
    }
}

} // verus!
