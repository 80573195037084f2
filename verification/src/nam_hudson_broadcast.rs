//! The "Hudson Broadcast" gain model (hudson), played from neural captures, one per recorded setting.

use vstd::prelude::*;
use crate::capture::{
    names_value, files_name_settings, files_distinct,
    Capture, CaptureView, table_view, find_capture, first_selected, asset_text, lemma_first_selected,
    lemma_selected_at, captures_follow_schema, default_setting, defaults_present, captures_distinct,
    every_setting_selects, setting_of_choices,
};
use crate::error::GainError;
use crate::model::{BackendKind, Instruments, KnobLayoutEntry, ModelDefinition, ModelDefinitionView};
use crate::schema::{
    EffectType, EnumChoice, ModelSchema, ModelSchemaView, ParameterKindView, ParameterSpecView,
    choice, enum_parameter, parameters_view, schema_well_formed, choices_at, str_texts, is_choice,
    parameter_well_formed, choice_values, parameter_paths,
};
use crate::text::{concat, join, texts};

verus! {

pub const MODEL_ID: &'static str = "nam_hudson_broadcast";
pub const DISPLAY_NAME: &'static str = "Hudson Broadcast";
pub const BRAND: &'static str = "hudson";

pub open spec fn spec_model_schema() -> ModelSchemaView {
    ModelSchemaView {
        effect_type: EffectType::Gain,
        model: MODEL_ID,
        display_name: DISPLAY_NAME,
        audio_mode: None,
        parameters: Some(seq![
            ParameterSpecView {
                path: "tone",
                label: "Tone",
                group: Some("Pedal"),
                kind: ParameterKindView::Enum {
                    default: Some("level1200_g"),
                    choices: seq![
                        EnumChoice { value: "level1200_g", label: "Level1200 G" },
                        EnumChoice { value: "level1200_g_1", label: "Level1200 G 1" },
                        EnumChoice { value: "level1200_g_2", label: "Level1200 G 2" },
                        EnumChoice { value: "level1200_g_3", label: "Level1200 G 3" },
                        EnumChoice { value: "level1200_g_4", label: "Level1200 G 4" },
                        EnumChoice { value: "level130_ga", label: "Level130 Ga" },
                        EnumChoice { value: "level130_ga_1", label: "Level130 Ga 1" },
                        EnumChoice { value: "level130_ga_2", label: "Level130 Ga 2" },
                        EnumChoice { value: "level130_ga_3", label: "Level130 Ga 3" },
                        EnumChoice { value: "level130_ga_4", label: "Level130 Ga 4" },
                        EnumChoice { value: "level130_ga_5", label: "Level130 Ga 5" },
                        EnumChoice { value: "level130_ga_6", label: "Level130 Ga 6" },
                        EnumChoice { value: "level130_ga_7", label: "Level130 Ga 7" },
                        EnumChoice { value: "level130_ga_8", label: "Level130 Ga 8" },
                        EnumChoice { value: "level130_ga_9", label: "Level130 Ga 9" },
                    ],
                },
            },
        ]),
    }
}

/// The parameters of the model.
pub fn model_schema() -> (schema: ModelSchema)
    ensures
        schema@ == spec_model_schema(),
{
    let parameters = vec![
        enum_parameter(
            "tone",
            "Tone",
            Some("Pedal"),
            Some("level1200_g"),
            vec![
                choice("level1200_g", "Level1200 G"),
                choice("level1200_g_1", "Level1200 G 1"),
                choice("level1200_g_2", "Level1200 G 2"),
                choice("level1200_g_3", "Level1200 G 3"),
                choice("level1200_g_4", "Level1200 G 4"),
                choice("level130_ga", "Level130 Ga"),
                choice("level130_ga_1", "Level130 Ga 1"),
                choice("level130_ga_2", "Level130 Ga 2"),
                choice("level130_ga_3", "Level130 Ga 3"),
                choice("level130_ga_4", "Level130 Ga 4"),
                choice("level130_ga_5", "Level130 Ga 5"),
                choice("level130_ga_6", "Level130 Ga 6"),
                choice("level130_ga_7", "Level130 Ga 7"),
                choice("level130_ga_8", "Level130 Ga 8"),
                choice("level130_ga_9", "Level130 Ga 9"),
            ],
        ),
    ];
    assert(parameters_view(parameters@) =~= spec_model_schema().parameters.unwrap());
    ModelSchema {
        effect_type: EffectType::Gain,
        model: MODEL_ID,
        display_name: DISPLAY_NAME,
        audio_mode: None,
        parameters: Some(parameters),
    }
}

/// The positions, in the schema, of the parameters that select a capture.
pub open spec fn key_params() -> Seq<int> {
    seq![0]
}

pub open spec fn spec_captures() -> Seq<CaptureView> {
    seq![
        CaptureView { keys: seq!["level1200_g"], model_path: "pedals/hudson_broadcast/hudson_broadcast_bc_24v_ltd_low_cut900_level1200_g.nam" },
        CaptureView { keys: seq!["level1200_g_1"], model_path: "pedals/hudson_broadcast/hudson_broadcast_bc_24v_ltd_low_cut900_level1200_g_1.nam" },
        CaptureView { keys: seq!["level1200_g_2"], model_path: "pedals/hudson_broadcast/hudson_broadcast_bc_24v_ltd_low_cut900_level1200_g_2.nam" },
        CaptureView { keys: seq!["level1200_g_3"], model_path: "pedals/hudson_broadcast/hudson_broadcast_bc_24v_ltd_low_cut900_level1200_g_3.nam" },
        CaptureView { keys: seq!["level1200_g_4"], model_path: "pedals/hudson_broadcast/hudson_broadcast_bc_24v_ltd_low_cut900_level1200_g_4.nam" },
        CaptureView { keys: seq!["level130_ga"], model_path: "pedals/hudson_broadcast/hudson_broadcast_bc_24v_ltd_low_cut900_level130_ga.nam" },
        CaptureView { keys: seq!["level130_ga_1"], model_path: "pedals/hudson_broadcast/hudson_broadcast_bc_24v_ltd_low_cut900_level130_ga_1.nam" },
        CaptureView { keys: seq!["level130_ga_2"], model_path: "pedals/hudson_broadcast/hudson_broadcast_bc_24v_ltd_low_cut900_level130_ga_2.nam" },
        CaptureView { keys: seq!["level130_ga_3"], model_path: "pedals/hudson_broadcast/hudson_broadcast_bc_24v_ltd_low_cut900_level130_ga_3.nam" },
        CaptureView { keys: seq!["level130_ga_4"], model_path: "pedals/hudson_broadcast/hudson_broadcast_bc_24v_ltd_low_cut900_level130_ga_4.nam" },
        CaptureView { keys: seq!["level130_ga_5"], model_path: "pedals/hudson_broadcast/hudson_broadcast_bc_24v_ltd_low_cut900_level130_ga_5.nam" },
        CaptureView { keys: seq!["level130_ga_6"], model_path: "pedals/hudson_broadcast/hudson_broadcast_bc_24v_ltd_low_cut900_level130_ga_6.nam" },
        CaptureView { keys: seq!["level130_ga_7"], model_path: "pedals/hudson_broadcast/hudson_broadcast_bc_24v_ltd_low_cut900_level130_ga_7.nam" },
        CaptureView { keys: seq!["level130_ga_8"], model_path: "pedals/hudson_broadcast/hudson_broadcast_bc_24v_ltd_low_cut900_level130_ga_8.nam" },
        CaptureView { keys: seq!["level130_ga_9"], model_path: "pedals/hudson_broadcast/hudson_broadcast_bc_24v_ltd_low_cut900_level130_ga_9.nam" },
    ]
}

/// The captures of the pedal, each with its (tone) setting.
pub fn captures() -> (table: Vec<Capture>)
    ensures
        table_view(table@) == spec_captures(),
{
    let table = vec![
        Capture::one("level1200_g", "pedals/hudson_broadcast/hudson_broadcast_bc_24v_ltd_low_cut900_level1200_g.nam"),
        Capture::one("level1200_g_1", "pedals/hudson_broadcast/hudson_broadcast_bc_24v_ltd_low_cut900_level1200_g_1.nam"),
        Capture::one("level1200_g_2", "pedals/hudson_broadcast/hudson_broadcast_bc_24v_ltd_low_cut900_level1200_g_2.nam"),
        Capture::one("level1200_g_3", "pedals/hudson_broadcast/hudson_broadcast_bc_24v_ltd_low_cut900_level1200_g_3.nam"),
        Capture::one("level1200_g_4", "pedals/hudson_broadcast/hudson_broadcast_bc_24v_ltd_low_cut900_level1200_g_4.nam"),
        Capture::one("level130_ga", "pedals/hudson_broadcast/hudson_broadcast_bc_24v_ltd_low_cut900_level130_ga.nam"),
        Capture::one("level130_ga_1", "pedals/hudson_broadcast/hudson_broadcast_bc_24v_ltd_low_cut900_level130_ga_1.nam"),
        Capture::one("level130_ga_2", "pedals/hudson_broadcast/hudson_broadcast_bc_24v_ltd_low_cut900_level130_ga_2.nam"),
        Capture::one("level130_ga_3", "pedals/hudson_broadcast/hudson_broadcast_bc_24v_ltd_low_cut900_level130_ga_3.nam"),
        Capture::one("level130_ga_4", "pedals/hudson_broadcast/hudson_broadcast_bc_24v_ltd_low_cut900_level130_ga_4.nam"),
        Capture::one("level130_ga_5", "pedals/hudson_broadcast/hudson_broadcast_bc_24v_ltd_low_cut900_level130_ga_5.nam"),
        Capture::one("level130_ga_6", "pedals/hudson_broadcast/hudson_broadcast_bc_24v_ltd_low_cut900_level130_ga_6.nam"),
        Capture::one("level130_ga_7", "pedals/hudson_broadcast/hudson_broadcast_bc_24v_ltd_low_cut900_level130_ga_7.nam"),
        Capture::one("level130_ga_8", "pedals/hudson_broadcast/hudson_broadcast_bc_24v_ltd_low_cut900_level130_ga_8.nam"),
        Capture::one("level130_ga_9", "pedals/hudson_broadcast/hudson_broadcast_bc_24v_ltd_low_cut900_level130_ga_9.nam"),
    ];
    assert(table_view(table@) =~= spec_captures());
    table
}

/// What the model reports for a setting at which no capture was recorded.
pub open spec fn unsupported_message(tone: Seq<char>) -> Seq<char> {
    concat(seq!["gain model '"@, MODEL_ID@, "' does not support tone='"@, tone, "'"@])
}

/// The index of the capture that (tone) selects.
pub open spec fn selection(tone: Seq<char>) -> Option<int> {
    first_selected(spec_captures(), seq![tone])
}

fn unsupported(tone: &str) -> (e: GainError)
    ensures
        e matches GainError::UnsupportedSetting(m) && m@ == unsupported_message(tone@),
{
    let parts = vec!["gain model '", MODEL_ID, "' does not support tone='", tone, "'"];
    let m = join(&parts);
    assert(texts(parts@) =~= seq!["gain model '"@, MODEL_ID@, "' does not support tone='"@, tone@, "'"@]);
    GainError::UnsupportedSetting(m)
}

/// The capture recorded at (tone).
pub fn resolve_capture(tone: &str) -> (selected: Result<&'static str, GainError>)
    ensures
        match selection(tone@) {
            Some(i) => selected matches Ok(path) && path == spec_captures()[i].model_path,
            None => selected matches Err(GainError::UnsupportedSetting(m)) && m@ == unsupported_message(tone@),
        },
{
    let table = captures();
    let request = vec![tone];
    assert(texts(request@) =~= seq![tone@]);
    match find_capture(&table, &request) {
        Some(i) => {
            proof {
                lemma_first_selected(spec_captures(), seq![tone@]);
            }
            Ok(table[i].model_path)
        },
        None => Err(unsupported(tone)),
    }
}

/// Accepts (tone) exactly where a capture was recorded there.
pub fn validate_params(tone: &str) -> (checked: Result<(), GainError>)
    ensures
        match selection(tone@) {
            Some(i) => checked is Ok,
            None => checked matches Err(GainError::UnsupportedSetting(m)) && m@ == unsupported_message(tone@),
        },
{
    match resolve_capture(tone) {
        Ok(_) => Ok(()),
        Err(e) => Err(e),
    }
}

/// Names the capture file that (tone) selects.
pub fn asset_summary(tone: &str) -> (summary: Result<String, GainError>)
    ensures
        match selection(tone@) {
            Some(i) => summary matches Ok(s) && s@ == asset_text(spec_captures()[i].model_path@),
            None => summary matches Err(GainError::UnsupportedSetting(m)) && m@ == unsupported_message(tone@),
        },
{
    match resolve_capture(tone) {
        Ok(c) => {
            let parts = vec!["model='", c, "'"];
            assert(texts(parts@) =~= seq!["model='"@, c@, "'"@]);
            Ok(join(&parts))
        },
        Err(e) => Err(e),
    }
}

pub open spec fn spec_model_definition() -> ModelDefinitionView {
    ModelDefinitionView {
        id: MODEL_ID,
        display_name: DISPLAY_NAME,
        brand: BRAND,
        backend_kind: BackendKind::Nam,
        supported_instruments: Instruments::GuitarBass,
        knob_layout: seq![],
    }
}

/// What the registry lists for this model.
pub fn model_definition() -> (d: ModelDefinition)
    ensures
        d@ == spec_model_definition(),
{
    let knob_layout: Vec<KnobLayoutEntry> = Vec::new();
    let d = ModelDefinition {
        id: MODEL_ID,
        display_name: DISPLAY_NAME,
        brand: BRAND,
        backend_kind: BackendKind::Nam,
        supported_instruments: Instruments::GuitarBass,
        knob_layout,
    };
    assert(d@.knob_layout =~= spec_model_definition().knob_layout);
    d
}

/// The schema is sound: every parameter is, and no two share a path.
pub proof fn lemma_schema_well_formed()
    ensures
        schema_well_formed(spec_model_schema()),
{
    reveal_strlit("tone");
    reveal_strlit("level1200_g");
    reveal_strlit("level1200_g_1");
    reveal_strlit("level1200_g_2");
    reveal_strlit("level1200_g_3");
    reveal_strlit("level1200_g_4");
    reveal_strlit("level130_ga");
    reveal_strlit("level130_ga_1");
    reveal_strlit("level130_ga_2");
    reveal_strlit("level130_ga_3");
    reveal_strlit("level130_ga_4");
    reveal_strlit("level130_ga_5");
    reveal_strlit("level130_ga_6");
    reveal_strlit("level130_ga_7");
    reveal_strlit("level130_ga_8");
    reveal_strlit("level130_ga_9");
    let ps = spec_model_schema().parameters.unwrap();
    assert forall|i: int| 0 <= i < ps.len() implies parameter_well_formed(#[trigger] ps[i]) by {
        if ps[i].kind is Enum {
            let vs = choice_values(ps[i].kind->Enum_choices);
            assert forall|a: int, b: int| 0 <= a < b < vs.len() implies vs[a] != vs[b] by {
                if vs[a] == vs[b] {
                    assert(vs[a].len() == vs[b].len());
                    assert(vs[a][0] == vs[b][0]);
                    assert(vs[a][1] == vs[b][1]);
                    assert(vs[a][2] == vs[b][2]);
                    assert(vs[a][3] == vs[b][3]);
                    assert(vs[a][4] == vs[b][4]);
                    assert(vs[a][5] == vs[b][5]);
                    assert(vs[a][6] == vs[b][6]);
                    assert(vs[a][7] == vs[b][7]);
                    assert(vs[a][8] == vs[b][8]);
                    assert(vs[a][9] == vs[b][9]);
                    assert(vs[a][10] == vs[b][10]);
                    assert(vs[a][11] == vs[b][11]);
                    assert(vs[a][12] == vs[b][12]);
                }
            }
        }
        if i == 0 {
            assert(ps[0].kind->Enum_choices[0].value@ == "level1200_g"@);
        }
    }
}

/// Each capture is recorded at choices the schema offers.
pub proof fn lemma_captures_follow_schema()
    ensures
        captures_follow_schema(spec_model_schema(), key_params(), spec_captures()),
{
    let s = spec_model_schema();
    let t = spec_captures();
    assert forall|i: int, k: int| 0 <= i < t.len() && 0 <= k < key_params().len() implies {
        &&& #[trigger] t[i].keys.len() == key_params().len()
        &&& is_choice(choices_at(s, key_params()[k]), #[trigger] t[i].keys[k]@)
    } by {
        let cs = choices_at(s, key_params()[k]);
        if k == 0 {
            if t[i].keys[0] == "level1200_g" {
                assert(cs[0].value@ == t[i].keys[k]@);
            } else if t[i].keys[0] == "level1200_g_1" {
                assert(cs[1].value@ == t[i].keys[k]@);
            } else if t[i].keys[0] == "level1200_g_2" {
                assert(cs[2].value@ == t[i].keys[k]@);
            } else if t[i].keys[0] == "level1200_g_3" {
                assert(cs[3].value@ == t[i].keys[k]@);
            } else if t[i].keys[0] == "level1200_g_4" {
                assert(cs[4].value@ == t[i].keys[k]@);
            } else if t[i].keys[0] == "level130_ga" {
                assert(cs[5].value@ == t[i].keys[k]@);
            } else if t[i].keys[0] == "level130_ga_1" {
                assert(cs[6].value@ == t[i].keys[k]@);
            } else if t[i].keys[0] == "level130_ga_2" {
                assert(cs[7].value@ == t[i].keys[k]@);
            } else if t[i].keys[0] == "level130_ga_3" {
                assert(cs[8].value@ == t[i].keys[k]@);
            } else if t[i].keys[0] == "level130_ga_4" {
                assert(cs[9].value@ == t[i].keys[k]@);
            } else if t[i].keys[0] == "level130_ga_5" {
                assert(cs[10].value@ == t[i].keys[k]@);
            } else if t[i].keys[0] == "level130_ga_6" {
                assert(cs[11].value@ == t[i].keys[k]@);
            } else if t[i].keys[0] == "level130_ga_7" {
                assert(cs[12].value@ == t[i].keys[k]@);
            } else if t[i].keys[0] == "level130_ga_8" {
                assert(cs[13].value@ == t[i].keys[k]@);
            } else {
                assert(cs[14].value@ == t[i].keys[k]@);
            }
        }
    }
}

/// No two captures share a setting.
pub proof fn lemma_captures_distinct()
    ensures
        captures_distinct(spec_captures()),
{
    reveal_strlit("level1200_g");
    reveal_strlit("level1200_g_1");
    reveal_strlit("level1200_g_2");
    reveal_strlit("level1200_g_3");
    reveal_strlit("level1200_g_4");
    reveal_strlit("level130_ga");
    reveal_strlit("level130_ga_1");
    reveal_strlit("level130_ga_2");
    reveal_strlit("level130_ga_3");
    reveal_strlit("level130_ga_4");
    reveal_strlit("level130_ga_5");
    reveal_strlit("level130_ga_6");
    reveal_strlit("level130_ga_7");
    reveal_strlit("level130_ga_8");
    reveal_strlit("level130_ga_9");
    let t = spec_captures();
    assert forall|a: int, b: int| 0 <= a < b < t.len() implies str_texts(t[a].keys) != str_texts(t[b].keys) by {
        let x = str_texts(t[a].keys);
        let y = str_texts(t[b].keys);
        if x == y {
            assert(x[0].len() == y[0].len());
            assert(x[0][0] == y[0][0]);
            assert(x[0][1] == y[0][1]);
            assert(x[0][2] == y[0][2]);
            assert(x[0][3] == y[0][3]);
            assert(x[0][4] == y[0][4]);
            assert(x[0][5] == y[0][5]);
            assert(x[0][6] == y[0][6]);
            assert(x[0][7] == y[0][7]);
            assert(x[0][8] == y[0][8]);
            assert(x[0][9] == y[0][9]);
            assert(x[0][10] == y[0][10]);
            assert(x[0][11] == y[0][11]);
            assert(x[0][12] == y[0][12]);
        }
    }
}

/// Every setting the schema offers selects a capture; so do the defaults.
pub proof fn lemma_every_setting_selects()
    ensures
        every_setting_selects(spec_model_schema(), key_params(), spec_captures()),
        defaults_present(spec_model_schema(), key_params()),
        first_selected(spec_captures(), default_setting(spec_model_schema(), key_params())) is Some,
{
    let s = spec_model_schema();
    let t = spec_captures();
    assert forall|r: Seq<Seq<char>>| setting_of_choices(s, key_params(), r) implies
        (#[trigger] first_selected(t, r)) is Some by {
        let c0 = choices_at(s, 0);
        let i0 = choose|i: int| 0 <= i < c0.len() && c0[i].value@ == r[0];
        if i0 == 0 {
            lemma_selected_at(t, r, 0);
        } else if i0 == 1 {
            lemma_selected_at(t, r, 1);
        } else if i0 == 2 {
            lemma_selected_at(t, r, 2);
        } else if i0 == 3 {
            lemma_selected_at(t, r, 3);
        } else if i0 == 4 {
            lemma_selected_at(t, r, 4);
        } else if i0 == 5 {
            lemma_selected_at(t, r, 5);
        } else if i0 == 6 {
            lemma_selected_at(t, r, 6);
        } else if i0 == 7 {
            lemma_selected_at(t, r, 7);
        } else if i0 == 8 {
            lemma_selected_at(t, r, 8);
        } else if i0 == 9 {
            lemma_selected_at(t, r, 9);
        } else if i0 == 10 {
            lemma_selected_at(t, r, 10);
        } else if i0 == 11 {
            lemma_selected_at(t, r, 11);
        } else if i0 == 12 {
            lemma_selected_at(t, r, 12);
        } else if i0 == 13 {
            lemma_selected_at(t, r, 13);
        } else if i0 == 14 {
            lemma_selected_at(t, r, 14);
        }
    }
    let dflt = default_setting(s, key_params());
    assert(dflt =~= seq!["level1200_g"@]);
    lemma_selected_at(t, dflt, 0);
}

/// Every capture names a file that writes each value of its setting, and
/// no two captures name the same file.
pub proof fn lemma_capture_files()
    ensures
        files_name_settings(spec_captures()),
        files_distinct(spec_captures()),
{
    reveal_strlit("pedals/hudson_broadcast/hudson_broadcast_bc_24v_ltd_low_cut900_level1200_g.nam");
    reveal_strlit("pedals/hudson_broadcast/hudson_broadcast_bc_24v_ltd_low_cut900_level1200_g_1.nam");
    reveal_strlit("pedals/hudson_broadcast/hudson_broadcast_bc_24v_ltd_low_cut900_level1200_g_2.nam");
    reveal_strlit("pedals/hudson_broadcast/hudson_broadcast_bc_24v_ltd_low_cut900_level1200_g_3.nam");
    reveal_strlit("pedals/hudson_broadcast/hudson_broadcast_bc_24v_ltd_low_cut900_level1200_g_4.nam");
    reveal_strlit("pedals/hudson_broadcast/hudson_broadcast_bc_24v_ltd_low_cut900_level130_ga.nam");
    reveal_strlit("pedals/hudson_broadcast/hudson_broadcast_bc_24v_ltd_low_cut900_level130_ga_1.nam");
    reveal_strlit("pedals/hudson_broadcast/hudson_broadcast_bc_24v_ltd_low_cut900_level130_ga_2.nam");
    reveal_strlit("pedals/hudson_broadcast/hudson_broadcast_bc_24v_ltd_low_cut900_level130_ga_3.nam");
    reveal_strlit("pedals/hudson_broadcast/hudson_broadcast_bc_24v_ltd_low_cut900_level130_ga_4.nam");
    reveal_strlit("pedals/hudson_broadcast/hudson_broadcast_bc_24v_ltd_low_cut900_level130_ga_5.nam");
    reveal_strlit("pedals/hudson_broadcast/hudson_broadcast_bc_24v_ltd_low_cut900_level130_ga_6.nam");
    reveal_strlit("pedals/hudson_broadcast/hudson_broadcast_bc_24v_ltd_low_cut900_level130_ga_7.nam");
    reveal_strlit("pedals/hudson_broadcast/hudson_broadcast_bc_24v_ltd_low_cut900_level130_ga_8.nam");
    reveal_strlit("pedals/hudson_broadcast/hudson_broadcast_bc_24v_ltd_low_cut900_level130_ga_9.nam");
    reveal_strlit("level1200_g");
    reveal_strlit("level1200_g_1");
    reveal_strlit("level1200_g_2");
    reveal_strlit("level1200_g_3");
    reveal_strlit("level1200_g_4");
    reveal_strlit("level130_ga");
    reveal_strlit("level130_ga_1");
    reveal_strlit("level130_ga_2");
    reveal_strlit("level130_ga_3");
    reveal_strlit("level130_ga_4");
    reveal_strlit("level130_ga_5");
    reveal_strlit("level130_ga_6");
    reveal_strlit("level130_ga_7");
    reveal_strlit("level130_ga_8");
    reveal_strlit("level130_ga_9");
    let t = spec_captures();
    assert forall|i: int, k: int| 0 <= i < t.len() && 0 <= k < t[i].keys.len() implies
        names_value(#[trigger] t[i].model_path@, #[trigger] t[i].keys[k]@) by {
        let path = t[i].model_path@;
        let key = t[i].keys[k]@;
        if i == 0 {
            if k == 0 {
                assert(path.subrange(63int, 63int + key.len()) =~= key);
            }
        } else if i == 1 {
            if k == 0 {
                assert(path.subrange(63int, 63int + key.len()) =~= key);
            }
        } else if i == 2 {
            if k == 0 {
                assert(path.subrange(63int, 63int + key.len()) =~= key);
            }
        } else if i == 3 {
            if k == 0 {
                assert(path.subrange(63int, 63int + key.len()) =~= key);
            }
        } else if i == 4 {
            if k == 0 {
                assert(path.subrange(63int, 63int + key.len()) =~= key);
            }
        } else if i == 5 {
            if k == 0 {
                assert(path.subrange(63int, 63int + key.len()) =~= key);
            }
        } else if i == 6 {
            if k == 0 {
                assert(path.subrange(63int, 63int + key.len()) =~= key);
            }
        } else if i == 7 {
            if k == 0 {
                assert(path.subrange(63int, 63int + key.len()) =~= key);
            }
        } else if i == 8 {
            if k == 0 {
                assert(path.subrange(63int, 63int + key.len()) =~= key);
            }
        } else if i == 9 {
            if k == 0 {
                assert(path.subrange(63int, 63int + key.len()) =~= key);
            }
        } else if i == 10 {
            if k == 0 {
                assert(path.subrange(63int, 63int + key.len()) =~= key);
            }
        } else if i == 11 {
            if k == 0 {
                assert(path.subrange(63int, 63int + key.len()) =~= key);
            }
        } else if i == 12 {
            if k == 0 {
                assert(path.subrange(63int, 63int + key.len()) =~= key);
            }
        } else if i == 13 {
            if k == 0 {
                assert(path.subrange(63int, 63int + key.len()) =~= key);
            }
        } else if i == 14 {
            if k == 0 {
                assert(path.subrange(63int, 63int + key.len()) =~= key);
            }
        }
    }
    assert forall|a: int, b: int| 0 <= a < b < 15 implies t[a].model_path@ != t[b].model_path@ by {
        if a == 0 && b == 1 {
            assert(t[0].model_path@.len() != t[1].model_path@.len());
        } else if a == 0 && b == 2 {
            assert(t[0].model_path@.len() != t[2].model_path@.len());
        } else if a == 0 && b == 3 {
            assert(t[0].model_path@.len() != t[3].model_path@.len());
        } else if a == 0 && b == 4 {
            assert(t[0].model_path@.len() != t[4].model_path@.len());
        } else if a == 0 && b == 5 {
            assert(t[0].model_path@[69] != t[5].model_path@[69]);
        } else if a == 0 && b == 6 {
            assert(t[0].model_path@.len() != t[6].model_path@.len());
        } else if a == 0 && b == 7 {
            assert(t[0].model_path@.len() != t[7].model_path@.len());
        } else if a == 0 && b == 8 {
            assert(t[0].model_path@.len() != t[8].model_path@.len());
        } else if a == 0 && b == 9 {
            assert(t[0].model_path@.len() != t[9].model_path@.len());
        } else if a == 0 && b == 10 {
            assert(t[0].model_path@.len() != t[10].model_path@.len());
        } else if a == 0 && b == 11 {
            assert(t[0].model_path@.len() != t[11].model_path@.len());
        } else if a == 0 && b == 12 {
            assert(t[0].model_path@.len() != t[12].model_path@.len());
        } else if a == 0 && b == 13 {
            assert(t[0].model_path@.len() != t[13].model_path@.len());
        } else if a == 0 && b == 14 {
            assert(t[0].model_path@.len() != t[14].model_path@.len());
        } else if a == 1 && b == 2 {
            assert(t[1].model_path@[75] != t[2].model_path@[75]);
        } else if a == 1 && b == 3 {
            assert(t[1].model_path@[75] != t[3].model_path@[75]);
        } else if a == 1 && b == 4 {
            assert(t[1].model_path@[75] != t[4].model_path@[75]);
        } else if a == 1 && b == 5 {
            assert(t[1].model_path@.len() != t[5].model_path@.len());
        } else if a == 1 && b == 6 {
            assert(t[1].model_path@[69] != t[6].model_path@[69]);
        } else if a == 1 && b == 7 {
            assert(t[1].model_path@[69] != t[7].model_path@[69]);
        } else if a == 1 && b == 8 {
            assert(t[1].model_path@[69] != t[8].model_path@[69]);
        } else if a == 1 && b == 9 {
            assert(t[1].model_path@[69] != t[9].model_path@[69]);
        } else if a == 1 && b == 10 {
            assert(t[1].model_path@[69] != t[10].model_path@[69]);
        } else if a == 1 && b == 11 {
            assert(t[1].model_path@[69] != t[11].model_path@[69]);
        } else if a == 1 && b == 12 {
            assert(t[1].model_path@[69] != t[12].model_path@[69]);
        } else if a == 1 && b == 13 {
            assert(t[1].model_path@[69] != t[13].model_path@[69]);
        } else if a == 1 && b == 14 {
            assert(t[1].model_path@[69] != t[14].model_path@[69]);
        } else if a == 2 && b == 3 {
            assert(t[2].model_path@[75] != t[3].model_path@[75]);
        } else if a == 2 && b == 4 {
            assert(t[2].model_path@[75] != t[4].model_path@[75]);
        } else if a == 2 && b == 5 {
            assert(t[2].model_path@.len() != t[5].model_path@.len());
        } else if a == 2 && b == 6 {
            assert(t[2].model_path@[69] != t[6].model_path@[69]);
        } else if a == 2 && b == 7 {
            assert(t[2].model_path@[69] != t[7].model_path@[69]);
        } else if a == 2 && b == 8 {
            assert(t[2].model_path@[69] != t[8].model_path@[69]);
        } else if a == 2 && b == 9 {
            assert(t[2].model_path@[69] != t[9].model_path@[69]);
        } else if a == 2 && b == 10 {
            assert(t[2].model_path@[69] != t[10].model_path@[69]);
        } else if a == 2 && b == 11 {
            assert(t[2].model_path@[69] != t[11].model_path@[69]);
        } else if a == 2 && b == 12 {
            assert(t[2].model_path@[69] != t[12].model_path@[69]);
        } else if a == 2 && b == 13 {
            assert(t[2].model_path@[69] != t[13].model_path@[69]);
        } else if a == 2 && b == 14 {
            assert(t[2].model_path@[69] != t[14].model_path@[69]);
        } else if a == 3 && b == 4 {
            assert(t[3].model_path@[75] != t[4].model_path@[75]);
        } else if a == 3 && b == 5 {
            assert(t[3].model_path@.len() != t[5].model_path@.len());
        } else if a == 3 && b == 6 {
            assert(t[3].model_path@[69] != t[6].model_path@[69]);
        } else if a == 3 && b == 7 {
            assert(t[3].model_path@[69] != t[7].model_path@[69]);
        } else if a == 3 && b == 8 {
            assert(t[3].model_path@[69] != t[8].model_path@[69]);
        } else if a == 3 && b == 9 {
            assert(t[3].model_path@[69] != t[9].model_path@[69]);
        } else if a == 3 && b == 10 {
            assert(t[3].model_path@[69] != t[10].model_path@[69]);
        } else if a == 3 && b == 11 {
            assert(t[3].model_path@[69] != t[11].model_path@[69]);
        } else if a == 3 && b == 12 {
            assert(t[3].model_path@[69] != t[12].model_path@[69]);
        } else if a == 3 && b == 13 {
            assert(t[3].model_path@[69] != t[13].model_path@[69]);
        } else if a == 3 && b == 14 {
            assert(t[3].model_path@[69] != t[14].model_path@[69]);
        } else if a == 4 && b == 5 {
            assert(t[4].model_path@.len() != t[5].model_path@.len());
        } else if a == 4 && b == 6 {
            assert(t[4].model_path@[69] != t[6].model_path@[69]);
        } else if a == 4 && b == 7 {
            assert(t[4].model_path@[69] != t[7].model_path@[69]);
        } else if a == 4 && b == 8 {
            assert(t[4].model_path@[69] != t[8].model_path@[69]);
        } else if a == 4 && b == 9 {
            assert(t[4].model_path@[69] != t[9].model_path@[69]);
        } else if a == 4 && b == 10 {
            assert(t[4].model_path@[69] != t[10].model_path@[69]);
        } else if a == 4 && b == 11 {
            assert(t[4].model_path@[69] != t[11].model_path@[69]);
        } else if a == 4 && b == 12 {
            assert(t[4].model_path@[69] != t[12].model_path@[69]);
        } else if a == 4 && b == 13 {
            assert(t[4].model_path@[69] != t[13].model_path@[69]);
        } else if a == 4 && b == 14 {
            assert(t[4].model_path@[69] != t[14].model_path@[69]);
        } else if a == 5 && b == 6 {
            assert(t[5].model_path@.len() != t[6].model_path@.len());
        } else if a == 5 && b == 7 {
            assert(t[5].model_path@.len() != t[7].model_path@.len());
        } else if a == 5 && b == 8 {
            assert(t[5].model_path@.len() != t[8].model_path@.len());
        } else if a == 5 && b == 9 {
            assert(t[5].model_path@.len() != t[9].model_path@.len());
        } else if a == 5 && b == 10 {
            assert(t[5].model_path@.len() != t[10].model_path@.len());
        } else if a == 5 && b == 11 {
            assert(t[5].model_path@.len() != t[11].model_path@.len());
        } else if a == 5 && b == 12 {
            assert(t[5].model_path@.len() != t[12].model_path@.len());
        } else if a == 5 && b == 13 {
            assert(t[5].model_path@.len() != t[13].model_path@.len());
        } else if a == 5 && b == 14 {
            assert(t[5].model_path@.len() != t[14].model_path@.len());
        } else if a == 6 && b == 7 {
            assert(t[6].model_path@[75] != t[7].model_path@[75]);
        } else if a == 6 && b == 8 {
            assert(t[6].model_path@[75] != t[8].model_path@[75]);
        } else if a == 6 && b == 9 {
            assert(t[6].model_path@[75] != t[9].model_path@[75]);
        } else if a == 6 && b == 10 {
            assert(t[6].model_path@[75] != t[10].model_path@[75]);
        } else if a == 6 && b == 11 {
            assert(t[6].model_path@[75] != t[11].model_path@[75]);
        } else if a == 6 && b == 12 {
            assert(t[6].model_path@[75] != t[12].model_path@[75]);
        } else if a == 6 && b == 13 {
            assert(t[6].model_path@[75] != t[13].model_path@[75]);
        } else if a == 6 && b == 14 {
            assert(t[6].model_path@[75] != t[14].model_path@[75]);
        } else if a == 7 && b == 8 {
            assert(t[7].model_path@[75] != t[8].model_path@[75]);
        } else if a == 7 && b == 9 {
            assert(t[7].model_path@[75] != t[9].model_path@[75]);
        } else if a == 7 && b == 10 {
            assert(t[7].model_path@[75] != t[10].model_path@[75]);
        } else if a == 7 && b == 11 {
            assert(t[7].model_path@[75] != t[11].model_path@[75]);
        } else if a == 7 && b == 12 {
            assert(t[7].model_path@[75] != t[12].model_path@[75]);
        } else if a == 7 && b == 13 {
            assert(t[7].model_path@[75] != t[13].model_path@[75]);
        } else if a == 7 && b == 14 {
            assert(t[7].model_path@[75] != t[14].model_path@[75]);
        } else if a == 8 && b == 9 {
            assert(t[8].model_path@[75] != t[9].model_path@[75]);
        } else if a == 8 && b == 10 {
            assert(t[8].model_path@[75] != t[10].model_path@[75]);
        } else if a == 8 && b == 11 {
            assert(t[8].model_path@[75] != t[11].model_path@[75]);
        } else if a == 8 && b == 12 {
            assert(t[8].model_path@[75] != t[12].model_path@[75]);
        } else if a == 8 && b == 13 {
            assert(t[8].model_path@[75] != t[13].model_path@[75]);
        } else if a == 8 && b == 14 {
            assert(t[8].model_path@[75] != t[14].model_path@[75]);
        } else if a == 9 && b == 10 {
            assert(t[9].model_path@[75] != t[10].model_path@[75]);
        } else if a == 9 && b == 11 {
            assert(t[9].model_path@[75] != t[11].model_path@[75]);
        } else if a == 9 && b == 12 {
            assert(t[9].model_path@[75] != t[12].model_path@[75]);
        } else if a == 9 && b == 13 {
            assert(t[9].model_path@[75] != t[13].model_path@[75]);
        } else if a == 9 && b == 14 {
            assert(t[9].model_path@[75] != t[14].model_path@[75]);
        } else if a == 10 && b == 11 {
            assert(t[10].model_path@[75] != t[11].model_path@[75]);
        } else if a == 10 && b == 12 {
            assert(t[10].model_path@[75] != t[12].model_path@[75]);
        } else if a == 10 && b == 13 {
            assert(t[10].model_path@[75] != t[13].model_path@[75]);
        } else if a == 10 && b == 14 {
            assert(t[10].model_path@[75] != t[14].model_path@[75]);
        } else if a == 11 && b == 12 {
            assert(t[11].model_path@[75] != t[12].model_path@[75]);
        } else if a == 11 && b == 13 {
            assert(t[11].model_path@[75] != t[13].model_path@[75]);
        } else if a == 11 && b == 14 {
            assert(t[11].model_path@[75] != t[14].model_path@[75]);
        } else if a == 12 && b == 13 {
            assert(t[12].model_path@[75] != t[13].model_path@[75]);
        } else if a == 12 && b == 14 {
            assert(t[12].model_path@[75] != t[14].model_path@[75]);
        } else if a == 13 && b == 14 {
            assert(t[13].model_path@[75] != t[14].model_path@[75]);
        }
    }
}

/// The file recorded at a setting, as the recording names it.
pub open spec fn recorded_file(tone: Seq<char>) -> Seq<char> {
    "pedals/hudson_broadcast/hudson_broadcast_bc_24v_ltd_low_cut900_"@ + tone + ".nam"@
}

/// Every capture names the file recorded at its own setting.
pub proof fn lemma_captures_name_their_setting()
    ensures
        forall|i: int| 0 <= i < spec_captures().len() ==>
            (#[trigger] spec_captures()[i]).model_path@ == recorded_file(spec_captures()[i].keys[0]@),
{
    reveal_strlit("pedals/hudson_broadcast/hudson_broadcast_bc_24v_ltd_low_cut900_");
    reveal_strlit(".nam");
    reveal_strlit("pedals/hudson_broadcast/hudson_broadcast_bc_24v_ltd_low_cut900_level1200_g.nam");
    reveal_strlit("pedals/hudson_broadcast/hudson_broadcast_bc_24v_ltd_low_cut900_level1200_g_1.nam");
    reveal_strlit("pedals/hudson_broadcast/hudson_broadcast_bc_24v_ltd_low_cut900_level1200_g_2.nam");
    reveal_strlit("pedals/hudson_broadcast/hudson_broadcast_bc_24v_ltd_low_cut900_level1200_g_3.nam");
    reveal_strlit("pedals/hudson_broadcast/hudson_broadcast_bc_24v_ltd_low_cut900_level1200_g_4.nam");
    reveal_strlit("pedals/hudson_broadcast/hudson_broadcast_bc_24v_ltd_low_cut900_level130_ga.nam");
    reveal_strlit("pedals/hudson_broadcast/hudson_broadcast_bc_24v_ltd_low_cut900_level130_ga_1.nam");
    reveal_strlit("pedals/hudson_broadcast/hudson_broadcast_bc_24v_ltd_low_cut900_level130_ga_2.nam");
    reveal_strlit("pedals/hudson_broadcast/hudson_broadcast_bc_24v_ltd_low_cut900_level130_ga_3.nam");
    reveal_strlit("pedals/hudson_broadcast/hudson_broadcast_bc_24v_ltd_low_cut900_level130_ga_4.nam");
    reveal_strlit("pedals/hudson_broadcast/hudson_broadcast_bc_24v_ltd_low_cut900_level130_ga_5.nam");
    reveal_strlit("pedals/hudson_broadcast/hudson_broadcast_bc_24v_ltd_low_cut900_level130_ga_6.nam");
    reveal_strlit("pedals/hudson_broadcast/hudson_broadcast_bc_24v_ltd_low_cut900_level130_ga_7.nam");
    reveal_strlit("pedals/hudson_broadcast/hudson_broadcast_bc_24v_ltd_low_cut900_level130_ga_8.nam");
    reveal_strlit("pedals/hudson_broadcast/hudson_broadcast_bc_24v_ltd_low_cut900_level130_ga_9.nam");
    reveal_strlit("level1200_g");
    reveal_strlit("level1200_g_1");
    reveal_strlit("level1200_g_2");
    reveal_strlit("level1200_g_3");
    reveal_strlit("level1200_g_4");
    reveal_strlit("level130_ga");
    reveal_strlit("level130_ga_1");
    reveal_strlit("level130_ga_2");
    reveal_strlit("level130_ga_3");
    reveal_strlit("level130_ga_4");
    reveal_strlit("level130_ga_5");
    reveal_strlit("level130_ga_6");
    reveal_strlit("level130_ga_7");
    reveal_strlit("level130_ga_8");
    reveal_strlit("level130_ga_9");
    let t = spec_captures();
    assert forall|i: int| 0 <= i < t.len() implies
        (#[trigger] t[i]).model_path@ == recorded_file(t[i].keys[0]@) by {
        if i == 0 {
            assert(t[i].model_path@ =~= recorded_file("level1200_g"@));
        } else if i == 1 {
            assert(t[i].model_path@ =~= recorded_file("level1200_g_1"@));
        } else if i == 2 {
            assert(t[i].model_path@ =~= recorded_file("level1200_g_2"@));
        } else if i == 3 {
            assert(t[i].model_path@ =~= recorded_file("level1200_g_3"@));
        } else if i == 4 {
            assert(t[i].model_path@ =~= recorded_file("level1200_g_4"@));
        } else if i == 5 {
            assert(t[i].model_path@ =~= recorded_file("level130_ga"@));
        } else if i == 6 {
            assert(t[i].model_path@ =~= recorded_file("level130_ga_1"@));
        } else if i == 7 {
            assert(t[i].model_path@ =~= recorded_file("level130_ga_2"@));
        } else if i == 8 {
            assert(t[i].model_path@ =~= recorded_file("level130_ga_3"@));
        } else if i == 9 {
            assert(t[i].model_path@ =~= recorded_file("level130_ga_4"@));
        } else if i == 10 {
            assert(t[i].model_path@ =~= recorded_file("level130_ga_5"@));
        } else if i == 11 {
            assert(t[i].model_path@ =~= recorded_file("level130_ga_6"@));
        } else if i == 12 {
            assert(t[i].model_path@ =~= recorded_file("level130_ga_7"@));
        } else if i == 13 {
            assert(t[i].model_path@ =~= recorded_file("level130_ga_8"@));
        } else if i == 14 {
            assert(t[i].model_path@ =~= recorded_file("level130_ga_9"@));
        }
    }
}

/// A setting that selects a capture selects the file recorded at that setting.
pub proof fn lemma_selected_file(tone: Seq<char>)
    ensures
        selection(tone) matches Some(i) ==> spec_captures()[i].model_path@ == recorded_file(tone),
{
    lemma_first_selected(spec_captures(), seq![tone]);
    lemma_captures_name_their_setting();
    if let Some(i) = selection(tone) {
        assert(spec_captures()[i].model_path@ == recorded_file(spec_captures()[i].keys[0]@));
    }
}

} // verus!
