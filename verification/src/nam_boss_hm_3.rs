//! The "Boss HM-3" gain model (boss), played from neural captures, one per recorded setting.

use vstd::prelude::*;
use crate::capture::{
    names_value, files_name_settings, files_distinct,
    Capture, CaptureView, table_view, find_capture, first_selected, asset_text, lemma_first_selected,
    lemma_selected_at, captures_follow_schema, default_setting, defaults_present, captures_distinct,
    every_setting_selects, setting_of_choices,
};
use crate::error::GainError;
use crate::model::{BackendKind, Instruments, KnobLayoutEntry, ModelDefinition, ModelDefinitionView};
use crate::schema::{
    EffectType, EnumChoice, ModelSchema, ModelSchemaView, ParameterKindView, ParameterSpecView,
    choice, enum_parameter, parameters_view, schema_well_formed, choices_at, str_texts, is_choice,
    parameter_well_formed, choice_values, parameter_paths,
};
use crate::text::{concat, join, texts};

verus! {

pub const MODEL_ID: &'static str = "nam_boss_hm_3";
pub const DISPLAY_NAME: &'static str = "Boss HM-3";
pub const BRAND: &'static str = "boss";

pub open spec fn spec_model_schema() -> ModelSchemaView {
    ModelSchemaView {
        effect_type: EffectType::Gain,
        model: MODEL_ID,
        display_name: DISPLAY_NAME,
        audio_mode: None,
        parameters: Some(seq![
            ParameterSpecView {
                path: "lows",
                label: "Lows",
                group: Some("Pedal"),
                kind: ParameterKindView::Enum {
                    default: Some("5"),
                    choices: seq![
                        EnumChoice { value: "5", label: "5" },
                        EnumChoice { value: "10", label: "10" },
                    ],
                },
            },
            ParameterSpecView {
                path: "highs",
                label: "Highs",
                group: Some("Pedal"),
                kind: ParameterKindView::Enum {
                    default: Some("5"),
                    choices: seq![
                        EnumChoice { value: "5", label: "5" },
                        EnumChoice { value: "10", label: "10" },
                    ],
                },
            },
            ParameterSpecView {
                path: "dist",
                label: "Distortion",
                group: Some("Pedal"),
                kind: ParameterKindView::Enum {
                    default: Some("5"),
                    choices: seq![
                        EnumChoice { value: "5", label: "5" },
                        EnumChoice { value: "10", label: "10" },
                    ],
                },
            },
        ]),
    }
}

/// The parameters of the model.
pub fn model_schema() -> (schema: ModelSchema)
    ensures
        schema@ == spec_model_schema(),
{
    let parameters = vec![
        enum_parameter(
            "lows",
            "Lows",
            Some("Pedal"),
            Some("5"),
            vec![
                choice("5", "5"),
                choice("10", "10"),
            ],
        ),
        enum_parameter(
            "highs",
            "Highs",
            Some("Pedal"),
            Some("5"),
            vec![
                choice("5", "5"),
                choice("10", "10"),
            ],
        ),
        enum_parameter(
            "dist",
            "Distortion",
            Some("Pedal"),
            Some("5"),
            vec![
                choice("5", "5"),
                choice("10", "10"),
            ],
        ),
    ];
    assert(parameters_view(parameters@) =~= spec_model_schema().parameters.unwrap());
    ModelSchema {
        effect_type: EffectType::Gain,
        model: MODEL_ID,
        display_name: DISPLAY_NAME,
        audio_mode: None,
        parameters: Some(parameters),
    }
}

/// The positions, in the schema, of the parameters that select a capture.
pub open spec fn key_params() -> Seq<int> {
    seq![0, 1, 2]
}

pub open spec fn spec_captures() -> Seq<CaptureView> {
    seq![
        CaptureView { keys: seq!["5", "5", "5"], model_path: "pedals/boss_hm_3/boss_hm3_lows5_highs5_dist5_boss_hm3.nam" },
        CaptureView { keys: seq!["5", "5", "10"], model_path: "pedals/boss_hm_3/boss_hm3_lows5_highs5_dist10_boss_hm3.nam" },
        CaptureView { keys: seq!["5", "10", "5"], model_path: "pedals/boss_hm_3/boss_hm3_lows5_highs10_dist5_boss_hm3.nam" },
        CaptureView { keys: seq!["5", "10", "10"], model_path: "pedals/boss_hm_3/boss_hm3_lows5_highs10_dist10_boss_hm3.nam" },
        CaptureView { keys: seq!["10", "5", "5"], model_path: "pedals/boss_hm_3/boss_hm3_lows10_highs5_dist5_boss_hm3.nam" },
        CaptureView { keys: seq!["10", "5", "10"], model_path: "pedals/boss_hm_3/boss_hm3_lows10_highs5_dist10_boss_hm3.nam" },
        CaptureView { keys: seq!["10", "10", "5"], model_path: "pedals/boss_hm_3/boss_hm3_lows10_highs10_dist5_boss_hm3.nam" },
        CaptureView { keys: seq!["10", "10", "10"], model_path: "pedals/boss_hm_3/boss_hm3_lows10_highs10_dist10_boss_hm3.nam" },
    ]
}

/// The captures of the pedal, each with its (lows, highs, dist) setting.
pub fn captures() -> (table: Vec<Capture>)
    ensures
        table_view(table@) == spec_captures(),
{
    let table = vec![
        Capture::three("5", "5", "5", "pedals/boss_hm_3/boss_hm3_lows5_highs5_dist5_boss_hm3.nam"),
        Capture::three("5", "5", "10", "pedals/boss_hm_3/boss_hm3_lows5_highs5_dist10_boss_hm3.nam"),
        Capture::three("5", "10", "5", "pedals/boss_hm_3/boss_hm3_lows5_highs10_dist5_boss_hm3.nam"),
        Capture::three("5", "10", "10", "pedals/boss_hm_3/boss_hm3_lows5_highs10_dist10_boss_hm3.nam"),
        Capture::three("10", "5", "5", "pedals/boss_hm_3/boss_hm3_lows10_highs5_dist5_boss_hm3.nam"),
        Capture::three("10", "5", "10", "pedals/boss_hm_3/boss_hm3_lows10_highs5_dist10_boss_hm3.nam"),
        Capture::three("10", "10", "5", "pedals/boss_hm_3/boss_hm3_lows10_highs10_dist5_boss_hm3.nam"),
        Capture::three("10", "10", "10", "pedals/boss_hm_3/boss_hm3_lows10_highs10_dist10_boss_hm3.nam"),
    ];
    assert(table_view(table@) =~= spec_captures());
    table
}

/// What the model reports for a setting at which no capture was recorded.
pub open spec fn unsupported_message(lows: Seq<char>, highs: Seq<char>, dist: Seq<char>) -> Seq<char> {
    concat(seq!["gain '"@, MODEL_ID@, "' has no capture for lows="@, lows, " highs="@, highs, " dist="@, dist])
}

/// The index of the capture that (lows, highs, dist) selects.
pub open spec fn selection(lows: Seq<char>, highs: Seq<char>, dist: Seq<char>) -> Option<int> {
    first_selected(spec_captures(), seq![lows, highs, dist])
}

fn unsupported(lows: &str, highs: &str, dist: &str) -> (e: GainError)
    ensures
        e matches GainError::UnsupportedSetting(m) && m@ == unsupported_message(lows@, highs@, dist@),
{
    let parts = vec!["gain '", MODEL_ID, "' has no capture for lows=", lows, " highs=", highs, " dist=", dist];
    let m = join(&parts);
    assert(texts(parts@) =~= seq!["gain '"@, MODEL_ID@, "' has no capture for lows="@, lows@, " highs="@, highs@, " dist="@, dist@]);
    GainError::UnsupportedSetting(m)
}

/// The capture recorded at (lows, highs, dist).
pub fn resolve_capture(lows: &str, highs: &str, dist: &str) -> (selected: Result<&'static str, GainError>)
    ensures
        match selection(lows@, highs@, dist@) {
            Some(i) => selected matches Ok(path) && path == spec_captures()[i].model_path,
            None => selected matches Err(GainError::UnsupportedSetting(m)) && m@ == unsupported_message(lows@, highs@, dist@),
        },
{
    let table = captures();
    let request = vec![lows, highs, dist];
    assert(texts(request@) =~= seq![lows@, highs@, dist@]);
    match find_capture(&table, &request) {
        Some(i) => {
            proof {
                lemma_first_selected(spec_captures(), seq![lows@, highs@, dist@]);
            }
            Ok(table[i].model_path)
        },
        None => Err(unsupported(lows, highs, dist)),
    }
}

/// Accepts (lows, highs, dist) exactly where a capture was recorded there.
pub fn validate_params(lows: &str, highs: &str, dist: &str) -> (checked: Result<(), GainError>)
    ensures
        match selection(lows@, highs@, dist@) {
            Some(i) => checked is Ok,
            None => checked matches Err(GainError::UnsupportedSetting(m)) && m@ == unsupported_message(lows@, highs@, dist@),
        },
{
    match resolve_capture(lows, highs, dist) {
        Ok(_) => Ok(()),
        Err(e) => Err(e),
    }
}

/// Names the capture file that (lows, highs, dist) selects.
pub fn asset_summary(lows: &str, highs: &str, dist: &str) -> (summary: Result<String, GainError>)
    ensures
        match selection(lows@, highs@, dist@) {
            Some(i) => summary matches Ok(s) && s@ == asset_text(spec_captures()[i].model_path@),
            None => summary matches Err(GainError::UnsupportedSetting(m)) && m@ == unsupported_message(lows@, highs@, dist@),
        },
{
    match resolve_capture(lows, highs, dist) {
        Ok(c) => {
            let parts = vec!["model='", c, "'"];
            assert(texts(parts@) =~= seq!["model='"@, c@, "'"@]);
            Ok(join(&parts))
        },
        Err(e) => Err(e),
    }
}

pub open spec fn spec_model_definition() -> ModelDefinitionView {
    ModelDefinitionView {
        id: MODEL_ID,
        display_name: DISPLAY_NAME,
        brand: BRAND,
        backend_kind: BackendKind::Nam,
        supported_instruments: Instruments::GuitarBass,
        knob_layout: seq![],
    }
}

/// What the registry lists for this model.
pub fn model_definition() -> (d: ModelDefinition)
    ensures
        d@ == spec_model_definition(),
{
    let knob_layout: Vec<KnobLayoutEntry> = Vec::new();
    let d = ModelDefinition {
        id: MODEL_ID,
        display_name: DISPLAY_NAME,
        brand: BRAND,
        backend_kind: BackendKind::Nam,
        supported_instruments: Instruments::GuitarBass,
        knob_layout,
    };
    assert(d@.knob_layout =~= spec_model_definition().knob_layout);
    d
}

/// The schema is sound: every parameter is, and no two share a path.
pub proof fn lemma_schema_well_formed()
    ensures
        schema_well_formed(spec_model_schema()),
{
    reveal_strlit("lows");
    reveal_strlit("highs");
    reveal_strlit("dist");
    reveal_strlit("5");
    reveal_strlit("10");
    let ps = spec_model_schema().parameters.unwrap();
    assert forall|i: int| 0 <= i < ps.len() implies parameter_well_formed(#[trigger] ps[i]) by {
        if ps[i].kind is Enum {
            let vs = choice_values(ps[i].kind->Enum_choices);
            assert forall|a: int, b: int| 0 <= a < b < vs.len() implies vs[a] != vs[b] by {
                if vs[a] == vs[b] {
                    assert(vs[a].len() == vs[b].len());
                }
            }
        }
        if i == 0 {
            assert(ps[0].kind->Enum_choices[0].value@ == "5"@);
        } else if i == 1 {
            assert(ps[1].kind->Enum_choices[0].value@ == "5"@);
        } else if i == 2 {
            assert(ps[2].kind->Enum_choices[0].value@ == "5"@);
        }
    }
    let paths = parameter_paths(ps);
    assert forall|a: int, b: int| 0 <= a < b < paths.len() implies paths[a] != paths[b] by {
        if paths[a] == paths[b] {
            assert(paths[a].len() == paths[b].len());
            assert(paths[a][0] == paths[b][0]);
        }
    }
}

/// Each capture is recorded at choices the schema offers.
pub proof fn lemma_captures_follow_schema()
    ensures
        captures_follow_schema(spec_model_schema(), key_params(), spec_captures()),
{
    let s = spec_model_schema();
    let t = spec_captures();
    assert forall|i: int, k: int| 0 <= i < t.len() && 0 <= k < key_params().len() implies {
        &&& #[trigger] t[i].keys.len() == key_params().len()
        &&& is_choice(choices_at(s, key_params()[k]), #[trigger] t[i].keys[k]@)
    } by {
        let cs = choices_at(s, key_params()[k]);
        if k == 0 {
            if t[i].keys[0] == "5" {
                assert(cs[0].value@ == t[i].keys[k]@);
            } else {
                assert(cs[1].value@ == t[i].keys[k]@);
            }
        } else if k == 1 {
            if t[i].keys[1] == "5" {
                assert(cs[0].value@ == t[i].keys[k]@);
            } else {
                assert(cs[1].value@ == t[i].keys[k]@);
            }
        } else if k == 2 {
            if t[i].keys[2] == "5" {
                assert(cs[0].value@ == t[i].keys[k]@);
            } else {
                assert(cs[1].value@ == t[i].keys[k]@);
            }
        }
    }
}

/// No two captures share a setting.
pub proof fn lemma_captures_distinct()
    ensures
        captures_distinct(spec_captures()),
{
    reveal_strlit("5");
    reveal_strlit("10");
    let t = spec_captures();
    assert forall|a: int, b: int| 0 <= a < b < t.len() implies str_texts(t[a].keys) != str_texts(t[b].keys) by {
        let x = str_texts(t[a].keys);
        let y = str_texts(t[b].keys);
        if x == y {
            assert(x[0].len() == y[0].len());
            assert(x[1].len() == y[1].len());
            assert(x[2].len() == y[2].len());
        }
    }
}

/// Every setting the schema offers selects a capture; so do the defaults.
pub proof fn lemma_every_setting_selects()
    ensures
        every_setting_selects(spec_model_schema(), key_params(), spec_captures()),
        defaults_present(spec_model_schema(), key_params()),
        first_selected(spec_captures(), default_setting(spec_model_schema(), key_params())) is Some,
{
    let s = spec_model_schema();
    let t = spec_captures();
    assert forall|r: Seq<Seq<char>>| setting_of_choices(s, key_params(), r) implies
        (#[trigger] first_selected(t, r)) is Some by {
        let c0 = choices_at(s, 0);
        let i0 = choose|i: int| 0 <= i < c0.len() && c0[i].value@ == r[0];
        let c1 = choices_at(s, 1);
        let i1 = choose|i: int| 0 <= i < c1.len() && c1[i].value@ == r[1];
        let c2 = choices_at(s, 2);
        let i2 = choose|i: int| 0 <= i < c2.len() && c2[i].value@ == r[2];
        if i0 == 0 && i1 == 0 && i2 == 0 {
            lemma_selected_at(t, r, 0);
        } else if i0 == 0 && i1 == 0 && i2 == 1 {
            lemma_selected_at(t, r, 1);
        } else if i0 == 0 && i1 == 1 && i2 == 0 {
            lemma_selected_at(t, r, 2);
        } else if i0 == 0 && i1 == 1 && i2 == 1 {
            lemma_selected_at(t, r, 3);
        } else if i0 == 1 && i1 == 0 && i2 == 0 {
            lemma_selected_at(t, r, 4);
        } else if i0 == 1 && i1 == 0 && i2 == 1 {
            lemma_selected_at(t, r, 5);
        } else if i0 == 1 && i1 == 1 && i2 == 0 {
            lemma_selected_at(t, r, 6);
        } else if i0 == 1 && i1 == 1 && i2 == 1 {
            lemma_selected_at(t, r, 7);
        }
    }
    let dflt = default_setting(s, key_params());
    assert(dflt =~= seq!["5"@, "5"@, "5"@]);
    lemma_selected_at(t, dflt, 0);
}

/// Every capture names a file that writes each value of its setting, and
/// no two captures name the same file.
pub proof fn lemma_capture_files()
    ensures
        files_name_settings(spec_captures()),
        files_distinct(spec_captures()),
{
    reveal_strlit("pedals/boss_hm_3/boss_hm3_lows5_highs5_dist5_boss_hm3.nam");
    reveal_strlit("pedals/boss_hm_3/boss_hm3_lows5_highs5_dist10_boss_hm3.nam");
    reveal_strlit("pedals/boss_hm_3/boss_hm3_lows5_highs10_dist5_boss_hm3.nam");
    reveal_strlit("pedals/boss_hm_3/boss_hm3_lows5_highs10_dist10_boss_hm3.nam");
    reveal_strlit("pedals/boss_hm_3/boss_hm3_lows10_highs5_dist5_boss_hm3.nam");
    reveal_strlit("pedals/boss_hm_3/boss_hm3_lows10_highs5_dist10_boss_hm3.nam");
    reveal_strlit("pedals/boss_hm_3/boss_hm3_lows10_highs10_dist5_boss_hm3.nam");
    reveal_strlit("pedals/boss_hm_3/boss_hm3_lows10_highs10_dist10_boss_hm3.nam");
    reveal_strlit("5");
    reveal_strlit("10");
    let t = spec_captures();
    assert forall|i: int, k: int| 0 <= i < t.len() && 0 <= k < t[i].keys.len() implies
        names_value(#[trigger] t[i].model_path@, #[trigger] t[i].keys[k]@) by {
        let path = t[i].model_path@;
        let key = t[i].keys[k]@;
        if i == 0 {
            if k == 0 {
                assert(path.subrange(30int, 30int + key.len()) =~= key);
            } else if k == 1 {
                assert(path.subrange(30int, 30int + key.len()) =~= key);
            } else if k == 2 {
                assert(path.subrange(30int, 30int + key.len()) =~= key);
            }
        } else if i == 1 {
            if k == 0 {
                assert(path.subrange(30int, 30int + key.len()) =~= key);
            } else if k == 1 {
                assert(path.subrange(30int, 30int + key.len()) =~= key);
            } else if k == 2 {
                assert(path.subrange(43int, 43int + key.len()) =~= key);
            }
        } else if i == 2 {
            if k == 0 {
                assert(path.subrange(30int, 30int + key.len()) =~= key);
            } else if k == 1 {
                assert(path.subrange(37int, 37int + key.len()) =~= key);
            } else if k == 2 {
                assert(path.subrange(30int, 30int + key.len()) =~= key);
            }
        } else if i == 3 {
            if k == 0 {
                assert(path.subrange(30int, 30int + key.len()) =~= key);
            } else if k == 1 {
                assert(path.subrange(37int, 37int + key.len()) =~= key);
            } else if k == 2 {
                assert(path.subrange(37int, 37int + key.len()) =~= key);
            }
        } else if i == 4 {
            if k == 0 {
                assert(path.subrange(30int, 30int + key.len()) =~= key);
            } else if k == 1 {
                assert(path.subrange(38int, 38int + key.len()) =~= key);
            } else if k == 2 {
                assert(path.subrange(38int, 38int + key.len()) =~= key);
            }
        } else if i == 5 {
            if k == 0 {
                assert(path.subrange(30int, 30int + key.len()) =~= key);
            } else if k == 1 {
                assert(path.subrange(38int, 38int + key.len()) =~= key);
            } else if k == 2 {
                assert(path.subrange(30int, 30int + key.len()) =~= key);
            }
        } else if i == 6 {
            if k == 0 {
                assert(path.subrange(30int, 30int + key.len()) =~= key);
            } else if k == 1 {
                assert(path.subrange(30int, 30int + key.len()) =~= key);
            } else if k == 2 {
                assert(path.subrange(45int, 45int + key.len()) =~= key);
            }
        } else if i == 7 {
            if k == 0 {
                assert(path.subrange(30int, 30int + key.len()) =~= key);
            } else if k == 1 {
                assert(path.subrange(30int, 30int + key.len()) =~= key);
            } else if k == 2 {
                assert(path.subrange(30int, 30int + key.len()) =~= key);
            }
        }
    }
    assert forall|a: int, b: int| 0 <= a < b < 8 implies t[a].model_path@ != t[b].model_path@ by {
        if a == 0 && b == 1 {
            assert(t[0].model_path@.len() != t[1].model_path@.len());
        } else if a == 0 && b == 2 {
            assert(t[0].model_path@.len() != t[2].model_path@.len());
        } else if a == 0 && b == 3 {
            assert(t[0].model_path@.len() != t[3].model_path@.len());
        } else if a == 0 && b == 4 {
            assert(t[0].model_path@.len() != t[4].model_path@.len());
        } else if a == 0 && b == 5 {
            assert(t[0].model_path@.len() != t[5].model_path@.len());
        } else if a == 0 && b == 6 {
            assert(t[0].model_path@.len() != t[6].model_path@.len());
        } else if a == 0 && b == 7 {
            assert(t[0].model_path@.len() != t[7].model_path@.len());
        } else if a == 1 && b == 2 {
            assert(t[1].model_path@[37] != t[2].model_path@[37]);
        } else if a == 1 && b == 3 {
            assert(t[1].model_path@.len() != t[3].model_path@.len());
        } else if a == 1 && b == 4 {
            assert(t[1].model_path@[30] != t[4].model_path@[30]);
        } else if a == 1 && b == 5 {
            assert(t[1].model_path@.len() != t[5].model_path@.len());
        } else if a == 1 && b == 6 {
            assert(t[1].model_path@.len() != t[6].model_path@.len());
        } else if a == 1 && b == 7 {
            assert(t[1].model_path@.len() != t[7].model_path@.len());
        } else if a == 2 && b == 3 {
            assert(t[2].model_path@.len() != t[3].model_path@.len());
        } else if a == 2 && b == 4 {
            assert(t[2].model_path@[30] != t[4].model_path@[30]);
        } else if a == 2 && b == 5 {
            assert(t[2].model_path@.len() != t[5].model_path@.len());
        } else if a == 2 && b == 6 {
            assert(t[2].model_path@.len() != t[6].model_path@.len());
        } else if a == 2 && b == 7 {
            assert(t[2].model_path@.len() != t[7].model_path@.len());
        } else if a == 3 && b == 4 {
            assert(t[3].model_path@.len() != t[4].model_path@.len());
        } else if a == 3 && b == 5 {
            assert(t[3].model_path@[30] != t[5].model_path@[30]);
        } else if a == 3 && b == 6 {
            assert(t[3].model_path@[30] != t[6].model_path@[30]);
        } else if a == 3 && b == 7 {
            assert(t[3].model_path@.len() != t[7].model_path@.len());
        } else if a == 4 && b == 5 {
            assert(t[4].model_path@.len() != t[5].model_path@.len());
        } else if a == 4 && b == 6 {
            assert(t[4].model_path@.len() != t[6].model_path@.len());
        } else if a == 4 && b == 7 {
            assert(t[4].model_path@.len() != t[7].model_path@.len());
        } else if a == 5 && b == 6 {
            assert(t[5].model_path@[38] != t[6].model_path@[38]);
        } else if a == 5 && b == 7 {
            assert(t[5].model_path@.len() != t[7].model_path@.len());
        } else if a == 6 && b == 7 {
            assert(t[6].model_path@.len() != t[7].model_path@.len());
        }
    }
}

/// The file recorded at a setting, as the recording names it.
pub open spec fn recorded_file(lows: Seq<char>, highs: Seq<char>, dist: Seq<char>) -> Seq<char> {
    "pedals/boss_hm_3/boss_hm3_lows"@ + lows + "_highs"@ + highs + "_dist"@ + dist + "_boss_hm3.nam"@
}

/// Every capture names the file recorded at its own setting.
pub proof fn lemma_captures_name_their_setting()
    ensures
        forall|i: int| 0 <= i < spec_captures().len() ==>
            (#[trigger] spec_captures()[i]).model_path@ == recorded_file(spec_captures()[i].keys[0]@, spec_captures()[i].keys[1]@, spec_captures()[i].keys[2]@),
{
    reveal_strlit("pedals/boss_hm_3/boss_hm3_lows");
    reveal_strlit("_highs");
    reveal_strlit("_dist");
    reveal_strlit("_boss_hm3.nam");
    reveal_strlit("pedals/boss_hm_3/boss_hm3_lows5_highs5_dist5_boss_hm3.nam");
    reveal_strlit("pedals/boss_hm_3/boss_hm3_lows5_highs5_dist10_boss_hm3.nam");
    reveal_strlit("pedals/boss_hm_3/boss_hm3_lows5_highs10_dist5_boss_hm3.nam");
    reveal_strlit("pedals/boss_hm_3/boss_hm3_lows5_highs10_dist10_boss_hm3.nam");
    reveal_strlit("pedals/boss_hm_3/boss_hm3_lows10_highs5_dist5_boss_hm3.nam");
    reveal_strlit("pedals/boss_hm_3/boss_hm3_lows10_highs5_dist10_boss_hm3.nam");
    reveal_strlit("pedals/boss_hm_3/boss_hm3_lows10_highs10_dist5_boss_hm3.nam");
    reveal_strlit("pedals/boss_hm_3/boss_hm3_lows10_highs10_dist10_boss_hm3.nam");
    reveal_strlit("5");
    reveal_strlit("10");
    let t = spec_captures();
    assert forall|i: int| 0 <= i < t.len() implies
        (#[trigger] t[i]).model_path@ == recorded_file(t[i].keys[0]@, t[i].keys[1]@, t[i].keys[2]@) by {
        if i == 0 {
            assert(t[i].model_path@ =~= recorded_file("5"@, "5"@, "5"@));
        } else if i == 1 {
            assert(t[i].model_path@ =~= recorded_file("5"@, "5"@, "10"@));
        } else if i == 2 {
            assert(t[i].model_path@ =~= recorded_file("5"@, "10"@, "5"@));
        } else if i == 3 {
            assert(t[i].model_path@ =~= recorded_file("5"@, "10"@, "10"@));
        } else if i == 4 {
            assert(t[i].model_path@ =~= recorded_file("10"@, "5"@, "5"@));
        } else if i == 5 {
            assert(t[i].model_path@ =~= recorded_file("10"@, "5"@, "10"@));
        } else if i == 6 {
            assert(t[i].model_path@ =~= recorded_file("10"@, "10"@, "5"@));
        } else if i == 7 {
            assert(t[i].model_path@ =~= recorded_file("10"@, "10"@, "10"@));
        }
    }
}

/// A setting that selects a capture selects the file recorded at that setting.
pub proof fn lemma_selected_file(lows: Seq<char>, highs: Seq<char>, dist: Seq<char>)
    ensures
        selection(lows, highs, dist) matches Some(i) ==> spec_captures()[i].model_path@ == recorded_file(lows, highs, dist),
{
    lemma_first_selected(spec_captures(), seq![lows, highs, dist]);
    lemma_captures_name_their_setting();
    if let Some(i) = selection(lows, highs, dist) {
        assert(spec_captures()[i].model_path@ == recorded_file(spec_captures()[i].keys[0]@, spec_captures()[i].keys[1]@, spec_captures()[i].keys[2]@));
    }
}

} // verus!
