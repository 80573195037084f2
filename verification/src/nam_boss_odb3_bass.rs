//! The "Boss ODB3 Bass" gain model (boss), played from neural captures, one per recorded setting.

use vstd::prelude::*;
use crate::capture::{
    names_value, files_name_settings, files_distinct,
    Capture, CaptureView, table_view, find_capture, first_selected, asset_text, lemma_first_selected,
    lemma_selected_at, captures_follow_schema, default_setting, defaults_present, captures_distinct,
    setting_of_choices, setting_matches,
};
use crate::error::GainError;
use crate::model::{BackendKind, Instruments, KnobLayoutEntry, ModelDefinition, ModelDefinitionView};
use crate::schema::{
    EffectType, EnumChoice, ModelSchema, ModelSchemaView, ParameterKindView, ParameterSpecView,
    choice, enum_parameter, parameters_view, schema_well_formed, choices_at, str_texts, is_choice,
    parameter_well_formed, choice_values, parameter_paths,
};
use crate::text::{concat, join, texts};

verus! {

pub const MODEL_ID: &'static str = "nam_boss_odb3_bass";
pub const DISPLAY_NAME: &'static str = "Boss ODB3 Bass";
pub const BRAND: &'static str = "boss";

pub open spec fn spec_model_schema() -> ModelSchemaView {
    ModelSchemaView {
        effect_type: EffectType::Gain,
        model: MODEL_ID,
        display_name: DISPLAY_NAME,
        audio_mode: None,
        parameters: Some(seq![
            ParameterSpecView {
                path: "blend",
                label: "Blend",
                group: Some("Pedal"),
                kind: ParameterKindView::Enum {
                    default: Some("100"),
                    choices: seq![
                        EnumChoice { value: "25", label: "25%" },
                        EnumChoice { value: "70", label: "70%" },
                        EnumChoice { value: "100", label: "100% (wet)" },
                    ],
                },
            },
            ParameterSpecView {
                path: "gain",
                label: "Gain",
                group: Some("Pedal"),
                kind: ParameterKindView::Enum {
                    default: Some("5"),
                    choices: seq![
                        EnumChoice { value: "0", label: "0" },
                        EnumChoice { value: "5", label: "5" },
                        EnumChoice { value: "7_5", label: "7.5" },
                    ],
                },
            },
        ]),
    }
}

/// The parameters of the model.
pub fn model_schema() -> (schema: ModelSchema)
    ensures
        schema@ == spec_model_schema(),
{
    let parameters = vec![
        enum_parameter(
            "blend",
            "Blend",
            Some("Pedal"),
            Some("100"),
            vec![
                choice("25", "25%"),
                choice("70", "70%"),
                choice("100", "100% (wet)"),
            ],
        ),
        enum_parameter(
            "gain",
            "Gain",
            Some("Pedal"),
            Some("5"),
            vec![
                choice("0", "0"),
                choice("5", "5"),
                choice("7_5", "7.5"),
            ],
        ),
    ];
    assert(parameters_view(parameters@) =~= spec_model_schema().parameters.unwrap());
    ModelSchema {
        effect_type: EffectType::Gain,
        model: MODEL_ID,
        display_name: DISPLAY_NAME,
        audio_mode: None,
        parameters: Some(parameters),
    }
}

/// The positions, in the schema, of the parameters that select a capture.
pub open spec fn key_params() -> Seq<int> {
    seq![0, 1]
}

pub open spec fn spec_captures() -> Seq<CaptureView> {
    seq![
        CaptureView { keys: seq!["25", "5"], model_path: "pedals/boss_odb3_bass/boss_odb3_v7_5_h5_l6_blend_25_gain_5.nam" },
        CaptureView { keys: seq!["25", "7_5"], model_path: "pedals/boss_odb3_bass/boss_odb3_v7_5_h5_l6_blend_25_gain_7_5.nam" },
        CaptureView { keys: seq!["70", "0"], model_path: "pedals/boss_odb3_bass/boss_odb3_v7_5_h5_l6_blend_70_gain_0.nam" },
        CaptureView { keys: seq!["100", "0"], model_path: "pedals/boss_odb3_bass/boss_odb3_v7_5_h5_l6_blend_100_gain_0.nam" },
        CaptureView { keys: seq!["100", "5"], model_path: "pedals/boss_odb3_bass/boss_odb3_v7_5_h5_l6_blend_100_gain_5.nam" },
        CaptureView { keys: seq!["100", "7_5"], model_path: "pedals/boss_odb3_bass/boss_odb3_v7_5_h5_l6_blend_100_gain_7_5.nam" },
    ]
}

/// The captures of the pedal, each with its (blend, gain) setting.
pub fn captures() -> (table: Vec<Capture>)
    ensures
        table_view(table@) == spec_captures(),
{
    let table = vec![
        Capture::two("25", "5", "pedals/boss_odb3_bass/boss_odb3_v7_5_h5_l6_blend_25_gain_5.nam"),
        Capture::two("25", "7_5", "pedals/boss_odb3_bass/boss_odb3_v7_5_h5_l6_blend_25_gain_7_5.nam"),
        Capture::two("70", "0", "pedals/boss_odb3_bass/boss_odb3_v7_5_h5_l6_blend_70_gain_0.nam"),
        Capture::two("100", "0", "pedals/boss_odb3_bass/boss_odb3_v7_5_h5_l6_blend_100_gain_0.nam"),
        Capture::two("100", "5", "pedals/boss_odb3_bass/boss_odb3_v7_5_h5_l6_blend_100_gain_5.nam"),
        Capture::two("100", "7_5", "pedals/boss_odb3_bass/boss_odb3_v7_5_h5_l6_blend_100_gain_7_5.nam"),
    ];
    assert(table_view(table@) =~= spec_captures());
    table
}

/// What the model reports for a setting at which no capture was recorded.
pub open spec fn unsupported_message(blend: Seq<char>, gain: Seq<char>) -> Seq<char> {
    concat(seq!["gain '"@, MODEL_ID@, "' has no capture for blend="@, blend, " gain="@, gain])
}

/// The index of the capture that (blend, gain) selects.
pub open spec fn selection(blend: Seq<char>, gain: Seq<char>) -> Option<int> {
    first_selected(spec_captures(), seq![blend, gain])
}

fn unsupported(blend: &str, gain: &str) -> (e: GainError)
    ensures
        e matches GainError::UnsupportedSetting(m) && m@ == unsupported_message(blend@, gain@),
{
    let parts = vec!["gain '", MODEL_ID, "' has no capture for blend=", blend, " gain=", gain];
    let m = join(&parts);
    assert(texts(parts@) =~= seq!["gain '"@, MODEL_ID@, "' has no capture for blend="@, blend@, " gain="@, gain@]);
    GainError::UnsupportedSetting(m)
}

/// The capture recorded at (blend, gain).
pub fn resolve_capture(blend: &str, gain: &str) -> (selected: Result<&'static str, GainError>)
    ensures
        match selection(blend@, gain@) {
            Some(i) => selected matches Ok(path) && path == spec_captures()[i].model_path,
            None => selected matches Err(GainError::UnsupportedSetting(m)) && m@ == unsupported_message(blend@, gain@),
        },
{
    let table = captures();
    let request = vec![blend, gain];
    assert(texts(request@) =~= seq![blend@, gain@]);
    match find_capture(&table, &request) {
        Some(i) => {
            proof {
                lemma_first_selected(spec_captures(), seq![blend@, gain@]);
            }
            Ok(table[i].model_path)
        },
        None => Err(unsupported(blend, gain)),
    }
}

/// Accepts (blend, gain) exactly where a capture was recorded there.
pub fn validate_params(blend: &str, gain: &str) -> (checked: Result<(), GainError>)
    ensures
        match selection(blend@, gain@) {
            Some(i) => checked is Ok,
            None => checked matches Err(GainError::UnsupportedSetting(m)) && m@ == unsupported_message(blend@, gain@),
        },
{
    match resolve_capture(blend, gain) {
        Ok(_) => Ok(()),
        Err(e) => Err(e),
    }
}

/// Names the capture file that (blend, gain) selects.
pub fn asset_summary(blend: &str, gain: &str) -> (summary: Result<String, GainError>)
    ensures
        match selection(blend@, gain@) {
            Some(i) => summary matches Ok(s) && s@ == asset_text(spec_captures()[i].model_path@),
            None => summary matches Err(GainError::UnsupportedSetting(m)) && m@ == unsupported_message(blend@, gain@),
        },
{
    match resolve_capture(blend, gain) {
        Ok(c) => {
            let parts = vec!["model='", c, "'"];
            assert(texts(parts@) =~= seq!["model='"@, c@, "'"@]);
            Ok(join(&parts))
        },
        Err(e) => Err(e),
    }
}

pub open spec fn spec_model_definition() -> ModelDefinitionView {
    ModelDefinitionView {
        id: MODEL_ID,
        display_name: DISPLAY_NAME,
        brand: BRAND,
        backend_kind: BackendKind::Nam,
        supported_instruments: Instruments::GuitarBass,
        knob_layout: seq![],
    }
}

/// What the registry lists for this model.
pub fn model_definition() -> (d: ModelDefinition)
    ensures
        d@ == spec_model_definition(),
{
    let knob_layout: Vec<KnobLayoutEntry> = Vec::new();
    let d = ModelDefinition {
        id: MODEL_ID,
        display_name: DISPLAY_NAME,
        brand: BRAND,
        backend_kind: BackendKind::Nam,
        supported_instruments: Instruments::GuitarBass,
        knob_layout,
    };
    assert(d@.knob_layout =~= spec_model_definition().knob_layout);
    d
}

/// The schema is sound: every parameter is, and no two share a path.
pub proof fn lemma_schema_well_formed()
    ensures
        schema_well_formed(spec_model_schema()),
{
    reveal_strlit("blend");
    reveal_strlit("gain");
    reveal_strlit("25");
    reveal_strlit("70");
    reveal_strlit("100");
    reveal_strlit("0");
    reveal_strlit("5");
    reveal_strlit("7_5");
    let ps = spec_model_schema().parameters.unwrap();
    assert forall|i: int| 0 <= i < ps.len() implies parameter_well_formed(#[trigger] ps[i]) by {
        if ps[i].kind is Enum {
            let vs = choice_values(ps[i].kind->Enum_choices);
            assert forall|a: int, b: int| 0 <= a < b < vs.len() implies vs[a] != vs[b] by {
                if vs[a] == vs[b] {
                    assert(vs[a].len() == vs[b].len());
                    assert(vs[a][0] == vs[b][0]);
                }
            }
        }
        if i == 0 {
            assert(ps[0].kind->Enum_choices[2].value@ == "100"@);
        } else if i == 1 {
            assert(ps[1].kind->Enum_choices[1].value@ == "5"@);
        }
    }
    let paths = parameter_paths(ps);
    assert forall|a: int, b: int| 0 <= a < b < paths.len() implies paths[a] != paths[b] by {
        if paths[a] == paths[b] {
            assert(paths[a].len() == paths[b].len());
        }
    }
}

/// Each capture is recorded at choices the schema offers.
pub proof fn lemma_captures_follow_schema()
    ensures
        captures_follow_schema(spec_model_schema(), key_params(), spec_captures()),
{
    let s = spec_model_schema();
    let t = spec_captures();
    assert forall|i: int, k: int| 0 <= i < t.len() && 0 <= k < key_params().len() implies {
        &&& #[trigger] t[i].keys.len() == key_params().len()
        &&& is_choice(choices_at(s, key_params()[k]), #[trigger] t[i].keys[k]@)
    } by {
        let cs = choices_at(s, key_params()[k]);
        if k == 0 {
            if t[i].keys[0] == "25" {
                assert(cs[0].value@ == t[i].keys[k]@);
            } else if t[i].keys[0] == "70" {
                assert(cs[1].value@ == t[i].keys[k]@);
            } else {
                assert(cs[2].value@ == t[i].keys[k]@);
            }
        } else if k == 1 {
            if t[i].keys[1] == "0" {
                assert(cs[0].value@ == t[i].keys[k]@);
            } else if t[i].keys[1] == "5" {
                assert(cs[1].value@ == t[i].keys[k]@);
            } else {
                assert(cs[2].value@ == t[i].keys[k]@);
            }
        }
    }
}

/// No two captures share a setting.
pub proof fn lemma_captures_distinct()
    ensures
        captures_distinct(spec_captures()),
{
    reveal_strlit("25");
    reveal_strlit("5");
    reveal_strlit("7_5");
    reveal_strlit("70");
    reveal_strlit("0");
    reveal_strlit("100");
    let t = spec_captures();
    assert forall|a: int, b: int| 0 <= a < b < t.len() implies str_texts(t[a].keys) != str_texts(t[b].keys) by {
        let x = str_texts(t[a].keys);
        let y = str_texts(t[b].keys);
        if x == y {
            assert(x[0].len() == y[0].len());
            assert(x[0][0] == y[0][0]);
            assert(x[1].len() == y[1].len());
            assert(x[1][0] == y[1][0]);
        }
    }
}

/// The settings the schema offers at which no capture was recorded.
pub open spec fn unrecorded_setting(r: Seq<Seq<char>>) -> bool {
    ||| r == seq!["25"@, "0"@]
    ||| r == seq!["70"@, "5"@]
    ||| r == seq!["70"@, "7_5"@]
}

/// Every setting the schema offers selects a capture but the unrecorded
/// ones, which select none; the defaults select one.
pub proof fn lemma_every_recorded_setting_selects()
    ensures
        forall|r: Seq<Seq<char>>| setting_of_choices(spec_model_schema(), key_params(), r) ==>
            ((#[trigger] first_selected(spec_captures(), r)) is Some <==> !unrecorded_setting(r)),
        defaults_present(spec_model_schema(), key_params()),
        first_selected(spec_captures(), default_setting(spec_model_schema(), key_params())) is Some,
{
    reveal_strlit("25");
    reveal_strlit("70");
    reveal_strlit("100");
    reveal_strlit("0");
    reveal_strlit("5");
    reveal_strlit("7_5");
    let s = spec_model_schema();
    let t = spec_captures();
    assert forall|r: Seq<Seq<char>>| setting_of_choices(s, key_params(), r) implies
        ((#[trigger] first_selected(t, r)) is Some <==> !unrecorded_setting(r)) by {
        let c0 = choices_at(s, 0);
        let i0 = choose|i: int| 0 <= i < c0.len() && c0[i].value@ == r[0];
        let c1 = choices_at(s, 1);
        let i1 = choose|i: int| 0 <= i < c1.len() && c1[i].value@ == r[1];
        if i0 == 0 && i1 == 0 {
            assert(r =~= seq!["25"@, "0"@]);
            lemma_first_selected(t, r);
            assert forall|i: int| 0 <= i < t.len() implies !setting_matches(#[trigger] t[i].keys, r) by {
                if i == 0 {
                    assert("5"@[0] != "0"@[0]);
                    assert(t[i].keys[1]@ != r[1]);
                } else if i == 1 {
                    assert("7_5"@.len() != "0"@.len());
                    assert(t[i].keys[1]@ != r[1]);
                } else if i == 2 {
                    assert("70"@[0] != "25"@[0]);
                    assert(t[i].keys[0]@ != r[0]);
                } else if i == 3 {
                    assert("100"@.len() != "25"@.len());
                    assert(t[i].keys[0]@ != r[0]);
                } else if i == 4 {
                    assert("100"@.len() != "25"@.len());
                    assert(t[i].keys[0]@ != r[0]);
                } else if i == 5 {
                    assert("100"@.len() != "25"@.len());
                    assert(t[i].keys[0]@ != r[0]);
                }
            }
        } else if i0 == 0 && i1 == 1 {
            assert(r =~= seq!["25"@, "5"@]);
            lemma_selected_at(t, r, 0);
            assert("5"@[0] != "0"@[0]);
            assert("25"@[0] != "70"@[0]);
        } else if i0 == 0 && i1 == 2 {
            assert(r =~= seq!["25"@, "7_5"@]);
            lemma_selected_at(t, r, 1);
            assert("7_5"@.len() != "0"@.len());
            assert("25"@[0] != "70"@[0]);
        } else if i0 == 1 && i1 == 0 {
            assert(r =~= seq!["70"@, "0"@]);
            lemma_selected_at(t, r, 2);
            assert("70"@[0] != "25"@[0]);
            assert("0"@[0] != "5"@[0]);
            assert("0"@.len() != "7_5"@.len());
        } else if i0 == 1 && i1 == 1 {
            assert(r =~= seq!["70"@, "5"@]);
            lemma_first_selected(t, r);
            assert forall|i: int| 0 <= i < t.len() implies !setting_matches(#[trigger] t[i].keys, r) by {
                if i == 0 {
                    assert("25"@[0] != "70"@[0]);
                    assert(t[i].keys[0]@ != r[0]);
                } else if i == 1 {
                    assert("25"@[0] != "70"@[0]);
                    assert(t[i].keys[0]@ != r[0]);
                } else if i == 2 {
                    assert("0"@[0] != "5"@[0]);
                    assert(t[i].keys[1]@ != r[1]);
                } else if i == 3 {
                    assert("100"@.len() != "70"@.len());
                    assert(t[i].keys[0]@ != r[0]);
                } else if i == 4 {
                    assert("100"@.len() != "70"@.len());
                    assert(t[i].keys[0]@ != r[0]);
                } else if i == 5 {
                    assert("100"@.len() != "70"@.len());
                    assert(t[i].keys[0]@ != r[0]);
                }
            }
        } else if i0 == 1 && i1 == 2 {
            assert(r =~= seq!["70"@, "7_5"@]);
            lemma_first_selected(t, r);
            assert forall|i: int| 0 <= i < t.len() implies !setting_matches(#[trigger] t[i].keys, r) by {
                if i == 0 {
                    assert("25"@[0] != "70"@[0]);
                    assert(t[i].keys[0]@ != r[0]);
                } else if i == 1 {
                    assert("25"@[0] != "70"@[0]);
                    assert(t[i].keys[0]@ != r[0]);
                } else if i == 2 {
                    assert("0"@.len() != "7_5"@.len());
                    assert(t[i].keys[1]@ != r[1]);
                } else if i == 3 {
                    assert("100"@.len() != "70"@.len());
                    assert(t[i].keys[0]@ != r[0]);
                } else if i == 4 {
                    assert("100"@.len() != "70"@.len());
                    assert(t[i].keys[0]@ != r[0]);
                } else if i == 5 {
                    assert("100"@.len() != "70"@.len());
                    assert(t[i].keys[0]@ != r[0]);
                }
            }
        } else if i0 == 2 && i1 == 0 {
            assert(r =~= seq!["100"@, "0"@]);
            lemma_selected_at(t, r, 3);
            assert("100"@.len() != "25"@.len());
            assert("100"@.len() != "70"@.len());
        } else if i0 == 2 && i1 == 1 {
            assert(r =~= seq!["100"@, "5"@]);
            lemma_selected_at(t, r, 4);
            assert("100"@.len() != "25"@.len());
            assert("100"@.len() != "70"@.len());
        } else if i0 == 2 && i1 == 2 {
            assert(r =~= seq!["100"@, "7_5"@]);
            lemma_selected_at(t, r, 5);
            assert("100"@.len() != "25"@.len());
            assert("100"@.len() != "70"@.len());
        }
    }
    let dflt = default_setting(s, key_params());
    assert(dflt =~= seq!["100"@, "5"@]);
    lemma_selected_at(t, dflt, 4);
}

/// Every capture names a file that writes each value of its setting, and
/// no two captures name the same file.
pub proof fn lemma_capture_files()
    ensures
        files_name_settings(spec_captures()),
        files_distinct(spec_captures()),
{
    reveal_strlit("pedals/boss_odb3_bass/boss_odb3_v7_5_h5_l6_blend_25_gain_5.nam");
    reveal_strlit("pedals/boss_odb3_bass/boss_odb3_v7_5_h5_l6_blend_25_gain_7_5.nam");
    reveal_strlit("pedals/boss_odb3_bass/boss_odb3_v7_5_h5_l6_blend_70_gain_0.nam");
    reveal_strlit("pedals/boss_odb3_bass/boss_odb3_v7_5_h5_l6_blend_100_gain_0.nam");
    reveal_strlit("pedals/boss_odb3_bass/boss_odb3_v7_5_h5_l6_blend_100_gain_5.nam");
    reveal_strlit("pedals/boss_odb3_bass/boss_odb3_v7_5_h5_l6_blend_100_gain_7_5.nam");
    reveal_strlit("25");
    reveal_strlit("5");
    reveal_strlit("7_5");
    reveal_strlit("70");
    reveal_strlit("0");
    reveal_strlit("100");
    let t = spec_captures();
    assert forall|i: int, k: int| 0 <= i < t.len() && 0 <= k < t[i].keys.len() implies
        names_value(#[trigger] t[i].model_path@, #[trigger] t[i].keys[k]@) by {
        let path = t[i].model_path@;
        let key = t[i].keys[k]@;
        if i == 0 {
            if k == 0 {
                assert(path.subrange(49int, 49int + key.len()) =~= key);
            } else if k == 1 {
                assert(path.subrange(35int, 35int + key.len()) =~= key);
            }
        } else if i == 1 {
            if k == 0 {
                assert(path.subrange(49int, 49int + key.len()) =~= key);
            } else if k == 1 {
                assert(path.subrange(33int, 33int + key.len()) =~= key);
            }
        } else if i == 2 {
            if k == 0 {
                assert(path.subrange(49int, 49int + key.len()) =~= key);
            } else if k == 1 {
                assert(path.subrange(50int, 50int + key.len()) =~= key);
            }
        } else if i == 3 {
            if k == 0 {
                assert(path.subrange(49int, 49int + key.len()) =~= key);
            } else if k == 1 {
                assert(path.subrange(50int, 50int + key.len()) =~= key);
            }
        } else if i == 4 {
            if k == 0 {
                assert(path.subrange(49int, 49int + key.len()) =~= key);
            } else if k == 1 {
                assert(path.subrange(35int, 35int + key.len()) =~= key);
            }
        } else if i == 5 {
            if k == 0 {
                assert(path.subrange(49int, 49int + key.len()) =~= key);
            } else if k == 1 {
                assert(path.subrange(33int, 33int + key.len()) =~= key);
            }
        }
    }
    assert forall|a: int, b: int| 0 <= a < b < 6 implies t[a].model_path@ != t[b].model_path@ by {
        if a == 0 && b == 1 {
            assert(t[0].model_path@.len() != t[1].model_path@.len());
        } else if a == 0 && b == 2 {
            assert(t[0].model_path@[49] != t[2].model_path@[49]);
        } else if a == 0 && b == 3 {
            assert(t[0].model_path@.len() != t[3].model_path@.len());
        } else if a == 0 && b == 4 {
            assert(t[0].model_path@.len() != t[4].model_path@.len());
        } else if a == 0 && b == 5 {
            assert(t[0].model_path@.len() != t[5].model_path@.len());
        } else if a == 1 && b == 2 {
            assert(t[1].model_path@.len() != t[2].model_path@.len());
        } else if a == 1 && b == 3 {
            assert(t[1].model_path@.len() != t[3].model_path@.len());
        } else if a == 1 && b == 4 {
            assert(t[1].model_path@.len() != t[4].model_path@.len());
        } else if a == 1 && b == 5 {
            assert(t[1].model_path@.len() != t[5].model_path@.len());
        } else if a == 2 && b == 3 {
            assert(t[2].model_path@.len() != t[3].model_path@.len());
        } else if a == 2 && b == 4 {
            assert(t[2].model_path@.len() != t[4].model_path@.len());
        } else if a == 2 && b == 5 {
            assert(t[2].model_path@.len() != t[5].model_path@.len());
        } else if a == 3 && b == 4 {
            assert(t[3].model_path@[58] != t[4].model_path@[58]);
        } else if a == 3 && b == 5 {
            assert(t[3].model_path@.len() != t[5].model_path@.len());
        } else if a == 4 && b == 5 {
            assert(t[4].model_path@.len() != t[5].model_path@.len());
        }
    }
}

/// The file recorded at a setting, as the recording names it.
pub open spec fn recorded_file(blend: Seq<char>, gain: Seq<char>) -> Seq<char> {
    "pedals/boss_odb3_bass/boss_odb3_v7_5_h5_l6_blend_"@ + blend + "_gain_"@ + gain + ".nam"@
}

/// Every capture names the file recorded at its own setting.
pub proof fn lemma_captures_name_their_setting()
    ensures
        forall|i: int| 0 <= i < spec_captures().len() ==>
            (#[trigger] spec_captures()[i]).model_path@ == recorded_file(spec_captures()[i].keys[0]@, spec_captures()[i].keys[1]@),
{
    reveal_strlit("pedals/boss_odb3_bass/boss_odb3_v7_5_h5_l6_blend_");
    reveal_strlit("_gain_");
    reveal_strlit(".nam");
    reveal_strlit("pedals/boss_odb3_bass/boss_odb3_v7_5_h5_l6_blend_25_gain_5.nam");
    reveal_strlit("pedals/boss_odb3_bass/boss_odb3_v7_5_h5_l6_blend_25_gain_7_5.nam");
    reveal_strlit("pedals/boss_odb3_bass/boss_odb3_v7_5_h5_l6_blend_70_gain_0.nam");
    reveal_strlit("pedals/boss_odb3_bass/boss_odb3_v7_5_h5_l6_blend_100_gain_0.nam");
    reveal_strlit("pedals/boss_odb3_bass/boss_odb3_v7_5_h5_l6_blend_100_gain_5.nam");
    reveal_strlit("pedals/boss_odb3_bass/boss_odb3_v7_5_h5_l6_blend_100_gain_7_5.nam");
    reveal_strlit("25");
    reveal_strlit("5");
    reveal_strlit("7_5");
    reveal_strlit("70");
    reveal_strlit("0");
    reveal_strlit("100");
    let t = spec_captures();
    assert forall|i: int| 0 <= i < t.len() implies
        (#[trigger] t[i]).model_path@ == recorded_file(t[i].keys[0]@, t[i].keys[1]@) by {
        if i == 0 {
            assert(t[i].model_path@ =~= recorded_file("25"@, "5"@));
        } else if i == 1 {
            assert(t[i].model_path@ =~= recorded_file("25"@, "7_5"@));
        } else if i == 2 {
            assert(t[i].model_path@ =~= recorded_file("70"@, "0"@));
        } else if i == 3 {
            assert(t[i].model_path@ =~= recorded_file("100"@, "0"@));
        } else if i == 4 {
            assert(t[i].model_path@ =~= recorded_file("100"@, "5"@));
        } else if i == 5 {
            assert(t[i].model_path@ =~= recorded_file("100"@, "7_5"@));
        }
    }
}

/// A setting that selects a capture selects the file recorded at that setting.
pub proof fn lemma_selected_file(blend: Seq<char>, gain: Seq<char>)
    ensures
        selection(blend, gain) matches Some(i) ==> spec_captures()[i].model_path@ == recorded_file(blend, gain),
{
    lemma_first_selected(spec_captures(), seq![blend, gain]);
    lemma_captures_name_their_setting();
    if let Some(i) = selection(blend, gain) {
        assert(spec_captures()[i].model_path@ == recorded_file(spec_captures()[i].keys[0]@, spec_captures()[i].keys[1]@));
    }
}

} // verus!
