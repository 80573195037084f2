//! The "FZ-1W Fuzz" gain model (boss), played from neural captures, one per recorded setting.

use vstd::prelude::*;
use crate::capture::{
    names_value, files_name_settings, files_distinct,
    Capture, CaptureView, table_view, find_capture, first_selected, asset_text, lemma_first_selected,
    lemma_selected_at, captures_follow_schema, default_setting, defaults_present, captures_distinct,
    every_setting_selects, setting_of_choices,
};
use crate::error::GainError;
use crate::model::{BackendKind, Instruments, KnobLayoutEntry, ModelDefinition, ModelDefinitionView};
use crate::schema::{
    EffectType, EnumChoice, ModelSchema, ModelSchemaView, ParameterKindView, ParameterSpecView,
    choice, enum_parameter, parameters_view, schema_well_formed, choices_at, str_texts, is_choice,
    parameter_well_formed, choice_values, parameter_paths,
};
use crate::text::{concat, join, texts};

verus! {

pub const MODEL_ID: &'static str = "boss_fz1w";
pub const DISPLAY_NAME: &'static str = "FZ-1W Fuzz";
pub const BRAND: &'static str = "boss";

/// The setting a capture was recorded at.
#[derive(Clone, Copy, Debug, PartialEq, Eq)]
pub struct Fz1wParams {
    pub mode: &'static str,
    pub fuzz: &'static str,
}

/// A capture of the pedal and the setting it was recorded at.
#[derive(Clone, Copy, Debug)]
pub struct Fz1wCapture {
    pub params: Fz1wParams,
    pub model_path: &'static str,
}

pub open spec fn spec_model_schema() -> ModelSchemaView {
    ModelSchemaView {
        effect_type: EffectType::Gain,
        model: MODEL_ID,
        display_name: DISPLAY_NAME,
        audio_mode: None,
        parameters: Some(seq![
            ParameterSpecView {
                path: "mode",
                label: "Mode",
                group: Some("Pedal"),
                kind: ParameterKindView::Enum {
                    default: Some("modern"),
                    choices: seq![
                        EnumChoice { value: "modern", label: "Modern" },
                        EnumChoice { value: "vintage", label: "Vintage" },
                    ],
                },
            },
            ParameterSpecView {
                path: "fuzz",
                label: "Fuzz",
                group: Some("Pedal"),
                kind: ParameterKindView::Enum {
                    default: Some("5"),
                    choices: seq![
                        EnumChoice { value: "2", label: "2" },
                        EnumChoice { value: "5", label: "5" },
                        EnumChoice { value: "7", label: "7" },
                        EnumChoice { value: "11", label: "11" },
                    ],
                },
            },
        ]),
    }
}

/// The parameters of the model.
pub fn model_schema() -> (schema: ModelSchema)
    ensures
        schema@ == spec_model_schema(),
{
    let parameters = vec![
        enum_parameter(
            "mode",
            "Mode",
            Some("Pedal"),
            Some("modern"),
            vec![
                choice("modern", "Modern"),
                choice("vintage", "Vintage"),
            ],
        ),
        enum_parameter(
            "fuzz",
            "Fuzz",
            Some("Pedal"),
            Some("5"),
            vec![
                choice("2", "2"),
                choice("5", "5"),
                choice("7", "7"),
                choice("11", "11"),
            ],
        ),
    ];
    assert(parameters_view(parameters@) =~= spec_model_schema().parameters.unwrap());
    ModelSchema {
        effect_type: EffectType::Gain,
        model: MODEL_ID,
        display_name: DISPLAY_NAME,
        audio_mode: None,
        parameters: Some(parameters),
    }
}

/// The positions, in the schema, of the parameters that select a capture.
pub open spec fn key_params() -> Seq<int> {
    seq![0, 1]
}

pub open spec fn spec_captures() -> Seq<CaptureView> {
    seq![
        CaptureView { keys: seq!["modern", "2"], model_path: "pedals/boss_fz1w/fz1w_modern_f02.nam" },
        CaptureView { keys: seq!["modern", "5"], model_path: "pedals/boss_fz1w/fz1w_modern_f05.nam" },
        CaptureView { keys: seq!["modern", "7"], model_path: "pedals/boss_fz1w/fz1w_modern_f07.nam" },
        CaptureView { keys: seq!["modern", "11"], model_path: "pedals/boss_fz1w/fz1w_modern_f11.nam" },
        CaptureView { keys: seq!["vintage", "2"], model_path: "pedals/boss_fz1w/fz1w_vintage_f02.nam" },
        CaptureView { keys: seq!["vintage", "5"], model_path: "pedals/boss_fz1w/fz1w_vintage_f05.nam" },
        CaptureView { keys: seq!["vintage", "7"], model_path: "pedals/boss_fz1w/fz1w_vintage_f07.nam" },
        CaptureView { keys: seq!["vintage", "11"], model_path: "pedals/boss_fz1w/fz1w_vintage_f11.nam" },
    ]
}

/// The captures of the pedal, each with its (mode, fuzz) setting.
pub fn captures() -> (table: Vec<Capture>)
    ensures
        table_view(table@) == spec_captures(),
{
    let table = vec![
        Capture::two("modern", "2", "pedals/boss_fz1w/fz1w_modern_f02.nam"),
        Capture::two("modern", "5", "pedals/boss_fz1w/fz1w_modern_f05.nam"),
        Capture::two("modern", "7", "pedals/boss_fz1w/fz1w_modern_f07.nam"),
        Capture::two("modern", "11", "pedals/boss_fz1w/fz1w_modern_f11.nam"),
        Capture::two("vintage", "2", "pedals/boss_fz1w/fz1w_vintage_f02.nam"),
        Capture::two("vintage", "5", "pedals/boss_fz1w/fz1w_vintage_f05.nam"),
        Capture::two("vintage", "7", "pedals/boss_fz1w/fz1w_vintage_f07.nam"),
        Capture::two("vintage", "11", "pedals/boss_fz1w/fz1w_vintage_f11.nam"),
    ];
    assert(table_view(table@) =~= spec_captures());
    table
}

/// What the model reports for a setting at which no capture was recorded.
pub open spec fn unsupported_message(mode: Seq<char>, fuzz: Seq<char>) -> Seq<char> {
    concat(seq!["gain model '"@, MODEL_ID@, "' does not support mode='"@, mode, "' fuzz='"@, fuzz, "'"@])
}

/// The index of the capture that (mode, fuzz) selects.
pub open spec fn selection(mode: Seq<char>, fuzz: Seq<char>) -> Option<int> {
    first_selected(spec_captures(), seq![mode, fuzz])
}

fn unsupported(mode: &str, fuzz: &str) -> (e: GainError)
    ensures
        e matches GainError::UnsupportedSetting(m) && m@ == unsupported_message(mode@, fuzz@),
{
    let parts = vec!["gain model '", MODEL_ID, "' does not support mode='", mode, "' fuzz='", fuzz, "'"];
    let m = join(&parts);
    assert(texts(parts@) =~= seq!["gain model '"@, MODEL_ID@, "' does not support mode='"@, mode@, "' fuzz='"@, fuzz@, "'"@]);
    GainError::UnsupportedSetting(m)
}

/// The capture recorded at (mode, fuzz).
pub fn resolve_capture(mode: &str, fuzz: &str) -> (selected: Result<Fz1wCapture, GainError>)
    ensures
        match selection(mode@, fuzz@) {
            Some(i) => selected matches Ok(c) && c.params.mode == spec_captures()[i].keys[0] && c.params.fuzz == spec_captures()[i].keys[1]
                && c.model_path == spec_captures()[i].model_path,
            None => selected matches Err(GainError::UnsupportedSetting(m)) && m@ == unsupported_message(mode@, fuzz@),
        },
{
    let table = captures();
    let request = vec![mode, fuzz];
    assert(texts(request@) =~= seq![mode@, fuzz@]);
    match find_capture(&table, &request) {
        Some(i) => {
            proof {
                lemma_first_selected(spec_captures(), seq![mode@, fuzz@]);
            }
            let c = &table[i];
            Ok(Fz1wCapture { params: Fz1wParams { mode: c.keys[0], fuzz: c.keys[1] }, model_path: c.model_path })
        },
        None => Err(unsupported(mode, fuzz)),
    }
}

/// Accepts (mode, fuzz) exactly where a capture was recorded there.
pub fn validate_params(mode: &str, fuzz: &str) -> (checked: Result<(), GainError>)
    ensures
        match selection(mode@, fuzz@) {
            Some(i) => checked is Ok,
            None => checked matches Err(GainError::UnsupportedSetting(m)) && m@ == unsupported_message(mode@, fuzz@),
        },
{
    match resolve_capture(mode, fuzz) {
        Ok(_) => Ok(()),
        Err(e) => Err(e),
    }
}

/// Names the capture file that (mode, fuzz) selects.
pub fn asset_summary(mode: &str, fuzz: &str) -> (summary: Result<String, GainError>)
    ensures
        match selection(mode@, fuzz@) {
            Some(i) => summary matches Ok(s) && s@ == asset_text(spec_captures()[i].model_path@),
            None => summary matches Err(GainError::UnsupportedSetting(m)) && m@ == unsupported_message(mode@, fuzz@),
        },
{
    match resolve_capture(mode, fuzz) {
        Ok(c) => {
            let parts = vec!["model='", c.model_path, "'"];
            assert(texts(parts@) =~= seq!["model='"@, c.model_path@, "'"@]);
            Ok(join(&parts))
        },
        Err(e) => Err(e),
    }
}

pub open spec fn spec_model_definition() -> ModelDefinitionView {
    ModelDefinitionView {
        id: MODEL_ID,
        display_name: DISPLAY_NAME,
        brand: BRAND,
        backend_kind: BackendKind::Nam,
        supported_instruments: Instruments::GuitarBass,
        knob_layout: seq![],
    }
}

/// What the registry lists for this model.
pub fn model_definition() -> (d: ModelDefinition)
    ensures
        d@ == spec_model_definition(),
{
    let knob_layout: Vec<KnobLayoutEntry> = Vec::new();
    let d = ModelDefinition {
        id: MODEL_ID,
        display_name: DISPLAY_NAME,
        brand: BRAND,
        backend_kind: BackendKind::Nam,
        supported_instruments: Instruments::GuitarBass,
        knob_layout,
    };
    assert(d@.knob_layout =~= spec_model_definition().knob_layout);
    d
}

/// The schema is sound: every parameter is, and no two share a path.
pub proof fn lemma_schema_well_formed()
    ensures
        schema_well_formed(spec_model_schema()),
{
    reveal_strlit("mode");
    reveal_strlit("fuzz");
    reveal_strlit("modern");
    reveal_strlit("vintage");
    reveal_strlit("2");
    reveal_strlit("5");
    reveal_strlit("7");
    reveal_strlit("11");
    let ps = spec_model_schema().parameters.unwrap();
    assert forall|i: int| 0 <= i < ps.len() implies parameter_well_formed(#[trigger] ps[i]) by {
        if ps[i].kind is Enum {
            let vs = choice_values(ps[i].kind->Enum_choices);
            assert forall|a: int, b: int| 0 <= a < b < vs.len() implies vs[a] != vs[b] by {
                if vs[a] == vs[b] {
                    assert(vs[a].len() == vs[b].len());
                    assert(vs[a][0] == vs[b][0]);
                }
            }
        }
        if i == 0 {
            assert(ps[0].kind->Enum_choices[0].value@ == "modern"@);
        } else if i == 1 {
            assert(ps[1].kind->Enum_choices[1].value@ == "5"@);
        }
    }
    let paths = parameter_paths(ps);
    assert forall|a: int, b: int| 0 <= a < b < paths.len() implies paths[a] != paths[b] by {
        if paths[a] == paths[b] {
            assert(paths[a].len() == paths[b].len());
            assert(paths[a][0] == paths[b][0]);
        }
    }
}

/// Each capture is recorded at choices the schema offers.
pub proof fn lemma_captures_follow_schema()
    ensures
        captures_follow_schema(spec_model_schema(), key_params(), spec_captures()),
{
    let s = spec_model_schema();
    let t = spec_captures();
    assert forall|i: int, k: int| 0 <= i < t.len() && 0 <= k < key_params().len() implies {
        &&& #[trigger] t[i].keys.len() == key_params().len()
        &&& is_choice(choices_at(s, key_params()[k]), #[trigger] t[i].keys[k]@)
    } by {
        let cs = choices_at(s, key_params()[k]);
        if k == 0 {
            if t[i].keys[0] == "modern" {
                assert(cs[0].value@ == t[i].keys[k]@);
            } else {
                assert(cs[1].value@ == t[i].keys[k]@);
            }
        } else if k == 1 {
            if t[i].keys[1] == "2" {
                assert(cs[0].value@ == t[i].keys[k]@);
            } else if t[i].keys[1] == "5" {
                assert(cs[1].value@ == t[i].keys[k]@);
            } else if t[i].keys[1] == "7" {
                assert(cs[2].value@ == t[i].keys[k]@);
            } else {
                assert(cs[3].value@ == t[i].keys[k]@);
            }
        }
    }
}

/// No two captures share a setting.
pub proof fn lemma_captures_distinct()
    ensures
        captures_distinct(spec_captures()),
{
    reveal_strlit("modern");
    reveal_strlit("2");
    reveal_strlit("5");
    reveal_strlit("7");
    reveal_strlit("11");
    reveal_strlit("vintage");
    let t = spec_captures();
    assert forall|a: int, b: int| 0 <= a < b < t.len() implies str_texts(t[a].keys) != str_texts(t[b].keys) by {
        let x = str_texts(t[a].keys);
        let y = str_texts(t[b].keys);
        if x == y {
            assert(x[0].len() == y[0].len());
            assert(x[1].len() == y[1].len());
            assert(x[1][0] == y[1][0]);
        }
    }
}

/// Every setting the schema offers selects a capture; so do the defaults.
pub proof fn lemma_every_setting_selects()
    ensures
        every_setting_selects(spec_model_schema(), key_params(), spec_captures()),
        defaults_present(spec_model_schema(), key_params()),
        first_selected(spec_captures(), default_setting(spec_model_schema(), key_params())) is Some,
{
    let s = spec_model_schema();
    let t = spec_captures();
    assert forall|r: Seq<Seq<char>>| setting_of_choices(s, key_params(), r) implies
        (#[trigger] first_selected(t, r)) is Some by {
        let c0 = choices_at(s, 0);
        let i0 = choose|i: int| 0 <= i < c0.len() && c0[i].value@ == r[0];
        let c1 = choices_at(s, 1);
        let i1 = choose|i: int| 0 <= i < c1.len() && c1[i].value@ == r[1];
        if i0 == 0 && i1 == 0 {
            lemma_selected_at(t, r, 0);
        } else if i0 == 0 && i1 == 1 {
            lemma_selected_at(t, r, 1);
        } else if i0 == 0 && i1 == 2 {
            lemma_selected_at(t, r, 2);
        } else if i0 == 0 && i1 == 3 {
            lemma_selected_at(t, r, 3);
        } else if i0 == 1 && i1 == 0 {
            lemma_selected_at(t, r, 4);
        } else if i0 == 1 && i1 == 1 {
            lemma_selected_at(t, r, 5);
        } else if i0 == 1 && i1 == 2 {
            lemma_selected_at(t, r, 6);
        } else if i0 == 1 && i1 == 3 {
            lemma_selected_at(t, r, 7);
        }
    }
    let dflt = default_setting(s, key_params());
    assert(dflt =~= seq!["modern"@, "5"@]);
    lemma_selected_at(t, dflt, 1);
}

/// Every capture names a file that writes each value of its setting, and
/// no two captures name the same file.
pub proof fn lemma_capture_files()
    ensures
        files_name_settings(spec_captures()),
        files_distinct(spec_captures()),
{
    reveal_strlit("pedals/boss_fz1w/fz1w_modern_f02.nam");
    reveal_strlit("pedals/boss_fz1w/fz1w_modern_f05.nam");
    reveal_strlit("pedals/boss_fz1w/fz1w_modern_f07.nam");
    reveal_strlit("pedals/boss_fz1w/fz1w_modern_f11.nam");
    reveal_strlit("pedals/boss_fz1w/fz1w_vintage_f02.nam");
    reveal_strlit("pedals/boss_fz1w/fz1w_vintage_f05.nam");
    reveal_strlit("pedals/boss_fz1w/fz1w_vintage_f07.nam");
    reveal_strlit("pedals/boss_fz1w/fz1w_vintage_f11.nam");
    reveal_strlit("modern");
    reveal_strlit("2");
    reveal_strlit("5");
    reveal_strlit("7");
    reveal_strlit("11");
    reveal_strlit("vintage");
    let t = spec_captures();
    assert forall|i: int, k: int| 0 <= i < t.len() && 0 <= k < t[i].keys.len() implies
        names_value(#[trigger] t[i].model_path@, #[trigger] t[i].keys[k]@) by {
        let path = t[i].model_path@;
        let key = t[i].keys[k]@;
        if i == 0 {
            if k == 0 {
                assert(path.subrange(22int, 22int + key.len()) =~= key);
            } else if k == 1 {
                assert(path.subrange(31int, 31int + key.len()) =~= key);
            }
        } else if i == 1 {
            if k == 0 {
                assert(path.subrange(22int, 22int + key.len()) =~= key);
            } else if k == 1 {
                assert(path.subrange(31int, 31int + key.len()) =~= key);
            }
        } else if i == 2 {
            if k == 0 {
                assert(path.subrange(22int, 22int + key.len()) =~= key);
            } else if k == 1 {
                assert(path.subrange(31int, 31int + key.len()) =~= key);
            }
        } else if i == 3 {
            if k == 0 {
                assert(path.subrange(22int, 22int + key.len()) =~= key);
            } else if k == 1 {
                assert(path.subrange(30int, 30int + key.len()) =~= key);
            }
        } else if i == 4 {
            if k == 0 {
                assert(path.subrange(22int, 22int + key.len()) =~= key);
            } else if k == 1 {
                assert(path.subrange(32int, 32int + key.len()) =~= key);
            }
        } else if i == 5 {
            if k == 0 {
                assert(path.subrange(22int, 22int + key.len()) =~= key);
            } else if k == 1 {
                assert(path.subrange(32int, 32int + key.len()) =~= key);
            }
        } else if i == 6 {
            if k == 0 {
                assert(path.subrange(22int, 22int + key.len()) =~= key);
            } else if k == 1 {
                assert(path.subrange(32int, 32int + key.len()) =~= key);
            }
        } else if i == 7 {
            if k == 0 {
                assert(path.subrange(22int, 22int + key.len()) =~= key);
            } else if k == 1 {
                assert(path.subrange(31int, 31int + key.len()) =~= key);
            }
        }
    }
    assert forall|a: int, b: int| 0 <= a < b < 8 implies t[a].model_path@ != t[b].model_path@ by {
        if a == 0 && b == 1 {
            assert(t[0].model_path@[31] != t[1].model_path@[31]);
        } else if a == 0 && b == 2 {
            assert(t[0].model_path@[31] != t[2].model_path@[31]);
        } else if a == 0 && b == 3 {
            assert(t[0].model_path@[30] != t[3].model_path@[30]);
        } else if a == 0 && b == 4 {
            assert(t[0].model_path@.len() != t[4].model_path@.len());
        } else if a == 0 && b == 5 {
            assert(t[0].model_path@.len() != t[5].model_path@.len());
        } else if a == 0 && b == 6 {
            assert(t[0].model_path@.len() != t[6].model_path@.len());
        } else if a == 0 && b == 7 {
            assert(t[0].model_path@.len() != t[7].model_path@.len());
        } else if a == 1 && b == 2 {
            assert(t[1].model_path@[31] != t[2].model_path@[31]);
        } else if a == 1 && b == 3 {
            assert(t[1].model_path@[30] != t[3].model_path@[30]);
        } else if a == 1 && b == 4 {
            assert(t[1].model_path@.len() != t[4].model_path@.len());
        } else if a == 1 && b == 5 {
            assert(t[1].model_path@.len() != t[5].model_path@.len());
        } else if a == 1 && b == 6 {
            assert(t[1].model_path@.len() != t[6].model_path@.len());
        } else if a == 1 && b == 7 {
            assert(t[1].model_path@.len() != t[7].model_path@.len());
        } else if a == 2 && b == 3 {
            assert(t[2].model_path@[30] != t[3].model_path@[30]);
        } else if a == 2 && b == 4 {
            assert(t[2].model_path@.len() != t[4].model_path@.len());
        } else if a == 2 && b == 5 {
            assert(t[2].model_path@.len() != t[5].model_path@.len());
        } else if a == 2 && b == 6 {
            assert(t[2].model_path@.len() != t[6].model_path@.len());
        } else if a == 2 && b == 7 {
            assert(t[2].model_path@.len() != t[7].model_path@.len());
        } else if a == 3 && b == 4 {
            assert(t[3].model_path@.len() != t[4].model_path@.len());
        } else if a == 3 && b == 5 {
            assert(t[3].model_path@.len() != t[5].model_path@.len());
        } else if a == 3 && b == 6 {
            assert(t[3].model_path@.len() != t[6].model_path@.len());
        } else if a == 3 && b == 7 {
            assert(t[3].model_path@.len() != t[7].model_path@.len());
        } else if a == 4 && b == 5 {
            assert(t[4].model_path@[32] != t[5].model_path@[32]);
        } else if a == 4 && b == 6 {
            assert(t[4].model_path@[32] != t[6].model_path@[32]);
        } else if a == 4 && b == 7 {
            assert(t[4].model_path@[31] != t[7].model_path@[31]);
        } else if a == 5 && b == 6 {
            assert(t[5].model_path@[32] != t[6].model_path@[32]);
        } else if a == 5 && b == 7 {
            assert(t[5].model_path@[31] != t[7].model_path@[31]);
        } else if a == 6 && b == 7 {
            assert(t[6].model_path@[31] != t[7].model_path@[31]);
        }
    }
}

/// Every capture names a file that writes each value of its setting in its
/// own place, between the texts that mark that place in the file name.
pub proof fn lemma_files_write_settings()
    ensures
        forall|i: int| 0 <= i < spec_captures().len() ==> {
            &&& names_value((#[trigger] spec_captures()[i]).model_path@, "fz1w_"@ + spec_captures()[i].keys[0]@ + "_f"@)
            &&& names_value((#[trigger] spec_captures()[i]).model_path@, spec_captures()[i].keys[1]@ + ".nam"@)
        },
{
    reveal_strlit("fz1w_");
    reveal_strlit("_f");
    reveal_strlit(".nam");
    reveal_strlit("pedals/boss_fz1w/fz1w_modern_f02.nam");
    reveal_strlit("pedals/boss_fz1w/fz1w_modern_f05.nam");
    reveal_strlit("pedals/boss_fz1w/fz1w_modern_f07.nam");
    reveal_strlit("pedals/boss_fz1w/fz1w_modern_f11.nam");
    reveal_strlit("pedals/boss_fz1w/fz1w_vintage_f02.nam");
    reveal_strlit("pedals/boss_fz1w/fz1w_vintage_f05.nam");
    reveal_strlit("pedals/boss_fz1w/fz1w_vintage_f07.nam");
    reveal_strlit("pedals/boss_fz1w/fz1w_vintage_f11.nam");
    reveal_strlit("modern");
    reveal_strlit("2");
    reveal_strlit("5");
    reveal_strlit("7");
    reveal_strlit("11");
    reveal_strlit("vintage");
    let t = spec_captures();
    assert forall|i: int| 0 <= i < t.len() implies {
        &&& names_value((#[trigger] t[i]).model_path@, "fz1w_"@ + t[i].keys[0]@ + "_f"@)
        &&& names_value((#[trigger] t[i]).model_path@, t[i].keys[1]@ + ".nam"@)
    } by {
        let path = t[i].model_path@;
        if i == 0 {
            let v0 = "fz1w_"@ + t[i].keys[0]@ + "_f"@;
            assert(path.subrange(17int, 17int + v0.len()) =~= v0);
            let v1 = t[i].keys[1]@ + ".nam"@;
            assert(path.subrange(31int, 31int + v1.len()) =~= v1);
        } else if i == 1 {
            let v0 = "fz1w_"@ + t[i].keys[0]@ + "_f"@;
            assert(path.subrange(17int, 17int + v0.len()) =~= v0);
            let v1 = t[i].keys[1]@ + ".nam"@;
            assert(path.subrange(31int, 31int + v1.len()) =~= v1);
        } else if i == 2 {
            let v0 = "fz1w_"@ + t[i].keys[0]@ + "_f"@;
            assert(path.subrange(17int, 17int + v0.len()) =~= v0);
            let v1 = t[i].keys[1]@ + ".nam"@;
            assert(path.subrange(31int, 31int + v1.len()) =~= v1);
        } else if i == 3 {
            let v0 = "fz1w_"@ + t[i].keys[0]@ + "_f"@;
            assert(path.subrange(17int, 17int + v0.len()) =~= v0);
            let v1 = t[i].keys[1]@ + ".nam"@;
            assert(path.subrange(30int, 30int + v1.len()) =~= v1);
        } else if i == 4 {
            let v0 = "fz1w_"@ + t[i].keys[0]@ + "_f"@;
            assert(path.subrange(17int, 17int + v0.len()) =~= v0);
            let v1 = t[i].keys[1]@ + ".nam"@;
            assert(path.subrange(32int, 32int + v1.len()) =~= v1);
        } else if i == 5 {
            let v0 = "fz1w_"@ + t[i].keys[0]@ + "_f"@;
            assert(path.subrange(17int, 17int + v0.len()) =~= v0);
            let v1 = t[i].keys[1]@ + ".nam"@;
            assert(path.subrange(32int, 32int + v1.len()) =~= v1);
        } else if i == 6 {
            let v0 = "fz1w_"@ + t[i].keys[0]@ + "_f"@;
            assert(path.subrange(17int, 17int + v0.len()) =~= v0);
            let v1 = t[i].keys[1]@ + ".nam"@;
            assert(path.subrange(32int, 32int + v1.len()) =~= v1);
        } else if i == 7 {
            let v0 = "fz1w_"@ + t[i].keys[0]@ + "_f"@;
            assert(path.subrange(17int, 17int + v0.len()) =~= v0);
            let v1 = t[i].keys[1]@ + ".nam"@;
            assert(path.subrange(31int, 31int + v1.len()) =~= v1);
        }
    }
}

} // verus!
