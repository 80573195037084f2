//! The "Benson Preamp" gain model (benson), played from neural captures, one per recorded setting.

use vstd::prelude::*;
use crate::capture::{
    names_value,
    files_distinct,
    Capture, CaptureView, table_view, find_capture, first_selected, asset_text, lemma_first_selected,
    lemma_selected_at, captures_follow_schema, default_setting, defaults_present, captures_distinct,
    every_setting_selects, setting_of_choices,
};
use crate::error::GainError;
use crate::model::{BackendKind, Instruments, KnobLayoutEntry, ModelDefinition, ModelDefinitionView};
use crate::schema::{
    EffectType, EnumChoice, ModelSchema, ModelSchemaView, ParameterKindView, ParameterSpecView,
    choice, enum_parameter, parameters_view, schema_well_formed, choices_at, str_texts, is_choice,
    parameter_well_formed, choice_values, parameter_paths,
};
use crate::text::{concat, join, texts};

verus! {

pub const MODEL_ID: &'static str = "nam_benson_preamp";
pub const DISPLAY_NAME: &'static str = "Benson Preamp";
pub const BRAND: &'static str = "benson";

pub open spec fn spec_model_schema() -> ModelSchemaView {
    ModelSchemaView {
        effect_type: EffectType::Gain,
        model: MODEL_ID,
        display_name: DISPLAY_NAME,
        audio_mode: None,
        parameters: Some(seq![
            ParameterSpecView {
                path: "eq",
                label: "EQ Profile",
                group: Some("Pedal"),
                kind: ParameterKindView::Enum {
                    default: Some("flat"),
                    choices: seq![
                        EnumChoice { value: "flat", label: "Flat (T6 B6)" },
                        EnumChoice { value: "bright", label: "Bright (T9 B3)" },
                        EnumChoice { value: "dark", label: "Dark (T4 B8)" },
                    ],
                },
            },
            ParameterSpecView {
                path: "drive",
                label: "Drive",
                group: Some("Pedal"),
                kind: ParameterKindView::Enum {
                    default: Some("6"),
                    choices: seq![
                        EnumChoice { value: "3", label: "3" },
                        EnumChoice { value: "6", label: "6" },
                        EnumChoice { value: "9", label: "9" },
                    ],
                },
            },
        ]),
    }
}

/// The parameters of the model.
pub fn model_schema() -> (schema: ModelSchema)
    ensures
        schema@ == spec_model_schema(),
{
    let parameters = vec![
        enum_parameter(
            "eq",
            "EQ Profile",
            Some("Pedal"),
            Some("flat"),
            vec![
                choice("flat", "Flat (T6 B6)"),
                choice("bright", "Bright (T9 B3)"),
                choice("dark", "Dark (T4 B8)"),
            ],
        ),
        enum_parameter(
            "drive",
            "Drive",
            Some("Pedal"),
            Some("6"),
            vec![
                choice("3", "3"),
                choice("6", "6"),
                choice("9", "9"),
            ],
        ),
    ];
    assert(parameters_view(parameters@) =~= spec_model_schema().parameters.unwrap());
    ModelSchema {
        effect_type: EffectType::Gain,
        model: MODEL_ID,
        display_name: DISPLAY_NAME,
        audio_mode: None,
        parameters: Some(parameters),
    }
}

/// The positions, in the schema, of the parameters that select a capture.
pub open spec fn key_params() -> Seq<int> {
    seq![0, 1]
}

pub open spec fn spec_captures() -> Seq<CaptureView> {
    seq![
        CaptureView { keys: seq!["flat", "3"], model_path: "pedals/benson_preamp/benson_preamp_01_t6b6d3v6.nam" },
        CaptureView { keys: seq!["flat", "6"], model_path: "pedals/benson_preamp/benson_preamp_02_t6b6d6v6.nam" },
        CaptureView { keys: seq!["flat", "9"], model_path: "pedals/benson_preamp/benson_preamp_03_t6b6d9v6.nam" },
        CaptureView { keys: seq!["bright", "3"], model_path: "pedals/benson_preamp/benson_preamp_04_t9b3d3v6.nam" },
        CaptureView { keys: seq!["bright", "6"], model_path: "pedals/benson_preamp/benson_preamp_05_t9b3d6v6.nam" },
        CaptureView { keys: seq!["bright", "9"], model_path: "pedals/benson_preamp/benson_preamp_06_t9b3d9v6.nam" },
        CaptureView { keys: seq!["dark", "3"], model_path: "pedals/benson_preamp/benson_preamp_07_t4b8d3v6.nam" },
        CaptureView { keys: seq!["dark", "6"], model_path: "pedals/benson_preamp/benson_preamp_08_t4b8d6v6.nam" },
        CaptureView { keys: seq!["dark", "9"], model_path: "pedals/benson_preamp/benson_preamp_09_t4b8d9v6.nam" },
    ]
}

/// The captures of the pedal, each with its (eq, drive) setting.
pub fn captures() -> (table: Vec<Capture>)
    ensures
        table_view(table@) == spec_captures(),
{
    let table = vec![
        Capture::two("flat", "3", "pedals/benson_preamp/benson_preamp_01_t6b6d3v6.nam"),
        Capture::two("flat", "6", "pedals/benson_preamp/benson_preamp_02_t6b6d6v6.nam"),
        Capture::two("flat", "9", "pedals/benson_preamp/benson_preamp_03_t6b6d9v6.nam"),
        Capture::two("bright", "3", "pedals/benson_preamp/benson_preamp_04_t9b3d3v6.nam"),
        Capture::two("bright", "6", "pedals/benson_preamp/benson_preamp_05_t9b3d6v6.nam"),
        Capture::two("bright", "9", "pedals/benson_preamp/benson_preamp_06_t9b3d9v6.nam"),
        Capture::two("dark", "3", "pedals/benson_preamp/benson_preamp_07_t4b8d3v6.nam"),
        Capture::two("dark", "6", "pedals/benson_preamp/benson_preamp_08_t4b8d6v6.nam"),
        Capture::two("dark", "9", "pedals/benson_preamp/benson_preamp_09_t4b8d9v6.nam"),
    ];
    assert(table_view(table@) =~= spec_captures());
    table
}

/// What the model reports for a setting at which no capture was recorded.
pub open spec fn unsupported_message(eq: Seq<char>, drive: Seq<char>) -> Seq<char> {
    concat(seq!["gain '"@, MODEL_ID@, "' has no capture for eq="@, eq, " drive="@, drive])
}

/// The index of the capture that (eq, drive) selects.
pub open spec fn selection(eq: Seq<char>, drive: Seq<char>) -> Option<int> {
    first_selected(spec_captures(), seq![eq, drive])
}

fn unsupported(eq: &str, drive: &str) -> (e: GainError)
    ensures
        e matches GainError::UnsupportedSetting(m) && m@ == unsupported_message(eq@, drive@),
{
    let parts = vec!["gain '", MODEL_ID, "' has no capture for eq=", eq, " drive=", drive];
    let m = join(&parts);
    assert(texts(parts@) =~= seq!["gain '"@, MODEL_ID@, "' has no capture for eq="@, eq@, " drive="@, drive@]);
    GainError::UnsupportedSetting(m)
}

/// The capture recorded at (eq, drive).
pub fn resolve_capture(eq: &str, drive: &str) -> (selected: Result<&'static str, GainError>)
    ensures
        match selection(eq@, drive@) {
            Some(i) => selected matches Ok(path) && path == spec_captures()[i].model_path,
            None => selected matches Err(GainError::UnsupportedSetting(m)) && m@ == unsupported_message(eq@, drive@),
        },
{
    let table = captures();
    let request = vec![eq, drive];
    assert(texts(request@) =~= seq![eq@, drive@]);
    match find_capture(&table, &request) {
        Some(i) => {
            proof {
                lemma_first_selected(spec_captures(), seq![eq@, drive@]);
            }
            Ok(table[i].model_path)
        },
        None => Err(unsupported(eq, drive)),
    }
}

/// Accepts (eq, drive) exactly where a capture was recorded there.
pub fn validate_params(eq: &str, drive: &str) -> (checked: Result<(), GainError>)
    ensures
        match selection(eq@, drive@) {
            Some(i) => checked is Ok,
            None => checked matches Err(GainError::UnsupportedSetting(m)) && m@ == unsupported_message(eq@, drive@),
        },
{
    match resolve_capture(eq, drive) {
        Ok(_) => Ok(()),
        Err(e) => Err(e),
    }
}

/// Names the capture file that (eq, drive) selects.
pub fn asset_summary(eq: &str, drive: &str) -> (summary: Result<String, GainError>)
    ensures
        match selection(eq@, drive@) {
            Some(i) => summary matches Ok(s) && s@ == asset_text(spec_captures()[i].model_path@),
            None => summary matches Err(GainError::UnsupportedSetting(m)) && m@ == unsupported_message(eq@, drive@),
        },
{
    match resolve_capture(eq, drive) {
        Ok(c) => {
            let parts = vec!["model='", c, "'"];
            assert(texts(parts@) =~= seq!["model='"@, c@, "'"@]);
            Ok(join(&parts))
        },
        Err(e) => Err(e),
    }
}

pub open spec fn spec_model_definition() -> ModelDefinitionView {
    ModelDefinitionView {
        id: MODEL_ID,
        display_name: DISPLAY_NAME,
        brand: BRAND,
        backend_kind: BackendKind::Nam,
        supported_instruments: Instruments::GuitarBass,
        knob_layout: seq![],
    }
}

/// What the registry lists for this model.
pub fn model_definition() -> (d: ModelDefinition)
    ensures
        d@ == spec_model_definition(),
{
    let knob_layout: Vec<KnobLayoutEntry> = Vec::new();
    let d = ModelDefinition {
        id: MODEL_ID,
        display_name: DISPLAY_NAME,
        brand: BRAND,
        backend_kind: BackendKind::Nam,
        supported_instruments: Instruments::GuitarBass,
        knob_layout,
    };
    assert(d@.knob_layout =~= spec_model_definition().knob_layout);
    d
}

/// The schema is sound: every parameter is, and no two share a path.
pub proof fn lemma_schema_well_formed()
    ensures
        schema_well_formed(spec_model_schema()),
{
    reveal_strlit("eq");
    reveal_strlit("drive");
    reveal_strlit("flat");
    reveal_strlit("bright");
    reveal_strlit("dark");
    reveal_strlit("3");
    reveal_strlit("6");
    reveal_strlit("9");
    let ps = spec_model_schema().parameters.unwrap();
    assert forall|i: int| 0 <= i < ps.len() implies parameter_well_formed(#[trigger] ps[i]) by {
        if ps[i].kind is Enum {
            let vs = choice_values(ps[i].kind->Enum_choices);
            assert forall|a: int, b: int| 0 <= a < b < vs.len() implies vs[a] != vs[b] by {
                if vs[a] == vs[b] {
                    assert(vs[a].len() == vs[b].len());
                    assert(vs[a][0] == vs[b][0]);
                }
            }
        }
        if i == 0 {
            assert(ps[0].kind->Enum_choices[0].value@ == "flat"@);
        } else if i == 1 {
            assert(ps[1].kind->Enum_choices[1].value@ == "6"@);
        }
    }
    let paths = parameter_paths(ps);
    assert forall|a: int, b: int| 0 <= a < b < paths.len() implies paths[a] != paths[b] by {
        if paths[a] == paths[b] {
            assert(paths[a].len() == paths[b].len());
        }
    }
}

/// Each capture is recorded at choices the schema offers.
pub proof fn lemma_captures_follow_schema()
    ensures
        captures_follow_schema(spec_model_schema(), key_params(), spec_captures()),
{
    let s = spec_model_schema();
    let t = spec_captures();
    assert forall|i: int, k: int| 0 <= i < t.len() && 0 <= k < key_params().len() implies {
        &&& #[trigger] t[i].keys.len() == key_params().len()
        &&& is_choice(choices_at(s, key_params()[k]), #[trigger] t[i].keys[k]@)
    } by {
        let cs = choices_at(s, key_params()[k]);
        if k == 0 {
            if t[i].keys[0] == "flat" {
                assert(cs[0].value@ == t[i].keys[k]@);
            } else if t[i].keys[0] == "bright" {
                assert(cs[1].value@ == t[i].keys[k]@);
            } else {
                assert(cs[2].value@ == t[i].keys[k]@);
            }
        } else if k == 1 {
            if t[i].keys[1] == "3" {
                assert(cs[0].value@ == t[i].keys[k]@);
            } else if t[i].keys[1] == "6" {
                assert(cs[1].value@ == t[i].keys[k]@);
            } else {
                assert(cs[2].value@ == t[i].keys[k]@);
            }
        }
    }
}

/// No two captures share a setting.
pub proof fn lemma_captures_distinct()
    ensures
        captures_distinct(spec_captures()),
{
    reveal_strlit("flat");
    reveal_strlit("3");
    reveal_strlit("6");
    reveal_strlit("9");
    reveal_strlit("bright");
    reveal_strlit("dark");
    let t = spec_captures();
    assert forall|a: int, b: int| 0 <= a < b < t.len() implies str_texts(t[a].keys) != str_texts(t[b].keys) by {
        let x = str_texts(t[a].keys);
        let y = str_texts(t[b].keys);
        if x == y {
            assert(x[0].len() == y[0].len());
            assert(x[0][0] == y[0][0]);
            assert(x[1].len() == y[1].len());
            assert(x[1][0] == y[1][0]);
        }
    }
}

/// Every setting the schema offers selects a capture; so do the defaults.
pub proof fn lemma_every_setting_selects()
    ensures
        every_setting_selects(spec_model_schema(), key_params(), spec_captures()),
        defaults_present(spec_model_schema(), key_params()),
        first_selected(spec_captures(), default_setting(spec_model_schema(), key_params())) is Some,
{
    let s = spec_model_schema();
    let t = spec_captures();
    assert forall|r: Seq<Seq<char>>| setting_of_choices(s, key_params(), r) implies
        (#[trigger] first_selected(t, r)) is Some by {
        let c0 = choices_at(s, 0);
        let i0 = choose|i: int| 0 <= i < c0.len() && c0[i].value@ == r[0];
        let c1 = choices_at(s, 1);
        let i1 = choose|i: int| 0 <= i < c1.len() && c1[i].value@ == r[1];
        if i0 == 0 && i1 == 0 {
            lemma_selected_at(t, r, 0);
        } else if i0 == 0 && i1 == 1 {
            lemma_selected_at(t, r, 1);
        } else if i0 == 0 && i1 == 2 {
            lemma_selected_at(t, r, 2);
        } else if i0 == 1 && i1 == 0 {
            lemma_selected_at(t, r, 3);
        } else if i0 == 1 && i1 == 1 {
            lemma_selected_at(t, r, 4);
        } else if i0 == 1 && i1 == 2 {
            lemma_selected_at(t, r, 5);
        } else if i0 == 2 && i1 == 0 {
            lemma_selected_at(t, r, 6);
        } else if i0 == 2 && i1 == 1 {
            lemma_selected_at(t, r, 7);
        } else if i0 == 2 && i1 == 2 {
            lemma_selected_at(t, r, 8);
        }
    }
    let dflt = default_setting(s, key_params());
    assert(dflt =~= seq!["flat"@, "6"@]);
    lemma_selected_at(t, dflt, 1);
}

/// No two captures name the same file.
pub proof fn lemma_capture_files()
    ensures
        files_distinct(spec_captures()),
{
    reveal_strlit("pedals/benson_preamp/benson_preamp_01_t6b6d3v6.nam");
    reveal_strlit("pedals/benson_preamp/benson_preamp_02_t6b6d6v6.nam");
    reveal_strlit("pedals/benson_preamp/benson_preamp_03_t6b6d9v6.nam");
    reveal_strlit("pedals/benson_preamp/benson_preamp_04_t9b3d3v6.nam");
    reveal_strlit("pedals/benson_preamp/benson_preamp_05_t9b3d6v6.nam");
    reveal_strlit("pedals/benson_preamp/benson_preamp_06_t9b3d9v6.nam");
    reveal_strlit("pedals/benson_preamp/benson_preamp_07_t4b8d3v6.nam");
    reveal_strlit("pedals/benson_preamp/benson_preamp_08_t4b8d6v6.nam");
    reveal_strlit("pedals/benson_preamp/benson_preamp_09_t4b8d9v6.nam");
    let t = spec_captures();
    assert forall|a: int, b: int| 0 <= a < b < 9 implies t[a].model_path@ != t[b].model_path@ by {
        if a == 0 && b == 1 {
            assert(t[0].model_path@[36] != t[1].model_path@[36]);
        } else if a == 0 && b == 2 {
            assert(t[0].model_path@[36] != t[2].model_path@[36]);
        } else if a == 0 && b == 3 {
            assert(t[0].model_path@[36] != t[3].model_path@[36]);
        } else if a == 0 && b == 4 {
            assert(t[0].model_path@[36] != t[4].model_path@[36]);
        } else if a == 0 && b == 5 {
            assert(t[0].model_path@[36] != t[5].model_path@[36]);
        } else if a == 0 && b == 6 {
            assert(t[0].model_path@[36] != t[6].model_path@[36]);
        } else if a == 0 && b == 7 {
            assert(t[0].model_path@[36] != t[7].model_path@[36]);
        } else if a == 0 && b == 8 {
            assert(t[0].model_path@[36] != t[8].model_path@[36]);
        } else if a == 1 && b == 2 {
            assert(t[1].model_path@[36] != t[2].model_path@[36]);
        } else if a == 1 && b == 3 {
            assert(t[1].model_path@[36] != t[3].model_path@[36]);
        } else if a == 1 && b == 4 {
            assert(t[1].model_path@[36] != t[4].model_path@[36]);
        } else if a == 1 && b == 5 {
            assert(t[1].model_path@[36] != t[5].model_path@[36]);
        } else if a == 1 && b == 6 {
            assert(t[1].model_path@[36] != t[6].model_path@[36]);
        } else if a == 1 && b == 7 {
            assert(t[1].model_path@[36] != t[7].model_path@[36]);
        } else if a == 1 && b == 8 {
            assert(t[1].model_path@[36] != t[8].model_path@[36]);
        } else if a == 2 && b == 3 {
            assert(t[2].model_path@[36] != t[3].model_path@[36]);
        } else if a == 2 && b == 4 {
            assert(t[2].model_path@[36] != t[4].model_path@[36]);
        } else if a == 2 && b == 5 {
            assert(t[2].model_path@[36] != t[5].model_path@[36]);
        } else if a == 2 && b == 6 {
            assert(t[2].model_path@[36] != t[6].model_path@[36]);
        } else if a == 2 && b == 7 {
            assert(t[2].model_path@[36] != t[7].model_path@[36]);
        } else if a == 2 && b == 8 {
            assert(t[2].model_path@[36] != t[8].model_path@[36]);
        } else if a == 3 && b == 4 {
            assert(t[3].model_path@[36] != t[4].model_path@[36]);
        } else if a == 3 && b == 5 {
            assert(t[3].model_path@[36] != t[5].model_path@[36]);
        } else if a == 3 && b == 6 {
            assert(t[3].model_path@[36] != t[6].model_path@[36]);
        } else if a == 3 && b == 7 {
            assert(t[3].model_path@[36] != t[7].model_path@[36]);
        } else if a == 3 && b == 8 {
            assert(t[3].model_path@[36] != t[8].model_path@[36]);
        } else if a == 4 && b == 5 {
            assert(t[4].model_path@[36] != t[5].model_path@[36]);
        } else if a == 4 && b == 6 {
            assert(t[4].model_path@[36] != t[6].model_path@[36]);
        } else if a == 4 && b == 7 {
            assert(t[4].model_path@[36] != t[7].model_path@[36]);
        } else if a == 4 && b == 8 {
            assert(t[4].model_path@[36] != t[8].model_path@[36]);
        } else if a == 5 && b == 6 {
            assert(t[5].model_path@[36] != t[6].model_path@[36]);
        } else if a == 5 && b == 7 {
            assert(t[5].model_path@[36] != t[7].model_path@[36]);
        } else if a == 5 && b == 8 {
            assert(t[5].model_path@[36] != t[8].model_path@[36]);
        } else if a == 6 && b == 7 {
            assert(t[6].model_path@[36] != t[7].model_path@[36]);
        } else if a == 6 && b == 8 {
            assert(t[6].model_path@[36] != t[8].model_path@[36]);
        } else if a == 7 && b == 8 {
            assert(t[7].model_path@[36] != t[8].model_path@[36]);
        }
    }
}

/// What the file name writes for an EQ setting: the treble and bass it was
/// recorded at.
pub open spec fn eq_text(eq: Seq<char>) -> Seq<char> {
    if eq == "flat"@ {
        "t6b6"@
    } else if eq == "bright"@ {
        "t9b3"@
    } else if eq == "dark"@ {
        "t4b8"@
    } else {
        eq
    }
}

/// Every capture names a file that writes the EQ and the drive it was
/// recorded at: its name ends in `_<treble, bass>d<drive>v6.nam`.
pub proof fn lemma_files_write_settings()
    ensures
        forall|i: int| 0 <= i < spec_captures().len() ==>
            names_value((#[trigger] spec_captures()[i]).model_path@,
                "_"@ + eq_text(spec_captures()[i].keys[0]@) + "d"@ + spec_captures()[i].keys[1]@ + "v6.nam"@),
{
    reveal_strlit("_");
    reveal_strlit("d");
    reveal_strlit("v6.nam");
    reveal_strlit("flat");
    reveal_strlit("bright");
    reveal_strlit("dark");
    reveal_strlit("t6b6");
    reveal_strlit("t9b3");
    reveal_strlit("t4b8");
    reveal_strlit("3");
    reveal_strlit("6");
    reveal_strlit("9");
    reveal_strlit("pedals/benson_preamp/benson_preamp_01_t6b6d3v6.nam");
    reveal_strlit("pedals/benson_preamp/benson_preamp_02_t6b6d6v6.nam");
    reveal_strlit("pedals/benson_preamp/benson_preamp_03_t6b6d9v6.nam");
    reveal_strlit("pedals/benson_preamp/benson_preamp_04_t9b3d3v6.nam");
    reveal_strlit("pedals/benson_preamp/benson_preamp_05_t9b3d6v6.nam");
    reveal_strlit("pedals/benson_preamp/benson_preamp_06_t9b3d9v6.nam");
    reveal_strlit("pedals/benson_preamp/benson_preamp_07_t4b8d3v6.nam");
    reveal_strlit("pedals/benson_preamp/benson_preamp_08_t4b8d6v6.nam");
    reveal_strlit("pedals/benson_preamp/benson_preamp_09_t4b8d9v6.nam");
    let t = spec_captures();
    assert forall|i: int| 0 <= i < t.len() implies
        names_value((#[trigger] t[i]).model_path@, "_"@ + eq_text(t[i].keys[0]@) + "d"@ + t[i].keys[1]@ + "v6.nam"@) by {
        let path = t[i].model_path@;
        let v = "_"@ + eq_text(t[i].keys[0]@) + "d"@ + t[i].keys[1]@ + "v6.nam"@;
        if i == 0 {
            assert("bright"@.len() != "flat"@.len());
            assert("dark"@[0] != "flat"@[0]);
            assert(path.subrange(37int, 37int + v.len()) =~= v);
        } else if i == 1 {
            assert("bright"@.len() != "flat"@.len());
            assert("dark"@[0] != "flat"@[0]);
            assert(path.subrange(37int, 37int + v.len()) =~= v);
        } else if i == 2 {
            assert("bright"@.len() != "flat"@.len());
            assert("dark"@[0] != "flat"@[0]);
            assert(path.subrange(37int, 37int + v.len()) =~= v);
        } else if i == 3 {
            assert("flat"@.len() != "bright"@.len());
            assert("dark"@.len() != "bright"@.len());
            assert(path.subrange(37int, 37int + v.len()) =~= v);
        } else if i == 4 {
            assert("flat"@.len() != "bright"@.len());
            assert("dark"@.len() != "bright"@.len());
            assert(path.subrange(37int, 37int + v.len()) =~= v);
        } else if i == 5 {
            assert("flat"@.len() != "bright"@.len());
            assert("dark"@.len() != "bright"@.len());
            assert(path.subrange(37int, 37int + v.len()) =~= v);
        } else if i == 6 {
            assert("flat"@[0] != "dark"@[0]);
            assert("bright"@.len() != "dark"@.len());
            assert(path.subrange(37int, 37int + v.len()) =~= v);
        } else if i == 7 {
            assert("flat"@[0] != "dark"@[0]);
            assert("bright"@.len() != "dark"@.len());
            assert(path.subrange(37int, 37int + v.len()) =~= v);
        } else if i == 8 {
            assert("flat"@[0] != "dark"@[0]);
            assert("bright"@.len() != "dark"@.len());
            assert(path.subrange(37int, 37int + v.len()) =~= v);
        }
    }
}

} // verus!
