//! The "OCD v1.5" gain model (fulltone), played from neural captures, one per recorded setting.

use vstd::prelude::*;
use crate::capture::{
    names_value, files_name_settings, files_distinct,
    Capture, CaptureView, table_view, find_capture, first_selected, asset_text, lemma_first_selected,
    lemma_selected_at, captures_follow_schema, default_setting, defaults_present, captures_distinct,
    every_setting_selects, setting_of_choices,
};
use crate::error::GainError;
use crate::model::{BackendKind, Instruments, KnobLayoutEntry, ModelDefinition, ModelDefinitionView};
use crate::schema::{
    EffectType, EnumChoice, ModelSchema, ModelSchemaView, ParameterKindView, ParameterSpecView,
    choice, enum_parameter, parameters_view, schema_well_formed, choices_at, str_texts, is_choice,
    parameter_well_formed, choice_values, parameter_paths,
};
use crate::text::{concat, join, texts};

verus! {

pub const MODEL_ID: &'static str = "fulltone_ocd_v15";
pub const DISPLAY_NAME: &'static str = "OCD v1.5";
pub const BRAND: &'static str = "fulltone";

/// The setting a capture was recorded at.
#[derive(Clone, Copy, Debug, PartialEq, Eq)]
pub struct OcdV15Params {
    pub mode: &'static str,
    pub drive: &'static str,
}

/// A capture of the pedal and the setting it was recorded at.
#[derive(Clone, Copy, Debug)]
pub struct OcdV15Capture {
    pub params: OcdV15Params,
    pub model_path: &'static str,
}

pub open spec fn spec_model_schema() -> ModelSchemaView {
    ModelSchemaView {
        effect_type: EffectType::Gain,
        model: MODEL_ID,
        display_name: DISPLAY_NAME,
        audio_mode: None,
        parameters: Some(seq![
            ParameterSpecView {
                path: "mode",
                label: "Mode",
                group: Some("Pedal"),
                kind: ParameterKindView::Enum {
                    default: Some("lp"),
                    choices: seq![
                        EnumChoice { value: "lp", label: "LP" },
                        EnumChoice { value: "hp", label: "HP" },
                    ],
                },
            },
            ParameterSpecView {
                path: "drive",
                label: "Drive",
                group: Some("Pedal"),
                kind: ParameterKindView::Enum {
                    default: Some("9"),
                    choices: seq![
                        EnumChoice { value: "3", label: "Low" },
                        EnumChoice { value: "9", label: "Medium" },
                        EnumChoice { value: "12", label: "High" },
                    ],
                },
            },
        ]),
    }
}

/// The parameters of the model.
pub fn model_schema() -> (schema: ModelSchema)
    ensures
        schema@ == spec_model_schema(),
{
    let parameters = vec![
        enum_parameter(
            "mode",
            "Mode",
            Some("Pedal"),
            Some("lp"),
            vec![
                choice("lp", "LP"),
                choice("hp", "HP"),
            ],
        ),
        enum_parameter(
            "drive",
            "Drive",
            Some("Pedal"),
            Some("9"),
            vec![
                choice("3", "Low"),
                choice("9", "Medium"),
                choice("12", "High"),
            ],
        ),
    ];
    assert(parameters_view(parameters@) =~= spec_model_schema().parameters.unwrap());
    ModelSchema {
        effect_type: EffectType::Gain,
        model: MODEL_ID,
        display_name: DISPLAY_NAME,
        audio_mode: None,
        parameters: Some(parameters),
    }
}

/// The positions, in the schema, of the parameters that select a capture.
pub open spec fn key_params() -> Seq<int> {
    seq![0, 1]
}

pub open spec fn spec_captures() -> Seq<CaptureView> {
    seq![
        CaptureView { keys: seq!["lp", "3"], model_path: "pedals/fulltone_ocd_v15/ocd15_lp_d3.nam" },
        CaptureView { keys: seq!["lp", "9"], model_path: "pedals/fulltone_ocd_v15/ocd15_lp_d9.nam" },
        CaptureView { keys: seq!["lp", "12"], model_path: "pedals/fulltone_ocd_v15/ocd15_lp_d12.nam" },
        CaptureView { keys: seq!["hp", "3"], model_path: "pedals/fulltone_ocd_v15/ocd15_hp_d3.nam" },
        CaptureView { keys: seq!["hp", "9"], model_path: "pedals/fulltone_ocd_v15/ocd15_hp_d9.nam" },
        CaptureView { keys: seq!["hp", "12"], model_path: "pedals/fulltone_ocd_v15/ocd15_hp_d12.nam" },
    ]
}

/// The captures of the pedal, each with its (mode, drive) setting.
pub fn captures() -> (table: Vec<Capture>)
    ensures
        table_view(table@) == spec_captures(),
{
    let table = vec![
        Capture::two("lp", "3", "pedals/fulltone_ocd_v15/ocd15_lp_d3.nam"),
        Capture::two("lp", "9", "pedals/fulltone_ocd_v15/ocd15_lp_d9.nam"),
        Capture::two("lp", "12", "pedals/fulltone_ocd_v15/ocd15_lp_d12.nam"),
        Capture::two("hp", "3", "pedals/fulltone_ocd_v15/ocd15_hp_d3.nam"),
        Capture::two("hp", "9", "pedals/fulltone_ocd_v15/ocd15_hp_d9.nam"),
        Capture::two("hp", "12", "pedals/fulltone_ocd_v15/ocd15_hp_d12.nam"),
    ];
    assert(table_view(table@) =~= spec_captures());
    table
}

/// What the model reports for a setting at which no capture was recorded.
pub open spec fn unsupported_message(mode: Seq<char>, drive: Seq<char>) -> Seq<char> {
    concat(seq!["gain model '"@, MODEL_ID@, "' does not support mode='"@, mode, "' drive='"@, drive, "'"@])
}

/// The index of the capture that (mode, drive) selects.
pub open spec fn selection(mode: Seq<char>, drive: Seq<char>) -> Option<int> {
    first_selected(spec_captures(), seq![mode, drive])
}

fn unsupported(mode: &str, drive: &str) -> (e: GainError)
    ensures
        e matches GainError::UnsupportedSetting(m) && m@ == unsupported_message(mode@, drive@),
{
    let parts = vec!["gain model '", MODEL_ID, "' does not support mode='", mode, "' drive='", drive, "'"];
    let m = join(&parts);
    assert(texts(parts@) =~= seq!["gain model '"@, MODEL_ID@, "' does not support mode='"@, mode@, "' drive='"@, drive@, "'"@]);
    GainError::UnsupportedSetting(m)
}

/// The capture recorded at (mode, drive).
pub fn resolve_capture(mode: &str, drive: &str) -> (selected: Result<OcdV15Capture, GainError>)
    ensures
        match selection(mode@, drive@) {
            Some(i) => selected matches Ok(c) && c.params.mode == spec_captures()[i].keys[0] && c.params.drive == spec_captures()[i].keys[1]
                && c.model_path == spec_captures()[i].model_path,
            None => selected matches Err(GainError::UnsupportedSetting(m)) && m@ == unsupported_message(mode@, drive@),
        },
{
    let table = captures();
    let request = vec![mode, drive];
    assert(texts(request@) =~= seq![mode@, drive@]);
    match find_capture(&table, &request) {
        Some(i) => {
            proof {
                lemma_first_selected(spec_captures(), seq![mode@, drive@]);
            }
            let c = &table[i];
            Ok(OcdV15Capture { params: OcdV15Params { mode: c.keys[0], drive: c.keys[1] }, model_path: c.model_path })
        },
        None => Err(unsupported(mode, drive)),
    }
}

/// Accepts (mode, drive) exactly where a capture was recorded there.
pub fn validate_params(mode: &str, drive: &str) -> (checked: Result<(), GainError>)
    ensures
        match selection(mode@, drive@) {
            Some(i) => checked is Ok,
            None => checked matches Err(GainError::UnsupportedSetting(m)) && m@ == unsupported_message(mode@, drive@),
        },
{
    match resolve_capture(mode, drive) {
        Ok(_) => Ok(()),
        Err(e) => Err(e),
    }
}

/// Names the capture file that (mode, drive) selects.
pub fn asset_summary(mode: &str, drive: &str) -> (summary: Result<String, GainError>)
    ensures
        match selection(mode@, drive@) {
            Some(i) => summary matches Ok(s) && s@ == asset_text(spec_captures()[i].model_path@),
            None => summary matches Err(GainError::UnsupportedSetting(m)) && m@ == unsupported_message(mode@, drive@),
        },
{
    match resolve_capture(mode, drive) {
        Ok(c) => {
            let parts = vec!["model='", c.model_path, "'"];
            assert(texts(parts@) =~= seq!["model='"@, c.model_path@, "'"@]);
            Ok(join(&parts))
        },
        Err(e) => Err(e),
    }
}

pub open spec fn spec_model_definition() -> ModelDefinitionView {
    ModelDefinitionView {
        id: MODEL_ID,
        display_name: DISPLAY_NAME,
        brand: BRAND,
        backend_kind: BackendKind::Nam,
        supported_instruments: Instruments::GuitarBass,
        knob_layout: seq![],
    }
}

/// What the registry lists for this model.
pub fn model_definition() -> (d: ModelDefinition)
    ensures
        d@ == spec_model_definition(),
{
    let knob_layout: Vec<KnobLayoutEntry> = Vec::new();
    let d = ModelDefinition {
        id: MODEL_ID,
        display_name: DISPLAY_NAME,
        brand: BRAND,
        backend_kind: BackendKind::Nam,
        supported_instruments: Instruments::GuitarBass,
        knob_layout,
    };
    assert(d@.knob_layout =~= spec_model_definition().knob_layout);
    d
}

/// The schema is sound: every parameter is, and no two share a path.
pub proof fn lemma_schema_well_formed()
    ensures
        schema_well_formed(spec_model_schema()),
{
    reveal_strlit("mode");
    reveal_strlit("drive");
    reveal_strlit("lp");
    reveal_strlit("hp");
    reveal_strlit("3");
    reveal_strlit("9");
    reveal_strlit("12");
    let ps = spec_model_schema().parameters.unwrap();
    assert forall|i: int| 0 <= i < ps.len() implies parameter_well_formed(#[trigger] ps[i]) by {
        if ps[i].kind is Enum {
            let vs = choice_values(ps[i].kind->Enum_choices);
            assert forall|a: int, b: int| 0 <= a < b < vs.len() implies vs[a] != vs[b] by {
                if vs[a] == vs[b] {
                    assert(vs[a].len() == vs[b].len());
                    assert(vs[a][0] == vs[b][0]);
                }
            }
        }
        if i == 0 {
            assert(ps[0].kind->Enum_choices[0].value@ == "lp"@);
        } else if i == 1 {
            assert(ps[1].kind->Enum_choices[1].value@ == "9"@);
        }
    }
    let paths = parameter_paths(ps);
    assert forall|a: int, b: int| 0 <= a < b < paths.len() implies paths[a] != paths[b] by {
        if paths[a] == paths[b] {
            assert(paths[a].len() == paths[b].len());
        }
    }
}

/// Each capture is recorded at choices the schema offers.
pub proof fn lemma_captures_follow_schema()
    ensures
        captures_follow_schema(spec_model_schema(), key_params(), spec_captures()),
{
    let s = spec_model_schema();
    let t = spec_captures();
    assert forall|i: int, k: int| 0 <= i < t.len() && 0 <= k < key_params().len() implies {
        &&& #[trigger] t[i].keys.len() == key_params().len()
        &&& is_choice(choices_at(s, key_params()[k]), #[trigger] t[i].keys[k]@)
    } by {
        let cs = choices_at(s, key_params()[k]);
        if k == 0 {
            if t[i].keys[0] == "lp" {
                assert(cs[0].value@ == t[i].keys[k]@);
            } else {
                assert(cs[1].value@ == t[i].keys[k]@);
            }
        } else if k == 1 {
            if t[i].keys[1] == "3" {
                assert(cs[0].value@ == t[i].keys[k]@);
            } else if t[i].keys[1] == "9" {
                assert(cs[1].value@ == t[i].keys[k]@);
            } else {
                assert(cs[2].value@ == t[i].keys[k]@);
            }
        }
    }
}

/// No two captures share a setting.
pub proof fn lemma_captures_distinct()
    ensures
        captures_distinct(spec_captures()),
{
    reveal_strlit("lp");
    reveal_strlit("3");
    reveal_strlit("9");
    reveal_strlit("12");
    reveal_strlit("hp");
    let t = spec_captures();
    assert forall|a: int, b: int| 0 <= a < b < t.len() implies str_texts(t[a].keys) != str_texts(t[b].keys) by {
        let x = str_texts(t[a].keys);
        let y = str_texts(t[b].keys);
        if x == y {
            assert(x[0].len() == y[0].len());
            assert(x[0][0] == y[0][0]);
            assert(x[1].len() == y[1].len());
            assert(x[1][0] == y[1][0]);
        }
    }
}

/// Every setting the schema offers selects a capture; so do the defaults.
pub proof fn lemma_every_setting_selects()
    ensures
        every_setting_selects(spec_model_schema(), key_params(), spec_captures()),
        defaults_present(spec_model_schema(), key_params()),
        first_selected(spec_captures(), default_setting(spec_model_schema(), key_params())) is Some,
{
    let s = spec_model_schema();
    let t = spec_captures();
    assert forall|r: Seq<Seq<char>>| setting_of_choices(s, key_params(), r) implies
        (#[trigger] first_selected(t, r)) is Some by {
        let c0 = choices_at(s, 0);
        let i0 = choose|i: int| 0 <= i < c0.len() && c0[i].value@ == r[0];
        let c1 = choices_at(s, 1);
        let i1 = choose|i: int| 0 <= i < c1.len() && c1[i].value@ == r[1];
        if i0 == 0 && i1 == 0 {
            lemma_selected_at(t, r, 0);
        } else if i0 == 0 && i1 == 1 {
            lemma_selected_at(t, r, 1);
        } else if i0 == 0 && i1 == 2 {
            lemma_selected_at(t, r, 2);
        } else if i0 == 1 && i1 == 0 {
            lemma_selected_at(t, r, 3);
        } else if i0 == 1 && i1 == 1 {
            lemma_selected_at(t, r, 4);
        } else if i0 == 1 && i1 == 2 {
            lemma_selected_at(t, r, 5);
        }
    }
    let dflt = default_setting(s, key_params());
    assert(dflt =~= seq!["lp"@, "9"@]);
    lemma_selected_at(t, dflt, 1);
}

/// Every capture names a file that writes each value of its setting, and
/// no two captures name the same file.
pub proof fn lemma_capture_files()
    ensures
        files_name_settings(spec_captures()),
        files_distinct(spec_captures()),
{
    reveal_strlit("pedals/fulltone_ocd_v15/ocd15_lp_d3.nam");
    reveal_strlit("pedals/fulltone_ocd_v15/ocd15_lp_d9.nam");
    reveal_strlit("pedals/fulltone_ocd_v15/ocd15_lp_d12.nam");
    reveal_strlit("pedals/fulltone_ocd_v15/ocd15_hp_d3.nam");
    reveal_strlit("pedals/fulltone_ocd_v15/ocd15_hp_d9.nam");
    reveal_strlit("pedals/fulltone_ocd_v15/ocd15_hp_d12.nam");
    reveal_strlit("lp");
    reveal_strlit("3");
    reveal_strlit("9");
    reveal_strlit("12");
    reveal_strlit("hp");
    let t = spec_captures();
    assert forall|i: int, k: int| 0 <= i < t.len() && 0 <= k < t[i].keys.len() implies
        names_value(#[trigger] t[i].model_path@, #[trigger] t[i].keys[k]@) by {
        let path = t[i].model_path@;
        let key = t[i].keys[k]@;
        if i == 0 {
            if k == 0 {
                assert(path.subrange(30int, 30int + key.len()) =~= key);
            } else if k == 1 {
                assert(path.subrange(34int, 34int + key.len()) =~= key);
            }
        } else if i == 1 {
            if k == 0 {
                assert(path.subrange(30int, 30int + key.len()) =~= key);
            } else if k == 1 {
                assert(path.subrange(34int, 34int + key.len()) =~= key);
            }
        } else if i == 2 {
            if k == 0 {
                assert(path.subrange(30int, 30int + key.len()) =~= key);
            } else if k == 1 {
                assert(path.subrange(34int, 34int + key.len()) =~= key);
            }
        } else if i == 3 {
            if k == 0 {
                assert(path.subrange(30int, 30int + key.len()) =~= key);
            } else if k == 1 {
                assert(path.subrange(34int, 34int + key.len()) =~= key);
            }
        } else if i == 4 {
            if k == 0 {
                assert(path.subrange(30int, 30int + key.len()) =~= key);
            } else if k == 1 {
                assert(path.subrange(34int, 34int + key.len()) =~= key);
            }
        } else if i == 5 {
            if k == 0 {
                assert(path.subrange(30int, 30int + key.len()) =~= key);
            } else if k == 1 {
                assert(path.subrange(34int, 34int + key.len()) =~= key);
            }
        }
    }
    assert forall|a: int, b: int| 0 <= a < b < 6 implies t[a].model_path@ != t[b].model_path@ by {
        if a == 0 && b == 1 {
            assert(t[0].model_path@[34] != t[1].model_path@[34]);
        } else if a == 0 && b == 2 {
            assert(t[0].model_path@.len() != t[2].model_path@.len());
        } else if a == 0 && b == 3 {
            assert(t[0].model_path@[30] != t[3].model_path@[30]);
        } else if a == 0 && b == 4 {
            assert(t[0].model_path@[30] != t[4].model_path@[30]);
        } else if a == 0 && b == 5 {
            assert(t[0].model_path@.len() != t[5].model_path@.len());
        } else if a == 1 && b == 2 {
            assert(t[1].model_path@.len() != t[2].model_path@.len());
        } else if a == 1 && b == 3 {
            assert(t[1].model_path@[30] != t[3].model_path@[30]);
        } else if a == 1 && b == 4 {
            assert(t[1].model_path@[30] != t[4].model_path@[30]);
        } else if a == 1 && b == 5 {
            assert(t[1].model_path@.len() != t[5].model_path@.len());
        } else if a == 2 && b == 3 {
            assert(t[2].model_path@.len() != t[3].model_path@.len());
        } else if a == 2 && b == 4 {
            assert(t[2].model_path@.len() != t[4].model_path@.len());
        } else if a == 2 && b == 5 {
            assert(t[2].model_path@[30] != t[5].model_path@[30]);
        } else if a == 3 && b == 4 {
            assert(t[3].model_path@[34] != t[4].model_path@[34]);
        } else if a == 3 && b == 5 {
            assert(t[3].model_path@.len() != t[5].model_path@.len());
        } else if a == 4 && b == 5 {
            assert(t[4].model_path@.len() != t[5].model_path@.len());
        }
    }
}

/// The file recorded at a setting, as the recording names it.
pub open spec fn recorded_file(mode: Seq<char>, drive: Seq<char>) -> Seq<char> {
    "pedals/fulltone_ocd_v15/ocd15_"@ + mode + "_d"@ + drive + ".nam"@
}

/// Every capture names the file recorded at its own setting.
pub proof fn lemma_captures_name_their_setting()
    ensures
        forall|i: int| 0 <= i < spec_captures().len() ==>
            (#[trigger] spec_captures()[i]).model_path@ == recorded_file(spec_captures()[i].keys[0]@, spec_captures()[i].keys[1]@),
{
    reveal_strlit("pedals/fulltone_ocd_v15/ocd15_");
    reveal_strlit("_d");
    reveal_strlit(".nam");
    reveal_strlit("pedals/fulltone_ocd_v15/ocd15_lp_d3.nam");
    reveal_strlit("pedals/fulltone_ocd_v15/ocd15_lp_d9.nam");
    reveal_strlit("pedals/fulltone_ocd_v15/ocd15_lp_d12.nam");
    reveal_strlit("pedals/fulltone_ocd_v15/ocd15_hp_d3.nam");
    reveal_strlit("pedals/fulltone_ocd_v15/ocd15_hp_d9.nam");
    reveal_strlit("pedals/fulltone_ocd_v15/ocd15_hp_d12.nam");
    reveal_strlit("lp");
    reveal_strlit("3");
    reveal_strlit("9");
    reveal_strlit("12");
    reveal_strlit("hp");
    let t = spec_captures();
    assert forall|i: int| 0 <= i < t.len() implies
        (#[trigger] t[i]).model_path@ == recorded_file(t[i].keys[0]@, t[i].keys[1]@) by {
        if i == 0 {
            assert(t[i].model_path@ =~= recorded_file("lp"@, "3"@));
        } else if i == 1 {
            assert(t[i].model_path@ =~= recorded_file("lp"@, "9"@));
        } else if i == 2 {
            assert(t[i].model_path@ =~= recorded_file("lp"@, "12"@));
        } else if i == 3 {
            assert(t[i].model_path@ =~= recorded_file("hp"@, "3"@));
        } else if i == 4 {
            assert(t[i].model_path@ =~= recorded_file("hp"@, "9"@));
        } else if i == 5 {
            assert(t[i].model_path@ =~= recorded_file("hp"@, "12"@));
        }
    }
}

/// A setting that selects a capture selects the file recorded at that setting.
pub proof fn lemma_selected_file(mode: Seq<char>, drive: Seq<char>)
    ensures
        selection(mode, drive) matches Some(i) ==> spec_captures()[i].model_path@ == recorded_file(mode, drive),
{
    lemma_first_selected(spec_captures(), seq![mode, drive]);
    lemma_captures_name_their_setting();
    if let Some(i) = selection(mode, drive) {
        assert(spec_captures()[i].model_path@ == recorded_file(spec_captures()[i].keys[0]@, spec_captures()[i].keys[1]@));
    }
}

} // verus!
