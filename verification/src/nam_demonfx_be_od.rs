//! The "BE-OD Clone" gain model (demonfx), played from neural captures, one per recorded setting.

use vstd::prelude::*;
use crate::capture::{
    names_value, files_name_settings, files_distinct,
    Capture, CaptureView, table_view, find_capture, first_selected, asset_text, lemma_first_selected,
    lemma_selected_at, captures_follow_schema, default_setting, defaults_present, captures_distinct,
    every_setting_selects, setting_of_choices,
};
use crate::error::GainError;
use crate::model::{BackendKind, Instruments, KnobLayoutEntry, ModelDefinition, ModelDefinitionView};
use crate::schema::{
    EffectType, EnumChoice, ModelSchema, ModelSchemaView, ParameterKindView, ParameterSpecView,
    choice, enum_parameter, parameters_view, schema_well_formed, choices_at, str_texts, is_choice,
    parameter_well_formed, choice_values, parameter_paths,
};
use crate::text::{concat, join, texts};

verus! {

pub const MODEL_ID: &'static str = "demonfx_be_od";
pub const DISPLAY_NAME: &'static str = "BE-OD Clone";
pub const BRAND: &'static str = "demonfx";

pub open spec fn spec_model_schema() -> ModelSchemaView {
    ModelSchemaView {
        effect_type: EffectType::Gain,
        model: MODEL_ID,
        display_name: DISPLAY_NAME,
        audio_mode: None,
        parameters: Some(seq![
            ParameterSpecView {
                path: "gain",
                label: "Gain",
                group: Some("Pedal"),
                kind: ParameterKindView::Enum {
                    default: Some("75"),
                    choices: seq![
                        EnumChoice { value: "50", label: "Low" },
                        EnumChoice { value: "75", label: "Medium" },
                        EnumChoice { value: "100", label: "High" },
                        EnumChoice { value: "100_tight", label: "High Tight" },
                    ],
                },
            },
        ]),
    }
}

/// The parameters of the model.
pub fn model_schema() -> (schema: ModelSchema)
    ensures
        schema@ == spec_model_schema(),
{
    let parameters = vec![
        enum_parameter(
            "gain",
            "Gain",
            Some("Pedal"),
            Some("75"),
            vec![
                choice("50", "Low"),
                choice("75", "Medium"),
                choice("100", "High"),
                choice("100_tight", "High Tight"),
            ],
        ),
    ];
    assert(parameters_view(parameters@) =~= spec_model_schema().parameters.unwrap());
    ModelSchema {
        effect_type: EffectType::Gain,
        model: MODEL_ID,
        display_name: DISPLAY_NAME,
        audio_mode: None,
        parameters: Some(parameters),
    }
}

/// The positions, in the schema, of the parameters that select a capture.
pub open spec fn key_params() -> Seq<int> {
    seq![0]
}

pub open spec fn spec_captures() -> Seq<CaptureView> {
    seq![
        CaptureView { keys: seq!["50"], model_path: "pedals/demonfx_be_od/be_od_g50.nam" },
        CaptureView { keys: seq!["75"], model_path: "pedals/demonfx_be_od/be_od_g75.nam" },
        CaptureView { keys: seq!["100"], model_path: "pedals/demonfx_be_od/be_od_g100.nam" },
        CaptureView { keys: seq!["100_tight"], model_path: "pedals/demonfx_be_od/be_od_g100_tight.nam" },
    ]
}

/// The captures of the pedal, each with its (gain) setting.
pub fn captures() -> (table: Vec<Capture>)
    ensures
        table_view(table@) == spec_captures(),
{
    let table = vec![
        Capture::one("50", "pedals/demonfx_be_od/be_od_g50.nam"),
        Capture::one("75", "pedals/demonfx_be_od/be_od_g75.nam"),
        Capture::one("100", "pedals/demonfx_be_od/be_od_g100.nam"),
        Capture::one("100_tight", "pedals/demonfx_be_od/be_od_g100_tight.nam"),
    ];
    assert(table_view(table@) =~= spec_captures());
    table
}

/// What the model reports for a setting at which no capture was recorded.
pub open spec fn unsupported_message(gain: Seq<char>) -> Seq<char> {
    concat(seq!["gain model '"@, MODEL_ID@, "' does not support gain='"@, gain, "'"@])
}

/// The index of the capture that (gain) selects.
pub open spec fn selection(gain: Seq<char>) -> Option<int> {
    first_selected(spec_captures(), seq![gain])
}

fn unsupported(gain: &str) -> (e: GainError)
    ensures
        e matches GainError::UnsupportedSetting(m) && m@ == unsupported_message(gain@),
{
    let parts = vec!["gain model '", MODEL_ID, "' does not support gain='", gain, "'"];
    let m = join(&parts);
    assert(texts(parts@) =~= seq!["gain model '"@, MODEL_ID@, "' does not support gain='"@, gain@, "'"@]);
    GainError::UnsupportedSetting(m)
}

/// The capture recorded at (gain).
pub fn resolve_capture(gain: &str) -> (selected: Result<&'static str, GainError>)
    ensures
        match selection(gain@) {
            Some(i) => selected matches Ok(path) && path == spec_captures()[i].model_path,
            None => selected matches Err(GainError::UnsupportedSetting(m)) && m@ == unsupported_message(gain@),
        },
{
    let table = captures();
    let request = vec![gain];
    assert(texts(request@) =~= seq![gain@]);
    match find_capture(&table, &request) {
        Some(i) => {
            proof {
                lemma_first_selected(spec_captures(), seq![gain@]);
            }
            Ok(table[i].model_path)
        },
        None => Err(unsupported(gain)),
    }
}

/// Accepts (gain) exactly where a capture was recorded there.
pub fn validate_params(gain: &str) -> (checked: Result<(), GainError>)
    ensures
        match selection(gain@) {
            Some(i) => checked is Ok,
            None => checked matches Err(GainError::UnsupportedSetting(m)) && m@ == unsupported_message(gain@),
        },
{
    match resolve_capture(gain) {
        Ok(_) => Ok(()),
        Err(e) => Err(e),
    }
}

/// Names the capture file that (gain) selects.
pub fn asset_summary(gain: &str) -> (summary: Result<String, GainError>)
    ensures
        match selection(gain@) {
            Some(i) => summary matches Ok(s) && s@ == asset_text(spec_captures()[i].model_path@),
            None => summary matches Err(GainError::UnsupportedSetting(m)) && m@ == unsupported_message(gain@),
        },
{
    match resolve_capture(gain) {
        Ok(c) => {
            let parts = vec!["model='", c, "'"];
            assert(texts(parts@) =~= seq!["model='"@, c@, "'"@]);
            Ok(join(&parts))
        },
        Err(e) => Err(e),
    }
}

pub open spec fn spec_model_definition() -> ModelDefinitionView {
    ModelDefinitionView {
        id: MODEL_ID,
        display_name: DISPLAY_NAME,
        brand: BRAND,
        backend_kind: BackendKind::Nam,
        supported_instruments: Instruments::GuitarBass,
        knob_layout: seq![],
    }
}

/// What the registry lists for this model.
pub fn model_definition() -> (d: ModelDefinition)
    ensures
        d@ == spec_model_definition(),
{
    let knob_layout: Vec<KnobLayoutEntry> = Vec::new();
    let d = ModelDefinition {
        id: MODEL_ID,
        display_name: DISPLAY_NAME,
        brand: BRAND,
        backend_kind: BackendKind::Nam,
        supported_instruments: Instruments::GuitarBass,
        knob_layout,
    };
    assert(d@.knob_layout =~= spec_model_definition().knob_layout);
    d
}

/// The schema is sound: every parameter is, and no two share a path.
pub proof fn lemma_schema_well_formed()
    ensures
        schema_well_formed(spec_model_schema()),
{
    reveal_strlit("gain");
    reveal_strlit("50");
    reveal_strlit("75");
    reveal_strlit("100");
    reveal_strlit("100_tight");
    let ps = spec_model_schema().parameters.unwrap();
    assert forall|i: int| 0 <= i < ps.len() implies parameter_well_formed(#[trigger] ps[i]) by {
        if ps[i].kind is Enum {
            let vs = choice_values(ps[i].kind->Enum_choices);
            assert forall|a: int, b: int| 0 <= a < b < vs.len() implies vs[a] != vs[b] by {
                if vs[a] == vs[b] {
                    assert(vs[a].len() == vs[b].len());
                    assert(vs[a][0] == vs[b][0]);
                }
            }
        }
        if i == 0 {
            assert(ps[0].kind->Enum_choices[1].value@ == "75"@);
        }
    }
}

/// Each capture is recorded at choices the schema offers.
pub proof fn lemma_captures_follow_schema()
    ensures
        captures_follow_schema(spec_model_schema(), key_params(), spec_captures()),
{
    let s = spec_model_schema();
    let t = spec_captures();
    assert forall|i: int, k: int| 0 <= i < t.len() && 0 <= k < key_params().len() implies {
        &&& #[trigger] t[i].keys.len() == key_params().len()
        &&& is_choice(choices_at(s, key_params()[k]), #[trigger] t[i].keys[k]@)
    } by {
        let cs = choices_at(s, key_params()[k]);
        if k == 0 {
            if t[i].keys[0] == "50" {
                assert(cs[0].value@ == t[i].keys[k]@);
            } else if t[i].keys[0] == "75" {
                assert(cs[1].value@ == t[i].keys[k]@);
            } else if t[i].keys[0] == "100" {
                assert(cs[2].value@ == t[i].keys[k]@);
            } else {
                assert(cs[3].value@ == t[i].keys[k]@);
            }
        }
    }
}

/// No two captures share a setting.
pub proof fn lemma_captures_distinct()
    ensures
        captures_distinct(spec_captures()),
{
    reveal_strlit("50");
    reveal_strlit("75");
    reveal_strlit("100");
    reveal_strlit("100_tight");
    let t = spec_captures();
    assert forall|a: int, b: int| 0 <= a < b < t.len() implies str_texts(t[a].keys) != str_texts(t[b].keys) by {
        let x = str_texts(t[a].keys);
        let y = str_texts(t[b].keys);
        if x == y {
            assert(x[0].len() == y[0].len());
            assert(x[0][0] == y[0][0]);
        }
    }
}

/// Every setting the schema offers selects a capture; so do the defaults.
pub proof fn lemma_every_setting_selects()
    ensures
        every_setting_selects(spec_model_schema(), key_params(), spec_captures()),
        defaults_present(spec_model_schema(), key_params()),
        first_selected(spec_captures(), default_setting(spec_model_schema(), key_params())) is Some,
{
    let s = spec_model_schema();
    let t = spec_captures();
    assert forall|r: Seq<Seq<char>>| setting_of_choices(s, key_params(), r) implies
        (#[trigger] first_selected(t, r)) is Some by {
        let c0 = choices_at(s, 0);
        let i0 = choose|i: int| 0 <= i < c0.len() && c0[i].value@ == r[0];
        if i0 == 0 {
            lemma_selected_at(t, r, 0);
        } else if i0 == 1 {
            lemma_selected_at(t, r, 1);
        } else if i0 == 2 {
            lemma_selected_at(t, r, 2);
        } else if i0 == 3 {
            lemma_selected_at(t, r, 3);
        }
    }
    let dflt = default_setting(s, key_params());
    assert(dflt =~= seq!["75"@]);
    lemma_selected_at(t, dflt, 1);
}

/// Every capture names a file that writes each value of its setting, and
/// no two captures name the same file.
pub proof fn lemma_capture_files()
    ensures
        files_name_settings(spec_captures()),
        files_distinct(spec_captures()),
{
    reveal_strlit("pedals/demonfx_be_od/be_od_g50.nam");
    reveal_strlit("pedals/demonfx_be_od/be_od_g75.nam");
    reveal_strlit("pedals/demonfx_be_od/be_od_g100.nam");
    reveal_strlit("pedals/demonfx_be_od/be_od_g100_tight.nam");
    reveal_strlit("50");
    reveal_strlit("75");
    reveal_strlit("100");
    reveal_strlit("100_tight");
    let t = spec_captures();
    assert forall|i: int, k: int| 0 <= i < t.len() && 0 <= k < t[i].keys.len() implies
        names_value(#[trigger] t[i].model_path@, #[trigger] t[i].keys[k]@) by {
        let path = t[i].model_path@;
        let key = t[i].keys[k]@;
        if i == 0 {
            if k == 0 {
                assert(path.subrange(28int, 28int + key.len()) =~= key);
            }
        } else if i == 1 {
            if k == 0 {
                assert(path.subrange(28int, 28int + key.len()) =~= key);
            }
        } else if i == 2 {
            if k == 0 {
                assert(path.subrange(28int, 28int + key.len()) =~= key);
            }
        } else if i == 3 {
            if k == 0 {
                assert(path.subrange(28int, 28int + key.len()) =~= key);
            }
        }
    }
    assert forall|a: int, b: int| 0 <= a < b < 4 implies t[a].model_path@ != t[b].model_path@ by {
        if a == 0 && b == 1 {
            assert(t[0].model_path@[28] != t[1].model_path@[28]);
        } else if a == 0 && b == 2 {
            assert(t[0].model_path@.len() != t[2].model_path@.len());
        } else if a == 0 && b == 3 {
            assert(t[0].model_path@.len() != t[3].model_path@.len());
        } else if a == 1 && b == 2 {
            assert(t[1].model_path@.len() != t[2].model_path@.len());
        } else if a == 1 && b == 3 {
            assert(t[1].model_path@.len() != t[3].model_path@.len());
        } else if a == 2 && b == 3 {
            assert(t[2].model_path@.len() != t[3].model_path@.len());
        }
    }
}

/// The file recorded at a setting, as the recording names it.
pub open spec fn recorded_file(gain: Seq<char>) -> Seq<char> {
    "pedals/demonfx_be_od/be_od_g"@ + gain + ".nam"@
}

/// Every capture names the file recorded at its own setting.
pub proof fn lemma_captures_name_their_setting()
    ensures
        forall|i: int| 0 <= i < spec_captures().len() ==>
            (#[trigger] spec_captures()[i]).model_path@ == recorded_file(spec_captures()[i].keys[0]@),
{
    reveal_strlit("pedals/demonfx_be_od/be_od_g");
    reveal_strlit(".nam");
    reveal_strlit("pedals/demonfx_be_od/be_od_g50.nam");
    reveal_strlit("pedals/demonfx_be_od/be_od_g75.nam");
    reveal_strlit("pedals/demonfx_be_od/be_od_g100.nam");
    reveal_strlit("pedals/demonfx_be_od/be_od_g100_tight.nam");
    reveal_strlit("50");
    reveal_strlit("75");
    reveal_strlit("100");
    reveal_strlit("100_tight");
    let t = spec_captures();
    assert forall|i: int| 0 <= i < t.len() implies
        (#[trigger] t[i]).model_path@ == recorded_file(t[i].keys[0]@) by {
        if i == 0 {
            assert(t[i].model_path@ =~= recorded_file("50"@));
        } else if i == 1 {
            assert(t[i].model_path@ =~= recorded_file("75"@));
        } else if i == 2 {
            assert(t[i].model_path@ =~= recorded_file("100"@));
        } else if i == 3 {
            assert(t[i].model_path@ =~= recorded_file("100_tight"@));
        }
    }
}

/// A setting that selects a capture selects the file recorded at that setting.
pub proof fn lemma_selected_file(gain: Seq<char>)
    ensures
        selection(gain) matches Some(i) ==> spec_captures()[i].model_path@ == recorded_file(gain),
{
    lemma_first_selected(spec_captures(), seq![gain]);
    lemma_captures_name_their_setting();
    if let Some(i) = selection(gain) {
        assert(spec_captures()[i].model_path@ == recorded_file(spec_captures()[i].keys[0]@));
    }
}

} // verus!
