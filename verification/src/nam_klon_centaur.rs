//! The "Klon Centaur Silver" gain model (klon), played from neural captures, one per recorded setting.

use vstd::prelude::*;
use crate::capture::{
    names_value, files_name_settings, files_distinct,
    Capture, CaptureView, table_view, find_capture, first_selected, asset_text, lemma_first_selected,
    lemma_selected_at, captures_follow_schema, default_setting, defaults_present, captures_distinct,
    every_setting_selects, setting_of_choices,
};
use crate::error::GainError;
use crate::model::{BackendKind, Instruments, KnobLayoutEntry, ModelDefinition, ModelDefinitionView};
use crate::schema::{
    EffectType, EnumChoice, ModelSchema, ModelSchemaView, ParameterKindView, ParameterSpecView,
    choice, enum_parameter, parameters_view, schema_well_formed, choices_at, str_texts, is_choice,
    parameter_well_formed, choice_values, parameter_paths,
};
use crate::text::{concat, join, texts};

verus! {

pub const MODEL_ID: &'static str = "klon_centaur";
pub const DISPLAY_NAME: &'static str = "Klon Centaur Silver";
pub const BRAND: &'static str = "klon";

pub open spec fn spec_model_schema() -> ModelSchemaView {
    ModelSchemaView {
        effect_type: EffectType::Gain,
        model: MODEL_ID,
        display_name: DISPLAY_NAME,
        audio_mode: None,
        parameters: Some(seq![
            ParameterSpecView {
                path: "setting",
                label: "Setting",
                group: Some("Pedal"),
                kind: ParameterKindView::Enum {
                    default: Some("555"),
                    choices: seq![
                        EnumChoice { value: "255", label: "T2 G5 O5" },
                        EnumChoice { value: "277", label: "T2 G7 O7" },
                        EnumChoice { value: "468", label: "T4 G6 O8" },
                        EnumChoice { value: "555", label: "T5 G5 O5" },
                        EnumChoice { value: "668", label: "T6 G6 O8" },
                        EnumChoice { value: "john_mayer", label: "John Mayer" },
                    ],
                },
            },
        ]),
    }
}

/// The parameters of the model.
pub fn model_schema() -> (schema: ModelSchema)
    ensures
        schema@ == spec_model_schema(),
{
    let parameters = vec![
        enum_parameter(
            "setting",
            "Setting",
            Some("Pedal"),
            Some("555"),
            vec![
                choice("255", "T2 G5 O5"),
                choice("277", "T2 G7 O7"),
                choice("468", "T4 G6 O8"),
                choice("555", "T5 G5 O5"),
                choice("668", "T6 G6 O8"),
                choice("john_mayer", "John Mayer"),
            ],
        ),
    ];
    assert(parameters_view(parameters@) =~= spec_model_schema().parameters.unwrap());
    ModelSchema {
        effect_type: EffectType::Gain,
        model: MODEL_ID,
        display_name: DISPLAY_NAME,
        audio_mode: None,
        parameters: Some(parameters),
    }
}

/// The positions, in the schema, of the parameters that select a capture.
pub open spec fn key_params() -> Seq<int> {
    seq![0]
}

pub open spec fn spec_captures() -> Seq<CaptureView> {
    seq![
        CaptureView { keys: seq!["255"], model_path: "pedals/klon_centaur/klon_255.nam" },
        CaptureView { keys: seq!["277"], model_path: "pedals/klon_centaur/klon_277.nam" },
        CaptureView { keys: seq!["468"], model_path: "pedals/klon_centaur/klon_468.nam" },
        CaptureView { keys: seq!["555"], model_path: "pedals/klon_centaur/klon_555.nam" },
        CaptureView { keys: seq!["668"], model_path: "pedals/klon_centaur/klon_668.nam" },
        CaptureView { keys: seq!["john_mayer"], model_path: "pedals/klon_centaur/klon_john_mayer.nam" },
    ]
}

/// The captures of the pedal, each with its (setting) setting.
pub fn captures() -> (table: Vec<Capture>)
    ensures
        table_view(table@) == spec_captures(),
{
    let table = vec![
        Capture::one("255", "pedals/klon_centaur/klon_255.nam"),
        Capture::one("277", "pedals/klon_centaur/klon_277.nam"),
        Capture::one("468", "pedals/klon_centaur/klon_468.nam"),
        Capture::one("555", "pedals/klon_centaur/klon_555.nam"),
        Capture::one("668", "pedals/klon_centaur/klon_668.nam"),
        Capture::one("john_mayer", "pedals/klon_centaur/klon_john_mayer.nam"),
    ];
    assert(table_view(table@) =~= spec_captures());
    table
}

/// What the model reports for a setting at which no capture was recorded.
pub open spec fn unsupported_message(setting: Seq<char>) -> Seq<char> {
    concat(seq!["gain model '"@, MODEL_ID@, "' does not support setting='"@, setting, "'"@])
}

/// The index of the capture that (setting) selects.
pub open spec fn selection(setting: Seq<char>) -> Option<int> {
    first_selected(spec_captures(), seq![setting])
}

fn unsupported(setting: &str) -> (e: GainError)
    ensures
        e matches GainError::UnsupportedSetting(m) && m@ == unsupported_message(setting@),
{
    let parts = vec!["gain model '", MODEL_ID, "' does not support setting='", setting, "'"];
    let m = join(&parts);
    assert(texts(parts@) =~= seq!["gain model '"@, MODEL_ID@, "' does not support setting='"@, setting@, "'"@]);
    GainError::UnsupportedSetting(m)
}

/// The capture recorded at (setting).
pub fn resolve_capture(setting: &str) -> (selected: Result<&'static str, GainError>)
    ensures
        match selection(setting@) {
            Some(i) => selected matches Ok(path) && path == spec_captures()[i].model_path,
            None => selected matches Err(GainError::UnsupportedSetting(m)) && m@ == unsupported_message(setting@),
        },
{
    let table = captures();
    let request = vec![setting];
    assert(texts(request@) =~= seq![setting@]);
    match find_capture(&table, &request) {
        Some(i) => {
            proof {
                lemma_first_selected(spec_captures(), seq![setting@]);
            }
            Ok(table[i].model_path)
        },
        None => Err(unsupported(setting)),
    }
}

/// Accepts (setting) exactly where a capture was recorded there.
pub fn validate_params(setting: &str) -> (checked: Result<(), GainError>)
    ensures
        match selection(setting@) {
            Some(i) => checked is Ok,
            None => checked matches Err(GainError::UnsupportedSetting(m)) && m@ == unsupported_message(setting@),
        },
{
    match resolve_capture(setting) {
        Ok(_) => Ok(()),
        Err(e) => Err(e),
    }
}

/// Names the capture file that (setting) selects.
pub fn asset_summary(setting: &str) -> (summary: Result<String, GainError>)
    ensures
        match selection(setting@) {
            Some(i) => summary matches Ok(s) && s@ == asset_text(spec_captures()[i].model_path@),
            None => summary matches Err(GainError::UnsupportedSetting(m)) && m@ == unsupported_message(setting@),
        },
{
    match resolve_capture(setting) {
        Ok(c) => {
            let parts = vec!["model='", c, "'"];
            assert(texts(parts@) =~= seq!["model='"@, c@, "'"@]);
            Ok(join(&parts))
        },
        Err(e) => Err(e),
    }
}

pub open spec fn spec_model_definition() -> ModelDefinitionView {
    ModelDefinitionView {
        id: MODEL_ID,
        display_name: DISPLAY_NAME,
        brand: BRAND,
        backend_kind: BackendKind::Nam,
        supported_instruments: Instruments::GuitarBass,
        knob_layout: seq![],
    }
}

/// What the registry lists for this model.
pub fn model_definition() -> (d: ModelDefinition)
    ensures
        d@ == spec_model_definition(),
{
    let knob_layout: Vec<KnobLayoutEntry> = Vec::new();
    let d = ModelDefinition {
        id: MODEL_ID,
        display_name: DISPLAY_NAME,
        brand: BRAND,
        backend_kind: BackendKind::Nam,
        supported_instruments: Instruments::GuitarBass,
        knob_layout,
    };
    assert(d@.knob_layout =~= spec_model_definition().knob_layout);
    d
}

/// The schema is sound: every parameter is, and no two share a path.
pub proof fn lemma_schema_well_formed()
    ensures
        schema_well_formed(spec_model_schema()),
{
    reveal_strlit("setting");
    reveal_strlit("255");
    reveal_strlit("277");
    reveal_strlit("468");
    reveal_strlit("555");
    reveal_strlit("668");
    reveal_strlit("john_mayer");
    let ps = spec_model_schema().parameters.unwrap();
    assert forall|i: int| 0 <= i < ps.len() implies parameter_well_formed(#[trigger] ps[i]) by {
        if ps[i].kind is Enum {
            let vs = choice_values(ps[i].kind->Enum_choices);
            assert forall|a: int, b: int| 0 <= a < b < vs.len() implies vs[a] != vs[b] by {
                if vs[a] == vs[b] {
                    assert(vs[a].len() == vs[b].len());
                    assert(vs[a][0] == vs[b][0]);
                    assert(vs[a][1] == vs[b][1]);
                }
            }
        }
        if i == 0 {
            assert(ps[0].kind->Enum_choices[3].value@ == "555"@);
        }
    }
}

/// Each capture is recorded at choices the schema offers.
pub proof fn lemma_captures_follow_schema()
    ensures
        captures_follow_schema(spec_model_schema(), key_params(), spec_captures()),
{
    let s = spec_model_schema();
    let t = spec_captures();
    assert forall|i: int, k: int| 0 <= i < t.len() && 0 <= k < key_params().len() implies {
        &&& #[trigger] t[i].keys.len() == key_params().len()
        &&& is_choice(choices_at(s, key_params()[k]), #[trigger] t[i].keys[k]@)
    } by {
        let cs = choices_at(s, key_params()[k]);
        if k == 0 {
            if t[i].keys[0] == "255" {
                assert(cs[0].value@ == t[i].keys[k]@);
            } else if t[i].keys[0] == "277" {
                assert(cs[1].value@ == t[i].keys[k]@);
            } else if t[i].keys[0] == "468" {
                assert(cs[2].value@ == t[i].keys[k]@);
            } else if t[i].keys[0] == "555" {
                assert(cs[3].value@ == t[i].keys[k]@);
            } else if t[i].keys[0] == "668" {
                assert(cs[4].value@ == t[i].keys[k]@);
            } else {
                assert(cs[5].value@ == t[i].keys[k]@);
            }
        }
    }
}

/// No two captures share a setting.
pub proof fn lemma_captures_distinct()
    ensures
        captures_distinct(spec_captures()),
{
    reveal_strlit("255");
    reveal_strlit("277");
    reveal_strlit("468");
    reveal_strlit("555");
    reveal_strlit("668");
    reveal_strlit("john_mayer");
    let t = spec_captures();
    assert forall|a: int, b: int| 0 <= a < b < t.len() implies str_texts(t[a].keys) != str_texts(t[b].keys) by {
        let x = str_texts(t[a].keys);
        let y = str_texts(t[b].keys);
        if x == y {
            assert(x[0].len() == y[0].len());
            assert(x[0][0] == y[0][0]);
            assert(x[0][1] == y[0][1]);
        }
    }
}

/// Every setting the schema offers selects a capture; so do the defaults.
pub proof fn lemma_every_setting_selects()
    ensures
        every_setting_selects(spec_model_schema(), key_params(), spec_captures()),
        defaults_present(spec_model_schema(), key_params()),
        first_selected(spec_captures(), default_setting(spec_model_schema(), key_params())) is Some,
{
    let s = spec_model_schema();
    let t = spec_captures();
    assert forall|r: Seq<Seq<char>>| setting_of_choices(s, key_params(), r) implies
        (#[trigger] first_selected(t, r)) is Some by {
        let c0 = choices_at(s, 0);
        let i0 = choose|i: int| 0 <= i < c0.len() && c0[i].value@ == r[0];
        if i0 == 0 {
            lemma_selected_at(t, r, 0);
        } else if i0 == 1 {
            lemma_selected_at(t, r, 1);
        } else if i0 == 2 {
            lemma_selected_at(t, r, 2);
        } else if i0 == 3 {
            lemma_selected_at(t, r, 3);
        } else if i0 == 4 {
            lemma_selected_at(t, r, 4);
        } else if i0 == 5 {
            lemma_selected_at(t, r, 5);
        }
    }
    let dflt = default_setting(s, key_params());
    assert(dflt =~= seq!["555"@]);
    lemma_selected_at(t, dflt, 3);
}

/// Every capture names a file that writes each value of its setting, and
/// no two captures name the same file.
pub proof fn lemma_capture_files()
    ensures
        files_name_settings(spec_captures()),
        files_distinct(spec_captures()),
{
    reveal_strlit("pedals/klon_centaur/klon_255.nam");
    reveal_strlit("pedals/klon_centaur/klon_277.nam");
    reveal_strlit("pedals/klon_centaur/klon_468.nam");
    reveal_strlit("pedals/klon_centaur/klon_555.nam");
    reveal_strlit("pedals/klon_centaur/klon_668.nam");
    reveal_strlit("pedals/klon_centaur/klon_john_mayer.nam");
    reveal_strlit("255");
    reveal_strlit("277");
    reveal_strlit("468");
    reveal_strlit("555");
    reveal_strlit("668");
    reveal_strlit("john_mayer");
    let t = spec_captures();
    assert forall|i: int, k: int| 0 <= i < t.len() && 0 <= k < t[i].keys.len() implies
        names_value(#[trigger] t[i].model_path@, #[trigger] t[i].keys[k]@) by {
        let path = t[i].model_path@;
        let key = t[i].keys[k]@;
        if i == 0 {
            if k == 0 {
                assert(path.subrange(25int, 25int + key.len()) =~= key);
            }
        } else if i == 1 {
            if k == 0 {
                assert(path.subrange(25int, 25int + key.len()) =~= key);
            }
        } else if i == 2 {
            if k == 0 {
                assert(path.subrange(25int, 25int + key.len()) =~= key);
            }
        } else if i == 3 {
            if k == 0 {
                assert(path.subrange(25int, 25int + key.len()) =~= key);
            }
        } else if i == 4 {
            if k == 0 {
                assert(path.subrange(25int, 25int + key.len()) =~= key);
            }
        } else if i == 5 {
            if k == 0 {
                assert(path.subrange(25int, 25int + key.len()) =~= key);
            }
        }
    }
    assert forall|a: int, b: int| 0 <= a < b < 6 implies t[a].model_path@ != t[b].model_path@ by {
        if a == 0 && b == 1 {
            assert(t[0].model_path@[26] != t[1].model_path@[26]);
        } else if a == 0 && b == 2 {
            assert(t[0].model_path@[25] != t[2].model_path@[25]);
        } else if a == 0 && b == 3 {
            assert(t[0].model_path@[25] != t[3].model_path@[25]);
        } else if a == 0 && b == 4 {
            assert(t[0].model_path@[25] != t[4].model_path@[25]);
        } else if a == 0 && b == 5 {
            assert(t[0].model_path@.len() != t[5].model_path@.len());
        } else if a == 1 && b == 2 {
            assert(t[1].model_path@[25] != t[2].model_path@[25]);
        } else if a == 1 && b == 3 {
            assert(t[1].model_path@[25] != t[3].model_path@[25]);
        } else if a == 1 && b == 4 {
            assert(t[1].model_path@[25] != t[4].model_path@[25]);
        } else if a == 1 && b == 5 {
            assert(t[1].model_path@.len() != t[5].model_path@.len());
        } else if a == 2 && b == 3 {
            assert(t[2].model_path@[25] != t[3].model_path@[25]);
        } else if a == 2 && b == 4 {
            assert(t[2].model_path@[25] != t[4].model_path@[25]);
        } else if a == 2 && b == 5 {
            assert(t[2].model_path@.len() != t[5].model_path@.len());
        } else if a == 3 && b == 4 {
            assert(t[3].model_path@[25] != t[4].model_path@[25]);
        } else if a == 3 && b == 5 {
            assert(t[3].model_path@.len() != t[5].model_path@.len());
        } else if a == 4 && b == 5 {
            assert(t[4].model_path@.len() != t[5].model_path@.len());
        }
    }
}

/// The file recorded at a setting, as the recording names it.
pub open spec fn recorded_file(setting: Seq<char>) -> Seq<char> {
    "pedals/klon_centaur/klon_"@ + setting + ".nam"@
}

/// Every capture names the file recorded at its own setting.
pub proof fn lemma_captures_name_their_setting()
    ensures
        forall|i: int| 0 <= i < spec_captures().len() ==>
            (#[trigger] spec_captures()[i]).model_path@ == recorded_file(spec_captures()[i].keys[0]@),
{
    reveal_strlit("pedals/klon_centaur/klon_");
    reveal_strlit(".nam");
    reveal_strlit("pedals/klon_centaur/klon_255.nam");
    reveal_strlit("pedals/klon_centaur/klon_277.nam");
    reveal_strlit("pedals/klon_centaur/klon_468.nam");
    reveal_strlit("pedals/klon_centaur/klon_555.nam");
    reveal_strlit("pedals/klon_centaur/klon_668.nam");
    reveal_strlit("pedals/klon_centaur/klon_john_mayer.nam");
    reveal_strlit("255");
    reveal_strlit("277");
    reveal_strlit("468");
    reveal_strlit("555");
    reveal_strlit("668");
    reveal_strlit("john_mayer");
    let t = spec_captures();
    assert forall|i: int| 0 <= i < t.len() implies
        (#[trigger] t[i]).model_path@ == recorded_file(t[i].keys[0]@) by {
        if i == 0 {
            assert(t[i].model_path@ =~= recorded_file("255"@));
        } else if i == 1 {
            assert(t[i].model_path@ =~= recorded_file("277"@));
        } else if i == 2 {
            assert(t[i].model_path@ =~= recorded_file("468"@));
        } else if i == 3 {
            assert(t[i].model_path@ =~= recorded_file("555"@));
        } else if i == 4 {
            assert(t[i].model_path@ =~= recorded_file("668"@));
        } else if i == 5 {
            assert(t[i].model_path@ =~= recorded_file("john_mayer"@));
        }
    }
}

/// A setting that selects a capture selects the file recorded at that setting.
pub proof fn lemma_selected_file(setting: Seq<char>)
    ensures
        selection(setting) matches Some(i) ==> spec_captures()[i].model_path@ == recorded_file(setting),
{
    lemma_first_selected(spec_captures(), seq![setting]);
    lemma_captures_name_their_setting();
    if let Some(i) = selection(setting) {
        assert(spec_captures()[i].model_path@ == recorded_file(spec_captures()[i].keys[0]@));
    }
}

} // verus!
