//! The "Death By Audio Fuzz War" gain model (death_by_audio), played from neural captures, one per recorded setting.

use vstd::prelude::*;
use crate::capture::{
    names_value, files_name_settings, files_distinct,
    Capture, CaptureView, table_view, find_capture, first_selected, asset_text, lemma_first_selected,
    lemma_selected_at, captures_follow_schema, default_setting, defaults_present, captures_distinct,
    every_setting_selects, setting_of_choices,
};
use crate::error::GainError;
use crate::model::{BackendKind, Instruments, KnobLayoutEntry, ModelDefinition, ModelDefinitionView};
use crate::schema::{
    EffectType, EnumChoice, ModelSchema, ModelSchemaView, ParameterKindView, ParameterSpecView,
    choice, enum_parameter, parameters_view, schema_well_formed, choices_at, str_texts, is_choice,
    parameter_well_formed, choice_values, parameter_paths,
};
use crate::text::{concat, join, texts};

verus! {

pub const MODEL_ID: &'static str = "nam_death_by_audio_fuzz_war";
pub const DISPLAY_NAME: &'static str = "Death By Audio Fuzz War";
pub const BRAND: &'static str = "death_by_audio";

pub open spec fn spec_model_schema() -> ModelSchemaView {
    ModelSchemaView {
        effect_type: EffectType::Gain,
        model: MODEL_ID,
        display_name: DISPLAY_NAME,
        audio_mode: None,
        parameters: Some(seq![
            ParameterSpecView {
                path: "sustain",
                label: "Sustain",
                group: Some("Pedal"),
                kind: ParameterKindView::Enum {
                    default: Some("5"),
                    choices: seq![
                        EnumChoice { value: "5", label: "5" },
                        EnumChoice { value: "10", label: "10" },
                    ],
                },
            },
            ParameterSpecView {
                path: "tone",
                label: "Tone",
                group: Some("Pedal"),
                kind: ParameterKindView::Enum {
                    default: Some("5"),
                    choices: seq![
                        EnumChoice { value: "1", label: "1" },
                        EnumChoice { value: "5", label: "5" },
                        EnumChoice { value: "10", label: "10" },
                    ],
                },
            },
        ]),
    }
}

/// The parameters of the model.
pub fn model_schema() -> (schema: ModelSchema)
    ensures
        schema@ == spec_model_schema(),
{
    let parameters = vec![
        enum_parameter(
            "sustain",
            "Sustain",
            Some("Pedal"),
            Some("5"),
            vec![
                choice("5", "5"),
                choice("10", "10"),
            ],
        ),
        enum_parameter(
            "tone",
            "Tone",
            Some("Pedal"),
            Some("5"),
            vec![
                choice("1", "1"),
                choice("5", "5"),
                choice("10", "10"),
            ],
        ),
    ];
    assert(parameters_view(parameters@) =~= spec_model_schema().parameters.unwrap());
    ModelSchema {
        effect_type: EffectType::Gain,
        model: MODEL_ID,
        display_name: DISPLAY_NAME,
        audio_mode: None,
        parameters: Some(parameters),
    }
}

/// The positions, in the schema, of the parameters that select a capture.
pub open spec fn key_params() -> Seq<int> {
    seq![0, 1]
}

pub open spec fn spec_captures() -> Seq<CaptureView> {
    seq![
        CaptureView { keys: seq!["5", "1"], model_path: "pedals/death_by_audio_fuzz_war/fuzz_war_clone_sustain_5_tone_1_fuzz_war_sus5_ton1.nam" },
        CaptureView { keys: seq!["5", "5"], model_path: "pedals/death_by_audio_fuzz_war/fuzz_war_clone_sustain_5_tone_5_fuzz_ware_sus5_ton.nam" },
        CaptureView { keys: seq!["5", "10"], model_path: "pedals/death_by_audio_fuzz_war/fuzz_war_clone_sustain_5_tone_10_fuzz_war_sus5_ton.nam" },
        CaptureView { keys: seq!["10", "1"], model_path: "pedals/death_by_audio_fuzz_war/fuzz_war_clone_sustain_10_tone_1_fuzz_war_sus10_to.nam" },
        CaptureView { keys: seq!["10", "5"], model_path: "pedals/death_by_audio_fuzz_war/fuzz_war_clone_sustain_10_tone_5_fuzz_war_sus10_to.nam" },
        CaptureView { keys: seq!["10", "10"], model_path: "pedals/death_by_audio_fuzz_war/fuzz_war_clone_sustain_10_tone_10_fuzz_war_sus10_t.nam" },
    ]
}

/// The captures of the pedal, each with its (sustain, tone) setting.
pub fn captures() -> (table: Vec<Capture>)
    ensures
        table_view(table@) == spec_captures(),
{
    let table = vec![
        Capture::two("5", "1", "pedals/death_by_audio_fuzz_war/fuzz_war_clone_sustain_5_tone_1_fuzz_war_sus5_ton1.nam"),
        Capture::two("5", "5", "pedals/death_by_audio_fuzz_war/fuzz_war_clone_sustain_5_tone_5_fuzz_ware_sus5_ton.nam"),
        Capture::two("5", "10", "pedals/death_by_audio_fuzz_war/fuzz_war_clone_sustain_5_tone_10_fuzz_war_sus5_ton.nam"),
        Capture::two("10", "1", "pedals/death_by_audio_fuzz_war/fuzz_war_clone_sustain_10_tone_1_fuzz_war_sus10_to.nam"),
        Capture::two("10", "5", "pedals/death_by_audio_fuzz_war/fuzz_war_clone_sustain_10_tone_5_fuzz_war_sus10_to.nam"),
        Capture::two("10", "10", "pedals/death_by_audio_fuzz_war/fuzz_war_clone_sustain_10_tone_10_fuzz_war_sus10_t.nam"),
    ];
    assert(table_view(table@) =~= spec_captures());
    table
}

/// What the model reports for a setting at which no capture was recorded.
pub open spec fn unsupported_message(sustain: Seq<char>, tone: Seq<char>) -> Seq<char> {
    concat(seq!["gain '"@, MODEL_ID@, "' has no capture for sustain="@, sustain, " tone="@, tone])
}

/// The index of the capture that (sustain, tone) selects.
pub open spec fn selection(sustain: Seq<char>, tone: Seq<char>) -> Option<int> {
    first_selected(spec_captures(), seq![sustain, tone])
}

fn unsupported(sustain: &str, tone: &str) -> (e: GainError)
    ensures
        e matches GainError::UnsupportedSetting(m) && m@ == unsupported_message(sustain@, tone@),
{
    let parts = vec!["gain '", MODEL_ID, "' has no capture for sustain=", sustain, " tone=", tone];
    let m = join(&parts);
    assert(texts(parts@) =~= seq!["gain '"@, MODEL_ID@, "' has no capture for sustain="@, sustain@, " tone="@, tone@]);
    GainError::UnsupportedSetting(m)
}

/// The capture recorded at (sustain, tone).
pub fn resolve_capture(sustain: &str, tone: &str) -> (selected: Result<&'static str, GainError>)
    ensures
        match selection(sustain@, tone@) {
            Some(i) => selected matches Ok(path) && path == spec_captures()[i].model_path,
            None => selected matches Err(GainError::UnsupportedSetting(m)) && m@ == unsupported_message(sustain@, tone@),
        },
{
    let table = captures();
    let request = vec![sustain, tone];
    assert(texts(request@) =~= seq![sustain@, tone@]);
    match find_capture(&table, &request) {
        Some(i) => {
            proof {
                lemma_first_selected(spec_captures(), seq![sustain@, tone@]);
            }
            Ok(table[i].model_path)
        },
        None => Err(unsupported(sustain, tone)),
    }
}

/// Accepts (sustain, tone) exactly where a capture was recorded there.
pub fn validate_params(sustain: &str, tone: &str) -> (checked: Result<(), GainError>)
    ensures
        match selection(sustain@, tone@) {
            Some(i) => checked is Ok,
            None => checked matches Err(GainError::UnsupportedSetting(m)) && m@ == unsupported_message(sustain@, tone@),
        },
{
    match resolve_capture(sustain, tone) {
        Ok(_) => Ok(()),
        Err(e) => Err(e),
    }
}

/// Names the capture file that (sustain, tone) selects.
pub fn asset_summary(sustain: &str, tone: &str) -> (summary: Result<String, GainError>)
    ensures
        match selection(sustain@, tone@) {
            Some(i) => summary matches Ok(s) && s@ == asset_text(spec_captures()[i].model_path@),
            None => summary matches Err(GainError::UnsupportedSetting(m)) && m@ == unsupported_message(sustain@, tone@),
        },
{
    match resolve_capture(sustain, tone) {
        Ok(c) => {
            let parts = vec!["model='", c, "'"];
            assert(texts(parts@) =~= seq!["model='"@, c@, "'"@]);
            Ok(join(&parts))
        },
        Err(e) => Err(e),
    }
}

pub open spec fn spec_model_definition() -> ModelDefinitionView {
    ModelDefinitionView {
        id: MODEL_ID,
        display_name: DISPLAY_NAME,
        brand: BRAND,
        backend_kind: BackendKind::Nam,
        supported_instruments: Instruments::GuitarBass,
        knob_layout: seq![],
    }
}

/// What the registry lists for this model.
pub fn model_definition() -> (d: ModelDefinition)
    ensures
        d@ == spec_model_definition(),
{
    let knob_layout: Vec<KnobLayoutEntry> = Vec::new();
    let d = ModelDefinition {
        id: MODEL_ID,
        display_name: DISPLAY_NAME,
        brand: BRAND,
        backend_kind: BackendKind::Nam,
        supported_instruments: Instruments::GuitarBass,
        knob_layout,
    };
    assert(d@.knob_layout =~= spec_model_definition().knob_layout);
    d
}

/// The schema is sound: every parameter is, and no two share a path.
pub proof fn lemma_schema_well_formed()
    ensures
        schema_well_formed(spec_model_schema()),
{
    reveal_strlit("sustain");
    reveal_strlit("tone");
    reveal_strlit("5");
    reveal_strlit("10");
    reveal_strlit("1");
    let ps = spec_model_schema().parameters.unwrap();
    assert forall|i: int| 0 <= i < ps.len() implies parameter_well_formed(#[trigger] ps[i]) by {
        if ps[i].kind is Enum {
            let vs = choice_values(ps[i].kind->Enum_choices);
            assert forall|a: int, b: int| 0 <= a < b < vs.len() implies vs[a] != vs[b] by {
                if vs[a] == vs[b] {
                    assert(vs[a].len() == vs[b].len());
                    assert(vs[a][0] == vs[b][0]);
                }
            }
        }
        if i == 0 {
            assert(ps[0].kind->Enum_choices[0].value@ == "5"@);
        } else if i == 1 {
            assert(ps[1].kind->Enum_choices[1].value@ == "5"@);
        }
    }
    let paths = parameter_paths(ps);
    assert forall|a: int, b: int| 0 <= a < b < paths.len() implies paths[a] != paths[b] by {
        if paths[a] == paths[b] {
            assert(paths[a].len() == paths[b].len());
        }
    }
}

/// Each capture is recorded at choices the schema offers.
pub proof fn lemma_captures_follow_schema()
    ensures
        captures_follow_schema(spec_model_schema(), key_params(), spec_captures()),
{
    let s = spec_model_schema();
    let t = spec_captures();
    assert forall|i: int, k: int| 0 <= i < t.len() && 0 <= k < key_params().len() implies {
        &&& #[trigger] t[i].keys.len() == key_params().len()
        &&& is_choice(choices_at(s, key_params()[k]), #[trigger] t[i].keys[k]@)
    } by {
        let cs = choices_at(s, key_params()[k]);
        if k == 0 {
            if t[i].keys[0] == "5" {
                assert(cs[0].value@ == t[i].keys[k]@);
            } else {
                assert(cs[1].value@ == t[i].keys[k]@);
            }
        } else if k == 1 {
            if t[i].keys[1] == "1" {
                assert(cs[0].value@ == t[i].keys[k]@);
            } else if t[i].keys[1] == "5" {
                assert(cs[1].value@ == t[i].keys[k]@);
            } else {
                assert(cs[2].value@ == t[i].keys[k]@);
            }
        }
    }
}

/// No two captures share a setting.
pub proof fn lemma_captures_distinct()
    ensures
        captures_distinct(spec_captures()),
{
    reveal_strlit("5");
    reveal_strlit("1");
    reveal_strlit("10");
    let t = spec_captures();
    assert forall|a: int, b: int| 0 <= a < b < t.len() implies str_texts(t[a].keys) != str_texts(t[b].keys) by {
        let x = str_texts(t[a].keys);
        let y = str_texts(t[b].keys);
        if x == y {
            assert(x[0].len() == y[0].len());
            assert(x[1].len() == y[1].len());
            assert(x[1][0] == y[1][0]);
        }
    }
}

/// Every setting the schema offers selects a capture; so do the defaults.
pub proof fn lemma_every_setting_selects()
    ensures
        every_setting_selects(spec_model_schema(), key_params(), spec_captures()),
        defaults_present(spec_model_schema(), key_params()),
        first_selected(spec_captures(), default_setting(spec_model_schema(), key_params())) is Some,
{
    let s = spec_model_schema();
    let t = spec_captures();
    assert forall|r: Seq<Seq<char>>| setting_of_choices(s, key_params(), r) implies
        (#[trigger] first_selected(t, r)) is Some by {
        let c0 = choices_at(s, 0);
        let i0 = choose|i: int| 0 <= i < c0.len() && c0[i].value@ == r[0];
        let c1 = choices_at(s, 1);
        let i1 = choose|i: int| 0 <= i < c1.len() && c1[i].value@ == r[1];
        if i0 == 0 && i1 == 0 {
            lemma_selected_at(t, r, 0);
        } else if i0 == 0 && i1 == 1 {
            lemma_selected_at(t, r, 1);
        } else if i0 == 0 && i1 == 2 {
            lemma_selected_at(t, r, 2);
        } else if i0 == 1 && i1 == 0 {
            lemma_selected_at(t, r, 3);
        } else if i0 == 1 && i1 == 1 {
            lemma_selected_at(t, r, 4);
        } else if i0 == 1 && i1 == 2 {
            lemma_selected_at(t, r, 5);
        }
    }
    let dflt = default_setting(s, key_params());
    assert(dflt =~= seq!["5"@, "5"@]);
    lemma_selected_at(t, dflt, 1);
}

/// Every capture names a file that writes each value of its setting, and
/// no two captures name the same file.
pub proof fn lemma_capture_files()
    ensures
        files_name_settings(spec_captures()),
        files_distinct(spec_captures()),
{
    reveal_strlit("pedals/death_by_audio_fuzz_war/fuzz_war_clone_sustain_5_tone_1_fuzz_war_sus5_ton1.nam");
    reveal_strlit("pedals/death_by_audio_fuzz_war/fuzz_war_clone_sustain_5_tone_5_fuzz_ware_sus5_ton.nam");
    reveal_strlit("pedals/death_by_audio_fuzz_war/fuzz_war_clone_sustain_5_tone_10_fuzz_war_sus5_ton.nam");
    reveal_strlit("pedals/death_by_audio_fuzz_war/fuzz_war_clone_sustain_10_tone_1_fuzz_war_sus10_to.nam");
    reveal_strlit("pedals/death_by_audio_fuzz_war/fuzz_war_clone_sustain_10_tone_5_fuzz_war_sus10_to.nam");
    reveal_strlit("pedals/death_by_audio_fuzz_war/fuzz_war_clone_sustain_10_tone_10_fuzz_war_sus10_t.nam");
    reveal_strlit("5");
    reveal_strlit("1");
    reveal_strlit("10");
    let t = spec_captures();
    assert forall|i: int, k: int| 0 <= i < t.len() && 0 <= k < t[i].keys.len() implies
        names_value(#[trigger] t[i].model_path@, #[trigger] t[i].keys[k]@) by {
        let path = t[i].model_path@;
        let key = t[i].keys[k]@;
        if i == 0 {
            if k == 0 {
                assert(path.subrange(54int, 54int + key.len()) =~= key);
            } else if k == 1 {
                assert(path.subrange(61int, 61int + key.len()) =~= key);
            }
        } else if i == 1 {
            if k == 0 {
                assert(path.subrange(54int, 54int + key.len()) =~= key);
            } else if k == 1 {
                assert(path.subrange(54int, 54int + key.len()) =~= key);
            }
        } else if i == 2 {
            if k == 0 {
                assert(path.subrange(54int, 54int + key.len()) =~= key);
            } else if k == 1 {
                assert(path.subrange(61int, 61int + key.len()) =~= key);
            }
        } else if i == 3 {
            if k == 0 {
                assert(path.subrange(54int, 54int + key.len()) =~= key);
            } else if k == 1 {
                assert(path.subrange(54int, 54int + key.len()) =~= key);
            }
        } else if i == 4 {
            if k == 0 {
                assert(path.subrange(54int, 54int + key.len()) =~= key);
            } else if k == 1 {
                assert(path.subrange(62int, 62int + key.len()) =~= key);
            }
        } else if i == 5 {
            if k == 0 {
                assert(path.subrange(54int, 54int + key.len()) =~= key);
            } else if k == 1 {
                assert(path.subrange(54int, 54int + key.len()) =~= key);
            }
        }
    }
    assert forall|a: int, b: int| 0 <= a < b < 6 implies t[a].model_path@ != t[b].model_path@ by {
        if a == 0 && b == 1 {
            assert(t[0].model_path@[61] != t[1].model_path@[61]);
        } else if a == 0 && b == 2 {
            assert(t[0].model_path@[62] != t[2].model_path@[62]);
        } else if a == 0 && b == 3 {
            assert(t[0].model_path@[54] != t[3].model_path@[54]);
        } else if a == 0 && b == 4 {
            assert(t[0].model_path@[54] != t[4].model_path@[54]);
        } else if a == 0 && b == 5 {
            assert(t[0].model_path@[54] != t[5].model_path@[54]);
        } else if a == 1 && b == 2 {
            assert(t[1].model_path@[61] != t[2].model_path@[61]);
        } else if a == 1 && b == 3 {
            assert(t[1].model_path@[54] != t[3].model_path@[54]);
        } else if a == 1 && b == 4 {
            assert(t[1].model_path@[54] != t[4].model_path@[54]);
        } else if a == 1 && b == 5 {
            assert(t[1].model_path@[54] != t[5].model_path@[54]);
        } else if a == 2 && b == 3 {
            assert(t[2].model_path@[54] != t[3].model_path@[54]);
        } else if a == 2 && b == 4 {
            assert(t[2].model_path@[54] != t[4].model_path@[54]);
        } else if a == 2 && b == 5 {
            assert(t[2].model_path@[54] != t[5].model_path@[54]);
        } else if a == 3 && b == 4 {
            assert(t[3].model_path@[62] != t[4].model_path@[62]);
        } else if a == 3 && b == 5 {
            assert(t[3].model_path@[63] != t[5].model_path@[63]);
        } else if a == 4 && b == 5 {
            assert(t[4].model_path@[62] != t[5].model_path@[62]);
        }
    }
}

/// Every capture names a file that writes each value of its setting in its
/// own place, between the texts that mark that place in the file name.
pub proof fn lemma_files_write_settings()
    ensures
        forall|i: int| 0 <= i < spec_captures().len() ==> {
            &&& names_value((#[trigger] spec_captures()[i]).model_path@, "one_sustain_"@ + spec_captures()[i].keys[0]@ + "_tone_"@)
            &&& names_value((#[trigger] spec_captures()[i]).model_path@, "_tone_"@ + spec_captures()[i].keys[1]@ + "_fuzz_"@)
        },
{
    reveal_strlit("one_sustain_");
    reveal_strlit("_tone_");
    reveal_strlit("_tone_");
    reveal_strlit("_fuzz_");
    reveal_strlit("pedals/death_by_audio_fuzz_war/fuzz_war_clone_sustain_5_tone_1_fuzz_war_sus5_ton1.nam");
    reveal_strlit("pedals/death_by_audio_fuzz_war/fuzz_war_clone_sustain_5_tone_5_fuzz_ware_sus5_ton.nam");
    reveal_strlit("pedals/death_by_audio_fuzz_war/fuzz_war_clone_sustain_5_tone_10_fuzz_war_sus5_ton.nam");
    reveal_strlit("pedals/death_by_audio_fuzz_war/fuzz_war_clone_sustain_10_tone_1_fuzz_war_sus10_to.nam");
    reveal_strlit("pedals/death_by_audio_fuzz_war/fuzz_war_clone_sustain_10_tone_5_fuzz_war_sus10_to.nam");
    reveal_strlit("pedals/death_by_audio_fuzz_war/fuzz_war_clone_sustain_10_tone_10_fuzz_war_sus10_t.nam");
    reveal_strlit("5");
    reveal_strlit("1");
    reveal_strlit("10");
    let t = spec_captures();
    assert forall|i: int| 0 <= i < t.len() implies {
        &&& names_value((#[trigger] t[i]).model_path@, "one_sustain_"@ + t[i].keys[0]@ + "_tone_"@)
        &&& names_value((#[trigger] t[i]).model_path@, "_tone_"@ + t[i].keys[1]@ + "_fuzz_"@)
    } by {
        let path = t[i].model_path@;
        if i == 0 {
            let v0 = "one_sustain_"@ + t[i].keys[0]@ + "_tone_"@;
            assert(path.subrange(42int, 42int + v0.len()) =~= v0);
            let v1 = "_tone_"@ + t[i].keys[1]@ + "_fuzz_"@;
            assert(path.subrange(55int, 55int + v1.len()) =~= v1);
        } else if i == 1 {
            let v0 = "one_sustain_"@ + t[i].keys[0]@ + "_tone_"@;
            assert(path.subrange(42int, 42int + v0.len()) =~= v0);
            let v1 = "_tone_"@ + t[i].keys[1]@ + "_fuzz_"@;
            assert(path.subrange(55int, 55int + v1.len()) =~= v1);
        } else if i == 2 {
            let v0 = "one_sustain_"@ + t[i].keys[0]@ + "_tone_"@;
            assert(path.subrange(42int, 42int + v0.len()) =~= v0);
            let v1 = "_tone_"@ + t[i].keys[1]@ + "_fuzz_"@;
            assert(path.subrange(55int, 55int + v1.len()) =~= v1);
        } else if i == 3 {
            let v0 = "one_sustain_"@ + t[i].keys[0]@ + "_tone_"@;
            assert(path.subrange(42int, 42int + v0.len()) =~= v0);
            let v1 = "_tone_"@ + t[i].keys[1]@ + "_fuzz_"@;
            assert(path.subrange(56int, 56int + v1.len()) =~= v1);
        } else if i == 4 {
            let v0 = "one_sustain_"@ + t[i].keys[0]@ + "_tone_"@;
            assert(path.subrange(42int, 42int + v0.len()) =~= v0);
            let v1 = "_tone_"@ + t[i].keys[1]@ + "_fuzz_"@;
            assert(path.subrange(56int, 56int + v1.len()) =~= v1);
        } else if i == 5 {
            let v0 = "one_sustain_"@ + t[i].keys[0]@ + "_tone_"@;
            assert(path.subrange(42int, 42int + v0.len()) =~= v0);
            let v1 = "_tone_"@ + t[i].keys[1]@ + "_fuzz_"@;
            assert(path.subrange(56int, 56int + v1.len()) =~= v1);
        }
    }
}

} // verus!
