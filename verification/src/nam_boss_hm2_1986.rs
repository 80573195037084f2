//! The "Heavy Metal HM-2 '86" gain model (boss), played from neural captures, one per recorded setting.

use vstd::prelude::*;
use crate::capture::{
    names_value, files_name_settings, files_distinct,
    Capture, CaptureView, table_view, find_capture, first_selected, asset_text, lemma_first_selected,
    lemma_selected_at, captures_follow_schema, default_setting, defaults_present, captures_distinct,
    every_setting_selects, setting_of_choices,
};
use crate::error::GainError;
use crate::model::{BackendKind, Instruments, KnobLayoutEntry, ModelDefinition, ModelDefinitionView};
use crate::schema::{
    EffectType, EnumChoice, ModelSchema, ModelSchemaView, ParameterKindView, ParameterSpecView,
    choice, enum_parameter, parameters_view, schema_well_formed, choices_at, str_texts, is_choice,
    parameter_well_formed, choice_values, parameter_paths,
};
use crate::text::{concat, join, texts};

verus! {

pub const MODEL_ID: &'static str = "boss_hm2_1986";
pub const DISPLAY_NAME: &'static str = "Heavy Metal HM-2 '86";
pub const BRAND: &'static str = "boss";

pub open spec fn spec_model_schema() -> ModelSchemaView {
    ModelSchemaView {
        effect_type: EffectType::Gain,
        model: MODEL_ID,
        display_name: DISPLAY_NAME,
        audio_mode: None,
        parameters: Some(seq![
            ParameterSpecView {
                path: "tone",
                label: "Tone",
                group: Some("Pedal"),
                kind: ParameterKindView::Enum {
                    default: Some("chainsaw"),
                    choices: seq![
                        EnumChoice { value: "chainsaw_0gain", label: "Chainsaw (0 Gain)" },
                        EnumChoice { value: "chainsaw", label: "Chainsaw" },
                        EnumChoice { value: "medium", label: "Medium" },
                        EnumChoice { value: "warm", label: "Warm" },
                        EnumChoice { value: "bright", label: "Bright" },
                        EnumChoice { value: "high_gain", label: "High Gain" },
                        EnumChoice { value: "full", label: "Full" },
                    ],
                },
            },
        ]),
    }
}

/// The parameters of the model.
pub fn model_schema() -> (schema: ModelSchema)
    ensures
        schema@ == spec_model_schema(),
{
    let parameters = vec![
        enum_parameter(
            "tone",
            "Tone",
            Some("Pedal"),
            Some("chainsaw"),
            vec![
                choice("chainsaw_0gain", "Chainsaw (0 Gain)"),
                choice("chainsaw", "Chainsaw"),
                choice("medium", "Medium"),
                choice("warm", "Warm"),
                choice("bright", "Bright"),
                choice("high_gain", "High Gain"),
                choice("full", "Full"),
            ],
        ),
    ];
    assert(parameters_view(parameters@) =~= spec_model_schema().parameters.unwrap());
    ModelSchema {
        effect_type: EffectType::Gain,
        model: MODEL_ID,
        display_name: DISPLAY_NAME,
        audio_mode: None,
        parameters: Some(parameters),
    }
}

/// The positions, in the schema, of the parameters that select a capture.
pub open spec fn key_params() -> Seq<int> {
    seq![0]
}

pub open spec fn spec_captures() -> Seq<CaptureView> {
    seq![
        CaptureView { keys: seq!["chainsaw_0gain"], model_path: "pedals/boss_hm2_1986/hm2_chainsaw_0gain.nam" },
        CaptureView { keys: seq!["chainsaw"], model_path: "pedals/boss_hm2_1986/hm2_chainsaw.nam" },
        CaptureView { keys: seq!["medium"], model_path: "pedals/boss_hm2_1986/hm2_medium.nam" },
        CaptureView { keys: seq!["warm"], model_path: "pedals/boss_hm2_1986/hm2_warm.nam" },
        CaptureView { keys: seq!["bright"], model_path: "pedals/boss_hm2_1986/hm2_bright.nam" },
        CaptureView { keys: seq!["high_gain"], model_path: "pedals/boss_hm2_1986/hm2_high_gain.nam" },
        CaptureView { keys: seq!["full"], model_path: "pedals/boss_hm2_1986/hm2_full.nam" },
    ]
}

/// The captures of the pedal, each with its (tone) setting.
pub fn captures() -> (table: Vec<Capture>)
    ensures
        table_view(table@) == spec_captures(),
{
    let table = vec![
        Capture::one("chainsaw_0gain", "pedals/boss_hm2_1986/hm2_chainsaw_0gain.nam"),
        Capture::one("chainsaw", "pedals/boss_hm2_1986/hm2_chainsaw.nam"),
        Capture::one("medium", "pedals/boss_hm2_1986/hm2_medium.nam"),
        Capture::one("warm", "pedals/boss_hm2_1986/hm2_warm.nam"),
        Capture::one("bright", "pedals/boss_hm2_1986/hm2_bright.nam"),
        Capture::one("high_gain", "pedals/boss_hm2_1986/hm2_high_gain.nam"),
        Capture::one("full", "pedals/boss_hm2_1986/hm2_full.nam"),
    ];
    assert(table_view(table@) =~= spec_captures());
    table
}

/// What the model reports for a setting at which no capture was recorded.
pub open spec fn unsupported_message(tone: Seq<char>) -> Seq<char> {
    concat(seq!["gain model '"@, MODEL_ID@, "' does not support tone='"@, tone, "'"@])
}

/// The index of the capture that (tone) selects.
pub open spec fn selection(tone: Seq<char>) -> Option<int> {
    first_selected(spec_captures(), seq![tone])
}

fn unsupported(tone: &str) -> (e: GainError)
    ensures
        e matches GainError::UnsupportedSetting(m) && m@ == unsupported_message(tone@),
{
    let parts = vec!["gain model '", MODEL_ID, "' does not support tone='", tone, "'"];
    let m = join(&parts);
    assert(texts(parts@) =~= seq!["gain model '"@, MODEL_ID@, "' does not support tone='"@, tone@, "'"@]);
    GainError::UnsupportedSetting(m)
}

/// The capture recorded at (tone).
pub fn resolve_capture(tone: &str) -> (selected: Result<&'static str, GainError>)
    ensures
        match selection(tone@) {
            Some(i) => selected matches Ok(path) && path == spec_captures()[i].model_path,
            None => selected matches Err(GainError::UnsupportedSetting(m)) && m@ == unsupported_message(tone@),
        },
{
    let table = captures();
    let request = vec![tone];
    assert(texts(request@) =~= seq![tone@]);
    match find_capture(&table, &request) {
        Some(i) => {
            proof {
                lemma_first_selected(spec_captures(), seq![tone@]);
            }
            Ok(table[i].model_path)
        },
        None => Err(unsupported(tone)),
    }
}

/// Accepts (tone) exactly where a capture was recorded there.
pub fn validate_params(tone: &str) -> (checked: Result<(), GainError>)
    ensures
        match selection(tone@) {
            Some(i) => checked is Ok,
            None => checked matches Err(GainError::UnsupportedSetting(m)) && m@ == unsupported_message(tone@),
        },
{
    match resolve_capture(tone) {
        Ok(_) => Ok(()),
        Err(e) => Err(e),
    }
}

/// Names the capture file that (tone) selects.
pub fn asset_summary(tone: &str) -> (summary: Result<String, GainError>)
    ensures
        match selection(tone@) {
            Some(i) => summary matches Ok(s) && s@ == asset_text(spec_captures()[i].model_path@),
            None => summary matches Err(GainError::UnsupportedSetting(m)) && m@ == unsupported_message(tone@),
        },
{
    match resolve_capture(tone) {
        Ok(c) => {
            let parts = vec!["model='", c, "'"];
            assert(texts(parts@) =~= seq!["model='"@, c@, "'"@]);
            Ok(join(&parts))
        },
        Err(e) => Err(e),
    }
}

pub open spec fn spec_model_definition() -> ModelDefinitionView {
    ModelDefinitionView {
        id: MODEL_ID,
        display_name: DISPLAY_NAME,
        brand: BRAND,
        backend_kind: BackendKind::Nam,
        supported_instruments: Instruments::GuitarBass,
        knob_layout: seq![],
    }
}

/// What the registry lists for this model.
pub fn model_definition() -> (d: ModelDefinition)
    ensures
        d@ == spec_model_definition(),
{
    let knob_layout: Vec<KnobLayoutEntry> = Vec::new();
    let d = ModelDefinition {
        id: MODEL_ID,
        display_name: DISPLAY_NAME,
        brand: BRAND,
        backend_kind: BackendKind::Nam,
        supported_instruments: Instruments::GuitarBass,
        knob_layout,
    };
    assert(d@.knob_layout =~= spec_model_definition().knob_layout);
    d
}

/// The schema is sound: every parameter is, and no two share a path.
pub proof fn lemma_schema_well_formed()
    ensures
        schema_well_formed(spec_model_schema()),
{
    reveal_strlit("tone");
    reveal_strlit("chainsaw_0gain");
    reveal_strlit("chainsaw");
    reveal_strlit("medium");
    reveal_strlit("warm");
    reveal_strlit("bright");
    reveal_strlit("high_gain");
    reveal_strlit("full");
    let ps = spec_model_schema().parameters.unwrap();
    assert forall|i: int| 0 <= i < ps.len() implies parameter_well_formed(#[trigger] ps[i]) by {
        if ps[i].kind is Enum {
            let vs = choice_values(ps[i].kind->Enum_choices);
            assert forall|a: int, b: int| 0 <= a < b < vs.len() implies vs[a] != vs[b] by {
                if vs[a] == vs[b] {
                    assert(vs[a].len() == vs[b].len());
                    assert(vs[a][0] == vs[b][0]);
                }
            }
        }
        if i == 0 {
            assert(ps[0].kind->Enum_choices[1].value@ == "chainsaw"@);
        }
    }
}

/// Each capture is recorded at choices the schema offers.
pub proof fn lemma_captures_follow_schema()
    ensures
        captures_follow_schema(spec_model_schema(), key_params(), spec_captures()),
{
    let s = spec_model_schema();
    let t = spec_captures();
    assert forall|i: int, k: int| 0 <= i < t.len() && 0 <= k < key_params().len() implies {
        &&& #[trigger] t[i].keys.len() == key_params().len()
        &&& is_choice(choices_at(s, key_params()[k]), #[trigger] t[i].keys[k]@)
    } by {
        let cs = choices_at(s, key_params()[k]);
        if k == 0 {
            if t[i].keys[0] == "chainsaw_0gain" {
                assert(cs[0].value@ == t[i].keys[k]@);
            } else if t[i].keys[0] == "chainsaw" {
                assert(cs[1].value@ == t[i].keys[k]@);
            } else if t[i].keys[0] == "medium" {
                assert(cs[2].value@ == t[i].keys[k]@);
            } else if t[i].keys[0] == "warm" {
                assert(cs[3].value@ == t[i].keys[k]@);
            } else if t[i].keys[0] == "bright" {
                assert(cs[4].value@ == t[i].keys[k]@);
            } else if t[i].keys[0] == "high_gain" {
                assert(cs[5].value@ == t[i].keys[k]@);
            } else {
                assert(cs[6].value@ == t[i].keys[k]@);
            }
        }
    }
}

/// No two captures share a setting.
pub proof fn lemma_captures_distinct()
    ensures
        captures_distinct(spec_captures()),
{
    reveal_strlit("chainsaw_0gain");
    reveal_strlit("chainsaw");
    reveal_strlit("medium");
    reveal_strlit("warm");
    reveal_strlit("bright");
    reveal_strlit("high_gain");
    reveal_strlit("full");
    let t = spec_captures();
    assert forall|a: int, b: int| 0 <= a < b < t.len() implies str_texts(t[a].keys) != str_texts(t[b].keys) by {
        let x = str_texts(t[a].keys);
        let y = str_texts(t[b].keys);
        if x == y {
            assert(x[0].len() == y[0].len());
            assert(x[0][0] == y[0][0]);
        }
    }
}

/// Every setting the schema offers selects a capture; so do the defaults.
pub proof fn lemma_every_setting_selects()
    ensures
        every_setting_selects(spec_model_schema(), key_params(), spec_captures()),
        defaults_present(spec_model_schema(), key_params()),
        first_selected(spec_captures(), default_setting(spec_model_schema(), key_params())) is Some,
{
    let s = spec_model_schema();
    let t = spec_captures();
    assert forall|r: Seq<Seq<char>>| setting_of_choices(s, key_params(), r) implies
        (#[trigger] first_selected(t, r)) is Some by {
        let c0 = choices_at(s, 0);
        let i0 = choose|i: int| 0 <= i < c0.len() && c0[i].value@ == r[0];
        if i0 == 0 {
            lemma_selected_at(t, r, 0);
        } else if i0 == 1 {
            lemma_selected_at(t, r, 1);
        } else if i0 == 2 {
            lemma_selected_at(t, r, 2);
        } else if i0 == 3 {
            lemma_selected_at(t, r, 3);
        } else if i0 == 4 {
            lemma_selected_at(t, r, 4);
        } else if i0 == 5 {
            lemma_selected_at(t, r, 5);
        } else if i0 == 6 {
            lemma_selected_at(t, r, 6);
        }
    }
    let dflt = default_setting(s, key_params());
    assert(dflt =~= seq!["chainsaw"@]);
    lemma_selected_at(t, dflt, 1);
}

/// Every capture names a file that writes each value of its setting, and
/// no two captures name the same file.
pub proof fn lemma_capture_files()
    ensures
        files_name_settings(spec_captures()),
        files_distinct(spec_captures()),
{
    reveal_strlit("pedals/boss_hm2_1986/hm2_chainsaw_0gain.nam");
    reveal_strlit("pedals/boss_hm2_1986/hm2_chainsaw.nam");
    reveal_strlit("pedals/boss_hm2_1986/hm2_medium.nam");
    reveal_strlit("pedals/boss_hm2_1986/hm2_warm.nam");
    reveal_strlit("pedals/boss_hm2_1986/hm2_bright.nam");
    reveal_strlit("pedals/boss_hm2_1986/hm2_high_gain.nam");
    reveal_strlit("pedals/boss_hm2_1986/hm2_full.nam");
    reveal_strlit("chainsaw_0gain");
    reveal_strlit("chainsaw");
    reveal_strlit("medium");
    reveal_strlit("warm");
    reveal_strlit("bright");
    reveal_strlit("high_gain");
    reveal_strlit("full");
    let t = spec_captures();
    assert forall|i: int, k: int| 0 <= i < t.len() && 0 <= k < t[i].keys.len() implies
        names_value(#[trigger] t[i].model_path@, #[trigger] t[i].keys[k]@) by {
        let path = t[i].model_path@;
        let key = t[i].keys[k]@;
        if i == 0 {
            if k == 0 {
                assert(path.subrange(25int, 25int + key.len()) =~= key);
            }
        } else if i == 1 {
            if k == 0 {
                assert(path.subrange(25int, 25int + key.len()) =~= key);
            }
        } else if i == 2 {
            if k == 0 {
                assert(path.subrange(25int, 25int + key.len()) =~= key);
            }
        } else if i == 3 {
            if k == 0 {
                assert(path.subrange(25int, 25int + key.len()) =~= key);
            }
        } else if i == 4 {
            if k == 0 {
                assert(path.subrange(25int, 25int + key.len()) =~= key);
            }
        } else if i == 5 {
            if k == 0 {
                assert(path.subrange(25int, 25int + key.len()) =~= key);
            }
        } else if i == 6 {
            if k == 0 {
                assert(path.subrange(25int, 25int + key.len()) =~= key);
            }
        }
    }
    assert forall|a: int, b: int| 0 <= a < b < 7 implies t[a].model_path@ != t[b].model_path@ by {
        if a == 0 && b == 1 {
            assert(t[0].model_path@.len() != t[1].model_path@.len());
        } else if a == 0 && b == 2 {
            assert(t[0].model_path@.len() != t[2].model_path@.len());
        } else if a == 0 && b == 3 {
            assert(t[0].model_path@.len() != t[3].model_path@.len());
        } else if a == 0 && b == 4 {
            assert(t[0].model_path@.len() != t[4].model_path@.len());
        } else if a == 0 && b == 5 {
            assert(t[0].model_path@.len() != t[5].model_path@.len());
        } else if a == 0 && b == 6 {
            assert(t[0].model_path@.len() != t[6].model_path@.len());
        } else if a == 1 && b == 2 {
            assert(t[1].model_path@.len() != t[2].model_path@.len());
        } else if a == 1 && b == 3 {
            assert(t[1].model_path@.len() != t[3].model_path@.len());
        } else if a == 1 && b == 4 {
            assert(t[1].model_path@.len() != t[4].model_path@.len());
        } else if a == 1 && b == 5 {
            assert(t[1].model_path@.len() != t[5].model_path@.len());
        } else if a == 1 && b == 6 {
            assert(t[1].model_path@.len() != t[6].model_path@.len());
        } else if a == 2 && b == 3 {
            assert(t[2].model_path@.len() != t[3].model_path@.len());
        } else if a == 2 && b == 4 {
            assert(t[2].model_path@[25] != t[4].model_path@[25]);
        } else if a == 2 && b == 5 {
            assert(t[2].model_path@.len() != t[5].model_path@.len());
        } else if a == 2 && b == 6 {
            assert(t[2].model_path@.len() != t[6].model_path@.len());
        } else if a == 3 && b == 4 {
            assert(t[3].model_path@.len() != t[4].model_path@.len());
        } else if a == 3 && b == 5 {
            assert(t[3].model_path@.len() != t[5].model_path@.len());
        } else if a == 3 && b == 6 {
            assert(t[3].model_path@[25] != t[6].model_path@[25]);
        } else if a == 4 && b == 5 {
            assert(t[4].model_path@.len() != t[5].model_path@.len());
        } else if a == 4 && b == 6 {
            assert(t[4].model_path@.len() != t[6].model_path@.len());
        } else if a == 5 && b == 6 {
            assert(t[5].model_path@.len() != t[6].model_path@.len());
        }
    }
}

/// The file recorded at a setting, as the recording names it.
pub open spec fn recorded_file(tone: Seq<char>) -> Seq<char> {
    "pedals/boss_hm2_1986/hm2_"@ + tone + ".nam"@
}

/// Every capture names the file recorded at its own setting.
pub proof fn lemma_captures_name_their_setting()
    ensures
        forall|i: int| 0 <= i < spec_captures().len() ==>
            (#[trigger] spec_captures()[i]).model_path@ == recorded_file(spec_captures()[i].keys[0]@),
{
    reveal_strlit("pedals/boss_hm2_1986/hm2_");
    reveal_strlit(".nam");
    reveal_strlit("pedals/boss_hm2_1986/hm2_chainsaw_0gain.nam");
    reveal_strlit("pedals/boss_hm2_1986/hm2_chainsaw.nam");
    reveal_strlit("pedals/boss_hm2_1986/hm2_medium.nam");
    reveal_strlit("pedals/boss_hm2_1986/hm2_warm.nam");
    reveal_strlit("pedals/boss_hm2_1986/hm2_bright.nam");
    reveal_strlit("pedals/boss_hm2_1986/hm2_high_gain.nam");
    reveal_strlit("pedals/boss_hm2_1986/hm2_full.nam");
    reveal_strlit("chainsaw_0gain");
    reveal_strlit("chainsaw");
    reveal_strlit("medium");
    reveal_strlit("warm");
    reveal_strlit("bright");
    reveal_strlit("high_gain");
    reveal_strlit("full");
    let t = spec_captures();
    assert forall|i: int| 0 <= i < t.len() implies
        (#[trigger] t[i]).model_path@ == recorded_file(t[i].keys[0]@) by {
        if i == 0 {
            assert(t[i].model_path@ =~= recorded_file("chainsaw_0gain"@));
        } else if i == 1 {
            assert(t[i].model_path@ =~= recorded_file("chainsaw"@));
        } else if i == 2 {
            assert(t[i].model_path@ =~= recorded_file("medium"@));
        } else if i == 3 {
            assert(t[i].model_path@ =~= recorded_file("warm"@));
        } else if i == 4 {
            assert(t[i].model_path@ =~= recorded_file("bright"@));
        } else if i == 5 {
            assert(t[i].model_path@ =~= recorded_file("high_gain"@));
        } else if i == 6 {
            assert(t[i].model_path@ =~= recorded_file("full"@));
        }
    }
}

/// A setting that selects a capture selects the file recorded at that setting.
pub proof fn lemma_selected_file(tone: Seq<char>)
    ensures
        selection(tone) matches Some(i) ==> spec_captures()[i].model_path@ == recorded_file(tone),
{
    lemma_first_selected(spec_captures(), seq![tone]);
    lemma_captures_name_their_setting();
    if let Some(i) = selection(tone) {
        assert(spec_captures()[i].model_path@ == recorded_file(spec_captures()[i].keys[0]@));
    }
}

} // verus!
