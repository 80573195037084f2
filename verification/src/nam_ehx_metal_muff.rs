//! The "EHX Metal Muff" gain model (ehx), played from neural captures, one per recorded setting.

use vstd::prelude::*;
use crate::capture::{
    names_value, files_name_settings, files_distinct,
    Capture, CaptureView, table_view, find_capture, first_selected, asset_text, lemma_first_selected,
    lemma_selected_at, captures_follow_schema, default_setting, defaults_present, captures_distinct,
    every_setting_selects, setting_of_choices,
};
use crate::error::GainError;
use crate::model::{BackendKind, Instruments, KnobLayoutEntry, ModelDefinition, ModelDefinitionView};
use crate::schema::{
    EffectType, EnumChoice, ModelSchema, ModelSchemaView, ParameterKindView, ParameterSpecView,
    choice, enum_parameter, parameters_view, schema_well_formed, choices_at, str_texts, is_choice,
    parameter_well_formed, choice_values, parameter_paths,
};
use crate::text::{concat, join, texts};

verus! {

pub const MODEL_ID: &'static str = "nam_ehx_metal_muff";
pub const DISPLAY_NAME: &'static str = "EHX Metal Muff";
pub const BRAND: &'static str = "ehx";

pub open spec fn spec_model_schema() -> ModelSchemaView {
    ModelSchemaView {
        effect_type: EffectType::Gain,
        model: MODEL_ID,
        display_name: DISPLAY_NAME,
        audio_mode: None,
        parameters: Some(seq![
            ParameterSpecView {
                path: "tone",
                label: "Tone",
                group: Some("Pedal"),
                kind: ParameterKindView::Enum {
                    default: Some("as_an_overdrive"),
                    choices: seq![
                        EnumChoice { value: "as_an_overdrive", label: "As An Overdrive" },
                        EnumChoice { value: "eq_noon", label: "Eq Noon" },
                        EnumChoice { value: "eq_noon_full_gain", label: "Eq Noon Full Gain" },
                        EnumChoice { value: "evil", label: "Evil" },
                        EnumChoice { value: "mega_scoop", label: "Mega Scoop" },
                        EnumChoice { value: "my_settings", label: "My Settings" },
                        EnumChoice { value: "nattens_madrigal", label: "Nattens Madrigal" },
                        EnumChoice { value: "swedish_chainsaw_ish", label: "Swedish Chainsaw Ish" },
                        EnumChoice { value: "tob_boost_low_distortion", label: "Tob Boost Low Distortion" },
                        EnumChoice { value: "trve_kult", label: "Trve Kult" },
                    ],
                },
            },
        ]),
    }
}

/// The parameters of the model.
pub fn model_schema() -> (schema: ModelSchema)
    ensures
        schema@ == spec_model_schema(),
{
    let parameters = vec![
        enum_parameter(
            "tone",
            "Tone",
            Some("Pedal"),
            Some("as_an_overdrive"),
            vec![
                choice("as_an_overdrive", "As An Overdrive"),
                choice("eq_noon", "Eq Noon"),
                choice("eq_noon_full_gain", "Eq Noon Full Gain"),
                choice("evil", "Evil"),
                choice("mega_scoop", "Mega Scoop"),
                choice("my_settings", "My Settings"),
                choice("nattens_madrigal", "Nattens Madrigal"),
                choice("swedish_chainsaw_ish", "Swedish Chainsaw Ish"),
                choice("tob_boost_low_distortion", "Tob Boost Low Distortion"),
                choice("trve_kult", "Trve Kult"),
            ],
        ),
    ];
    assert(parameters_view(parameters@) =~= spec_model_schema().parameters.unwrap());
    ModelSchema {
        effect_type: EffectType::Gain,
        model: MODEL_ID,
        display_name: DISPLAY_NAME,
        audio_mode: None,
        parameters: Some(parameters),
    }
}

/// The positions, in the schema, of the parameters that select a capture.
pub open spec fn key_params() -> Seq<int> {
    seq![0]
}

pub open spec fn spec_captures() -> Seq<CaptureView> {
    seq![
        CaptureView { keys: seq!["as_an_overdrive"], model_path: "pedals/ehx_metal_muff/metal_muff_as_an_overdrive.nam" },
        CaptureView { keys: seq!["eq_noon"], model_path: "pedals/ehx_metal_muff/metal_muff_eq_noon.nam" },
        CaptureView { keys: seq!["eq_noon_full_gain"], model_path: "pedals/ehx_metal_muff/metal_muff_eq_noon_full_gain.nam" },
        CaptureView { keys: seq!["evil"], model_path: "pedals/ehx_metal_muff/metal_muff_evil.nam" },
        CaptureView { keys: seq!["mega_scoop"], model_path: "pedals/ehx_metal_muff/metal_muff_mega_scoop.nam" },
        CaptureView { keys: seq!["my_settings"], model_path: "pedals/ehx_metal_muff/metal_muff_my_settings.nam" },
        CaptureView { keys: seq!["nattens_madrigal"], model_path: "pedals/ehx_metal_muff/metal_muff_nattens_madrigal.nam" },
        CaptureView { keys: seq!["swedish_chainsaw_ish"], model_path: "pedals/ehx_metal_muff/metal_muff_swedish_chainsaw_ish.nam" },
        CaptureView { keys: seq!["tob_boost_low_distortion"], model_path: "pedals/ehx_metal_muff/metal_muff_tob_boost_low_distortion.nam" },
        CaptureView { keys: seq!["trve_kult"], model_path: "pedals/ehx_metal_muff/metal_muff_trve_kult.nam" },
    ]
}

/// The captures of the pedal, each with its (tone) setting.
pub fn captures() -> (table: Vec<Capture>)
    ensures
        table_view(table@) == spec_captures(),
{
    let table = vec![
        Capture::one("as_an_overdrive", "pedals/ehx_metal_muff/metal_muff_as_an_overdrive.nam"),
        Capture::one("eq_noon", "pedals/ehx_metal_muff/metal_muff_eq_noon.nam"),
        Capture::one("eq_noon_full_gain", "pedals/ehx_metal_muff/metal_muff_eq_noon_full_gain.nam"),
        Capture::one("evil", "pedals/ehx_metal_muff/metal_muff_evil.nam"),
        Capture::one("mega_scoop", "pedals/ehx_metal_muff/metal_muff_mega_scoop.nam"),
        Capture::one("my_settings", "pedals/ehx_metal_muff/metal_muff_my_settings.nam"),
        Capture::one("nattens_madrigal", "pedals/ehx_metal_muff/metal_muff_nattens_madrigal.nam"),
        Capture::one("swedish_chainsaw_ish", "pedals/ehx_metal_muff/metal_muff_swedish_chainsaw_ish.nam"),
        Capture::one("tob_boost_low_distortion", "pedals/ehx_metal_muff/metal_muff_tob_boost_low_distortion.nam"),
        Capture::one("trve_kult", "pedals/ehx_metal_muff/metal_muff_trve_kult.nam"),
    ];
    assert(table_view(table@) =~= spec_captures());
    table
}

/// What the model reports for a setting at which no capture was recorded.
pub open spec fn unsupported_message(tone: Seq<char>) -> Seq<char> {
    concat(seq!["gain model '"@, MODEL_ID@, "' does not support tone='"@, tone, "'"@])
}

/// The index of the capture that (tone) selects.
pub open spec fn selection(tone: Seq<char>) -> Option<int> {
    first_selected(spec_captures(), seq![tone])
}

fn unsupported(tone: &str) -> (e: GainError)
    ensures
        e matches GainError::UnsupportedSetting(m) && m@ == unsupported_message(tone@),
{
    let parts = vec!["gain model '", MODEL_ID, "' does not support tone='", tone, "'"];
    let m = join(&parts);
    assert(texts(parts@) =~= seq!["gain model '"@, MODEL_ID@, "' does not support tone='"@, tone@, "'"@]);
    GainError::UnsupportedSetting(m)
}

/// The capture recorded at (tone).
pub fn resolve_capture(tone: &str) -> (selected: Result<&'static str, GainError>)
    ensures
        match selection(tone@) {
            Some(i) => selected matches Ok(path) && path == spec_captures()[i].model_path,
            None => selected matches Err(GainError::UnsupportedSetting(m)) && m@ == unsupported_message(tone@),
        },
{
    let table = captures();
    let request = vec![tone];
    assert(texts(request@) =~= seq![tone@]);
    match find_capture(&table, &request) {
        Some(i) => {
            proof {
                lemma_first_selected(spec_captures(), seq![tone@]);
            }
            Ok(table[i].model_path)
        },
        None => Err(unsupported(tone)),
    }
}

/// Accepts (tone) exactly where a capture was recorded there.
pub fn validate_params(tone: &str) -> (checked: Result<(), GainError>)
    ensures
        match selection(tone@) {
            Some(i) => checked is Ok,
            None => checked matches Err(GainError::UnsupportedSetting(m)) && m@ == unsupported_message(tone@),
        },
{
    match resolve_capture(tone) {
        Ok(_) => Ok(()),
        Err(e) => Err(e),
    }
}

/// Names the capture file that (tone) selects.
pub fn asset_summary(tone: &str) -> (summary: Result<String, GainError>)
    ensures
        match selection(tone@) {
            Some(i) => summary matches Ok(s) && s@ == asset_text(spec_captures()[i].model_path@),
            None => summary matches Err(GainError::UnsupportedSetting(m)) && m@ == unsupported_message(tone@),
        },
{
    match resolve_capture(tone) {
        Ok(c) => {
            let parts = vec!["model='", c, "'"];
            assert(texts(parts@) =~= seq!["model='"@, c@, "'"@]);
            Ok(join(&parts))
        },
        Err(e) => Err(e),
    }
}

pub open spec fn spec_model_definition() -> ModelDefinitionView {
    ModelDefinitionView {
        id: MODEL_ID,
        display_name: DISPLAY_NAME,
        brand: BRAND,
        backend_kind: BackendKind::Nam,
        supported_instruments: Instruments::GuitarBass,
        knob_layout: seq![],
    }
}

/// What the registry lists for this model.
pub fn model_definition() -> (d: ModelDefinition)
    ensures
        d@ == spec_model_definition(),
{
    let knob_layout: Vec<KnobLayoutEntry> = Vec::new();
    let d = ModelDefinition {
        id: MODEL_ID,
        display_name: DISPLAY_NAME,
        brand: BRAND,
        backend_kind: BackendKind::Nam,
        supported_instruments: Instruments::GuitarBass,
        knob_layout,
    };
    assert(d@.knob_layout =~= spec_model_definition().knob_layout);
    d
}

/// The schema is sound: every parameter is, and no two share a path.
pub proof fn lemma_schema_well_formed()
    ensures
        schema_well_formed(spec_model_schema()),
{
    reveal_strlit("tone");
    reveal_strlit("as_an_overdrive");
    reveal_strlit("eq_noon");
    reveal_strlit("eq_noon_full_gain");
    reveal_strlit("evil");
    reveal_strlit("mega_scoop");
    reveal_strlit("my_settings");
    reveal_strlit("nattens_madrigal");
    reveal_strlit("swedish_chainsaw_ish");
    reveal_strlit("tob_boost_low_distortion");
    reveal_strlit("trve_kult");
    let ps = spec_model_schema().parameters.unwrap();
    assert forall|i: int| 0 <= i < ps.len() implies parameter_well_formed(#[trigger] ps[i]) by {
        if ps[i].kind is Enum {
            let vs = choice_values(ps[i].kind->Enum_choices);
            assert forall|a: int, b: int| 0 <= a < b < vs.len() implies vs[a] != vs[b] by {
                if vs[a] == vs[b] {
                    assert(vs[a].len() == vs[b].len());
                }
            }
        }
        if i == 0 {
            assert(ps[0].kind->Enum_choices[0].value@ == "as_an_overdrive"@);
        }
    }
}

/// Each capture is recorded at choices the schema offers.
pub proof fn lemma_captures_follow_schema()
    ensures
        captures_follow_schema(spec_model_schema(), key_params(), spec_captures()),
{
    let s = spec_model_schema();
    let t = spec_captures();
    assert forall|i: int, k: int| 0 <= i < t.len() && 0 <= k < key_params().len() implies {
        &&& #[trigger] t[i].keys.len() == key_params().len()
        &&& is_choice(choices_at(s, key_params()[k]), #[trigger] t[i].keys[k]@)
    } by {
        let cs = choices_at(s, key_params()[k]);
        if k == 0 {
            if t[i].keys[0] == "as_an_overdrive" {
                assert(cs[0].value@ == t[i].keys[k]@);
            } else if t[i].keys[0] == "eq_noon" {
                assert(cs[1].value@ == t[i].keys[k]@);
            } else if t[i].keys[0] == "eq_noon_full_gain" {
                assert(cs[2].value@ == t[i].keys[k]@);
            } else if t[i].keys[0] == "evil" {
                assert(cs[3].value@ == t[i].keys[k]@);
            } else if t[i].keys[0] == "mega_scoop" {
                assert(cs[4].value@ == t[i].keys[k]@);
            } else if t[i].keys[0] == "my_settings" {
                assert(cs[5].value@ == t[i].keys[k]@);
            } else if t[i].keys[0] == "nattens_madrigal" {
                assert(cs[6].value@ == t[i].keys[k]@);
            } else if t[i].keys[0] == "swedish_chainsaw_ish" {
                assert(cs[7].value@ == t[i].keys[k]@);
            } else if t[i].keys[0] == "tob_boost_low_distortion" {
                assert(cs[8].value@ == t[i].keys[k]@);
            } else {
                assert(cs[9].value@ == t[i].keys[k]@);
            }
        }
    }
}

/// No two captures share a setting.
pub proof fn lemma_captures_distinct()
    ensures
        captures_distinct(spec_captures()),
{
    reveal_strlit("as_an_overdrive");
    reveal_strlit("eq_noon");
    reveal_strlit("eq_noon_full_gain");
    reveal_strlit("evil");
    reveal_strlit("mega_scoop");
    reveal_strlit("my_settings");
    reveal_strlit("nattens_madrigal");
    reveal_strlit("swedish_chainsaw_ish");
    reveal_strlit("tob_boost_low_distortion");
    reveal_strlit("trve_kult");
    let t = spec_captures();
    assert forall|a: int, b: int| 0 <= a < b < t.len() implies str_texts(t[a].keys) != str_texts(t[b].keys) by {
        let x = str_texts(t[a].keys);
        let y = str_texts(t[b].keys);
        if x == y {
            assert(x[0].len() == y[0].len());
        }
    }
}

/// Every setting the schema offers selects a capture; so do the defaults.
pub proof fn lemma_every_setting_selects()
    ensures
        every_setting_selects(spec_model_schema(), key_params(), spec_captures()),
        defaults_present(spec_model_schema(), key_params()),
        first_selected(spec_captures(), default_setting(spec_model_schema(), key_params())) is Some,
{
    let s = spec_model_schema();
    let t = spec_captures();
    assert forall|r: Seq<Seq<char>>| setting_of_choices(s, key_params(), r) implies
        (#[trigger] first_selected(t, r)) is Some by {
        let c0 = choices_at(s, 0);
        let i0 = choose|i: int| 0 <= i < c0.len() && c0[i].value@ == r[0];
        if i0 == 0 {
            lemma_selected_at(t, r, 0);
        } else if i0 == 1 {
            lemma_selected_at(t, r, 1);
        } else if i0 == 2 {
            lemma_selected_at(t, r, 2);
        } else if i0 == 3 {
            lemma_selected_at(t, r, 3);
        } else if i0 == 4 {
            lemma_selected_at(t, r, 4);
        } else if i0 == 5 {
            lemma_selected_at(t, r, 5);
        } else if i0 == 6 {
            lemma_selected_at(t, r, 6);
        } else if i0 == 7 {
            lemma_selected_at(t, r, 7);
        } else if i0 == 8 {
            lemma_selected_at(t, r, 8);
        } else if i0 == 9 {
            lemma_selected_at(t, r, 9);
        }
    }
    let dflt = default_setting(s, key_params());
    assert(dflt =~= seq!["as_an_overdrive"@]);
    lemma_selected_at(t, dflt, 0);
}

/// Every capture names a file that writes each value of its setting, and
/// no two captures name the same file.
pub proof fn lemma_capture_files()
    ensures
        files_name_settings(spec_captures()),
        files_distinct(spec_captures()),
{
    reveal_strlit("pedals/ehx_metal_muff/metal_muff_as_an_overdrive.nam");
    reveal_strlit("pedals/ehx_metal_muff/metal_muff_eq_noon.nam");
    reveal_strlit("pedals/ehx_metal_muff/metal_muff_eq_noon_full_gain.nam");
    reveal_strlit("pedals/ehx_metal_muff/metal_muff_evil.nam");
    reveal_strlit("pedals/ehx_metal_muff/metal_muff_mega_scoop.nam");
    reveal_strlit("pedals/ehx_metal_muff/metal_muff_my_settings.nam");
    reveal_strlit("pedals/ehx_metal_muff/metal_muff_nattens_madrigal.nam");
    reveal_strlit("pedals/ehx_metal_muff/metal_muff_swedish_chainsaw_ish.nam");
    reveal_strlit("pedals/ehx_metal_muff/metal_muff_tob_boost_low_distortion.nam");
    reveal_strlit("pedals/ehx_metal_muff/metal_muff_trve_kult.nam");
    reveal_strlit("as_an_overdrive");
    reveal_strlit("eq_noon");
    reveal_strlit("eq_noon_full_gain");
    reveal_strlit("evil");
    reveal_strlit("mega_scoop");
    reveal_strlit("my_settings");
    reveal_strlit("nattens_madrigal");
    reveal_strlit("swedish_chainsaw_ish");
    reveal_strlit("tob_boost_low_distortion");
    reveal_strlit("trve_kult");
    let t = spec_captures();
    assert forall|i: int, k: int| 0 <= i < t.len() && 0 <= k < t[i].keys.len() implies
        names_value(#[trigger] t[i].model_path@, #[trigger] t[i].keys[k]@) by {
        let path = t[i].model_path@;
        let key = t[i].keys[k]@;
        if i == 0 {
            if k == 0 {
                assert(path.subrange(33int, 33int + key.len()) =~= key);
            }
        } else if i == 1 {
            if k == 0 {
                assert(path.subrange(33int, 33int + key.len()) =~= key);
            }
        } else if i == 2 {
            if k == 0 {
                assert(path.subrange(33int, 33int + key.len()) =~= key);
            }
        } else if i == 3 {
            if k == 0 {
                assert(path.subrange(33int, 33int + key.len()) =~= key);
            }
        } else if i == 4 {
            if k == 0 {
                assert(path.subrange(33int, 33int + key.len()) =~= key);
            }
        } else if i == 5 {
            if k == 0 {
                assert(path.subrange(33int, 33int + key.len()) =~= key);
            }
        } else if i == 6 {
            if k == 0 {
                assert(path.subrange(33int, 33int + key.len()) =~= key);
            }
        } else if i == 7 {
            if k == 0 {
                assert(path.subrange(33int, 33int + key.len()) =~= key);
            }
        } else if i == 8 {
            if k == 0 {
                assert(path.subrange(33int, 33int + key.len()) =~= key);
            }
        } else if i == 9 {
            if k == 0 {
                assert(path.subrange(33int, 33int + key.len()) =~= key);
            }
        }
    }
    assert forall|a: int, b: int| 0 <= a < b < 10 implies t[a].model_path@ != t[b].model_path@ by {
        if a == 0 && b == 1 {
            assert(t[0].model_path@.len() != t[1].model_path@.len());
        } else if a == 0 && b == 2 {
            assert(t[0].model_path@.len() != t[2].model_path@.len());
        } else if a == 0 && b == 3 {
            assert(t[0].model_path@.len() != t[3].model_path@.len());
        } else if a == 0 && b == 4 {
            assert(t[0].model_path@.len() != t[4].model_path@.len());
        } else if a == 0 && b == 5 {
            assert(t[0].model_path@.len() != t[5].model_path@.len());
        } else if a == 0 && b == 6 {
            assert(t[0].model_path@.len() != t[6].model_path@.len());
        } else if a == 0 && b == 7 {
            assert(t[0].model_path@.len() != t[7].model_path@.len());
        } else if a == 0 && b == 8 {
            assert(t[0].model_path@.len() != t[8].model_path@.len());
        } else if a == 0 && b == 9 {
            assert(t[0].model_path@.len() != t[9].model_path@.len());
        } else if a == 1 && b == 2 {
            assert(t[1].model_path@.len() != t[2].model_path@.len());
        } else if a == 1 && b == 3 {
            assert(t[1].model_path@.len() != t[3].model_path@.len());
        } else if a == 1 && b == 4 {
            assert(t[1].model_path@.len() != t[4].model_path@.len());
        } else if a == 1 && b == 5 {
            assert(t[1].model_path@.len() != t[5].model_path@.len());
        } else if a == 1 && b == 6 {
            assert(t[1].model_path@.len() != t[6].model_path@.len());
        } else if a == 1 && b == 7 {
            assert(t[1].model_path@.len() != t[7].model_path@.len());
        } else if a == 1 && b == 8 {
            assert(t[1].model_path@.len() != t[8].model_path@.len());
        } else if a == 1 && b == 9 {
            assert(t[1].model_path@.len() != t[9].model_path@.len());
        } else if a == 2 && b == 3 {
            assert(t[2].model_path@.len() != t[3].model_path@.len());
        } else if a == 2 && b == 4 {
            assert(t[2].model_path@.len() != t[4].model_path@.len());
        } else if a == 2 && b == 5 {
            assert(t[2].model_path@.len() != t[5].model_path@.len());
        } else if a == 2 && b == 6 {
            assert(t[2].model_path@.len() != t[6].model_path@.len());
        } else if a == 2 && b == 7 {
            assert(t[2].model_path@.len() != t[7].model_path@.len());
        } else if a == 2 && b == 8 {
            assert(t[2].model_path@.len() != t[8].model_path@.len());
        } else if a == 2 && b == 9 {
            assert(t[2].model_path@.len() != t[9].model_path@.len());
        } else if a == 3 && b == 4 {
            assert(t[3].model_path@.len() != t[4].model_path@.len());
        } else if a == 3 && b == 5 {
            assert(t[3].model_path@.len() != t[5].model_path@.len());
        } else if a == 3 && b == 6 {
            assert(t[3].model_path@.len() != t[6].model_path@.len());
        } else if a == 3 && b == 7 {
            assert(t[3].model_path@.len() != t[7].model_path@.len());
        } else if a == 3 && b == 8 {
            assert(t[3].model_path@.len() != t[8].model_path@.len());
        } else if a == 3 && b == 9 {
            assert(t[3].model_path@.len() != t[9].model_path@.len());
        } else if a == 4 && b == 5 {
            assert(t[4].model_path@.len() != t[5].model_path@.len());
        } else if a == 4 && b == 6 {
            assert(t[4].model_path@.len() != t[6].model_path@.len());
        } else if a == 4 && b == 7 {
            assert(t[4].model_path@.len() != t[7].model_path@.len());
        } else if a == 4 && b == 8 {
            assert(t[4].model_path@.len() != t[8].model_path@.len());
        } else if a == 4 && b == 9 {
            assert(t[4].model_path@.len() != t[9].model_path@.len());
        } else if a == 5 && b == 6 {
            assert(t[5].model_path@.len() != t[6].model_path@.len());
        } else if a == 5 && b == 7 {
            assert(t[5].model_path@.len() != t[7].model_path@.len());
        } else if a == 5 && b == 8 {
            assert(t[5].model_path@.len() != t[8].model_path@.len());
        } else if a == 5 && b == 9 {
            assert(t[5].model_path@.len() != t[9].model_path@.len());
        } else if a == 6 && b == 7 {
            assert(t[6].model_path@.len() != t[7].model_path@.len());
        } else if a == 6 && b == 8 {
            assert(t[6].model_path@.len() != t[8].model_path@.len());
        } else if a == 6 && b == 9 {
            assert(t[6].model_path@.len() != t[9].model_path@.len());
        } else if a == 7 && b == 8 {
            assert(t[7].model_path@.len() != t[8].model_path@.len());
        } else if a == 7 && b == 9 {
            assert(t[7].model_path@.len() != t[9].model_path@.len());
        } else if a == 8 && b == 9 {
            assert(t[8].model_path@.len() != t[9].model_path@.len());
        }
    }
}

/// The file recorded at a setting, as the recording names it.
pub open spec fn recorded_file(tone: Seq<char>) -> Seq<char> {
    "pedals/ehx_metal_muff/metal_muff_"@ + tone + ".nam"@
}

/// Every capture names the file recorded at its own setting.
pub proof fn lemma_captures_name_their_setting()
    ensures
        forall|i: int| 0 <= i < spec_captures().len() ==>
            (#[trigger] spec_captures()[i]).model_path@ == recorded_file(spec_captures()[i].keys[0]@),
{
    reveal_strlit("pedals/ehx_metal_muff/metal_muff_");
    reveal_strlit(".nam");
    reveal_strlit("pedals/ehx_metal_muff/metal_muff_as_an_overdrive.nam");
    reveal_strlit("pedals/ehx_metal_muff/metal_muff_eq_noon.nam");
    reveal_strlit("pedals/ehx_metal_muff/metal_muff_eq_noon_full_gain.nam");
    reveal_strlit("pedals/ehx_metal_muff/metal_muff_evil.nam");
    reveal_strlit("pedals/ehx_metal_muff/metal_muff_mega_scoop.nam");
    reveal_strlit("pedals/ehx_metal_muff/metal_muff_my_settings.nam");
    reveal_strlit("pedals/ehx_metal_muff/metal_muff_nattens_madrigal.nam");
    reveal_strlit("pedals/ehx_metal_muff/metal_muff_swedish_chainsaw_ish.nam");
    reveal_strlit("pedals/ehx_metal_muff/metal_muff_tob_boost_low_distortion.nam");
    reveal_strlit("pedals/ehx_metal_muff/metal_muff_trve_kult.nam");
    reveal_strlit("as_an_overdrive");
    reveal_strlit("eq_noon");
    reveal_strlit("eq_noon_full_gain");
    reveal_strlit("evil");
    reveal_strlit("mega_scoop");
    reveal_strlit("my_settings");
    reveal_strlit("nattens_madrigal");
    reveal_strlit("swedish_chainsaw_ish");
    reveal_strlit("tob_boost_low_distortion");
    reveal_strlit("trve_kult");
    let t = spec_captures();
    assert forall|i: int| 0 <= i < t.len() implies
        (#[trigger] t[i]).model_path@ == recorded_file(t[i].keys[0]@) by {
        if i == 0 {
            assert(t[i].model_path@ =~= recorded_file("as_an_overdrive"@));
        } else if i == 1 {
            assert(t[i].model_path@ =~= recorded_file("eq_noon"@));
        } else if i == 2 {
            assert(t[i].model_path@ =~= recorded_file("eq_noon_full_gain"@));
        } else if i == 3 {
            assert(t[i].model_path@ =~= recorded_file("evil"@));
        } else if i == 4 {
            assert(t[i].model_path@ =~= recorded_file("mega_scoop"@));
        } else if i == 5 {
            assert(t[i].model_path@ =~= recorded_file("my_settings"@));
        } else if i == 6 {
            assert(t[i].model_path@ =~= recorded_file("nattens_madrigal"@));
        } else if i == 7 {
            assert(t[i].model_path@ =~= recorded_file("swedish_chainsaw_ish"@));
        } else if i == 8 {
            assert(t[i].model_path@ =~= recorded_file("tob_boost_low_distortion"@));
        } else if i == 9 {
            assert(t[i].model_path@ =~= recorded_file("trve_kult"@));
        }
    }
}

/// A setting that selects a capture selects the file recorded at that setting.
pub proof fn lemma_selected_file(tone: Seq<char>)
    ensures
        selection(tone) matches Some(i) ==> spec_captures()[i].model_path@ == recorded_file(tone),
{
    lemma_first_selected(spec_captures(), seq![tone]);
    lemma_captures_name_their_setting();
    if let Some(i) = selection(tone) {
        assert(spec_captures()[i].model_path@ == recorded_file(spec_captures()[i].keys[0]@));
    }
}

} // verus!
