//! The "DigiTech Bad Monkey" gain model (digitech), played from neural captures, one per recorded setting.

use vstd::prelude::*;
use crate::capture::{
    files_distinct,
    Capture, CaptureView, table_view, find_capture, first_selected, asset_text, lemma_first_selected,
    lemma_selected_at, captures_follow_schema, default_setting, defaults_present, captures_distinct,
    every_setting_selects, setting_of_choices,
};
use crate::error::GainError;
use crate::model::{BackendKind, Instruments, KnobLayoutEntry, ModelDefinition, ModelDefinitionView};
use crate::schema::{
    EffectType, EnumChoice, ModelSchema, ModelSchemaView, ParameterKindView, ParameterSpecView,
    choice, enum_parameter, parameters_view, schema_well_formed, choices_at, str_texts, is_choice,
    parameter_well_formed, choice_values, parameter_paths,
};
use crate::text::{concat, join, texts};

verus! {

pub const MODEL_ID: &'static str = "nam_digitech_bad_monkey";
pub const DISPLAY_NAME: &'static str = "DigiTech Bad Monkey";
pub const BRAND: &'static str = "digitech";

pub open spec fn spec_model_schema() -> ModelSchemaView {
    ModelSchemaView {
        effect_type: EffectType::Gain,
        model: MODEL_ID,
        display_name: DISPLAY_NAME,
        audio_mode: None,
        parameters: Some(seq![
            ParameterSpecView {
                path: "voicing",
                label: "Voicing",
                group: Some("Pedal"),
                kind: ParameterKindView::Enum {
                    default: Some("klon"),
                    choices: seq![
                        EnumChoice { value: "boost1", label: "Boost (low gain)" },
                        EnumChoice { value: "boost2", label: "Boost (mid gain)" },
                        EnumChoice { value: "boost3_g0", label: "Boost Bright" },
                        EnumChoice { value: "boost3_g4", label: "Boost Bright + Drive" },
                        EnumChoice { value: "fulltone", label: "Fulltone OCD" },
                        EnumChoice { value: "glory", label: "Morning Glory" },
                        EnumChoice { value: "klon", label: "Klon Centaur" },
                        EnumChoice { value: "noble_odr_1", label: "Nobels ODR-1" },
                        EnumChoice { value: "ts10", label: "Ibanez TS10" },
                        EnumChoice { value: "zen", label: "Hermida Zendrive" },
                    ],
                },
            },
            ParameterSpecView {
                path: "size",
                label: "Model Size",
                group: Some("Asset"),
                kind: ParameterKindView::Enum {
                    default: Some("standard"),
                    choices: seq![
                        EnumChoice { value: "feather", label: "Feather" },
                        EnumChoice { value: "lite", label: "Lite" },
                        EnumChoice { value: "standard", label: "Standard" },
                    ],
                },
            },
        ]),
    }
}

/// The parameters of the model.
pub fn model_schema() -> (schema: ModelSchema)
    ensures
        schema@ == spec_model_schema(),
{
    let parameters = vec![
        enum_parameter(
            "voicing",
            "Voicing",
            Some("Pedal"),
            Some("klon"),
            vec![
                choice("boost1", "Boost (low gain)"),
                choice("boost2", "Boost (mid gain)"),
                choice("boost3_g0", "Boost Bright"),
                choice("boost3_g4", "Boost Bright + Drive"),
                choice("fulltone", "Fulltone OCD"),
                choice("glory", "Morning Glory"),
                choice("klon", "Klon Centaur"),
                choice("noble_odr_1", "Nobels ODR-1"),
                choice("ts10", "Ibanez TS10"),
                choice("zen", "Hermida Zendrive"),
            ],
        ),
        enum_parameter(
            "size",
            "Model Size",
            Some("Asset"),
            Some("standard"),
            vec![
                choice("feather", "Feather"),
                choice("lite", "Lite"),
                choice("standard", "Standard"),
            ],
        ),
    ];
    assert(parameters_view(parameters@) =~= spec_model_schema().parameters.unwrap());
    ModelSchema {
        effect_type: EffectType::Gain,
        model: MODEL_ID,
        display_name: DISPLAY_NAME,
        audio_mode: None,
        parameters: Some(parameters),
    }
}

/// The positions, in the schema, of the parameters that select a capture.
pub open spec fn key_params() -> Seq<int> {
    seq![0, 1]
}

pub open spec fn spec_captures() -> Seq<CaptureView> {
    seq![
        CaptureView { keys: seq!["boost1", "feather"], model_path: "pedals/digitech_bad_monkey/badmonkey_boost1_v10_b4_t6_g0_feather.nam" },
        CaptureView { keys: seq!["boost1", "lite"], model_path: "pedals/digitech_bad_monkey/badmonkey_boost1_v10_b4_t6_g0_lite.nam" },
        CaptureView { keys: seq!["boost1", "standard"], model_path: "pedals/digitech_bad_monkey/badmonkey_boost1_v10_b4_t6_g0_standard.nam" },
        CaptureView { keys: seq!["boost2", "feather"], model_path: "pedals/digitech_bad_monkey/badmonkey_boost2_v10_b4_t6_g4_feather.nam" },
        CaptureView { keys: seq!["boost2", "lite"], model_path: "pedals/digitech_bad_monkey/badmonkey_boost2_v10_b4_t6_g4_lite.nam" },
        CaptureView { keys: seq!["boost2", "standard"], model_path: "pedals/digitech_bad_monkey/badmonkey_boost2_v10_b4_t6_g4_standard.nam" },
        CaptureView { keys: seq!["boost3_g0", "feather"], model_path: "pedals/digitech_bad_monkey/badmonkey_boost3_v10_b7_t6_g0_feather.nam" },
        CaptureView { keys: seq!["boost3_g0", "lite"], model_path: "pedals/digitech_bad_monkey/badmonkey_boost3_v10_b7_t6_g0_lite.nam" },
        CaptureView { keys: seq!["boost3_g0", "standard"], model_path: "pedals/digitech_bad_monkey/badmonkey_boost3_v10_b7_t6_g0_standard.nam" },
        CaptureView { keys: seq!["boost3_g4", "feather"], model_path: "pedals/digitech_bad_monkey/badmonkey_boost3_v10_b7_t6_g4_feather.nam" },
        CaptureView { keys: seq!["boost3_g4", "lite"], model_path: "pedals/digitech_bad_monkey/badmonkey_boost3_v10_b7_t6_g4_lite.nam" },
        CaptureView { keys: seq!["boost3_g4", "standard"], model_path: "pedals/digitech_bad_monkey/badmonkey_boost3_v10_b7_t6_g4_standard.nam" },
        CaptureView { keys: seq!["fulltone", "feather"], model_path: "pedals/digitech_bad_monkey/badmonkey_fulltone_feather.nam" },
        CaptureView { keys: seq!["fulltone", "lite"], model_path: "pedals/digitech_bad_monkey/badmonkey_fulltone_lite.nam" },
        CaptureView { keys: seq!["fulltone", "standard"], model_path: "pedals/digitech_bad_monkey/badmonkey_fulltone_standard.nam" },
        CaptureView { keys: seq!["glory", "feather"], model_path: "pedals/digitech_bad_monkey/badmonkey_glory_feather.nam" },
        CaptureView { keys: seq!["glory", "lite"], model_path: "pedals/digitech_bad_monkey/badmonkey_glory_lite.nam" },
        CaptureView { keys: seq!["glory", "standard"], model_path: "pedals/digitech_bad_monkey/badmonkey_glory_standard.nam" },
        CaptureView { keys: seq!["klon", "feather"], model_path: "pedals/digitech_bad_monkey/badmonkey_klon_feather.nam" },
        CaptureView { keys: seq!["klon", "lite"], model_path: "pedals/digitech_bad_monkey/badmonkey_klon_lite.nam" },
        CaptureView { keys: seq!["klon", "standard"], model_path: "pedals/digitech_bad_monkey/badmonkey_klon_standard.nam" },
        CaptureView { keys: seq!["noble_odr_1", "feather"], model_path: "pedals/digitech_bad_monkey/badmonkey_noble_odr_1_feather.nam" },
        CaptureView { keys: seq!["noble_odr_1", "lite"], model_path: "pedals/digitech_bad_monkey/badmonkey_noble_odr_1_lite.nam" },
        CaptureView { keys: seq!["noble_odr_1", "standard"], model_path: "pedals/digitech_bad_monkey/badmonkey_noble_odr_1_standard.nam" },
        CaptureView { keys: seq!["ts10", "feather"], model_path: "pedals/digitech_bad_monkey/badmonkey_ts10_feather.nam" },
        CaptureView { keys: seq!["ts10", "lite"], model_path: "pedals/digitech_bad_monkey/badmonkey_ts10_lite.nam" },
        CaptureView { keys: seq!["ts10", "standard"], model_path: "pedals/digitech_bad_monkey/badmonkey_ts10_standard.nam" },
        CaptureView { keys: seq!["zen", "feather"], model_path: "pedals/digitech_bad_monkey/badmonkey_zen_feather.nam" },
        CaptureView { keys: seq!["zen", "lite"], model_path: "pedals/digitech_bad_monkey/badmonkey_zen_lite.nam" },
        CaptureView { keys: seq!["zen", "standard"], model_path: "pedals/digitech_bad_monkey/badmonkey_zen_standard.nam" },
    ]
}

/// The captures of the pedal, each with its (voicing, size) setting.
pub fn captures() -> (table: Vec<Capture>)
    ensures
        table_view(table@) == spec_captures(),
{
    let table = vec![
        Capture::two("boost1", "feather", "pedals/digitech_bad_monkey/badmonkey_boost1_v10_b4_t6_g0_feather.nam"),
        Capture::two("boost1", "lite", "pedals/digitech_bad_monkey/badmonkey_boost1_v10_b4_t6_g0_lite.nam"),
        Capture::two("boost1", "standard", "pedals/digitech_bad_monkey/badmonkey_boost1_v10_b4_t6_g0_standard.nam"),
        Capture::two("boost2", "feather", "pedals/digitech_bad_monkey/badmonkey_boost2_v10_b4_t6_g4_feather.nam"),
        Capture::two("boost2", "lite", "pedals/digitech_bad_monkey/badmonkey_boost2_v10_b4_t6_g4_lite.nam"),
        Capture::two("boost2", "standard", "pedals/digitech_bad_monkey/badmonkey_boost2_v10_b4_t6_g4_standard.nam"),
        Capture::two("boost3_g0", "feather", "pedals/digitech_bad_monkey/badmonkey_boost3_v10_b7_t6_g0_feather.nam"),
        Capture::two("boost3_g0", "lite", "pedals/digitech_bad_monkey/badmonkey_boost3_v10_b7_t6_g0_lite.nam"),
        Capture::two("boost3_g0", "standard", "pedals/digitech_bad_monkey/badmonkey_boost3_v10_b7_t6_g0_standard.nam"),
        Capture::two("boost3_g4", "feather", "pedals/digitech_bad_monkey/badmonkey_boost3_v10_b7_t6_g4_feather.nam"),
        Capture::two("boost3_g4", "lite", "pedals/digitech_bad_monkey/badmonkey_boost3_v10_b7_t6_g4_lite.nam"),
        Capture::two("boost3_g4", "standard", "pedals/digitech_bad_monkey/badmonkey_boost3_v10_b7_t6_g4_standard.nam"),
        Capture::two("fulltone", "feather", "pedals/digitech_bad_monkey/badmonkey_fulltone_feather.nam"),
        Capture::two("fulltone", "lite", "pedals/digitech_bad_monkey/badmonkey_fulltone_lite.nam"),
        Capture::two("fulltone", "standard", "pedals/digitech_bad_monkey/badmonkey_fulltone_standard.nam"),
        Capture::two("glory", "feather", "pedals/digitech_bad_monkey/badmonkey_glory_feather.nam"),
        Capture::two("glory", "lite", "pedals/digitech_bad_monkey/badmonkey_glory_lite.nam"),
        Capture::two("glory", "standard", "pedals/digitech_bad_monkey/badmonkey_glory_standard.nam"),
        Capture::two("klon", "feather", "pedals/digitech_bad_monkey/badmonkey_klon_feather.nam"),
        Capture::two("klon", "lite", "pedals/digitech_bad_monkey/badmonkey_klon_lite.nam"),
        Capture::two("klon", "standard", "pedals/digitech_bad_monkey/badmonkey_klon_standard.nam"),
        Capture::two("noble_odr_1", "feather", "pedals/digitech_bad_monkey/badmonkey_noble_odr_1_feather.nam"),
        Capture::two("noble_odr_1", "lite", "pedals/digitech_bad_monkey/badmonkey_noble_odr_1_lite.nam"),
        Capture::two("noble_odr_1", "standard", "pedals/digitech_bad_monkey/badmonkey_noble_odr_1_standard.nam"),
        Capture::two("ts10", "feather", "pedals/digitech_bad_monkey/badmonkey_ts10_feather.nam"),
        Capture::two("ts10", "lite", "pedals/digitech_bad_monkey/badmonkey_ts10_lite.nam"),
        Capture::two("ts10", "standard", "pedals/digitech_bad_monkey/badmonkey_ts10_standard.nam"),
        Capture::two("zen", "feather", "pedals/digitech_bad_monkey/badmonkey_zen_feather.nam"),
        Capture::two("zen", "lite", "pedals/digitech_bad_monkey/badmonkey_zen_lite.nam"),
        Capture::two("zen", "standard", "pedals/digitech_bad_monkey/badmonkey_zen_standard.nam"),
    ];
    assert(table_view(table@) =~= spec_captures());
    table
}

/// What the model reports for a setting at which no capture was recorded.
pub open spec fn unsupported_message(voicing: Seq<char>, size: Seq<char>) -> Seq<char> {
    concat(seq!["gain '"@, MODEL_ID@, "' has no capture for voicing="@, voicing, " size="@, size])
}

/// The index of the capture that (voicing, size) selects.
pub open spec fn selection(voicing: Seq<char>, size: Seq<char>) -> Option<int> {
    first_selected(spec_captures(), seq![voicing, size])
}

fn unsupported(voicing: &str, size: &str) -> (e: GainError)
    ensures
        e matches GainError::UnsupportedSetting(m) && m@ == unsupported_message(voicing@, size@),
{
    let parts = vec!["gain '", MODEL_ID, "' has no capture for voicing=", voicing, " size=", size];
    let m = join(&parts);
    assert(texts(parts@) =~= seq!["gain '"@, MODEL_ID@, "' has no capture for voicing="@, voicing@, " size="@, size@]);
    GainError::UnsupportedSetting(m)
}

/// The capture recorded at (voicing, size).
pub fn resolve_capture(voicing: &str, size: &str) -> (selected: Result<&'static str, GainError>)
    ensures
        match selection(voicing@, size@) {
            Some(i) => selected matches Ok(path) && path == spec_captures()[i].model_path,
            None => selected matches Err(GainError::UnsupportedSetting(m)) && m@ == unsupported_message(voicing@, size@),
        },
{
    let table = captures();
    let request = vec![voicing, size];
    assert(texts(request@) =~= seq![voicing@, size@]);
    match find_capture(&table, &request) {
        Some(i) => {
            proof {
                lemma_first_selected(spec_captures(), seq![voicing@, size@]);
            }
            Ok(table[i].model_path)
        },
        None => Err(unsupported(voicing, size)),
    }
}

/// Accepts (voicing, size) exactly where a capture was recorded there.
pub fn validate_params(voicing: &str, size: &str) -> (checked: Result<(), GainError>)
    ensures
        match selection(voicing@, size@) {
            Some(i) => checked is Ok,
            None => checked matches Err(GainError::UnsupportedSetting(m)) && m@ == unsupported_message(voicing@, size@),
        },
{
    match resolve_capture(voicing, size) {
        Ok(_) => Ok(()),
        Err(e) => Err(e),
    }
}

/// Names the capture file that (voicing, size) selects.
pub fn asset_summary(voicing: &str, size: &str) -> (summary: Result<String, GainError>)
    ensures
        match selection(voicing@, size@) {
            Some(i) => summary matches Ok(s) && s@ == asset_text(spec_captures()[i].model_path@),
            None => summary matches Err(GainError::UnsupportedSetting(m)) && m@ == unsupported_message(voicing@, size@),
        },
{
    match resolve_capture(voicing, size) {
        Ok(c) => {
            let parts = vec!["model='", c, "'"];
            assert(texts(parts@) =~= seq!["model='"@, c@, "'"@]);
            Ok(join(&parts))
        },
        Err(e) => Err(e),
    }
}

pub open spec fn spec_model_definition() -> ModelDefinitionView {
    ModelDefinitionView {
        id: MODEL_ID,
        display_name: DISPLAY_NAME,
        brand: BRAND,
        backend_kind: BackendKind::Nam,
        supported_instruments: Instruments::GuitarBass,
        knob_layout: seq![],
    }
}

/// What the registry lists for this model.
pub fn model_definition() -> (d: ModelDefinition)
    ensures
        d@ == spec_model_definition(),
{
    let knob_layout: Vec<KnobLayoutEntry> = Vec::new();
    let d = ModelDefinition {
        id: MODEL_ID,
        display_name: DISPLAY_NAME,
        brand: BRAND,
        backend_kind: BackendKind::Nam,
        supported_instruments: Instruments::GuitarBass,
        knob_layout,
    };
    assert(d@.knob_layout =~= spec_model_definition().knob_layout);
    d
}

/// The schema is sound: every parameter is, and no two share a path.
pub proof fn lemma_schema_well_formed()
    ensures
        schema_well_formed(spec_model_schema()),
{
    reveal_strlit("voicing");
    reveal_strlit("size");
    reveal_strlit("boost1");
    reveal_strlit("boost2");
    reveal_strlit("boost3_g0");
    reveal_strlit("boost3_g4");
    reveal_strlit("fulltone");
    reveal_strlit("glory");
    reveal_strlit("klon");
    reveal_strlit("noble_odr_1");
    reveal_strlit("ts10");
    reveal_strlit("zen");
    reveal_strlit("feather");
    reveal_strlit("lite");
    reveal_strlit("standard");
    let ps = spec_model_schema().parameters.unwrap();
    assert forall|i: int| 0 <= i < ps.len() implies parameter_well_formed(#[trigger] ps[i]) by {
        if ps[i].kind is Enum {
            let vs = choice_values(ps[i].kind->Enum_choices);
            assert forall|a: int, b: int| 0 <= a < b < vs.len() implies vs[a] != vs[b] by {
                if vs[a] == vs[b] {
                    assert(vs[a].len() == vs[b].len());
                    assert(vs[a][0] == vs[b][0]);
                    assert(vs[a][1] == vs[b][1]);
                    assert(vs[a][2] == vs[b][2]);
                    assert(vs[a][3] == vs[b][3]);
                    assert(vs[a][4] == vs[b][4]);
                    assert(vs[a][5] == vs[b][5]);
                    assert(vs[a][6] == vs[b][6]);
                    assert(vs[a][7] == vs[b][7]);
                    assert(vs[a][8] == vs[b][8]);
                }
            }
        }
        if i == 0 {
            assert(ps[0].kind->Enum_choices[6].value@ == "klon"@);
        } else if i == 1 {
            assert(ps[1].kind->Enum_choices[2].value@ == "standard"@);
        }
    }
    let paths = parameter_paths(ps);
    assert forall|a: int, b: int| 0 <= a < b < paths.len() implies paths[a] != paths[b] by {
        if paths[a] == paths[b] {
            assert(paths[a].len() == paths[b].len());
        }
    }
}

/// Each capture is recorded at choices the schema offers.
pub proof fn lemma_captures_follow_schema()
    ensures
        captures_follow_schema(spec_model_schema(), key_params(), spec_captures()),
{
    let s = spec_model_schema();
    let t = spec_captures();
    assert forall|i: int, k: int| 0 <= i < t.len() && 0 <= k < key_params().len() implies {
        &&& #[trigger] t[i].keys.len() == key_params().len()
        &&& is_choice(choices_at(s, key_params()[k]), #[trigger] t[i].keys[k]@)
    } by {
        let cs = choices_at(s, key_params()[k]);
        if k == 0 {
            if t[i].keys[0] == "boost1" {
                assert(cs[0].value@ == t[i].keys[k]@);
            } else if t[i].keys[0] == "boost2" {
                assert(cs[1].value@ == t[i].keys[k]@);
            } else if t[i].keys[0] == "boost3_g0" {
                assert(cs[2].value@ == t[i].keys[k]@);
            } else if t[i].keys[0] == "boost3_g4" {
                assert(cs[3].value@ == t[i].keys[k]@);
            } else if t[i].keys[0] == "fulltone" {
                assert(cs[4].value@ == t[i].keys[k]@);
            } else if t[i].keys[0] == "glory" {
                assert(cs[5].value@ == t[i].keys[k]@);
            } else if t[i].keys[0] == "klon" {
                assert(cs[6].value@ == t[i].keys[k]@);
            } else if t[i].keys[0] == "noble_odr_1" {
                assert(cs[7].value@ == t[i].keys[k]@);
            } else if t[i].keys[0] == "ts10" {
                assert(cs[8].value@ == t[i].keys[k]@);
            } else {
                assert(cs[9].value@ == t[i].keys[k]@);
            }
        } else if k == 1 {
            if t[i].keys[1] == "feather" {
                assert(cs[0].value@ == t[i].keys[k]@);
            } else if t[i].keys[1] == "lite" {
                assert(cs[1].value@ == t[i].keys[k]@);
            } else {
                assert(cs[2].value@ == t[i].keys[k]@);
            }
        }
    }
}

/// No two captures share a setting.
pub proof fn lemma_captures_distinct()
    ensures
        captures_distinct(spec_captures()),
{
    reveal_strlit("boost1");
    reveal_strlit("feather");
    reveal_strlit("lite");
    reveal_strlit("standard");
    reveal_strlit("boost2");
    reveal_strlit("boost3_g0");
    reveal_strlit("boost3_g4");
    reveal_strlit("fulltone");
    reveal_strlit("glory");
    reveal_strlit("klon");
    reveal_strlit("noble_odr_1");
    reveal_strlit("ts10");
    reveal_strlit("zen");
    let t = spec_captures();
    assert forall|a: int, b: int| 0 <= a < b < t.len() implies str_texts(t[a].keys) != str_texts(t[b].keys) by {
        let x = str_texts(t[a].keys);
        let y = str_texts(t[b].keys);
        if x == y {
            assert(x[0].len() == y[0].len());
            assert(x[0][0] == y[0][0]);
            assert(x[0][1] == y[0][1]);
            assert(x[0][2] == y[0][2]);
            assert(x[0][3] == y[0][3]);
            assert(x[0][4] == y[0][4]);
            assert(x[0][5] == y[0][5]);
            assert(x[0][6] == y[0][6]);
            assert(x[0][7] == y[0][7]);
            assert(x[0][8] == y[0][8]);
            assert(x[1].len() == y[1].len());
        }
    }
}

/// Every setting the schema offers selects a capture; so do the defaults.
pub proof fn lemma_every_setting_selects()
    ensures
        every_setting_selects(spec_model_schema(), key_params(), spec_captures()),
        defaults_present(spec_model_schema(), key_params()),
        first_selected(spec_captures(), default_setting(spec_model_schema(), key_params())) is Some,
{
    let s = spec_model_schema();
    let t = spec_captures();
    assert forall|r: Seq<Seq<char>>| setting_of_choices(s, key_params(), r) implies
        (#[trigger] first_selected(t, r)) is Some by {
        let c0 = choices_at(s, 0);
        let i0 = choose|i: int| 0 <= i < c0.len() && c0[i].value@ == r[0];
        let c1 = choices_at(s, 1);
        let i1 = choose|i: int| 0 <= i < c1.len() && c1[i].value@ == r[1];
        if i0 == 0 && i1 == 0 {
            lemma_selected_at(t, r, 0);
        } else if i0 == 0 && i1 == 1 {
            lemma_selected_at(t, r, 1);
        } else if i0 == 0 && i1 == 2 {
            lemma_selected_at(t, r, 2);
        } else if i0 == 1 && i1 == 0 {
            lemma_selected_at(t, r, 3);
        } else if i0 == 1 && i1 == 1 {
            lemma_selected_at(t, r, 4);
        } else if i0 == 1 && i1 == 2 {
            lemma_selected_at(t, r, 5);
        } else if i0 == 2 && i1 == 0 {
            lemma_selected_at(t, r, 6);
        } else if i0 == 2 && i1 == 1 {
            lemma_selected_at(t, r, 7);
        } else if i0 == 2 && i1 == 2 {
            lemma_selected_at(t, r, 8);
        } else if i0 == 3 && i1 == 0 {
            lemma_selected_at(t, r, 9);
        } else if i0 == 3 && i1 == 1 {
            lemma_selected_at(t, r, 10);
        } else if i0 == 3 && i1 == 2 {
            lemma_selected_at(t, r, 11);
        } else if i0 == 4 && i1 == 0 {
            lemma_selected_at(t, r, 12);
        } else if i0 == 4 && i1 == 1 {
            lemma_selected_at(t, r, 13);
        } else if i0 == 4 && i1 == 2 {
            lemma_selected_at(t, r, 14);
        } else if i0 == 5 && i1 == 0 {
            lemma_selected_at(t, r, 15);
        } else if i0 == 5 && i1 == 1 {
            lemma_selected_at(t, r, 16);
        } else if i0 == 5 && i1 == 2 {
            lemma_selected_at(t, r, 17);
        } else if i0 == 6 && i1 == 0 {
            lemma_selected_at(t, r, 18);
        } else if i0 == 6 && i1 == 1 {
            lemma_selected_at(t, r, 19);
        } else if i0 == 6 && i1 == 2 {
            lemma_selected_at(t, r, 20);
        } else if i0 == 7 && i1 == 0 {
            lemma_selected_at(t, r, 21);
        } else if i0 == 7 && i1 == 1 {
            lemma_selected_at(t, r, 22);
        } else if i0 == 7 && i1 == 2 {
            lemma_selected_at(t, r, 23);
        } else if i0 == 8 && i1 == 0 {
            lemma_selected_at(t, r, 24);
        } else if i0 == 8 && i1 == 1 {
            lemma_selected_at(t, r, 25);
        } else if i0 == 8 && i1 == 2 {
            lemma_selected_at(t, r, 26);
        } else if i0 == 9 && i1 == 0 {
            lemma_selected_at(t, r, 27);
        } else if i0 == 9 && i1 == 1 {
            lemma_selected_at(t, r, 28);
        } else if i0 == 9 && i1 == 2 {
            lemma_selected_at(t, r, 29);
        }
    }
    let dflt = default_setting(s, key_params());
    assert(dflt =~= seq!["klon"@, "standard"@]);
    lemma_selected_at(t, dflt, 20);
}

/// No two captures name the same file.
pub proof fn lemma_capture_files()
    ensures
        files_distinct(spec_captures()),
{
    reveal_strlit("pedals/digitech_bad_monkey/badmonkey_boost1_v10_b4_t6_g0_feather.nam");
    reveal_strlit("pedals/digitech_bad_monkey/badmonkey_boost1_v10_b4_t6_g0_lite.nam");
    reveal_strlit("pedals/digitech_bad_monkey/badmonkey_boost1_v10_b4_t6_g0_standard.nam");
    reveal_strlit("pedals/digitech_bad_monkey/badmonkey_boost2_v10_b4_t6_g4_feather.nam");
    reveal_strlit("pedals/digitech_bad_monkey/badmonkey_boost2_v10_b4_t6_g4_lite.nam");
    reveal_strlit("pedals/digitech_bad_monkey/badmonkey_boost2_v10_b4_t6_g4_standard.nam");
    reveal_strlit("pedals/digitech_bad_monkey/badmonkey_boost3_v10_b7_t6_g0_feather.nam");
    reveal_strlit("pedals/digitech_bad_monkey/badmonkey_boost3_v10_b7_t6_g0_lite.nam");
    reveal_strlit("pedals/digitech_bad_monkey/badmonkey_boost3_v10_b7_t6_g0_standard.nam");
    reveal_strlit("pedals/digitech_bad_monkey/badmonkey_boost3_v10_b7_t6_g4_feather.nam");
    reveal_strlit("pedals/digitech_bad_monkey/badmonkey_boost3_v10_b7_t6_g4_lite.nam");
    reveal_strlit("pedals/digitech_bad_monkey/badmonkey_boost3_v10_b7_t6_g4_standard.nam");
    reveal_strlit("pedals/digitech_bad_monkey/badmonkey_fulltone_feather.nam");
    reveal_strlit("pedals/digitech_bad_monkey/badmonkey_fulltone_lite.nam");
    reveal_strlit("pedals/digitech_bad_monkey/badmonkey_fulltone_standard.nam");
    reveal_strlit("pedals/digitech_bad_monkey/badmonkey_glory_feather.nam");
    reveal_strlit("pedals/digitech_bad_monkey/badmonkey_glory_lite.nam");
    reveal_strlit("pedals/digitech_bad_monkey/badmonkey_glory_standard.nam");
    reveal_strlit("pedals/digitech_bad_monkey/badmonkey_klon_feather.nam");
    reveal_strlit("pedals/digitech_bad_monkey/badmonkey_klon_lite.nam");
    reveal_strlit("pedals/digitech_bad_monkey/badmonkey_klon_standard.nam");
    reveal_strlit("pedals/digitech_bad_monkey/badmonkey_noble_odr_1_feather.nam");
    reveal_strlit("pedals/digitech_bad_monkey/badmonkey_noble_odr_1_lite.nam");
    reveal_strlit("pedals/digitech_bad_monkey/badmonkey_noble_odr_1_standard.nam");
    reveal_strlit("pedals/digitech_bad_monkey/badmonkey_ts10_feather.nam");
    reveal_strlit("pedals/digitech_bad_monkey/badmonkey_ts10_lite.nam");
    reveal_strlit("pedals/digitech_bad_monkey/badmonkey_ts10_standard.nam");
    reveal_strlit("pedals/digitech_bad_monkey/badmonkey_zen_feather.nam");
    reveal_strlit("pedals/digitech_bad_monkey/badmonkey_zen_lite.nam");
    reveal_strlit("pedals/digitech_bad_monkey/badmonkey_zen_standard.nam");
    let t = spec_captures();
    assert forall|a: int, b: int| 0 <= a < b < 30 implies t[a].model_path@ != t[b].model_path@ by {
        if a == 0 && b == 1 {
            assert(t[0].model_path@.len() != t[1].model_path@.len());
        } else if a == 0 && b == 2 {
            assert(t[0].model_path@.len() != t[2].model_path@.len());
        } else if a == 0 && b == 3 {
            assert(t[0].model_path@[42] != t[3].model_path@[42]);
        } else if a == 0 && b == 4 {
            assert(t[0].model_path@.len() != t[4].model_path@.len());
        } else if a == 0 && b == 5 {
            assert(t[0].model_path@.len() != t[5].model_path@.len());
        } else if a == 0 && b == 6 {
            assert(t[0].model_path@[42] != t[6].model_path@[42]);
        } else if a == 0 && b == 7 {
            assert(t[0].model_path@.len() != t[7].model_path@.len());
        } else if a == 0 && b == 8 {
            assert(t[0].model_path@.len() != t[8].model_path@.len());
        } else if a == 0 && b == 9 {
            assert(t[0].model_path@[42] != t[9].model_path@[42]);
        } else if a == 0 && b == 10 {
            assert(t[0].model_path@.len() != t[10].model_path@.len());
        } else if a == 0 && b == 11 {
            assert(t[0].model_path@.len() != t[11].model_path@.len());
        } else if a == 0 && b == 12 {
            assert(t[0].model_path@.len() != t[12].model_path@.len());
        } else if a == 0 && b == 13 {
            assert(t[0].model_path@.len() != t[13].model_path@.len());
        } else if a == 0 && b == 14 {
            assert(t[0].model_path@.len() != t[14].model_path@.len());
        } else if a == 0 && b == 15 {
            assert(t[0].model_path@.len() != t[15].model_path@.len());
        } else if a == 0 && b == 16 {
            assert(t[0].model_path@.len() != t[16].model_path@.len());
        } else if a == 0 && b == 17 {
            assert(t[0].model_path@.len() != t[17].model_path@.len());
        } else if a == 0 && b == 18 {
            assert(t[0].model_path@.len() != t[18].model_path@.len());
        } else if a == 0 && b == 19 {
            assert(t[0].model_path@.len() != t[19].model_path@.len());
        } else if a == 0 && b == 20 {
            assert(t[0].model_path@.len() != t[20].model_path@.len());
        } else if a == 0 && b == 21 {
            assert(t[0].model_path@.len() != t[21].model_path@.len());
        } else if a == 0 && b == 22 {
            assert(t[0].model_path@.len() != t[22].model_path@.len());
        } else if a == 0 && b == 23 {
            assert(t[0].model_path@.len() != t[23].model_path@.len());
        } else if a == 0 && b == 24 {
            assert(t[0].model_path@.len() != t[24].model_path@.len());
        } else if a == 0 && b == 25 {
            assert(t[0].model_path@.len() != t[25].model_path@.len());
        } else if a == 0 && b == 26 {
            assert(t[0].model_path@.len() != t[26].model_path@.len());
        } else if a == 0 && b == 27 {
            assert(t[0].model_path@.len() != t[27].model_path@.len());
        } else if a == 0 && b == 28 {
            assert(t[0].model_path@.len() != t[28].model_path@.len());
        } else if a == 0 && b == 29 {
            assert(t[0].model_path@.len() != t[29].model_path@.len());
        } else if a == 1 && b == 2 {
            assert(t[1].model_path@.len() != t[2].model_path@.len());
        } else if a == 1 && b == 3 {
            assert(t[1].model_path@.len() != t[3].model_path@.len());
        } else if a == 1 && b == 4 {
            assert(t[1].model_path@[42] != t[4].model_path@[42]);
        } else if a == 1 && b == 5 {
            assert(t[1].model_path@.len() != t[5].model_path@.len());
        } else if a == 1 && b == 6 {
            assert(t[1].model_path@.len() != t[6].model_path@.len());
        } else if a == 1 && b == 7 {
            assert(t[1].model_path@[42] != t[7].model_path@[42]);
        } else if a == 1 && b == 8 {
            assert(t[1].model_path@.len() != t[8].model_path@.len());
        } else if a == 1 && b == 9 {
            assert(t[1].model_path@.len() != t[9].model_path@.len());
        } else if a == 1 && b == 10 {
            assert(t[1].model_path@[42] != t[10].model_path@[42]);
        } else if a == 1 && b == 11 {
            assert(t[1].model_path@.len() != t[11].model_path@.len());
        } else if a == 1 && b == 12 {
            assert(t[1].model_path@.len() != t[12].model_path@.len());
        } else if a == 1 && b == 13 {
            assert(t[1].model_path@.len() != t[13].model_path@.len());
        } else if a == 1 && b == 14 {
            assert(t[1].model_path@.len() != t[14].model_path@.len());
        } else if a == 1 && b == 15 {
            assert(t[1].model_path@.len() != t[15].model_path@.len());
        } else if a == 1 && b == 16 {
            assert(t[1].model_path@.len() != t[16].model_path@.len());
        } else if a == 1 && b == 17 {
            assert(t[1].model_path@.len() != t[17].model_path@.len());
        } else if a == 1 && b == 18 {
            assert(t[1].model_path@.len() != t[18].model_path@.len());
        } else if a == 1 && b == 19 {
            assert(t[1].model_path@.len() != t[19].model_path@.len());
        } else if a == 1 && b == 20 {
            assert(t[1].model_path@.len() != t[20].model_path@.len());
        } else if a == 1 && b == 21 {
            assert(t[1].model_path@.len() != t[21].model_path@.len());
        } else if a == 1 && b == 22 {
            assert(t[1].model_path@.len() != t[22].model_path@.len());
        } else if a == 1 && b == 23 {
            assert(t[1].model_path@.len() != t[23].model_path@.len());
        } else if a == 1 && b == 24 {
            assert(t[1].model_path@.len() != t[24].model_path@.len());
        } else if a == 1 && b == 25 {
            assert(t[1].model_path@.len() != t[25].model_path@.len());
        } else if a == 1 && b == 26 {
            assert(t[1].model_path@.len() != t[26].model_path@.len());
        } else if a == 1 && b == 27 {
            assert(t[1].model_path@.len() != t[27].model_path@.len());
        } else if a == 1 && b == 28 {
            assert(t[1].model_path@.len() != t[28].model_path@.len());
        } else if a == 1 && b == 29 {
            assert(t[1].model_path@.len() != t[29].model_path@.len());
        } else if a == 2 && b == 3 {
            assert(t[2].model_path@.len() != t[3].model_path@.len());
        } else if a == 2 && b == 4 {
            assert(t[2].model_path@.len() != t[4].model_path@.len());
        } else if a == 2 && b == 5 {
            assert(t[2].model_path@[42] != t[5].model_path@[42]);
        } else if a == 2 && b == 6 {
            assert(t[2].model_path@.len() != t[6].model_path@.len());
        } else if a == 2 && b == 7 {
            assert(t[2].model_path@.len() != t[7].model_path@.len());
        } else if a == 2 && b == 8 {
            assert(t[2].model_path@[42] != t[8].model_path@[42]);
        } else if a == 2 && b == 9 {
            assert(t[2].model_path@.len() != t[9].model_path@.len());
        } else if a == 2 && b == 10 {
            assert(t[2].model_path@.len() != t[10].model_path@.len());
        } else if a == 2 && b == 11 {
            assert(t[2].model_path@[42] != t[11].model_path@[42]);
        } else if a == 2 && b == 12 {
            assert(t[2].model_path@.len() != t[12].model_path@.len());
        } else if a == 2 && b == 13 {
            assert(t[2].model_path@.len() != t[13].model_path@.len());
        } else if a == 2 && b == 14 {
            assert(t[2].model_path@.len() != t[14].model_path@.len());
        } else if a == 2 && b == 15 {
            assert(t[2].model_path@.len() != t[15].model_path@.len());
        } else if a == 2 && b == 16 {
            assert(t[2].model_path@.len() != t[16].model_path@.len());
        } else if a == 2 && b == 17 {
            assert(t[2].model_path@.len() != t[17].model_path@.len());
        } else if a == 2 && b == 18 {
            assert(t[2].model_path@.len() != t[18].model_path@.len());
        } else if a == 2 && b == 19 {
            assert(t[2].model_path@.len() != t[19].model_path@.len());
        } else if a == 2 && b == 20 {
            assert(t[2].model_path@.len() != t[20].model_path@.len());
        } else if a == 2 && b == 21 {
            assert(t[2].model_path@.len() != t[21].model_path@.len());
        } else if a == 2 && b == 22 {
            assert(t[2].model_path@.len() != t[22].model_path@.len());
        } else if a == 2 && b == 23 {
            assert(t[2].model_path@.len() != t[23].model_path@.len());
        } else if a == 2 && b == 24 {
            assert(t[2].model_path@.len() != t[24].model_path@.len());
        } else if a == 2 && b == 25 {
            assert(t[2].model_path@.len() != t[25].model_path@.len());
        } else if a == 2 && b == 26 {
            assert(t[2].model_path@.len() != t[26].model_path@.len());
        } else if a == 2 && b == 27 {
            assert(t[2].model_path@.len() != t[27].model_path@.len());
        } else if a == 2 && b == 28 {
            assert(t[2].model_path@.len() != t[28].model_path@.len());
        } else if a == 2 && b == 29 {
            assert(t[2].model_path@.len() != t[29].model_path@.len());
        } else if a == 3 && b == 4 {
            assert(t[3].model_path@.len() != t[4].model_path@.len());
        } else if a == 3 && b == 5 {
            assert(t[3].model_path@.len() != t[5].model_path@.len());
        } else if a == 3 && b == 6 {
            assert(t[3].model_path@[42] != t[6].model_path@[42]);
        } else if a == 3 && b == 7 {
            assert(t[3].model_path@.len() != t[7].model_path@.len());
        } else if a == 3 && b == 8 {
            assert(t[3].model_path@.len() != t[8].model_path@.len());
        } else if a == 3 && b == 9 {
            assert(t[3].model_path@[42] != t[9].model_path@[42]);
        } else if a == 3 && b == 10 {
            assert(t[3].model_path@.len() != t[10].model_path@.len());
        } else if a == 3 && b == 11 {
            assert(t[3].model_path@.len() != t[11].model_path@.len());
        } else if a == 3 && b == 12 {
            assert(t[3].model_path@.len() != t[12].model_path@.len());
        } else if a == 3 && b == 13 {
            assert(t[3].model_path@.len() != t[13].model_path@.len());
        } else if a == 3 && b == 14 {
            assert(t[3].model_path@.len() != t[14].model_path@.len());
        } else if a == 3 && b == 15 {
            assert(t[3].model_path@.len() != t[15].model_path@.len());
        } else if a == 3 && b == 16 {
            assert(t[3].model_path@.len() != t[16].model_path@.len());
        } else if a == 3 && b == 17 {
            assert(t[3].model_path@.len() != t[17].model_path@.len());
        } else if a == 3 && b == 18 {
            assert(t[3].model_path@.len() != t[18].model_path@.len());
        } else if a == 3 && b == 19 {
            assert(t[3].model_path@.len() != t[19].model_path@.len());
        } else if a == 3 && b == 20 {
            assert(t[3].model_path@.len() != t[20].model_path@.len());
        } else if a == 3 && b == 21 {
            assert(t[3].model_path@.len() != t[21].model_path@.len());
        } else if a == 3 && b == 22 {
            assert(t[3].model_path@.len() != t[22].model_path@.len());
        } else if a == 3 && b == 23 {
            assert(t[3].model_path@.len() != t[23].model_path@.len());
        } else if a == 3 && b == 24 {
            assert(t[3].model_path@.len() != t[24].model_path@.len());
        } else if a == 3 && b == 25 {
            assert(t[3].model_path@.len() != t[25].model_path@.len());
        } else if a == 3 && b == 26 {
            assert(t[3].model_path@.len() != t[26].model_path@.len());
        } else if a == 3 && b == 27 {
            assert(t[3].model_path@.len() != t[27].model_path@.len());
        } else if a == 3 && b == 28 {
            assert(t[3].model_path@.len() != t[28].model_path@.len());
        } else if a == 3 && b == 29 {
            assert(t[3].model_path@.len() != t[29].model_path@.len());
        } else if a == 4 && b == 5 {
            assert(t[4].model_path@.len() != t[5].model_path@.len());
        } else if a == 4 && b == 6 {
            assert(t[4].model_path@.len() != t[6].model_path@.len());
        } else if a == 4 && b == 7 {
            assert(t[4].model_path@[42] != t[7].model_path@[42]);
        } else if a == 4 && b == 8 {
            assert(t[4].model_path@.len() != t[8].model_path@.len());
        } else if a == 4 && b == 9 {
            assert(t[4].model_path@.len() != t[9].model_path@.len());
        } else if a == 4 && b == 10 {
            assert(t[4].model_path@[42] != t[10].model_path@[42]);
        } else if a == 4 && b == 11 {
            assert(t[4].model_path@.len() != t[11].model_path@.len());
        } else if a == 4 && b == 12 {
            assert(t[4].model_path@.len() != t[12].model_path@.len());
        } else if a == 4 && b == 13 {
            assert(t[4].model_path@.len() != t[13].model_path@.len());
        } else if a == 4 && b == 14 {
            assert(t[4].model_path@.len() != t[14].model_path@.len());
        } else if a == 4 && b == 15 {
            assert(t[4].model_path@.len() != t[15].model_path@.len());
        } else if a == 4 && b == 16 {
            assert(t[4].model_path@.len() != t[16].model_path@.len());
        } else if a == 4 && b == 17 {
            assert(t[4].model_path@.len() != t[17].model_path@.len());
        } else if a == 4 && b == 18 {
            assert(t[4].model_path@.len() != t[18].model_path@.len());
        } else if a == 4 && b == 19 {
            assert(t[4].model_path@.len() != t[19].model_path@.len());
        } else if a == 4 && b == 20 {
            assert(t[4].model_path@.len() != t[20].model_path@.len());
        } else if a == 4 && b == 21 {
            assert(t[4].model_path@.len() != t[21].model_path@.len());
        } else if a == 4 && b == 22 {
            assert(t[4].model_path@.len() != t[22].model_path@.len());
        } else if a == 4 && b == 23 {
            assert(t[4].model_path@.len() != t[23].model_path@.len());
        } else if a == 4 && b == 24 {
            assert(t[4].model_path@.len() != t[24].model_path@.len());
        } else if a == 4 && b == 25 {
            assert(t[4].model_path@.len() != t[25].model_path@.len());
        } else if a == 4 && b == 26 {
            assert(t[4].model_path@.len() != t[26].model_path@.len());
        } else if a == 4 && b == 27 {
            assert(t[4].model_path@.len() != t[27].model_path@.len());
        } else if a == 4 && b == 28 {
            assert(t[4].model_path@.len() != t[28].model_path@.len());
        } else if a == 4 && b == 29 {
            assert(t[4].model_path@.len() != t[29].model_path@.len());
        } else if a == 5 && b == 6 {
            assert(t[5].model_path@.len() != t[6].model_path@.len());
        } else if a == 5 && b == 7 {
            assert(t[5].model_path@.len() != t[7].model_path@.len());
        } else if a == 5 && b == 8 {
            assert(t[5].model_path@[42] != t[8].model_path@[42]);
        } else if a == 5 && b == 9 {
            assert(t[5].model_path@.len() != t[9].model_path@.len());
        } else if a == 5 && b == 10 {
            assert(t[5].model_path@.len() != t[10].model_path@.len());
        } else if a == 5 && b == 11 {
            assert(t[5].model_path@[42] != t[11].model_path@[42]);
        } else if a == 5 && b == 12 {
            assert(t[5].model_path@.len() != t[12].model_path@.len());
        } else if a == 5 && b == 13 {
            assert(t[5].model_path@.len() != t[13].model_path@.len());
        } else if a == 5 && b == 14 {
            assert(t[5].model_path@.len() != t[14].model_path@.len());
        } else if a == 5 && b == 15 {
            assert(t[5].model_path@.len() != t[15].model_path@.len());
        } else if a == 5 && b == 16 {
            assert(t[5].model_path@.len() != t[16].model_path@.len());
        } else if a == 5 && b == 17 {
            assert(t[5].model_path@.len() != t[17].model_path@.len());
        } else if a == 5 && b == 18 {
            assert(t[5].model_path@.len() != t[18].model_path@.len());
        } else if a == 5 && b == 19 {
            assert(t[5].model_path@.len() != t[19].model_path@.len());
        } else if a == 5 && b == 20 {
            assert(t[5].model_path@.len() != t[20].model_path@.len());
        } else if a == 5 && b == 21 {
            assert(t[5].model_path@.len() != t[21].model_path@.len());
        } else if a == 5 && b == 22 {
            assert(t[5].model_path@.len() != t[22].model_path@.len());
        } else if a == 5 && b == 23 {
            assert(t[5].model_path@.len() != t[23].model_path@.len());
        } else if a == 5 && b == 24 {
            assert(t[5].model_path@.len() != t[24].model_path@.len());
        } else if a == 5 && b == 25 {
            assert(t[5].model_path@.len() != t[25].model_path@.len());
        } else if a == 5 && b == 26 {
            assert(t[5].model_path@.len() != t[26].model_path@.len());
        } else if a == 5 && b == 27 {
            assert(t[5].model_path@.len() != t[27].model_path@.len());
        } else if a == 5 && b == 28 {
            assert(t[5].model_path@.len() != t[28].model_path@.len());
        } else if a == 5 && b == 29 {
            assert(t[5].model_path@.len() != t[29].model_path@.len());
        } else if a == 6 && b == 7 {
            assert(t[6].model_path@.len() != t[7].model_path@.len());
        } else if a == 6 && b == 8 {
            assert(t[6].model_path@.len() != t[8].model_path@.len());
        } else if a == 6 && b == 9 {
            assert(t[6].model_path@[55] != t[9].model_path@[55]);
        } else if a == 6 && b == 10 {
            assert(t[6].model_path@.len() != t[10].model_path@.len());
        } else if a == 6 && b == 11 {
            assert(t[6].model_path@.len() != t[11].model_path@.len());
        } else if a == 6 && b == 12 {
            assert(t[6].model_path@.len() != t[12].model_path@.len());
        } else if a == 6 && b == 13 {
            assert(t[6].model_path@.len() != t[13].model_path@.len());
        } else if a == 6 && b == 14 {
            assert(t[6].model_path@.len() != t[14].model_path@.len());
        } else if a == 6 && b == 15 {
            assert(t[6].model_path@.len() != t[15].model_path@.len());
        } else if a == 6 && b == 16 {
            assert(t[6].model_path@.len() != t[16].model_path@.len());
        } else if a == 6 && b == 17 {
            assert(t[6].model_path@.len() != t[17].model_path@.len());
        } else if a == 6 && b == 18 {
            assert(t[6].model_path@.len() != t[18].model_path@.len());
        } else if a == 6 && b == 19 {
            assert(t[6].model_path@.len() != t[19].model_path@.len());
        } else if a == 6 && b == 20 {
            assert(t[6].model_path@.len() != t[20].model_path@.len());
        } else if a == 6 && b == 21 {
            assert(t[6].model_path@.len() != t[21].model_path@.len());
        } else if a == 6 && b == 22 {
            assert(t[6].model_path@.len() != t[22].model_path@.len());
        } else if a == 6 && b == 23 {
            assert(t[6].model_path@.len() != t[23].model_path@.len());
        } else if a == 6 && b == 24 {
            assert(t[6].model_path@.len() != t[24].model_path@.len());
        } else if a == 6 && b == 25 {
            assert(t[6].model_path@.len() != t[25].model_path@.len());
        } else if a == 6 && b == 26 {
            assert(t[6].model_path@.len() != t[26].model_path@.len());
        } else if a == 6 && b == 27 {
            assert(t[6].model_path@.len() != t[27].model_path@.len());
        } else if a == 6 && b == 28 {
            assert(t[6].model_path@.len() != t[28].model_path@.len());
        } else if a == 6 && b == 29 {
            assert(t[6].model_path@.len() != t[29].model_path@.len());
        } else if a == 7 && b == 8 {
            assert(t[7].model_path@.len() != t[8].model_path@.len());
        } else if a == 7 && b == 9 {
            assert(t[7].model_path@.len() != t[9].model_path@.len());
        } else if a == 7 && b == 10 {
            assert(t[7].model_path@[55] != t[10].model_path@[55]);
        } else if a == 7 && b == 11 {
            assert(t[7].model_path@.len() != t[11].model_path@.len());
        } else if a == 7 && b == 12 {
            assert(t[7].model_path@.len() != t[12].model_path@.len());
        } else if a == 7 && b == 13 {
            assert(t[7].model_path@.len() != t[13].model_path@.len());
        } else if a == 7 && b == 14 {
            assert(t[7].model_path@.len() != t[14].model_path@.len());
        } else if a == 7 && b == 15 {
            assert(t[7].model_path@.len() != t[15].model_path@.len());
        } else if a == 7 && b == 16 {
            assert(t[7].model_path@.len() != t[16].model_path@.len());
        } else if a == 7 && b == 17 {
            assert(t[7].model_path@.len() != t[17].model_path@.len());
        } else if a == 7 && b == 18 {
            assert(t[7].model_path@.len() != t[18].model_path@.len());
        } else if a == 7 && b == 19 {
            assert(t[7].model_path@.len() != t[19].model_path@.len());
        } else if a == 7 && b == 20 {
            assert(t[7].model_path@.len() != t[20].model_path@.len());
        } else if a == 7 && b == 21 {
            assert(t[7].model_path@.len() != t[21].model_path@.len());
        } else if a == 7 && b == 22 {
            assert(t[7].model_path@.len() != t[22].model_path@.len());
        } else if a == 7 && b == 23 {
            assert(t[7].model_path@.len() != t[23].model_path@.len());
        } else if a == 7 && b == 24 {
            assert(t[7].model_path@.len() != t[24].model_path@.len());
        } else if a == 7 && b == 25 {
            assert(t[7].model_path@.len() != t[25].model_path@.len());
        } else if a == 7 && b == 26 {
            assert(t[7].model_path@.len() != t[26].model_path@.len());
        } else if a == 7 && b == 27 {
            assert(t[7].model_path@.len() != t[27].model_path@.len());
        } else if a == 7 && b == 28 {
            assert(t[7].model_path@.len() != t[28].model_path@.len());
        } else if a == 7 && b == 29 {
            assert(t[7].model_path@.len() != t[29].model_path@.len());
        } else if a == 8 && b == 9 {
            assert(t[8].model_path@.len() != t[9].model_path@.len());
        } else if a == 8 && b == 10 {
            assert(t[8].model_path@.len() != t[10].model_path@.len());
        } else if a == 8 && b == 11 {
            assert(t[8].model_path@[55] != t[11].model_path@[55]);
        } else if a == 8 && b == 12 {
            assert(t[8].model_path@.len() != t[12].model_path@.len());
        } else if a == 8 && b == 13 {
            assert(t[8].model_path@.len() != t[13].model_path@.len());
        } else if a == 8 && b == 14 {
            assert(t[8].model_path@.len() != t[14].model_path@.len());
        } else if a == 8 && b == 15 {
            assert(t[8].model_path@.len() != t[15].model_path@.len());
        } else if a == 8 && b == 16 {
            assert(t[8].model_path@.len() != t[16].model_path@.len());
        } else if a == 8 && b == 17 {
            assert(t[8].model_path@.len() != t[17].model_path@.len());
        } else if a == 8 && b == 18 {
            assert(t[8].model_path@.len() != t[18].model_path@.len());
        } else if a == 8 && b == 19 {
            assert(t[8].model_path@.len() != t[19].model_path@.len());
        } else if a == 8 && b == 20 {
            assert(t[8].model_path@.len() != t[20].model_path@.len());
        } else if a == 8 && b == 21 {
            assert(t[8].model_path@.len() != t[21].model_path@.len());
        } else if a == 8 && b == 22 {
            assert(t[8].model_path@.len() != t[22].model_path@.len());
        } else if a == 8 && b == 23 {
            assert(t[8].model_path@.len() != t[23].model_path@.len());
        } else if a == 8 && b == 24 {
            assert(t[8].model_path@.len() != t[24].model_path@.len());
        } else if a == 8 && b == 25 {
            assert(t[8].model_path@.len() != t[25].model_path@.len());
        } else if a == 8 && b == 26 {
            assert(t[8].model_path@.len() != t[26].model_path@.len());
        } else if a == 8 && b == 27 {
            assert(t[8].model_path@.len() != t[27].model_path@.len());
        } else if a == 8 && b == 28 {
            assert(t[8].model_path@.len() != t[28].model_path@.len());
        } else if a == 8 && b == 29 {
            assert(t[8].model_path@.len() != t[29].model_path@.len());
        } else if a == 9 && b == 10 {
            assert(t[9].model_path@.len() != t[10].model_path@.len());
        } else if a == 9 && b == 11 {
            assert(t[9].model_path@.len() != t[11].model_path@.len());
        } else if a == 9 && b == 12 {
            assert(t[9].model_path@.len() != t[12].model_path@.len());
        } else if a == 9 && b == 13 {
            assert(t[9].model_path@.len() != t[13].model_path@.len());
        } else if a == 9 && b == 14 {
            assert(t[9].model_path@.len() != t[14].model_path@.len());
        } else if a == 9 && b == 15 {
            assert(t[9].model_path@.len() != t[15].model_path@.len());
        } else if a == 9 && b == 16 {
            assert(t[9].model_path@.len() != t[16].model_path@.len());
        } else if a == 9 && b == 17 {
            assert(t[9].model_path@.len() != t[17].model_path@.len());
        } else if a == 9 && b == 18 {
            assert(t[9].model_path@.len() != t[18].model_path@.len());
        } else if a == 9 && b == 19 {
            assert(t[9].model_path@.len() != t[19].model_path@.len());
        } else if a == 9 && b == 20 {
            assert(t[9].model_path@.len() != t[20].model_path@.len());
        } else if a == 9 && b == 21 {
            assert(t[9].model_path@.len() != t[21].model_path@.len());
        } else if a == 9 && b == 22 {
            assert(t[9].model_path@.len() != t[22].model_path@.len());
        } else if a == 9 && b == 23 {
            assert(t[9].model_path@.len() != t[23].model_path@.len());
        } else if a == 9 && b == 24 {
            assert(t[9].model_path@.len() != t[24].model_path@.len());
        } else if a == 9 && b == 25 {
            assert(t[9].model_path@.len() != t[25].model_path@.len());
        } else if a == 9 && b == 26 {
            assert(t[9].model_path@.len() != t[26].model_path@.len());
        } else if a == 9 && b == 27 {
            assert(t[9].model_path@.len() != t[27].model_path@.len());
        } else if a == 9 && b == 28 {
            assert(t[9].model_path@.len() != t[28].model_path@.len());
        } else if a == 9 && b == 29 {
            assert(t[9].model_path@.len() != t[29].model_path@.len());
        } else if a == 10 && b == 11 {
            assert(t[10].model_path@.len() != t[11].model_path@.len());
        } else if a == 10 && b == 12 {
            assert(t[10].model_path@.len() != t[12].model_path@.len());
        } else if a == 10 && b == 13 {
            assert(t[10].model_path@.len() != t[13].model_path@.len());
        } else if a == 10 && b == 14 {
            assert(t[10].model_path@.len() != t[14].model_path@.len());
        } else if a == 10 && b == 15 {
            assert(t[10].model_path@.len() != t[15].model_path@.len());
        } else if a == 10 && b == 16 {
            assert(t[10].model_path@.len() != t[16].model_path@.len());
        } else if a == 10 && b == 17 {
            assert(t[10].model_path@.len() != t[17].model_path@.len());
        } else if a == 10 && b == 18 {
            assert(t[10].model_path@.len() != t[18].model_path@.len());
        } else if a == 10 && b == 19 {
            assert(t[10].model_path@.len() != t[19].model_path@.len());
        } else if a == 10 && b == 20 {
            assert(t[10].model_path@.len() != t[20].model_path@.len());
        } else if a == 10 && b == 21 {
            assert(t[10].model_path@.len() != t[21].model_path@.len());
        } else if a == 10 && b == 22 {
            assert(t[10].model_path@.len() != t[22].model_path@.len());
        } else if a == 10 && b == 23 {
            assert(t[10].model_path@.len() != t[23].model_path@.len());
        } else if a == 10 && b == 24 {
            assert(t[10].model_path@.len() != t[24].model_path@.len());
        } else if a == 10 && b == 25 {
            assert(t[10].model_path@.len() != t[25].model_path@.len());
        } else if a == 10 && b == 26 {
            assert(t[10].model_path@.len() != t[26].model_path@.len());
        } else if a == 10 && b == 27 {
            assert(t[10].model_path@.len() != t[27].model_path@.len());
        } else if a == 10 && b == 28 {
            assert(t[10].model_path@.len() != t[28].model_path@.len());
        } else if a == 10 && b == 29 {
            assert(t[10].model_path@.len() != t[29].model_path@.len());
        } else if a == 11 && b == 12 {
            assert(t[11].model_path@.len() != t[12].model_path@.len());
        } else if a == 11 && b == 13 {
            assert(t[11].model_path@.len() != t[13].model_path@.len());
        } else if a == 11 && b == 14 {
            assert(t[11].model_path@.len() != t[14].model_path@.len());
        } else if a == 11 && b == 15 {
            assert(t[11].model_path@.len() != t[15].model_path@.len());
        } else if a == 11 && b == 16 {
            assert(t[11].model_path@.len() != t[16].model_path@.len());
        } else if a == 11 && b == 17 {
            assert(t[11].model_path@.len() != t[17].model_path@.len());
        } else if a == 11 && b == 18 {
            assert(t[11].model_path@.len() != t[18].model_path@.len());
        } else if a == 11 && b == 19 {
            assert(t[11].model_path@.len() != t[19].model_path@.len());
        } else if a == 11 && b == 20 {
            assert(t[11].model_path@.len() != t[20].model_path@.len());
        } else if a == 11 && b == 21 {
            assert(t[11].model_path@.len() != t[21].model_path@.len());
        } else if a == 11 && b == 22 {
            assert(t[11].model_path@.len() != t[22].model_path@.len());
        } else if a == 11 && b == 23 {
            assert(t[11].model_path@.len() != t[23].model_path@.len());
        } else if a == 11 && b == 24 {
            assert(t[11].model_path@.len() != t[24].model_path@.len());
        } else if a == 11 && b == 25 {
            assert(t[11].model_path@.len() != t[25].model_path@.len());
        } else if a == 11 && b == 26 {
            assert(t[11].model_path@.len() != t[26].model_path@.len());
        } else if a == 11 && b == 27 {
            assert(t[11].model_path@.len() != t[27].model_path@.len());
        } else if a == 11 && b == 28 {
            assert(t[11].model_path@.len() != t[28].model_path@.len());
        } else if a == 11 && b == 29 {
            assert(t[11].model_path@.len() != t[29].model_path@.len());
        } else if a == 12 && b == 13 {
            assert(t[12].model_path@.len() != t[13].model_path@.len());
        } else if a == 12 && b == 14 {
            assert(t[12].model_path@.len() != t[14].model_path@.len());
        } else if a == 12 && b == 15 {
            assert(t[12].model_path@.len() != t[15].model_path@.len());
        } else if a == 12 && b == 16 {
            assert(t[12].model_path@.len() != t[16].model_path@.len());
        } else if a == 12 && b == 17 {
            assert(t[12].model_path@.len() != t[17].model_path@.len());
        } else if a == 12 && b == 18 {
            assert(t[12].model_path@.len() != t[18].model_path@.len());
        } else if a == 12 && b == 19 {
            assert(t[12].model_path@.len() != t[19].model_path@.len());
        } else if a == 12 && b == 20 {
            assert(t[12].model_path@.len() != t[20].model_path@.len());
        } else if a == 12 && b == 21 {
            assert(t[12].model_path@.len() != t[21].model_path@.len());
        } else if a == 12 && b == 22 {
            assert(t[12].model_path@[37] != t[22].model_path@[37]);
        } else if a == 12 && b == 23 {
            assert(t[12].model_path@.len() != t[23].model_path@.len());
        } else if a == 12 && b == 24 {
            assert(t[12].model_path@.len() != t[24].model_path@.len());
        } else if a == 12 && b == 25 {
            assert(t[12].model_path@.len() != t[25].model_path@.len());
        } else if a == 12 && b == 26 {
            assert(t[12].model_path@.len() != t[26].model_path@.len());
        } else if a == 12 && b == 27 {
            assert(t[12].model_path@.len() != t[27].model_path@.len());
        } else if a == 12 && b == 28 {
            assert(t[12].model_path@.len() != t[28].model_path@.len());
        } else if a == 12 && b == 29 {
            assert(t[12].model_path@.len() != t[29].model_path@.len());
        } else if a == 13 && b == 14 {
            assert(t[13].model_path@.len() != t[14].model_path@.len());
        } else if a == 13 && b == 15 {
            assert(t[13].model_path@[37] != t[15].model_path@[37]);
        } else if a == 13 && b == 16 {
            assert(t[13].model_path@.len() != t[16].model_path@.len());
        } else if a == 13 && b == 17 {
            assert(t[13].model_path@.len() != t[17].model_path@.len());
        } else if a == 13 && b == 18 {
            assert(t[13].model_path@.len() != t[18].model_path@.len());
        } else if a == 13 && b == 19 {
            assert(t[13].model_path@.len() != t[19].model_path@.len());
        } else if a == 13 && b == 20 {
            assert(t[13].model_path@[37] != t[20].model_path@[37]);
        } else if a == 13 && b == 21 {
            assert(t[13].model_path@.len() != t[21].model_path@.len());
        } else if a == 13 && b == 22 {
            assert(t[13].model_path@.len() != t[22].model_path@.len());
        } else if a == 13 && b == 23 {
            assert(t[13].model_path@.len() != t[23].model_path@.len());
        } else if a == 13 && b == 24 {
            assert(t[13].model_path@.len() != t[24].model_path@.len());
        } else if a == 13 && b == 25 {
            assert(t[13].model_path@.len() != t[25].model_path@.len());
        } else if a == 13 && b == 26 {
            assert(t[13].model_path@[37] != t[26].model_path@[37]);
        } else if a == 13 && b == 27 {
            assert(t[13].model_path@.len() != t[27].model_path@.len());
        } else if a == 13 && b == 28 {
            assert(t[13].model_path@.len() != t[28].model_path@.len());
        } else if a == 13 && b == 29 {
            assert(t[13].model_path@.len() != t[29].model_path@.len());
        } else if a == 14 && b == 15 {
            assert(t[14].model_path@.len() != t[15].model_path@.len());
        } else if a == 14 && b == 16 {
            assert(t[14].model_path@.len() != t[16].model_path@.len());
        } else if a == 14 && b == 17 {
            assert(t[14].model_path@.len() != t[17].model_path@.len());
        } else if a == 14 && b == 18 {
            assert(t[14].model_path@.len() != t[18].model_path@.len());
        } else if a == 14 && b == 19 {
            assert(t[14].model_path@.len() != t[19].model_path@.len());
        } else if a == 14 && b == 20 {
            assert(t[14].model_path@.len() != t[20].model_path@.len());
        } else if a == 14 && b == 21 {
            assert(t[14].model_path@.len() != t[21].model_path@.len());
        } else if a == 14 && b == 22 {
            assert(t[14].model_path@.len() != t[22].model_path@.len());
        } else if a == 14 && b == 23 {
            assert(t[14].model_path@.len() != t[23].model_path@.len());
        } else if a == 14 && b == 24 {
            assert(t[14].model_path@.len() != t[24].model_path@.len());
        } else if a == 14 && b == 25 {
            assert(t[14].model_path@.len() != t[25].model_path@.len());
        } else if a == 14 && b == 26 {
            assert(t[14].model_path@.len() != t[26].model_path@.len());
        } else if a == 14 && b == 27 {
            assert(t[14].model_path@.len() != t[27].model_path@.len());
        } else if a == 14 && b == 28 {
            assert(t[14].model_path@.len() != t[28].model_path@.len());
        } else if a == 14 && b == 29 {
            assert(t[14].model_path@.len() != t[29].model_path@.len());
        } else if a == 15 && b == 16 {
            assert(t[15].model_path@.len() != t[16].model_path@.len());
        } else if a == 15 && b == 17 {
            assert(t[15].model_path@.len() != t[17].model_path@.len());
        } else if a == 15 && b == 18 {
            assert(t[15].model_path@.len() != t[18].model_path@.len());
        } else if a == 15 && b == 19 {
            assert(t[15].model_path@.len() != t[19].model_path@.len());
        } else if a == 15 && b == 20 {
            assert(t[15].model_path@[37] != t[20].model_path@[37]);
        } else if a == 15 && b == 21 {
            assert(t[15].model_path@.len() != t[21].model_path@.len());
        } else if a == 15 && b == 22 {
            assert(t[15].model_path@.len() != t[22].model_path@.len());
        } else if a == 15 && b == 23 {
            assert(t[15].model_path@.len() != t[23].model_path@.len());
        } else if a == 15 && b == 24 {
            assert(t[15].model_path@.len() != t[24].model_path@.len());
        } else if a == 15 && b == 25 {
            assert(t[15].model_path@.len() != t[25].model_path@.len());
        } else if a == 15 && b == 26 {
            assert(t[15].model_path@[37] != t[26].model_path@[37]);
        } else if a == 15 && b == 27 {
            assert(t[15].model_path@.len() != t[27].model_path@.len());
        } else if a == 15 && b == 28 {
            assert(t[15].model_path@.len() != t[28].model_path@.len());
        } else if a == 15 && b == 29 {
            assert(t[15].model_path@.len() != t[29].model_path@.len());
        } else if a == 16 && b == 17 {
            assert(t[16].model_path@.len() != t[17].model_path@.len());
        } else if a == 16 && b == 18 {
            assert(t[16].model_path@.len() != t[18].model_path@.len());
        } else if a == 16 && b == 19 {
            assert(t[16].model_path@.len() != t[19].model_path@.len());
        } else if a == 16 && b == 20 {
            assert(t[16].model_path@.len() != t[20].model_path@.len());
        } else if a == 16 && b == 21 {
            assert(t[16].model_path@.len() != t[21].model_path@.len());
        } else if a == 16 && b == 22 {
            assert(t[16].model_path@.len() != t[22].model_path@.len());
        } else if a == 16 && b == 23 {
            assert(t[16].model_path@.len() != t[23].model_path@.len());
        } else if a == 16 && b == 24 {
            assert(t[16].model_path@.len() != t[24].model_path@.len());
        } else if a == 16 && b == 25 {
            assert(t[16].model_path@.len() != t[25].model_path@.len());
        } else if a == 16 && b == 26 {
            assert(t[16].model_path@.len() != t[26].model_path@.len());
        } else if a == 16 && b == 27 {
            assert(t[16].model_path@.len() != t[27].model_path@.len());
        } else if a == 16 && b == 28 {
            assert(t[16].model_path@.len() != t[28].model_path@.len());
        } else if a == 16 && b == 29 {
            assert(t[16].model_path@.len() != t[29].model_path@.len());
        } else if a == 17 && b == 18 {
            assert(t[17].model_path@.len() != t[18].model_path@.len());
        } else if a == 17 && b == 19 {
            assert(t[17].model_path@.len() != t[19].model_path@.len());
        } else if a == 17 && b == 20 {
            assert(t[17].model_path@.len() != t[20].model_path@.len());
        } else if a == 17 && b == 21 {
            assert(t[17].model_path@.len() != t[21].model_path@.len());
        } else if a == 17 && b == 22 {
            assert(t[17].model_path@.len() != t[22].model_path@.len());
        } else if a == 17 && b == 23 {
            assert(t[17].model_path@.len() != t[23].model_path@.len());
        } else if a == 17 && b == 24 {
            assert(t[17].model_path@.len() != t[24].model_path@.len());
        } else if a == 17 && b == 25 {
            assert(t[17].model_path@.len() != t[25].model_path@.len());
        } else if a == 17 && b == 26 {
            assert(t[17].model_path@.len() != t[26].model_path@.len());
        } else if a == 17 && b == 27 {
            assert(t[17].model_path@.len() != t[27].model_path@.len());
        } else if a == 17 && b == 28 {
            assert(t[17].model_path@.len() != t[28].model_path@.len());
        } else if a == 17 && b == 29 {
            assert(t[17].model_path@.len() != t[29].model_path@.len());
        } else if a == 18 && b == 19 {
            assert(t[18].model_path@.len() != t[19].model_path@.len());
        } else if a == 18 && b == 20 {
            assert(t[18].model_path@.len() != t[20].model_path@.len());
        } else if a == 18 && b == 21 {
            assert(t[18].model_path@.len() != t[21].model_path@.len());
        } else if a == 18 && b == 22 {
            assert(t[18].model_path@.len() != t[22].model_path@.len());
        } else if a == 18 && b == 23 {
            assert(t[18].model_path@.len() != t[23].model_path@.len());
        } else if a == 18 && b == 24 {
            assert(t[18].model_path@[37] != t[24].model_path@[37]);
        } else if a == 18 && b == 25 {
            assert(t[18].model_path@.len() != t[25].model_path@.len());
        } else if a == 18 && b == 26 {
            assert(t[18].model_path@.len() != t[26].model_path@.len());
        } else if a == 18 && b == 27 {
            assert(t[18].model_path@.len() != t[27].model_path@.len());
        } else if a == 18 && b == 28 {
            assert(t[18].model_path@.len() != t[28].model_path@.len());
        } else if a == 18 && b == 29 {
            assert(t[18].model_path@[37] != t[29].model_path@[37]);
        } else if a == 19 && b == 20 {
            assert(t[19].model_path@.len() != t[20].model_path@.len());
        } else if a == 19 && b == 21 {
            assert(t[19].model_path@.len() != t[21].model_path@.len());
        } else if a == 19 && b == 22 {
            assert(t[19].model_path@.len() != t[22].model_path@.len());
        } else if a == 19 && b == 23 {
            assert(t[19].model_path@.len() != t[23].model_path@.len());
        } else if a == 19 && b == 24 {
            assert(t[19].model_path@.len() != t[24].model_path@.len());
        } else if a == 19 && b == 25 {
            assert(t[19].model_path@[37] != t[25].model_path@[37]);
        } else if a == 19 && b == 26 {
            assert(t[19].model_path@.len() != t[26].model_path@.len());
        } else if a == 19 && b == 27 {
            assert(t[19].model_path@.len() != t[27].model_path@.len());
        } else if a == 19 && b == 28 {
            assert(t[19].model_path@.len() != t[28].model_path@.len());
        } else if a == 19 && b == 29 {
            assert(t[19].model_path@.len() != t[29].model_path@.len());
        } else if a == 20 && b == 21 {
            assert(t[20].model_path@.len() != t[21].model_path@.len());
        } else if a == 20 && b == 22 {
            assert(t[20].model_path@.len() != t[22].model_path@.len());
        } else if a == 20 && b == 23 {
            assert(t[20].model_path@.len() != t[23].model_path@.len());
        } else if a == 20 && b == 24 {
            assert(t[20].model_path@.len() != t[24].model_path@.len());
        } else if a == 20 && b == 25 {
            assert(t[20].model_path@.len() != t[25].model_path@.len());
        } else if a == 20 && b == 26 {
            assert(t[20].model_path@[37] != t[26].model_path@[37]);
        } else if a == 20 && b == 27 {
            assert(t[20].model_path@.len() != t[27].model_path@.len());
        } else if a == 20 && b == 28 {
            assert(t[20].model_path@.len() != t[28].model_path@.len());
        } else if a == 20 && b == 29 {
            assert(t[20].model_path@.len() != t[29].model_path@.len());
        } else if a == 21 && b == 22 {
            assert(t[21].model_path@.len() != t[22].model_path@.len());
        } else if a == 21 && b == 23 {
            assert(t[21].model_path@.len() != t[23].model_path@.len());
        } else if a == 21 && b == 24 {
            assert(t[21].model_path@.len() != t[24].model_path@.len());
        } else if a == 21 && b == 25 {
            assert(t[21].model_path@.len() != t[25].model_path@.len());
        } else if a == 21 && b == 26 {
            assert(t[21].model_path@.len() != t[26].model_path@.len());
        } else if a == 21 && b == 27 {
            assert(t[21].model_path@.len() != t[27].model_path@.len());
        } else if a == 21 && b == 28 {
            assert(t[21].model_path@.len() != t[28].model_path@.len());
        } else if a == 21 && b == 29 {
            assert(t[21].model_path@.len() != t[29].model_path@.len());
        } else if a == 22 && b == 23 {
            assert(t[22].model_path@.len() != t[23].model_path@.len());
        } else if a == 22 && b == 24 {
            assert(t[22].model_path@.len() != t[24].model_path@.len());
        } else if a == 22 && b == 25 {
            assert(t[22].model_path@.len() != t[25].model_path@.len());
        } else if a == 22 && b == 26 {
            assert(t[22].model_path@.len() != t[26].model_path@.len());
        } else if a == 22 && b == 27 {
            assert(t[22].model_path@.len() != t[27].model_path@.len());
        } else if a == 22 && b == 28 {
            assert(t[22].model_path@.len() != t[28].model_path@.len());
        } else if a == 22 && b == 29 {
            assert(t[22].model_path@.len() != t[29].model_path@.len());
        } else if a == 23 && b == 24 {
            assert(t[23].model_path@.len() != t[24].model_path@.len());
        } else if a == 23 && b == 25 {
            assert(t[23].model_path@.len() != t[25].model_path@.len());
        } else if a == 23 && b == 26 {
            assert(t[23].model_path@.len() != t[26].model_path@.len());
        } else if a == 23 && b == 27 {
            assert(t[23].model_path@.len() != t[27].model_path@.len());
        } else if a == 23 && b == 28 {
            assert(t[23].model_path@.len() != t[28].model_path@.len());
        } else if a == 23 && b == 29 {
            assert(t[23].model_path@.len() != t[29].model_path@.len());
        } else if a == 24 && b == 25 {
            assert(t[24].model_path@.len() != t[25].model_path@.len());
        } else if a == 24 && b == 26 {
            assert(t[24].model_path@.len() != t[26].model_path@.len());
        } else if a == 24 && b == 27 {
            assert(t[24].model_path@.len() != t[27].model_path@.len());
        } else if a == 24 && b == 28 {
            assert(t[24].model_path@.len() != t[28].model_path@.len());
        } else if a == 24 && b == 29 {
            assert(t[24].model_path@[37] != t[29].model_path@[37]);
        } else if a == 25 && b == 26 {
            assert(t[25].model_path@.len() != t[26].model_path@.len());
        } else if a == 25 && b == 27 {
            assert(t[25].model_path@.len() != t[27].model_path@.len());
        } else if a == 25 && b == 28 {
            assert(t[25].model_path@.len() != t[28].model_path@.len());
        } else if a == 25 && b == 29 {
            assert(t[25].model_path@.len() != t[29].model_path@.len());
        } else if a == 26 && b == 27 {
            assert(t[26].model_path@.len() != t[27].model_path@.len());
        } else if a == 26 && b == 28 {
            assert(t[26].model_path@.len() != t[28].model_path@.len());
        } else if a == 26 && b == 29 {
            assert(t[26].model_path@.len() != t[29].model_path@.len());
        } else if a == 27 && b == 28 {
            assert(t[27].model_path@.len() != t[28].model_path@.len());
        } else if a == 27 && b == 29 {
            assert(t[27].model_path@.len() != t[29].model_path@.len());
        } else if a == 28 && b == 29 {
            assert(t[28].model_path@.len() != t[29].model_path@.len());
        }
    }
}

/// What the file name writes for a mode: the boost modes with the knob settings they were recorded at, the others by name.
pub open spec fn mode_text(voicing: Seq<char>) -> Seq<char> {
    if voicing == "boost1"@ {
        "boost1_v10_b4_t6_g0"@
    } else if voicing == "boost2"@ {
        "boost2_v10_b4_t6_g4"@
    } else if voicing == "boost3_g0"@ {
        "boost3_v10_b7_t6_g0"@
    } else if voicing == "boost3_g4"@ {
        "boost3_v10_b7_t6_g4"@
    } else {
        voicing
    }
}

/// The file recorded at a setting, as the recording names it.
pub open spec fn recorded_file(voicing: Seq<char>, size: Seq<char>) -> Seq<char> {
    "pedals/digitech_bad_monkey/badmonkey_"@ + mode_text(voicing) + "_"@ + size + ".nam"@
}

/// Every capture names the file recorded at its own setting.
pub proof fn lemma_captures_name_their_setting()
    ensures
        forall|i: int| 0 <= i < spec_captures().len() ==>
            (#[trigger] spec_captures()[i]).model_path@ == recorded_file(spec_captures()[i].keys[0]@, spec_captures()[i].keys[1]@),
{
    reveal_strlit("pedals/digitech_bad_monkey/badmonkey_");
    reveal_strlit("boost1_v10_b4_t6_g0");
    reveal_strlit("boost2_v10_b4_t6_g4");
    reveal_strlit("boost3_v10_b7_t6_g0");
    reveal_strlit("boost3_v10_b7_t6_g4");
    reveal_strlit("boost1");
    reveal_strlit("boost2");
    reveal_strlit("boost3_g0");
    reveal_strlit("boost3_g4");
    reveal_strlit("_");
    reveal_strlit(".nam");
    reveal_strlit("pedals/digitech_bad_monkey/badmonkey_boost1_v10_b4_t6_g0_feather.nam");
    reveal_strlit("pedals/digitech_bad_monkey/badmonkey_boost1_v10_b4_t6_g0_lite.nam");
    reveal_strlit("pedals/digitech_bad_monkey/badmonkey_boost1_v10_b4_t6_g0_standard.nam");
    reveal_strlit("pedals/digitech_bad_monkey/badmonkey_boost2_v10_b4_t6_g4_feather.nam");
    reveal_strlit("pedals/digitech_bad_monkey/badmonkey_boost2_v10_b4_t6_g4_lite.nam");
    reveal_strlit("pedals/digitech_bad_monkey/badmonkey_boost2_v10_b4_t6_g4_standard.nam");
    reveal_strlit("pedals/digitech_bad_monkey/badmonkey_boost3_v10_b7_t6_g0_feather.nam");
    reveal_strlit("pedals/digitech_bad_monkey/badmonkey_boost3_v10_b7_t6_g0_lite.nam");
    reveal_strlit("pedals/digitech_bad_monkey/badmonkey_boost3_v10_b7_t6_g0_standard.nam");
    reveal_strlit("pedals/digitech_bad_monkey/badmonkey_boost3_v10_b7_t6_g4_feather.nam");
    reveal_strlit("pedals/digitech_bad_monkey/badmonkey_boost3_v10_b7_t6_g4_lite.nam");
    reveal_strlit("pedals/digitech_bad_monkey/badmonkey_boost3_v10_b7_t6_g4_standard.nam");
    reveal_strlit("pedals/digitech_bad_monkey/badmonkey_fulltone_feather.nam");
    reveal_strlit("pedals/digitech_bad_monkey/badmonkey_fulltone_lite.nam");
    reveal_strlit("pedals/digitech_bad_monkey/badmonkey_fulltone_standard.nam");
    reveal_strlit("pedals/digitech_bad_monkey/badmonkey_glory_feather.nam");
    reveal_strlit("pedals/digitech_bad_monkey/badmonkey_glory_lite.nam");
    reveal_strlit("pedals/digitech_bad_monkey/badmonkey_glory_standard.nam");
    reveal_strlit("pedals/digitech_bad_monkey/badmonkey_klon_feather.nam");
    reveal_strlit("pedals/digitech_bad_monkey/badmonkey_klon_lite.nam");
    reveal_strlit("pedals/digitech_bad_monkey/badmonkey_klon_standard.nam");
    reveal_strlit("pedals/digitech_bad_monkey/badmonkey_noble_odr_1_feather.nam");
    reveal_strlit("pedals/digitech_bad_monkey/badmonkey_noble_odr_1_lite.nam");
    reveal_strlit("pedals/digitech_bad_monkey/badmonkey_noble_odr_1_standard.nam");
    reveal_strlit("pedals/digitech_bad_monkey/badmonkey_ts10_feather.nam");
    reveal_strlit("pedals/digitech_bad_monkey/badmonkey_ts10_lite.nam");
    reveal_strlit("pedals/digitech_bad_monkey/badmonkey_ts10_standard.nam");
    reveal_strlit("pedals/digitech_bad_monkey/badmonkey_zen_feather.nam");
    reveal_strlit("pedals/digitech_bad_monkey/badmonkey_zen_lite.nam");
    reveal_strlit("pedals/digitech_bad_monkey/badmonkey_zen_standard.nam");
    reveal_strlit("feather");
    reveal_strlit("lite");
    reveal_strlit("standard");
    reveal_strlit("fulltone");
    reveal_strlit("glory");
    reveal_strlit("klon");
    reveal_strlit("noble_odr_1");
    reveal_strlit("ts10");
    reveal_strlit("zen");
    let t = spec_captures();
    assert forall|i: int| 0 <= i < t.len() implies
        (#[trigger] t[i]).model_path@ == recorded_file(t[i].keys[0]@, t[i].keys[1]@) by {
        if i == 0 {
            assert("boost2"@[5] != "boost1"@[5]);
            assert("boost3_g0"@.len() != "boost1"@.len());
            assert("boost3_g4"@.len() != "boost1"@.len());
            assert(t[i].model_path@ =~= recorded_file("boost1"@, "feather"@));
        } else if i == 1 {
            assert("boost2"@[5] != "boost1"@[5]);
            assert("boost3_g0"@.len() != "boost1"@.len());
            assert("boost3_g4"@.len() != "boost1"@.len());
            assert(t[i].model_path@ =~= recorded_file("boost1"@, "lite"@));
        } else if i == 2 {
            assert("boost2"@[5] != "boost1"@[5]);
            assert("boost3_g0"@.len() != "boost1"@.len());
            assert("boost3_g4"@.len() != "boost1"@.len());
            assert(t[i].model_path@ =~= recorded_file("boost1"@, "standard"@));
        } else if i == 3 {
            assert("boost1"@[5] != "boost2"@[5]);
            assert("boost3_g0"@.len() != "boost2"@.len());
            assert("boost3_g4"@.len() != "boost2"@.len());
            assert(t[i].model_path@ =~= recorded_file("boost2"@, "feather"@));
        } else if i == 4 {
            assert("boost1"@[5] != "boost2"@[5]);
            assert("boost3_g0"@.len() != "boost2"@.len());
            assert("boost3_g4"@.len() != "boost2"@.len());
            assert(t[i].model_path@ =~= recorded_file("boost2"@, "lite"@));
        } else if i == 5 {
            assert("boost1"@[5] != "boost2"@[5]);
            assert("boost3_g0"@.len() != "boost2"@.len());
            assert("boost3_g4"@.len() != "boost2"@.len());
            assert(t[i].model_path@ =~= recorded_file("boost2"@, "standard"@));
        } else if i == 6 {
            assert("boost1"@.len() != "boost3_g0"@.len());
            assert("boost2"@.len() != "boost3_g0"@.len());
            assert("boost3_g4"@[8] != "boost3_g0"@[8]);
            assert(t[i].model_path@ =~= recorded_file("boost3_g0"@, "feather"@));
        } else if i == 7 {
            assert("boost1"@.len() != "boost3_g0"@.len());
            assert("boost2"@.len() != "boost3_g0"@.len());
            assert("boost3_g4"@[8] != "boost3_g0"@[8]);
            assert(t[i].model_path@ =~= recorded_file("boost3_g0"@, "lite"@));
        } else if i == 8 {
            assert("boost1"@.len() != "boost3_g0"@.len());
            assert("boost2"@.len() != "boost3_g0"@.len());
            assert("boost3_g4"@[8] != "boost3_g0"@[8]);
            assert(t[i].model_path@ =~= recorded_file("boost3_g0"@, "standard"@));
        } else if i == 9 {
            assert("boost1"@.len() != "boost3_g4"@.len());
            assert("boost2"@.len() != "boost3_g4"@.len());
            assert("boost3_g0"@[8] != "boost3_g4"@[8]);
            assert(t[i].model_path@ =~= recorded_file("boost3_g4"@, "feather"@));
        } else if i == 10 {
            assert("boost1"@.len() != "boost3_g4"@.len());
            assert("boost2"@.len() != "boost3_g4"@.len());
            assert("boost3_g0"@[8] != "boost3_g4"@[8]);
            assert(t[i].model_path@ =~= recorded_file("boost3_g4"@, "lite"@));
        } else if i == 11 {
            assert("boost1"@.len() != "boost3_g4"@.len());
            assert("boost2"@.len() != "boost3_g4"@.len());
            assert("boost3_g0"@[8] != "boost3_g4"@[8]);
            assert(t[i].model_path@ =~= recorded_file("boost3_g4"@, "standard"@));
        } else if i == 12 {
            assert("boost1"@.len() != "fulltone"@.len());
            assert("boost2"@.len() != "fulltone"@.len());
            assert("boost3_g0"@.len() != "fulltone"@.len());
            assert("boost3_g4"@.len() != "fulltone"@.len());
            assert(t[i].model_path@ =~= recorded_file("fulltone"@, "feather"@));
        } else if i == 13 {
            assert("boost1"@.len() != "fulltone"@.len());
            assert("boost2"@.len() != "fulltone"@.len());
            assert("boost3_g0"@.len() != "fulltone"@.len());
            assert("boost3_g4"@.len() != "fulltone"@.len());
            assert(t[i].model_path@ =~= recorded_file("fulltone"@, "lite"@));
        } else if i == 14 {
            assert("boost1"@.len() != "fulltone"@.len());
            assert("boost2"@.len() != "fulltone"@.len());
            assert("boost3_g0"@.len() != "fulltone"@.len());
            assert("boost3_g4"@.len() != "fulltone"@.len());
            assert(t[i].model_path@ =~= recorded_file("fulltone"@, "standard"@));
        } else if i == 15 {
            assert("boost1"@.len() != "glory"@.len());
            assert("boost2"@.len() != "glory"@.len());
            assert("boost3_g0"@.len() != "glory"@.len());
            assert("boost3_g4"@.len() != "glory"@.len());
            assert(t[i].model_path@ =~= recorded_file("glory"@, "feather"@));
        } else if i == 16 {
            assert("boost1"@.len() != "glory"@.len());
            assert("boost2"@.len() != "glory"@.len());
            assert("boost3_g0"@.len() != "glory"@.len());
            assert("boost3_g4"@.len() != "glory"@.len());
            assert(t[i].model_path@ =~= recorded_file("glory"@, "lite"@));
        } else if i == 17 {
            assert("boost1"@.len() != "glory"@.len());
            assert("boost2"@.len() != "glory"@.len());
            assert("boost3_g0"@.len() != "glory"@.len());
            assert("boost3_g4"@.len() != "glory"@.len());
            assert(t[i].model_path@ =~= recorded_file("glory"@, "standard"@));
        } else if i == 18 {
            assert("boost1"@.len() != "klon"@.len());
            assert("boost2"@.len() != "klon"@.len());
            assert("boost3_g0"@.len() != "klon"@.len());
            assert("boost3_g4"@.len() != "klon"@.len());
            assert(t[i].model_path@ =~= recorded_file("klon"@, "feather"@));
        } else if i == 19 {
            assert("boost1"@.len() != "klon"@.len());
            assert("boost2"@.len() != "klon"@.len());
            assert("boost3_g0"@.len() != "klon"@.len());
            assert("boost3_g4"@.len() != "klon"@.len());
            assert(t[i].model_path@ =~= recorded_file("klon"@, "lite"@));
        } else if i == 20 {
            assert("boost1"@.len() != "klon"@.len());
            assert("boost2"@.len() != "klon"@.len());
            assert("boost3_g0"@.len() != "klon"@.len());
            assert("boost3_g4"@.len() != "klon"@.len());
            assert(t[i].model_path@ =~= recorded_file("klon"@, "standard"@));
        } else if i == 21 {
            assert("boost1"@.len() != "noble_odr_1"@.len());
            assert("boost2"@.len() != "noble_odr_1"@.len());
            assert("boost3_g0"@.len() != "noble_odr_1"@.len());
            assert("boost3_g4"@.len() != "noble_odr_1"@.len());
            assert(t[i].model_path@ =~= recorded_file("noble_odr_1"@, "feather"@));
        } else if i == 22 {
            assert("boost1"@.len() != "noble_odr_1"@.len());
            assert("boost2"@.len() != "noble_odr_1"@.len());
            assert("boost3_g0"@.len() != "noble_odr_1"@.len());
            assert("boost3_g4"@.len() != "noble_odr_1"@.len());
            assert(t[i].model_path@ =~= recorded_file("noble_odr_1"@, "lite"@));
        } else if i == 23 {
            assert("boost1"@.len() != "noble_odr_1"@.len());
            assert("boost2"@.len() != "noble_odr_1"@.len());
            assert("boost3_g0"@.len() != "noble_odr_1"@.len());
            assert("boost3_g4"@.len() != "noble_odr_1"@.len());
            assert(t[i].model_path@ =~= recorded_file("noble_odr_1"@, "standard"@));
        } else if i == 24 {
            assert("boost1"@.len() != "ts10"@.len());
            assert("boost2"@.len() != "ts10"@.len());
            assert("boost3_g0"@.len() != "ts10"@.len());
            assert("boost3_g4"@.len() != "ts10"@.len());
            assert(t[i].model_path@ =~= recorded_file("ts10"@, "feather"@));
        } else if i == 25 {
            assert("boost1"@.len() != "ts10"@.len());
            assert("boost2"@.len() != "ts10"@.len());
            assert("boost3_g0"@.len() != "ts10"@.len());
            assert("boost3_g4"@.len() != "ts10"@.len());
            assert(t[i].model_path@ =~= recorded_file("ts10"@, "lite"@));
        } else if i == 26 {
            assert("boost1"@.len() != "ts10"@.len());
            assert("boost2"@.len() != "ts10"@.len());
            assert("boost3_g0"@.len() != "ts10"@.len());
            assert("boost3_g4"@.len() != "ts10"@.len());
            assert(t[i].model_path@ =~= recorded_file("ts10"@, "standard"@));
        } else if i == 27 {
            assert("boost1"@.len() != "zen"@.len());
            assert("boost2"@.len() != "zen"@.len());
            assert("boost3_g0"@.len() != "zen"@.len());
            assert("boost3_g4"@.len() != "zen"@.len());
            assert(t[i].model_path@ =~= recorded_file("zen"@, "feather"@));
        } else if i == 28 {
            assert("boost1"@.len() != "zen"@.len());
            assert("boost2"@.len() != "zen"@.len());
            assert("boost3_g0"@.len() != "zen"@.len());
            assert("boost3_g4"@.len() != "zen"@.len());
            assert(t[i].model_path@ =~= recorded_file("zen"@, "lite"@));
        } else if i == 29 {
            assert("boost1"@.len() != "zen"@.len());
            assert("boost2"@.len() != "zen"@.len());
            assert("boost3_g0"@.len() != "zen"@.len());
            assert("boost3_g4"@.len() != "zen"@.len());
            assert(t[i].model_path@ =~= recorded_file("zen"@, "standard"@));
        }
    }
}

/// A setting that selects a capture selects the file recorded at that setting.
pub proof fn lemma_selected_file(voicing: Seq<char>, size: Seq<char>)
    ensures
        selection(voicing, size) matches Some(i) ==> spec_captures()[i].model_path@ == recorded_file(voicing, size),
{
    lemma_first_selected(spec_captures(), seq![voicing, size]);
    lemma_captures_name_their_setting();
    if let Some(i) = selection(voicing, size) {
        assert(spec_captures()[i].model_path@ == recorded_file(spec_captures()[i].keys[0]@, spec_captures()[i].keys[1]@));
    }
}

} // verus!
