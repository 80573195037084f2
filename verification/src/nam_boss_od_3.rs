//! The "Boss OD-3" gain model (boss), played from neural captures, one per recorded setting.

use vstd::prelude::*;
use crate::capture::{
    files_distinct,
    Capture, CaptureView, table_view, find_capture, first_selected, asset_text, lemma_first_selected,
    lemma_selected_at, captures_follow_schema, default_setting, defaults_present, captures_distinct,
    every_setting_selects, setting_of_choices,
};
use crate::error::GainError;
use crate::model::{BackendKind, Instruments, KnobLayoutEntry, ModelDefinition, ModelDefinitionView};
use crate::schema::{
    EffectType, EnumChoice, ModelSchema, ModelSchemaView, ParameterKindView, ParameterSpecView,
    choice, enum_parameter, parameters_view, schema_well_formed, choices_at, str_texts, is_choice,
    parameter_well_formed, choice_values, parameter_paths,
};
use crate::text::{concat, join, texts};

verus! {

pub const MODEL_ID: &'static str = "nam_boss_od_3";
pub const DISPLAY_NAME: &'static str = "Boss OD-3";
pub const BRAND: &'static str = "boss";

pub open spec fn spec_model_schema() -> ModelSchemaView {
    ModelSchemaView {
        effect_type: EffectType::Gain,
        model: MODEL_ID,
        display_name: DISPLAY_NAME,
        audio_mode: None,
        parameters: Some(seq![
            ParameterSpecView {
                path: "drive",
                label: "Drive",
                group: Some("Pedal"),
                kind: ParameterKindView::Enum {
                    default: Some("mid"),
                    choices: seq![
                        EnumChoice { value: "no", label: "Off" },
                        EnumChoice { value: "low", label: "Low" },
                        EnumChoice { value: "mid", label: "Mid" },
                        EnumChoice { value: "hi", label: "High" },
                    ],
                },
            },
            ParameterSpecView {
                path: "tone",
                label: "Tone",
                group: Some("Pedal"),
                kind: ParameterKindView::Enum {
                    default: Some("center"),
                    choices: seq![
                        EnumChoice { value: "low", label: "Low" },
                        EnumChoice { value: "center", label: "Center" },
                        EnumChoice { value: "high", label: "High" },
                    ],
                },
            },
            ParameterSpecView {
                path: "size",
                label: "Model Size",
                group: Some("Asset"),
                kind: ParameterKindView::Enum {
                    default: Some("standard"),
                    choices: seq![
                        EnumChoice { value: "standard", label: "Standard" },
                        EnumChoice { value: "nano", label: "Nano" },
                    ],
                },
            },
        ]),
    }
}

/// The parameters of the model.
pub fn model_schema() -> (schema: ModelSchema)
    ensures
        schema@ == spec_model_schema(),
{
    let parameters = vec![
        enum_parameter(
            "drive",
            "Drive",
            Some("Pedal"),
            Some("mid"),
            vec![
                choice("no", "Off"),
                choice("low", "Low"),
                choice("mid", "Mid"),
                choice("hi", "High"),
            ],
        ),
        enum_parameter(
            "tone",
            "Tone",
            Some("Pedal"),
            Some("center"),
            vec![
                choice("low", "Low"),
                choice("center", "Center"),
                choice("high", "High"),
            ],
        ),
        enum_parameter(
            "size",
            "Model Size",
            Some("Asset"),
            Some("standard"),
            vec![
                choice("standard", "Standard"),
                choice("nano", "Nano"),
            ],
        ),
    ];
    assert(parameters_view(parameters@) =~= spec_model_schema().parameters.unwrap());
    ModelSchema {
        effect_type: EffectType::Gain,
        model: MODEL_ID,
        display_name: DISPLAY_NAME,
        audio_mode: None,
        parameters: Some(parameters),
    }
}

/// The positions, in the schema, of the parameters that select a capture.
pub open spec fn key_params() -> Seq<int> {
    seq![0, 1, 2]
}

pub open spec fn spec_captures() -> Seq<CaptureView> {
    seq![
        CaptureView { keys: seq!["no", "low", "standard"], model_path: "pedals/boss_od_3/bossod3_nodrive_lowtone.nam" },
        CaptureView { keys: seq!["no", "low", "nano"], model_path: "pedals/boss_od_3/bossod3_nodrive_lowtone_nano.nam" },
        CaptureView { keys: seq!["no", "center", "standard"], model_path: "pedals/boss_od_3/bossod3_nodrive_centertone.nam" },
        CaptureView { keys: seq!["no", "center", "nano"], model_path: "pedals/boss_od_3/bossod3_nodrive_centertone_nano.nam" },
        CaptureView { keys: seq!["no", "high", "standard"], model_path: "pedals/boss_od_3/bossod3_nodrive_hightone.nam" },
        CaptureView { keys: seq!["no", "high", "nano"], model_path: "pedals/boss_od_3/bossod3_nodrive_hightone_nano.nam" },
        CaptureView { keys: seq!["low", "low", "standard"], model_path: "pedals/boss_od_3/bossod3_lowdrive_lowtone.nam" },
        CaptureView { keys: seq!["low", "low", "nano"], model_path: "pedals/boss_od_3/bossod3_lowdrive_lowtone_nano.nam" },
        CaptureView { keys: seq!["low", "center", "standard"], model_path: "pedals/boss_od_3/bossod3_lowdrive_centertone.nam" },
        CaptureView { keys: seq!["low", "center", "nano"], model_path: "pedals/boss_od_3/bossod3_lowdrive_centertone_nano.nam" },
        CaptureView { keys: seq!["low", "high", "standard"], model_path: "pedals/boss_od_3/bossod3_lowdrive_hightone.nam" },
        CaptureView { keys: seq!["low", "high", "nano"], model_path: "pedals/boss_od_3/bossod3_lowdrive_hightone_nano.nam" },
        CaptureView { keys: seq!["mid", "low", "standard"], model_path: "pedals/boss_od_3/bossod3_middrive_lowtone.nam" },
        CaptureView { keys: seq!["mid", "low", "nano"], model_path: "pedals/boss_od_3/bossod3_middrive_lowtone_nano.nam" },
        CaptureView { keys: seq!["mid", "center", "standard"], model_path: "pedals/boss_od_3/bossod3_middrive_centertone.nam" },
        CaptureView { keys: seq!["mid", "center", "nano"], model_path: "pedals/boss_od_3/bossod3_middrive_centertone_nano.nam" },
        CaptureView { keys: seq!["mid", "high", "standard"], model_path: "pedals/boss_od_3/bossod3_middrive_hightone.nam" },
        CaptureView { keys: seq!["mid", "high", "nano"], model_path: "pedals/boss_od_3/bossod3_middrive_hightone_nano.nam" },
        CaptureView { keys: seq!["hi", "low", "standard"], model_path: "pedals/boss_od_3/bossod3_hidrive_lowtone.nam" },
        CaptureView { keys: seq!["hi", "low", "nano"], model_path: "pedals/boss_od_3/bossod3_hidrive_lowtone_nano.nam" },
        CaptureView { keys: seq!["hi", "center", "standard"], model_path: "pedals/boss_od_3/bossod3_hidrive_centertone.nam" },
        CaptureView { keys: seq!["hi", "center", "nano"], model_path: "pedals/boss_od_3/bossod3_hidrive_centertone_nano.nam" },
        CaptureView { keys: seq!["hi", "high", "standard"], model_path: "pedals/boss_od_3/bossod3_hidrive_hightone.nam" },
        CaptureView { keys: seq!["hi", "high", "nano"], model_path: "pedals/boss_od_3/bossod3_hidrive_hightone_nano.nam" },
    ]
}

/// The captures of the pedal, each with its (drive, tone, size) setting.
pub fn captures() -> (table: Vec<Capture>)
    ensures
        table_view(table@) == spec_captures(),
{
    let table = vec![
        Capture::three("no", "low", "standard", "pedals/boss_od_3/bossod3_nodrive_lowtone.nam"),
        Capture::three("no", "low", "nano", "pedals/boss_od_3/bossod3_nodrive_lowtone_nano.nam"),
        Capture::three("no", "center", "standard", "pedals/boss_od_3/bossod3_nodrive_centertone.nam"),
        Capture::three("no", "center", "nano", "pedals/boss_od_3/bossod3_nodrive_centertone_nano.nam"),
        Capture::three("no", "high", "standard", "pedals/boss_od_3/bossod3_nodrive_hightone.nam"),
        Capture::three("no", "high", "nano", "pedals/boss_od_3/bossod3_nodrive_hightone_nano.nam"),
        Capture::three("low", "low", "standard", "pedals/boss_od_3/bossod3_lowdrive_lowtone.nam"),
        Capture::three("low", "low", "nano", "pedals/boss_od_3/bossod3_lowdrive_lowtone_nano.nam"),
        Capture::three("low", "center", "standard", "pedals/boss_od_3/bossod3_lowdrive_centertone.nam"),
        Capture::three("low", "center", "nano", "pedals/boss_od_3/bossod3_lowdrive_centertone_nano.nam"),
        Capture::three("low", "high", "standard", "pedals/boss_od_3/bossod3_lowdrive_hightone.nam"),
        Capture::three("low", "high", "nano", "pedals/boss_od_3/bossod3_lowdrive_hightone_nano.nam"),
        Capture::three("mid", "low", "standard", "pedals/boss_od_3/bossod3_middrive_lowtone.nam"),
        Capture::three("mid", "low", "nano", "pedals/boss_od_3/bossod3_middrive_lowtone_nano.nam"),
        Capture::three("mid", "center", "standard", "pedals/boss_od_3/bossod3_middrive_centertone.nam"),
        Capture::three("mid", "center", "nano", "pedals/boss_od_3/bossod3_middrive_centertone_nano.nam"),
        Capture::three("mid", "high", "standard", "pedals/boss_od_3/bossod3_middrive_hightone.nam"),
        Capture::three("mid", "high", "nano", "pedals/boss_od_3/bossod3_middrive_hightone_nano.nam"),
        Capture::three("hi", "low", "standard", "pedals/boss_od_3/bossod3_hidrive_lowtone.nam"),
        Capture::three("hi", "low", "nano", "pedals/boss_od_3/bossod3_hidrive_lowtone_nano.nam"),
        Capture::three("hi", "center", "standard", "pedals/boss_od_3/bossod3_hidrive_centertone.nam"),
        Capture::three("hi", "center", "nano", "pedals/boss_od_3/bossod3_hidrive_centertone_nano.nam"),
        Capture::three("hi", "high", "standard", "pedals/boss_od_3/bossod3_hidrive_hightone.nam"),
        Capture::three("hi", "high", "nano", "pedals/boss_od_3/bossod3_hidrive_hightone_nano.nam"),
    ];
    assert(table_view(table@) =~= spec_captures());
    table
}

/// What the model reports for a setting at which no capture was recorded.
pub open spec fn unsupported_message(drive: Seq<char>, tone: Seq<char>, size: Seq<char>) -> Seq<char> {
    concat(seq!["gain '"@, MODEL_ID@, "' has no capture for drive="@, drive, " tone="@, tone, " size="@, size])
}

/// The index of the capture that (drive, tone, size) selects.
pub open spec fn selection(drive: Seq<char>, tone: Seq<char>, size: Seq<char>) -> Option<int> {
    first_selected(spec_captures(), seq![drive, tone, size])
}

fn unsupported(drive: &str, tone: &str, size: &str) -> (e: GainError)
    ensures
        e matches GainError::UnsupportedSetting(m) && m@ == unsupported_message(drive@, tone@, size@),
{
    let parts = vec!["gain '", MODEL_ID, "' has no capture for drive=", drive, " tone=", tone, " size=", size];
    let m = join(&parts);
    assert(texts(parts@) =~= seq!["gain '"@, MODEL_ID@, "' has no capture for drive="@, drive@, " tone="@, tone@, " size="@, size@]);
    GainError::UnsupportedSetting(m)
}

/// The capture recorded at (drive, tone, size).
pub fn resolve_capture(drive: &str, tone: &str, size: &str) -> (selected: Result<&'static str, GainError>)
    ensures
        match selection(drive@, tone@, size@) {
            Some(i) => selected matches Ok(path) && path == spec_captures()[i].model_path,
            None => selected matches Err(GainError::UnsupportedSetting(m)) && m@ == unsupported_message(drive@, tone@, size@),
        },
{
    let table = captures();
    let request = vec![drive, tone, size];
    assert(texts(request@) =~= seq![drive@, tone@, size@]);
    match find_capture(&table, &request) {
        Some(i) => {
            proof {
                lemma_first_selected(spec_captures(), seq![drive@, tone@, size@]);
            }
            Ok(table[i].model_path)
        },
        None => Err(unsupported(drive, tone, size)),
    }
}

/// Accepts (drive, tone, size) exactly where a capture was recorded there.
pub fn validate_params(drive: &str, tone: &str, size: &str) -> (checked: Result<(), GainError>)
    ensures
        match selection(drive@, tone@, size@) {
            Some(i) => checked is Ok,
            None => checked matches Err(GainError::UnsupportedSetting(m)) && m@ == unsupported_message(drive@, tone@, size@),
        },
{
    match resolve_capture(drive, tone, size) {
        Ok(_) => Ok(()),
        Err(e) => Err(e),
    }
}

/// Names the capture file that (drive, tone, size) selects.
pub fn asset_summary(drive: &str, tone: &str, size: &str) -> (summary: Result<String, GainError>)
    ensures
        match selection(drive@, tone@, size@) {
            Some(i) => summary matches Ok(s) && s@ == asset_text(spec_captures()[i].model_path@),
            None => summary matches Err(GainError::UnsupportedSetting(m)) && m@ == unsupported_message(drive@, tone@, size@),
        },
{
    match resolve_capture(drive, tone, size) {
        Ok(c) => {
            let parts = vec!["model='", c, "'"];
            assert(texts(parts@) =~= seq!["model='"@, c@, "'"@]);
            Ok(join(&parts))
        },
        Err(e) => Err(e),
    }
}

pub open spec fn spec_model_definition() -> ModelDefinitionView {
    ModelDefinitionView {
        id: MODEL_ID,
        display_name: DISPLAY_NAME,
        brand: BRAND,
        backend_kind: BackendKind::Nam,
        supported_instruments: Instruments::GuitarBass,
        knob_layout: seq![],
    }
}

/// What the registry lists for this model.
pub fn model_definition() -> (d: ModelDefinition)
    ensures
        d@ == spec_model_definition(),
{
    let knob_layout: Vec<KnobLayoutEntry> = Vec::new();
    let d = ModelDefinition {
        id: MODEL_ID,
        display_name: DISPLAY_NAME,
        brand: BRAND,
        backend_kind: BackendKind::Nam,
        supported_instruments: Instruments::GuitarBass,
        knob_layout,
    };
    assert(d@.knob_layout =~= spec_model_definition().knob_layout);
    d
}

/// The schema is sound: every parameter is, and no two share a path.
pub proof fn lemma_schema_well_formed()
    ensures
        schema_well_formed(spec_model_schema()),
{
    reveal_strlit("drive");
    reveal_strlit("tone");
    reveal_strlit("size");
    reveal_strlit("no");
    reveal_strlit("low");
    reveal_strlit("mid");
    reveal_strlit("hi");
    reveal_strlit("center");
    reveal_strlit("high");
    reveal_strlit("standard");
    reveal_strlit("nano");
    let ps = spec_model_schema().parameters.unwrap();
    assert forall|i: int| 0 <= i < ps.len() implies parameter_well_formed(#[trigger] ps[i]) by {
        if ps[i].kind is Enum {
            let vs = choice_values(ps[i].kind->Enum_choices);
            assert forall|a: int, b: int| 0 <= a < b < vs.len() implies vs[a] != vs[b] by {
                if vs[a] == vs[b] {
                    assert(vs[a].len() == vs[b].len());
                    assert(vs[a][0] == vs[b][0]);
                }
            }
        }
        if i == 0 {
            assert(ps[0].kind->Enum_choices[2].value@ == "mid"@);
        } else if i == 1 {
            assert(ps[1].kind->Enum_choices[1].value@ == "center"@);
        } else if i == 2 {
            assert(ps[2].kind->Enum_choices[0].value@ == "standard"@);
        }
    }
    let paths = parameter_paths(ps);
    assert forall|a: int, b: int| 0 <= a < b < paths.len() implies paths[a] != paths[b] by {
        if paths[a] == paths[b] {
            assert(paths[a].len() == paths[b].len());
            assert(paths[a][0] == paths[b][0]);
        }
    }
}

/// Each capture is recorded at choices the schema offers.
pub proof fn lemma_captures_follow_schema()
    ensures
        captures_follow_schema(spec_model_schema(), key_params(), spec_captures()),
{
    let s = spec_model_schema();
    let t = spec_captures();
    assert forall|i: int, k: int| 0 <= i < t.len() && 0 <= k < key_params().len() implies {
        &&& #[trigger] t[i].keys.len() == key_params().len()
        &&& is_choice(choices_at(s, key_params()[k]), #[trigger] t[i].keys[k]@)
    } by {
        let cs = choices_at(s, key_params()[k]);
        if k == 0 {
            if t[i].keys[0] == "no" {
                assert(cs[0].value@ == t[i].keys[k]@);
            } else if t[i].keys[0] == "low" {
                assert(cs[1].value@ == t[i].keys[k]@);
            } else if t[i].keys[0] == "mid" {
                assert(cs[2].value@ == t[i].keys[k]@);
            } else {
                assert(cs[3].value@ == t[i].keys[k]@);
            }
        } else if k == 1 {
            if t[i].keys[1] == "low" {
                assert(cs[0].value@ == t[i].keys[k]@);
            } else if t[i].keys[1] == "center" {
                assert(cs[1].value@ == t[i].keys[k]@);
            } else {
                assert(cs[2].value@ == t[i].keys[k]@);
            }
        } else if k == 2 {
            if t[i].keys[2] == "standard" {
                assert(cs[0].value@ == t[i].keys[k]@);
            } else {
                assert(cs[1].value@ == t[i].keys[k]@);
            }
        }
    }
}

/// No two captures share a setting.
pub proof fn lemma_captures_distinct()
    ensures
        captures_distinct(spec_captures()),
{
    reveal_strlit("no");
    reveal_strlit("low");
    reveal_strlit("standard");
    reveal_strlit("nano");
    reveal_strlit("center");
    reveal_strlit("high");
    reveal_strlit("mid");
    reveal_strlit("hi");
    let t = spec_captures();
    assert forall|a: int, b: int| 0 <= a < b < t.len() implies str_texts(t[a].keys) != str_texts(t[b].keys) by {
        let x = str_texts(t[a].keys);
        let y = str_texts(t[b].keys);
        if x == y {
            assert(x[0].len() == y[0].len());
            assert(x[0][0] == y[0][0]);
            assert(x[1].len() == y[1].len());
            assert(x[2].len() == y[2].len());
        }
    }
}

/// Every setting the schema offers selects a capture; so do the defaults.
pub proof fn lemma_every_setting_selects()
    ensures
        every_setting_selects(spec_model_schema(), key_params(), spec_captures()),
        defaults_present(spec_model_schema(), key_params()),
        first_selected(spec_captures(), default_setting(spec_model_schema(), key_params())) is Some,
{
    let s = spec_model_schema();
    let t = spec_captures();
    assert forall|r: Seq<Seq<char>>| setting_of_choices(s, key_params(), r) implies
        (#[trigger] first_selected(t, r)) is Some by {
        let c0 = choices_at(s, 0);
        let i0 = choose|i: int| 0 <= i < c0.len() && c0[i].value@ == r[0];
        let c1 = choices_at(s, 1);
        let i1 = choose|i: int| 0 <= i < c1.len() && c1[i].value@ == r[1];
        let c2 = choices_at(s, 2);
        let i2 = choose|i: int| 0 <= i < c2.len() && c2[i].value@ == r[2];
        if i0 == 0 && i1 == 0 && i2 == 0 {
            lemma_selected_at(t, r, 0);
        } else if i0 == 0 && i1 == 0 && i2 == 1 {
            lemma_selected_at(t, r, 1);
        } else if i0 == 0 && i1 == 1 && i2 == 0 {
            lemma_selected_at(t, r, 2);
        } else if i0 == 0 && i1 == 1 && i2 == 1 {
            lemma_selected_at(t, r, 3);
        } else if i0 == 0 && i1 == 2 && i2 == 0 {
            lemma_selected_at(t, r, 4);
        } else if i0 == 0 && i1 == 2 && i2 == 1 {
            lemma_selected_at(t, r, 5);
        } else if i0 == 1 && i1 == 0 && i2 == 0 {
            lemma_selected_at(t, r, 6);
        } else if i0 == 1 && i1 == 0 && i2 == 1 {
            lemma_selected_at(t, r, 7);
        } else if i0 == 1 && i1 == 1 && i2 == 0 {
            lemma_selected_at(t, r, 8);
        } else if i0 == 1 && i1 == 1 && i2 == 1 {
            lemma_selected_at(t, r, 9);
        } else if i0 == 1 && i1 == 2 && i2 == 0 {
            lemma_selected_at(t, r, 10);
        } else if i0 == 1 && i1 == 2 && i2 == 1 {
            lemma_selected_at(t, r, 11);
        } else if i0 == 2 && i1 == 0 && i2 == 0 {
            lemma_selected_at(t, r, 12);
        } else if i0 == 2 && i1 == 0 && i2 == 1 {
            lemma_selected_at(t, r, 13);
        } else if i0 == 2 && i1 == 1 && i2 == 0 {
            lemma_selected_at(t, r, 14);
        } else if i0 == 2 && i1 == 1 && i2 == 1 {
            lemma_selected_at(t, r, 15);
        } else if i0 == 2 && i1 == 2 && i2 == 0 {
            lemma_selected_at(t, r, 16);
        } else if i0 == 2 && i1 == 2 && i2 == 1 {
            lemma_selected_at(t, r, 17);
        } else if i0 == 3 && i1 == 0 && i2 == 0 {
            lemma_selected_at(t, r, 18);
        } else if i0 == 3 && i1 == 0 && i2 == 1 {
            lemma_selected_at(t, r, 19);
        } else if i0 == 3 && i1 == 1 && i2 == 0 {
            lemma_selected_at(t, r, 20);
        } else if i0 == 3 && i1 == 1 && i2 == 1 {
            lemma_selected_at(t, r, 21);
        } else if i0 == 3 && i1 == 2 && i2 == 0 {
            lemma_selected_at(t, r, 22);
        } else if i0 == 3 && i1 == 2 && i2 == 1 {
            lemma_selected_at(t, r, 23);
        }
    }
    let dflt = default_setting(s, key_params());
    assert(dflt =~= seq!["mid"@, "center"@, "standard"@]);
    lemma_selected_at(t, dflt, 14);
}

/// No two captures name the same file.
pub proof fn lemma_capture_files()
    ensures
        files_distinct(spec_captures()),
{
    reveal_strlit("pedals/boss_od_3/bossod3_nodrive_lowtone.nam");
    reveal_strlit("pedals/boss_od_3/bossod3_nodrive_lowtone_nano.nam");
    reveal_strlit("pedals/boss_od_3/bossod3_nodrive_centertone.nam");
    reveal_strlit("pedals/boss_od_3/bossod3_nodrive_centertone_nano.nam");
    reveal_strlit("pedals/boss_od_3/bossod3_nodrive_hightone.nam");
    reveal_strlit("pedals/boss_od_3/bossod3_nodrive_hightone_nano.nam");
    reveal_strlit("pedals/boss_od_3/bossod3_lowdrive_lowtone.nam");
    reveal_strlit("pedals/boss_od_3/bossod3_lowdrive_lowtone_nano.nam");
    reveal_strlit("pedals/boss_od_3/bossod3_lowdrive_centertone.nam");
    reveal_strlit("pedals/boss_od_3/bossod3_lowdrive_centertone_nano.nam");
    reveal_strlit("pedals/boss_od_3/bossod3_lowdrive_hightone.nam");
    reveal_strlit("pedals/boss_od_3/bossod3_lowdrive_hightone_nano.nam");
    reveal_strlit("pedals/boss_od_3/bossod3_middrive_lowtone.nam");
    reveal_strlit("pedals/boss_od_3/bossod3_middrive_lowtone_nano.nam");
    reveal_strlit("pedals/boss_od_3/bossod3_middrive_centertone.nam");
    reveal_strlit("pedals/boss_od_3/bossod3_middrive_centertone_nano.nam");
    reveal_strlit("pedals/boss_od_3/bossod3_middrive_hightone.nam");
    reveal_strlit("pedals/boss_od_3/bossod3_middrive_hightone_nano.nam");
    reveal_strlit("pedals/boss_od_3/bossod3_hidrive_lowtone.nam");
    reveal_strlit("pedals/boss_od_3/bossod3_hidrive_lowtone_nano.nam");
    reveal_strlit("pedals/boss_od_3/bossod3_hidrive_centertone.nam");
    reveal_strlit("pedals/boss_od_3/bossod3_hidrive_centertone_nano.nam");
    reveal_strlit("pedals/boss_od_3/bossod3_hidrive_hightone.nam");
    reveal_strlit("pedals/boss_od_3/bossod3_hidrive_hightone_nano.nam");
    let t = spec_captures();
    assert forall|a: int, b: int| 0 <= a < b < 24 implies t[a].model_path@ != t[b].model_path@ by {
        if a == 0 && b == 1 {
            assert(t[0].model_path@.len() != t[1].model_path@.len());
        } else if a == 0 && b == 2 {
            assert(t[0].model_path@.len() != t[2].model_path@.len());
        } else if a == 0 && b == 3 {
            assert(t[0].model_path@.len() != t[3].model_path@.len());
        } else if a == 0 && b == 4 {
            assert(t[0].model_path@.len() != t[4].model_path@.len());
        } else if a == 0 && b == 5 {
            assert(t[0].model_path@.len() != t[5].model_path@.len());
        } else if a == 0 && b == 6 {
            assert(t[0].model_path@.len() != t[6].model_path@.len());
        } else if a == 0 && b == 7 {
            assert(t[0].model_path@.len() != t[7].model_path@.len());
        } else if a == 0 && b == 8 {
            assert(t[0].model_path@.len() != t[8].model_path@.len());
        } else if a == 0 && b == 9 {
            assert(t[0].model_path@.len() != t[9].model_path@.len());
        } else if a == 0 && b == 10 {
            assert(t[0].model_path@.len() != t[10].model_path@.len());
        } else if a == 0 && b == 11 {
            assert(t[0].model_path@.len() != t[11].model_path@.len());
        } else if a == 0 && b == 12 {
            assert(t[0].model_path@.len() != t[12].model_path@.len());
        } else if a == 0 && b == 13 {
            assert(t[0].model_path@.len() != t[13].model_path@.len());
        } else if a == 0 && b == 14 {
            assert(t[0].model_path@.len() != t[14].model_path@.len());
        } else if a == 0 && b == 15 {
            assert(t[0].model_path@.len() != t[15].model_path@.len());
        } else if a == 0 && b == 16 {
            assert(t[0].model_path@.len() != t[16].model_path@.len());
        } else if a == 0 && b == 17 {
            assert(t[0].model_path@.len() != t[17].model_path@.len());
        } else if a == 0 && b == 18 {
            assert(t[0].model_path@[25] != t[18].model_path@[25]);
        } else if a == 0 && b == 19 {
            assert(t[0].model_path@.len() != t[19].model_path@.len());
        } else if a == 0 && b == 20 {
            assert(t[0].model_path@.len() != t[20].model_path@.len());
        } else if a == 0 && b == 21 {
            assert(t[0].model_path@.len() != t[21].model_path@.len());
        } else if a == 0 && b == 22 {
            assert(t[0].model_path@.len() != t[22].model_path@.len());
        } else if a == 0 && b == 23 {
            assert(t[0].model_path@.len() != t[23].model_path@.len());
        } else if a == 1 && b == 2 {
            assert(t[1].model_path@.len() != t[2].model_path@.len());
        } else if a == 1 && b == 3 {
            assert(t[1].model_path@.len() != t[3].model_path@.len());
        } else if a == 1 && b == 4 {
            assert(t[1].model_path@.len() != t[4].model_path@.len());
        } else if a == 1 && b == 5 {
            assert(t[1].model_path@.len() != t[5].model_path@.len());
        } else if a == 1 && b == 6 {
            assert(t[1].model_path@.len() != t[6].model_path@.len());
        } else if a == 1 && b == 7 {
            assert(t[1].model_path@.len() != t[7].model_path@.len());
        } else if a == 1 && b == 8 {
            assert(t[1].model_path@.len() != t[8].model_path@.len());
        } else if a == 1 && b == 9 {
            assert(t[1].model_path@.len() != t[9].model_path@.len());
        } else if a == 1 && b == 10 {
            assert(t[1].model_path@.len() != t[10].model_path@.len());
        } else if a == 1 && b == 11 {
            assert(t[1].model_path@.len() != t[11].model_path@.len());
        } else if a == 1 && b == 12 {
            assert(t[1].model_path@.len() != t[12].model_path@.len());
        } else if a == 1 && b == 13 {
            assert(t[1].model_path@.len() != t[13].model_path@.len());
        } else if a == 1 && b == 14 {
            assert(t[1].model_path@.len() != t[14].model_path@.len());
        } else if a == 1 && b == 15 {
            assert(t[1].model_path@.len() != t[15].model_path@.len());
        } else if a == 1 && b == 16 {
            assert(t[1].model_path@.len() != t[16].model_path@.len());
        } else if a == 1 && b == 17 {
            assert(t[1].model_path@.len() != t[17].model_path@.len());
        } else if a == 1 && b == 18 {
            assert(t[1].model_path@.len() != t[18].model_path@.len());
        } else if a == 1 && b == 19 {
            assert(t[1].model_path@[25] != t[19].model_path@[25]);
        } else if a == 1 && b == 20 {
            assert(t[1].model_path@.len() != t[20].model_path@.len());
        } else if a == 1 && b == 21 {
            assert(t[1].model_path@.len() != t[21].model_path@.len());
        } else if a == 1 && b == 22 {
            assert(t[1].model_path@.len() != t[22].model_path@.len());
        } else if a == 1 && b == 23 {
            assert(t[1].model_path@.len() != t[23].model_path@.len());
        } else if a == 2 && b == 3 {
            assert(t[2].model_path@.len() != t[3].model_path@.len());
        } else if a == 2 && b == 4 {
            assert(t[2].model_path@.len() != t[4].model_path@.len());
        } else if a == 2 && b == 5 {
            assert(t[2].model_path@.len() != t[5].model_path@.len());
        } else if a == 2 && b == 6 {
            assert(t[2].model_path@.len() != t[6].model_path@.len());
        } else if a == 2 && b == 7 {
            assert(t[2].model_path@.len() != t[7].model_path@.len());
        } else if a == 2 && b == 8 {
            assert(t[2].model_path@.len() != t[8].model_path@.len());
        } else if a == 2 && b == 9 {
            assert(t[2].model_path@.len() != t[9].model_path@.len());
        } else if a == 2 && b == 10 {
            assert(t[2].model_path@.len() != t[10].model_path@.len());
        } else if a == 2 && b == 11 {
            assert(t[2].model_path@.len() != t[11].model_path@.len());
        } else if a == 2 && b == 12 {
            assert(t[2].model_path@.len() != t[12].model_path@.len());
        } else if a == 2 && b == 13 {
            assert(t[2].model_path@.len() != t[13].model_path@.len());
        } else if a == 2 && b == 14 {
            assert(t[2].model_path@.len() != t[14].model_path@.len());
        } else if a == 2 && b == 15 {
            assert(t[2].model_path@.len() != t[15].model_path@.len());
        } else if a == 2 && b == 16 {
            assert(t[2].model_path@.len() != t[16].model_path@.len());
        } else if a == 2 && b == 17 {
            assert(t[2].model_path@.len() != t[17].model_path@.len());
        } else if a == 2 && b == 18 {
            assert(t[2].model_path@.len() != t[18].model_path@.len());
        } else if a == 2 && b == 19 {
            assert(t[2].model_path@.len() != t[19].model_path@.len());
        } else if a == 2 && b == 20 {
            assert(t[2].model_path@[25] != t[20].model_path@[25]);
        } else if a == 2 && b == 21 {
            assert(t[2].model_path@.len() != t[21].model_path@.len());
        } else if a == 2 && b == 22 {
            assert(t[2].model_path@.len() != t[22].model_path@.len());
        } else if a == 2 && b == 23 {
            assert(t[2].model_path@.len() != t[23].model_path@.len());
        } else if a == 3 && b == 4 {
            assert(t[3].model_path@.len() != t[4].model_path@.len());
        } else if a == 3 && b == 5 {
            assert(t[3].model_path@.len() != t[5].model_path@.len());
        } else if a == 3 && b == 6 {
            assert(t[3].model_path@.len() != t[6].model_path@.len());
        } else if a == 3 && b == 7 {
            assert(t[3].model_path@.len() != t[7].model_path@.len());
        } else if a == 3 && b == 8 {
            assert(t[3].model_path@.len() != t[8].model_path@.len());
        } else if a == 3 && b == 9 {
            assert(t[3].model_path@.len() != t[9].model_path@.len());
        } else if a == 3 && b == 10 {
            assert(t[3].model_path@.len() != t[10].model_path@.len());
        } else if a == 3 && b == 11 {
            assert(t[3].model_path@.len() != t[11].model_path@.len());
        } else if a == 3 && b == 12 {
            assert(t[3].model_path@.len() != t[12].model_path@.len());
        } else if a == 3 && b == 13 {
            assert(t[3].model_path@.len() != t[13].model_path@.len());
        } else if a == 3 && b == 14 {
            assert(t[3].model_path@.len() != t[14].model_path@.len());
        } else if a == 3 && b == 15 {
            assert(t[3].model_path@.len() != t[15].model_path@.len());
        } else if a == 3 && b == 16 {
            assert(t[3].model_path@.len() != t[16].model_path@.len());
        } else if a == 3 && b == 17 {
            assert(t[3].model_path@.len() != t[17].model_path@.len());
        } else if a == 3 && b == 18 {
            assert(t[3].model_path@.len() != t[18].model_path@.len());
        } else if a == 3 && b == 19 {
            assert(t[3].model_path@.len() != t[19].model_path@.len());
        } else if a == 3 && b == 20 {
            assert(t[3].model_path@.len() != t[20].model_path@.len());
        } else if a == 3 && b == 21 {
            assert(t[3].model_path@[25] != t[21].model_path@[25]);
        } else if a == 3 && b == 22 {
            assert(t[3].model_path@.len() != t[22].model_path@.len());
        } else if a == 3 && b == 23 {
            assert(t[3].model_path@.len() != t[23].model_path@.len());
        } else if a == 4 && b == 5 {
            assert(t[4].model_path@.len() != t[5].model_path@.len());
        } else if a == 4 && b == 6 {
            assert(t[4].model_path@[25] != t[6].model_path@[25]);
        } else if a == 4 && b == 7 {
            assert(t[4].model_path@.len() != t[7].model_path@.len());
        } else if a == 4 && b == 8 {
            assert(t[4].model_path@.len() != t[8].model_path@.len());
        } else if a == 4 && b == 9 {
            assert(t[4].model_path@.len() != t[9].model_path@.len());
        } else if a == 4 && b == 10 {
            assert(t[4].model_path@.len() != t[10].model_path@.len());
        } else if a == 4 && b == 11 {
            assert(t[4].model_path@.len() != t[11].model_path@.len());
        } else if a == 4 && b == 12 {
            assert(t[4].model_path@[25] != t[12].model_path@[25]);
        } else if a == 4 && b == 13 {
            assert(t[4].model_path@.len() != t[13].model_path@.len());
        } else if a == 4 && b == 14 {
            assert(t[4].model_path@.len() != t[14].model_path@.len());
        } else if a == 4 && b == 15 {
            assert(t[4].model_path@.len() != t[15].model_path@.len());
        } else if a == 4 && b == 16 {
            assert(t[4].model_path@.len() != t[16].model_path@.len());
        } else if a == 4 && b == 17 {
            assert(t[4].model_path@.len() != t[17].model_path@.len());
        } else if a == 4 && b == 18 {
            assert(t[4].model_path@.len() != t[18].model_path@.len());
        } else if a == 4 && b == 19 {
            assert(t[4].model_path@.len() != t[19].model_path@.len());
        } else if a == 4 && b == 20 {
            assert(t[4].model_path@.len() != t[20].model_path@.len());
        } else if a == 4 && b == 21 {
            assert(t[4].model_path@.len() != t[21].model_path@.len());
        } else if a == 4 && b == 22 {
            assert(t[4].model_path@[25] != t[22].model_path@[25]);
        } else if a == 4 && b == 23 {
            assert(t[4].model_path@.len() != t[23].model_path@.len());
        } else if a == 5 && b == 6 {
            assert(t[5].model_path@.len() != t[6].model_path@.len());
        } else if a == 5 && b == 7 {
            assert(t[5].model_path@[25] != t[7].model_path@[25]);
        } else if a == 5 && b == 8 {
            assert(t[5].model_path@.len() != t[8].model_path@.len());
        } else if a == 5 && b == 9 {
            assert(t[5].model_path@.len() != t[9].model_path@.len());
        } else if a == 5 && b == 10 {
            assert(t[5].model_path@.len() != t[10].model_path@.len());
        } else if a == 5 && b == 11 {
            assert(t[5].model_path@.len() != t[11].model_path@.len());
        } else if a == 5 && b == 12 {
            assert(t[5].model_path@.len() != t[12].model_path@.len());
        } else if a == 5 && b == 13 {
            assert(t[5].model_path@[25] != t[13].model_path@[25]);
        } else if a == 5 && b == 14 {
            assert(t[5].model_path@.len() != t[14].model_path@.len());
        } else if a == 5 && b == 15 {
            assert(t[5].model_path@.len() != t[15].model_path@.len());
        } else if a == 5 && b == 16 {
            assert(t[5].model_path@.len() != t[16].model_path@.len());
        } else if a == 5 && b == 17 {
            assert(t[5].model_path@.len() != t[17].model_path@.len());
        } else if a == 5 && b == 18 {
            assert(t[5].model_path@.len() != t[18].model_path@.len());
        } else if a == 5 && b == 19 {
            assert(t[5].model_path@.len() != t[19].model_path@.len());
        } else if a == 5 && b == 20 {
            assert(t[5].model_path@.len() != t[20].model_path@.len());
        } else if a == 5 && b == 21 {
            assert(t[5].model_path@.len() != t[21].model_path@.len());
        } else if a == 5 && b == 22 {
            assert(t[5].model_path@.len() != t[22].model_path@.len());
        } else if a == 5 && b == 23 {
            assert(t[5].model_path@[25] != t[23].model_path@[25]);
        } else if a == 6 && b == 7 {
            assert(t[6].model_path@.len() != t[7].model_path@.len());
        } else if a == 6 && b == 8 {
            assert(t[6].model_path@.len() != t[8].model_path@.len());
        } else if a == 6 && b == 9 {
            assert(t[6].model_path@.len() != t[9].model_path@.len());
        } else if a == 6 && b == 10 {
            assert(t[6].model_path@.len() != t[10].model_path@.len());
        } else if a == 6 && b == 11 {
            assert(t[6].model_path@.len() != t[11].model_path@.len());
        } else if a == 6 && b == 12 {
            assert(t[6].model_path@[25] != t[12].model_path@[25]);
        } else if a == 6 && b == 13 {
            assert(t[6].model_path@.len() != t[13].model_path@.len());
        } else if a == 6 && b == 14 {
            assert(t[6].model_path@.len() != t[14].model_path@.len());
        } else if a == 6 && b == 15 {
            assert(t[6].model_path@.len() != t[15].model_path@.len());
        } else if a == 6 && b == 16 {
            assert(t[6].model_path@.len() != t[16].model_path@.len());
        } else if a == 6 && b == 17 {
            assert(t[6].model_path@.len() != t[17].model_path@.len());
        } else if a == 6 && b == 18 {
            assert(t[6].model_path@.len() != t[18].model_path@.len());
        } else if a == 6 && b == 19 {
            assert(t[6].model_path@.len() != t[19].model_path@.len());
        } else if a == 6 && b == 20 {
            assert(t[6].model_path@.len() != t[20].model_path@.len());
        } else if a == 6 && b == 21 {
            assert(t[6].model_path@.len() != t[21].model_path@.len());
        } else if a == 6 && b == 22 {
            assert(t[6].model_path@[25] != t[22].model_path@[25]);
        } else if a == 6 && b == 23 {
            assert(t[6].model_path@.len() != t[23].model_path@.len());
        } else if a == 7 && b == 8 {
            assert(t[7].model_path@.len() != t[8].model_path@.len());
        } else if a == 7 && b == 9 {
            assert(t[7].model_path@.len() != t[9].model_path@.len());
        } else if a == 7 && b == 10 {
            assert(t[7].model_path@.len() != t[10].model_path@.len());
        } else if a == 7 && b == 11 {
            assert(t[7].model_path@.len() != t[11].model_path@.len());
        } else if a == 7 && b == 12 {
            assert(t[7].model_path@.len() != t[12].model_path@.len());
        } else if a == 7 && b == 13 {
            assert(t[7].model_path@[25] != t[13].model_path@[25]);
        } else if a == 7 && b == 14 {
            assert(t[7].model_path@.len() != t[14].model_path@.len());
        } else if a == 7 && b == 15 {
            assert(t[7].model_path@.len() != t[15].model_path@.len());
        } else if a == 7 && b == 16 {
            assert(t[7].model_path@.len() != t[16].model_path@.len());
        } else if a == 7 && b == 17 {
            assert(t[7].model_path@.len() != t[17].model_path@.len());
        } else if a == 7 && b == 18 {
            assert(t[7].model_path@.len() != t[18].model_path@.len());
        } else if a == 7 && b == 19 {
            assert(t[7].model_path@.len() != t[19].model_path@.len());
        } else if a == 7 && b == 20 {
            assert(t[7].model_path@.len() != t[20].model_path@.len());
        } else if a == 7 && b == 21 {
            assert(t[7].model_path@.len() != t[21].model_path@.len());
        } else if a == 7 && b == 22 {
            assert(t[7].model_path@.len() != t[22].model_path@.len());
        } else if a == 7 && b == 23 {
            assert(t[7].model_path@[25] != t[23].model_path@[25]);
        } else if a == 8 && b == 9 {
            assert(t[8].model_path@.len() != t[9].model_path@.len());
        } else if a == 8 && b == 10 {
            assert(t[8].model_path@.len() != t[10].model_path@.len());
        } else if a == 8 && b == 11 {
            assert(t[8].model_path@.len() != t[11].model_path@.len());
        } else if a == 8 && b == 12 {
            assert(t[8].model_path@.len() != t[12].model_path@.len());
        } else if a == 8 && b == 13 {
            assert(t[8].model_path@.len() != t[13].model_path@.len());
        } else if a == 8 && b == 14 {
            assert(t[8].model_path@[25] != t[14].model_path@[25]);
        } else if a == 8 && b == 15 {
            assert(t[8].model_path@.len() != t[15].model_path@.len());
        } else if a == 8 && b == 16 {
            assert(t[8].model_path@.len() != t[16].model_path@.len());
        } else if a == 8 && b == 17 {
            assert(t[8].model_path@.len() != t[17].model_path@.len());
        } else if a == 8 && b == 18 {
            assert(t[8].model_path@.len() != t[18].model_path@.len());
        } else if a == 8 && b == 19 {
            assert(t[8].model_path@.len() != t[19].model_path@.len());
        } else if a == 8 && b == 20 {
            assert(t[8].model_path@.len() != t[20].model_path@.len());
        } else if a == 8 && b == 21 {
            assert(t[8].model_path@.len() != t[21].model_path@.len());
        } else if a == 8 && b == 22 {
            assert(t[8].model_path@.len() != t[22].model_path@.len());
        } else if a == 8 && b == 23 {
            assert(t[8].model_path@.len() != t[23].model_path@.len());
        } else if a == 9 && b == 10 {
            assert(t[9].model_path@.len() != t[10].model_path@.len());
        } else if a == 9 && b == 11 {
            assert(t[9].model_path@.len() != t[11].model_path@.len());
        } else if a == 9 && b == 12 {
            assert(t[9].model_path@.len() != t[12].model_path@.len());
        } else if a == 9 && b == 13 {
            assert(t[9].model_path@.len() != t[13].model_path@.len());
        } else if a == 9 && b == 14 {
            assert(t[9].model_path@.len() != t[14].model_path@.len());
        } else if a == 9 && b == 15 {
            assert(t[9].model_path@[25] != t[15].model_path@[25]);
        } else if a == 9 && b == 16 {
            assert(t[9].model_path@.len() != t[16].model_path@.len());
        } else if a == 9 && b == 17 {
            assert(t[9].model_path@.len() != t[17].model_path@.len());
        } else if a == 9 && b == 18 {
            assert(t[9].model_path@.len() != t[18].model_path@.len());
        } else if a == 9 && b == 19 {
            assert(t[9].model_path@.len() != t[19].model_path@.len());
        } else if a == 9 && b == 20 {
            assert(t[9].model_path@.len() != t[20].model_path@.len());
        } else if a == 9 && b == 21 {
            assert(t[9].model_path@.len() != t[21].model_path@.len());
        } else if a == 9 && b == 22 {
            assert(t[9].model_path@.len() != t[22].model_path@.len());
        } else if a == 9 && b == 23 {
            assert(t[9].model_path@.len() != t[23].model_path@.len());
        } else if a == 10 && b == 11 {
            assert(t[10].model_path@.len() != t[11].model_path@.len());
        } else if a == 10 && b == 12 {
            assert(t[10].model_path@.len() != t[12].model_path@.len());
        } else if a == 10 && b == 13 {
            assert(t[10].model_path@.len() != t[13].model_path@.len());
        } else if a == 10 && b == 14 {
            assert(t[10].model_path@.len() != t[14].model_path@.len());
        } else if a == 10 && b == 15 {
            assert(t[10].model_path@.len() != t[15].model_path@.len());
        } else if a == 10 && b == 16 {
            assert(t[10].model_path@[25] != t[16].model_path@[25]);
        } else if a == 10 && b == 17 {
            assert(t[10].model_path@.len() != t[17].model_path@.len());
        } else if a == 10 && b == 18 {
            assert(t[10].model_path@.len() != t[18].model_path@.len());
        } else if a == 10 && b == 19 {
            assert(t[10].model_path@.len() != t[19].model_path@.len());
        } else if a == 10 && b == 20 {
            assert(t[10].model_path@.len() != t[20].model_path@.len());
        } else if a == 10 && b == 21 {
            assert(t[10].model_path@.len() != t[21].model_path@.len());
        } else if a == 10 && b == 22 {
            assert(t[10].model_path@.len() != t[22].model_path@.len());
        } else if a == 10 && b == 23 {
            assert(t[10].model_path@.len() != t[23].model_path@.len());
        } else if a == 11 && b == 12 {
            assert(t[11].model_path@.len() != t[12].model_path@.len());
        } else if a == 11 && b == 13 {
            assert(t[11].model_path@.len() != t[13].model_path@.len());
        } else if a == 11 && b == 14 {
            assert(t[11].model_path@.len() != t[14].model_path@.len());
        } else if a == 11 && b == 15 {
            assert(t[11].model_path@.len() != t[15].model_path@.len());
        } else if a == 11 && b == 16 {
            assert(t[11].model_path@.len() != t[16].model_path@.len());
        } else if a == 11 && b == 17 {
            assert(t[11].model_path@[25] != t[17].model_path@[25]);
        } else if a == 11 && b == 18 {
            assert(t[11].model_path@.len() != t[18].model_path@.len());
        } else if a == 11 && b == 19 {
            assert(t[11].model_path@.len() != t[19].model_path@.len());
        } else if a == 11 && b == 20 {
            assert(t[11].model_path@.len() != t[20].model_path@.len());
        } else if a == 11 && b == 21 {
            assert(t[11].model_path@.len() != t[21].model_path@.len());
        } else if a == 11 && b == 22 {
            assert(t[11].model_path@.len() != t[22].model_path@.len());
        } else if a == 11 && b == 23 {
            assert(t[11].model_path@.len() != t[23].model_path@.len());
        } else if a == 12 && b == 13 {
            assert(t[12].model_path@.len() != t[13].model_path@.len());
        } else if a == 12 && b == 14 {
            assert(t[12].model_path@.len() != t[14].model_path@.len());
        } else if a == 12 && b == 15 {
            assert(t[12].model_path@.len() != t[15].model_path@.len());
        } else if a == 12 && b == 16 {
            assert(t[12].model_path@.len() != t[16].model_path@.len());
        } else if a == 12 && b == 17 {
            assert(t[12].model_path@.len() != t[17].model_path@.len());
        } else if a == 12 && b == 18 {
            assert(t[12].model_path@.len() != t[18].model_path@.len());
        } else if a == 12 && b == 19 {
            assert(t[12].model_path@.len() != t[19].model_path@.len());
        } else if a == 12 && b == 20 {
            assert(t[12].model_path@.len() != t[20].model_path@.len());
        } else if a == 12 && b == 21 {
            assert(t[12].model_path@.len() != t[21].model_path@.len());
        } else if a == 12 && b == 22 {
            assert(t[12].model_path@[25] != t[22].model_path@[25]);
        } else if a == 12 && b == 23 {
            assert(t[12].model_path@.len() != t[23].model_path@.len());
        } else if a == 13 && b == 14 {
            assert(t[13].model_path@.len() != t[14].model_path@.len());
        } else if a == 13 && b == 15 {
            assert(t[13].model_path@.len() != t[15].model_path@.len());
        } else if a == 13 && b == 16 {
            assert(t[13].model_path@.len() != t[16].model_path@.len());
        } else if a == 13 && b == 17 {
            assert(t[13].model_path@.len() != t[17].model_path@.len());
        } else if a == 13 && b == 18 {
            assert(t[13].model_path@.len() != t[18].model_path@.len());
        } else if a == 13 && b == 19 {
            assert(t[13].model_path@.len() != t[19].model_path@.len());
        } else if a == 13 && b == 20 {
            assert(t[13].model_path@.len() != t[20].model_path@.len());
        } else if a == 13 && b == 21 {
            assert(t[13].model_path@.len() != t[21].model_path@.len());
        } else if a == 13 && b == 22 {
            assert(t[13].model_path@.len() != t[22].model_path@.len());
        } else if a == 13 && b == 23 {
            assert(t[13].model_path@[25] != t[23].model_path@[25]);
        } else if a == 14 && b == 15 {
            assert(t[14].model_path@.len() != t[15].model_path@.len());
        } else if a == 14 && b == 16 {
            assert(t[14].model_path@.len() != t[16].model_path@.len());
        } else if a == 14 && b == 17 {
            assert(t[14].model_path@.len() != t[17].model_path@.len());
        } else if a == 14 && b == 18 {
            assert(t[14].model_path@.len() != t[18].model_path@.len());
        } else if a == 14 && b == 19 {
            assert(t[14].model_path@.len() != t[19].model_path@.len());
        } else if a == 14 && b == 20 {
            assert(t[14].model_path@.len() != t[20].model_path@.len());
        } else if a == 14 && b == 21 {
            assert(t[14].model_path@.len() != t[21].model_path@.len());
        } else if a == 14 && b == 22 {
            assert(t[14].model_path@.len() != t[22].model_path@.len());
        } else if a == 14 && b == 23 {
            assert(t[14].model_path@.len() != t[23].model_path@.len());
        } else if a == 15 && b == 16 {
            assert(t[15].model_path@.len() != t[16].model_path@.len());
        } else if a == 15 && b == 17 {
            assert(t[15].model_path@.len() != t[17].model_path@.len());
        } else if a == 15 && b == 18 {
            assert(t[15].model_path@.len() != t[18].model_path@.len());
        } else if a == 15 && b == 19 {
            assert(t[15].model_path@.len() != t[19].model_path@.len());
        } else if a == 15 && b == 20 {
            assert(t[15].model_path@.len() != t[20].model_path@.len());
        } else if a == 15 && b == 21 {
            assert(t[15].model_path@.len() != t[21].model_path@.len());
        } else if a == 15 && b == 22 {
            assert(t[15].model_path@.len() != t[22].model_path@.len());
        } else if a == 15 && b == 23 {
            assert(t[15].model_path@.len() != t[23].model_path@.len());
        } else if a == 16 && b == 17 {
            assert(t[16].model_path@.len() != t[17].model_path@.len());
        } else if a == 16 && b == 18 {
            assert(t[16].model_path@.len() != t[18].model_path@.len());
        } else if a == 16 && b == 19 {
            assert(t[16].model_path@.len() != t[19].model_path@.len());
        } else if a == 16 && b == 20 {
            assert(t[16].model_path@.len() != t[20].model_path@.len());
        } else if a == 16 && b == 21 {
            assert(t[16].model_path@.len() != t[21].model_path@.len());
        } else if a == 16 && b == 22 {
            assert(t[16].model_path@.len() != t[22].model_path@.len());
        } else if a == 16 && b == 23 {
            assert(t[16].model_path@.len() != t[23].model_path@.len());
        } else if a == 17 && b == 18 {
            assert(t[17].model_path@.len() != t[18].model_path@.len());
        } else if a == 17 && b == 19 {
            assert(t[17].model_path@.len() != t[19].model_path@.len());
        } else if a == 17 && b == 20 {
            assert(t[17].model_path@.len() != t[20].model_path@.len());
        } else if a == 17 && b == 21 {
            assert(t[17].model_path@.len() != t[21].model_path@.len());
        } else if a == 17 && b == 22 {
            assert(t[17].model_path@.len() != t[22].model_path@.len());
        } else if a == 17 && b == 23 {
            assert(t[17].model_path@.len() != t[23].model_path@.len());
        } else if a == 18 && b == 19 {
            assert(t[18].model_path@.len() != t[19].model_path@.len());
        } else if a == 18 && b == 20 {
            assert(t[18].model_path@.len() != t[20].model_path@.len());
        } else if a == 18 && b == 21 {
            assert(t[18].model_path@.len() != t[21].model_path@.len());
        } else if a == 18 && b == 22 {
            assert(t[18].model_path@.len() != t[22].model_path@.len());
        } else if a == 18 && b == 23 {
            assert(t[18].model_path@.len() != t[23].model_path@.len());
        } else if a == 19 && b == 20 {
            assert(t[19].model_path@.len() != t[20].model_path@.len());
        } else if a == 19 && b == 21 {
            assert(t[19].model_path@.len() != t[21].model_path@.len());
        } else if a == 19 && b == 22 {
            assert(t[19].model_path@.len() != t[22].model_path@.len());
        } else if a == 19 && b == 23 {
            assert(t[19].model_path@.len() != t[23].model_path@.len());
        } else if a == 20 && b == 21 {
            assert(t[20].model_path@.len() != t[21].model_path@.len());
        } else if a == 20 && b == 22 {
            assert(t[20].model_path@.len() != t[22].model_path@.len());
        } else if a == 20 && b == 23 {
            assert(t[20].model_path@.len() != t[23].model_path@.len());
        } else if a == 21 && b == 22 {
            assert(t[21].model_path@.len() != t[22].model_path@.len());
        } else if a == 21 && b == 23 {
            assert(t[21].model_path@.len() != t[23].model_path@.len());
        } else if a == 22 && b == 23 {
            assert(t[22].model_path@.len() != t[23].model_path@.len());
        }
    }
}

/// What the file name writes for a capture size.
pub open spec fn size_text(size: Seq<char>) -> Seq<char> {
    if size == "standard"@ {
        Seq::empty()
    } else if size == "nano"@ {
        "_nano"@
    } else {
        size
    }
}

/// The file recorded at a setting, as the recording names it.
pub open spec fn recorded_file(drive: Seq<char>, tone: Seq<char>, size: Seq<char>) -> Seq<char> {
    "pedals/boss_od_3/bossod3_"@ + drive + "drive_"@ + tone + "tone"@ + size_text(size) + ".nam"@
}

/// Every capture names the file recorded at its own setting.
pub proof fn lemma_captures_name_their_setting()
    ensures
        forall|i: int| 0 <= i < spec_captures().len() ==>
            (#[trigger] spec_captures()[i]).model_path@ == recorded_file(spec_captures()[i].keys[0]@, spec_captures()[i].keys[1]@, spec_captures()[i].keys[2]@),
{
    reveal_strlit("pedals/boss_od_3/bossod3_");
    reveal_strlit("drive_");
    reveal_strlit("tone");
    reveal_strlit("_nano");
    reveal_strlit("standard");
    reveal_strlit("nano");
    reveal_strlit(".nam");
    reveal_strlit("pedals/boss_od_3/bossod3_nodrive_lowtone.nam");
    reveal_strlit("pedals/boss_od_3/bossod3_nodrive_lowtone_nano.nam");
    reveal_strlit("pedals/boss_od_3/bossod3_nodrive_centertone.nam");
    reveal_strlit("pedals/boss_od_3/bossod3_nodrive_centertone_nano.nam");
    reveal_strlit("pedals/boss_od_3/bossod3_nodrive_hightone.nam");
    reveal_strlit("pedals/boss_od_3/bossod3_nodrive_hightone_nano.nam");
    reveal_strlit("pedals/boss_od_3/bossod3_lowdrive_lowtone.nam");
    reveal_strlit("pedals/boss_od_3/bossod3_lowdrive_lowtone_nano.nam");
    reveal_strlit("pedals/boss_od_3/bossod3_lowdrive_centertone.nam");
    reveal_strlit("pedals/boss_od_3/bossod3_lowdrive_centertone_nano.nam");
    reveal_strlit("pedals/boss_od_3/bossod3_lowdrive_hightone.nam");
    reveal_strlit("pedals/boss_od_3/bossod3_lowdrive_hightone_nano.nam");
    reveal_strlit("pedals/boss_od_3/bossod3_middrive_lowtone.nam");
    reveal_strlit("pedals/boss_od_3/bossod3_middrive_lowtone_nano.nam");
    reveal_strlit("pedals/boss_od_3/bossod3_middrive_centertone.nam");
    reveal_strlit("pedals/boss_od_3/bossod3_middrive_centertone_nano.nam");
    reveal_strlit("pedals/boss_od_3/bossod3_middrive_hightone.nam");
    reveal_strlit("pedals/boss_od_3/bossod3_middrive_hightone_nano.nam");
    reveal_strlit("pedals/boss_od_3/bossod3_hidrive_lowtone.nam");
    reveal_strlit("pedals/boss_od_3/bossod3_hidrive_lowtone_nano.nam");
    reveal_strlit("pedals/boss_od_3/bossod3_hidrive_centertone.nam");
    reveal_strlit("pedals/boss_od_3/bossod3_hidrive_centertone_nano.nam");
    reveal_strlit("pedals/boss_od_3/bossod3_hidrive_hightone.nam");
    reveal_strlit("pedals/boss_od_3/bossod3_hidrive_hightone_nano.nam");
    reveal_strlit("no");
    reveal_strlit("low");
    reveal_strlit("center");
    reveal_strlit("high");
    reveal_strlit("mid");
    reveal_strlit("hi");
    let t = spec_captures();
    assert forall|i: int| 0 <= i < t.len() implies
        (#[trigger] t[i]).model_path@ == recorded_file(t[i].keys[0]@, t[i].keys[1]@, t[i].keys[2]@) by {
        if i == 0 {
            assert("nano"@.len() != "standard"@.len());
            assert(t[i].model_path@ =~= recorded_file("no"@, "low"@, "standard"@));
        } else if i == 1 {
            assert("standard"@.len() != "nano"@.len());
            assert(t[i].model_path@ =~= recorded_file("no"@, "low"@, "nano"@));
        } else if i == 2 {
            assert("nano"@.len() != "standard"@.len());
            assert(t[i].model_path@ =~= recorded_file("no"@, "center"@, "standard"@));
        } else if i == 3 {
            assert("standard"@.len() != "nano"@.len());
            assert(t[i].model_path@ =~= recorded_file("no"@, "center"@, "nano"@));
        } else if i == 4 {
            assert("nano"@.len() != "standard"@.len());
            assert(t[i].model_path@ =~= recorded_file("no"@, "high"@, "standard"@));
        } else if i == 5 {
            assert("standard"@.len() != "nano"@.len());
            assert(t[i].model_path@ =~= recorded_file("no"@, "high"@, "nano"@));
        } else if i == 6 {
            assert("nano"@.len() != "standard"@.len());
            assert(t[i].model_path@ =~= recorded_file("low"@, "low"@, "standard"@));
        } else if i == 7 {
            assert("standard"@.len() != "nano"@.len());
            assert(t[i].model_path@ =~= recorded_file("low"@, "low"@, "nano"@));
        } else if i == 8 {
            assert("nano"@.len() != "standard"@.len());
            assert(t[i].model_path@ =~= recorded_file("low"@, "center"@, "standard"@));
        } else if i == 9 {
            assert("standard"@.len() != "nano"@.len());
            assert(t[i].model_path@ =~= recorded_file("low"@, "center"@, "nano"@));
        } else if i == 10 {
            assert("nano"@.len() != "standard"@.len());
            assert(t[i].model_path@ =~= recorded_file("low"@, "high"@, "standard"@));
        } else if i == 11 {
            assert("standard"@.len() != "nano"@.len());
            assert(t[i].model_path@ =~= recorded_file("low"@, "high"@, "nano"@));
        } else if i == 12 {
            assert("nano"@.len() != "standard"@.len());
            assert(t[i].model_path@ =~= recorded_file("mid"@, "low"@, "standard"@));
        } else if i == 13 {
            assert("standard"@.len() != "nano"@.len());
            assert(t[i].model_path@ =~= recorded_file("mid"@, "low"@, "nano"@));
        } else if i == 14 {
            assert("nano"@.len() != "standard"@.len());
            assert(t[i].model_path@ =~= recorded_file("mid"@, "center"@, "standard"@));
        } else if i == 15 {
            assert("standard"@.len() != "nano"@.len());
            assert(t[i].model_path@ =~= recorded_file("mid"@, "center"@, "nano"@));
        } else if i == 16 {
            assert("nano"@.len() != "standard"@.len());
            assert(t[i].model_path@ =~= recorded_file("mid"@, "high"@, "standard"@));
        } else if i == 17 {
            assert("standard"@.len() != "nano"@.len());
            assert(t[i].model_path@ =~= recorded_file("mid"@, "high"@, "nano"@));
        } else if i == 18 {
            assert("nano"@.len() != "standard"@.len());
            assert(t[i].model_path@ =~= recorded_file("hi"@, "low"@, "standard"@));
        } else if i == 19 {
            assert("standard"@.len() != "nano"@.len());
            assert(t[i].model_path@ =~= recorded_file("hi"@, "low"@, "nano"@));
        } else if i == 20 {
            assert("nano"@.len() != "standard"@.len());
            assert(t[i].model_path@ =~= recorded_file("hi"@, "center"@, "standard"@));
        } else if i == 21 {
            assert("standard"@.len() != "nano"@.len());
            assert(t[i].model_path@ =~= recorded_file("hi"@, "center"@, "nano"@));
        } else if i == 22 {
            assert("nano"@.len() != "standard"@.len());
            assert(t[i].model_path@ =~= recorded_file("hi"@, "high"@, "standard"@));
        } else if i == 23 {
            assert("standard"@.len() != "nano"@.len());
            assert(t[i].model_path@ =~= recorded_file("hi"@, "high"@, "nano"@));
        }
    }
}

/// A setting that selects a capture selects the file recorded at that setting.
pub proof fn lemma_selected_file(drive: Seq<char>, tone: Seq<char>, size: Seq<char>)
    ensures
        selection(drive, tone, size) matches Some(i) ==> spec_captures()[i].model_path@ == recorded_file(drive, tone, size),
{
    lemma_first_selected(spec_captures(), seq![drive, tone, size]);
    lemma_captures_name_their_setting();
    if let Some(i) = selection(drive, tone, size) {
        assert(spec_captures()[i].model_path@ == recorded_file(spec_captures()[i].keys[0]@, spec_captures()[i].keys[1]@, spec_captures()[i].keys[2]@));
    }
}

} // verus!
