//! The "Boss MT-2 Metal Zone" gain model (boss), played from neural captures, one per recorded setting.

use vstd::prelude::*;
use crate::capture::{
    names_value, files_name_settings, files_distinct,
    Capture, CaptureView, table_view, find_capture, first_selected, asset_text, lemma_first_selected,
    lemma_selected_at, captures_follow_schema, default_setting, defaults_present, captures_distinct,
    every_setting_selects, setting_of_choices,
};
use crate::error::GainError;
use crate::model::{BackendKind, Instruments, KnobLayoutEntry, ModelDefinition, ModelDefinitionView};
use crate::schema::{
    EffectType, EnumChoice, ModelSchema, ModelSchemaView, ParameterKindView, ParameterSpecView,
    choice, enum_parameter, parameters_view, schema_well_formed, choices_at, str_texts, is_choice,
    parameter_well_formed, choice_values, parameter_paths,
};
use crate::text::{concat, join, texts};

verus! {

pub const MODEL_ID: &'static str = "nam_boss_mt_2_metal_zone";
pub const DISPLAY_NAME: &'static str = "Boss MT-2 Metal Zone";
pub const BRAND: &'static str = "boss";

pub open spec fn spec_model_schema() -> ModelSchemaView {
    ModelSchemaView {
        effect_type: EffectType::Gain,
        model: MODEL_ID,
        display_name: DISPLAY_NAME,
        audio_mode: None,
        parameters: Some(seq![
            ParameterSpecView {
                path: "tone",
                label: "Tone",
                group: Some("Pedal"),
                kind: ParameterKindView::Enum {
                    default: Some("5_battery_powered"),
                    choices: seq![
                        EnumChoice { value: "5_battery_powered", label: "5 Battery Powered" },
                        EnumChoice { value: "6_battery_powered", label: "6 Battery Powered" },
                        EnumChoice { value: "7_battery_powered", label: "7 Battery Powered" },
                        EnumChoice { value: "8_battery_powered", label: "8 Battery Powered" },
                        EnumChoice { value: "setting", label: "Setting" },
                        EnumChoice { value: "setting_2", label: "Setting 2" },
                        EnumChoice { value: "setting_3", label: "Setting 3" },
                        EnumChoice { value: "setting_4", label: "Setting 4" },
                    ],
                },
            },
        ]),
    }
}

/// The parameters of the model.
pub fn model_schema() -> (schema: ModelSchema)
    ensures
        schema@ == spec_model_schema(),
{
    let parameters = vec![
        enum_parameter(
            "tone",
            "Tone",
            Some("Pedal"),
            Some("5_battery_powered"),
            vec![
                choice("5_battery_powered", "5 Battery Powered"),
                choice("6_battery_powered", "6 Battery Powered"),
                choice("7_battery_powered", "7 Battery Powered"),
                choice("8_battery_powered", "8 Battery Powered"),
                choice("setting", "Setting"),
                choice("setting_2", "Setting 2"),
                choice("setting_3", "Setting 3"),
                choice("setting_4", "Setting 4"),
            ],
        ),
    ];
    assert(parameters_view(parameters@) =~= spec_model_schema().parameters.unwrap());
    ModelSchema {
        effect_type: EffectType::Gain,
        model: MODEL_ID,
        display_name: DISPLAY_NAME,
        audio_mode: None,
        parameters: Some(parameters),
    }
}

/// The positions, in the schema, of the parameters that select a capture.
pub open spec fn key_params() -> Seq<int> {
    seq![0]
}

pub open spec fn spec_captures() -> Seq<CaptureView> {
    seq![
        CaptureView { keys: seq!["5_battery_powered"], model_path: "pedals/boss_mt_2_metal_zone/boss_metalzone_clean_boost_5_battery_powered.nam" },
        CaptureView { keys: seq!["6_battery_powered"], model_path: "pedals/boss_mt_2_metal_zone/boss_metalzone_clean_boost_6_battery_powered.nam" },
        CaptureView { keys: seq!["7_battery_powered"], model_path: "pedals/boss_mt_2_metal_zone/boss_metalzone_clean_boost_7_battery_powered.nam" },
        CaptureView { keys: seq!["8_battery_powered"], model_path: "pedals/boss_mt_2_metal_zone/boss_metalzone_clean_boost_8_battery_powered.nam" },
        CaptureView { keys: seq!["setting"], model_path: "pedals/boss_mt_2_metal_zone/boss_metalzone_clean_boost_setting.nam" },
        CaptureView { keys: seq!["setting_2"], model_path: "pedals/boss_mt_2_metal_zone/boss_metalzone_clean_boost_setting_2.nam" },
        CaptureView { keys: seq!["setting_3"], model_path: "pedals/boss_mt_2_metal_zone/boss_metalzone_clean_boost_setting_3.nam" },
        CaptureView { keys: seq!["setting_4"], model_path: "pedals/boss_mt_2_metal_zone/boss_metalzone_clean_boost_setting_4.nam" },
    ]
}

/// The captures of the pedal, each with its (tone) setting.
pub fn captures() -> (table: Vec<Capture>)
    ensures
        table_view(table@) == spec_captures(),
{
    let table = vec![
        Capture::one("5_battery_powered", "pedals/boss_mt_2_metal_zone/boss_metalzone_clean_boost_5_battery_powered.nam"),
        Capture::one("6_battery_powered", "pedals/boss_mt_2_metal_zone/boss_metalzone_clean_boost_6_battery_powered.nam"),
        Capture::one("7_battery_powered", "pedals/boss_mt_2_metal_zone/boss_metalzone_clean_boost_7_battery_powered.nam"),
        Capture::one("8_battery_powered", "pedals/boss_mt_2_metal_zone/boss_metalzone_clean_boost_8_battery_powered.nam"),
        Capture::one("setting", "pedals/boss_mt_2_metal_zone/boss_metalzone_clean_boost_setting.nam"),
        Capture::one("setting_2", "pedals/boss_mt_2_metal_zone/boss_metalzone_clean_boost_setting_2.nam"),
        Capture::one("setting_3", "pedals/boss_mt_2_metal_zone/boss_metalzone_clean_boost_setting_3.nam"),
        Capture::one("setting_4", "pedals/boss_mt_2_metal_zone/boss_metalzone_clean_boost_setting_4.nam"),
    ];
    assert(table_view(table@) =~= spec_captures());
    table
}

/// What the model reports for a setting at which no capture was recorded.
pub open spec fn unsupported_message(tone: Seq<char>) -> Seq<char> {
    concat(seq!["gain model '"@, MODEL_ID@, "' does not support tone='"@, tone, "'"@])
}

/// The index of the capture that (tone) selects.
pub open spec fn selection(tone: Seq<char>) -> Option<int> {
    first_selected(spec_captures(), seq![tone])
}

fn unsupported(tone: &str) -> (e: GainError)
    ensures
        e matches GainError::UnsupportedSetting(m) && m@ == unsupported_message(tone@),
{
    let parts = vec!["gain model '", MODEL_ID, "' does not support tone='", tone, "'"];
    let m = join(&parts);
    assert(texts(parts@) =~= seq!["gain model '"@, MODEL_ID@, "' does not support tone='"@, tone@, "'"@]);
    GainError::UnsupportedSetting(m)
}

/// The capture recorded at (tone).
pub fn resolve_capture(tone: &str) -> (selected: Result<&'static str, GainError>)
    ensures
        match selection(tone@) {
            Some(i) => selected matches Ok(path) && path == spec_captures()[i].model_path,
            None => selected matches Err(GainError::UnsupportedSetting(m)) && m@ == unsupported_message(tone@),
        },
{
    let table = captures();
    let request = vec![tone];
    assert(texts(request@) =~= seq![tone@]);
    match find_capture(&table, &request) {
        Some(i) => {
            proof {
                lemma_first_selected(spec_captures(), seq![tone@]);
            }
            Ok(table[i].model_path)
        },
        None => Err(unsupported(tone)),
    }
}

/// Accepts (tone) exactly where a capture was recorded there.
pub fn validate_params(tone: &str) -> (checked: Result<(), GainError>)
    ensures
        match selection(tone@) {
            Some(i) => checked is Ok,
            None => checked matches Err(GainError::UnsupportedSetting(m)) && m@ == unsupported_message(tone@),
        },
{
    match resolve_capture(tone) {
        Ok(_) => Ok(()),
        Err(e) => Err(e),
    }
}

/// Names the capture file that (tone) selects.
pub fn asset_summary(tone: &str) -> (summary: Result<String, GainError>)
    ensures
        match selection(tone@) {
            Some(i) => summary matches Ok(s) && s@ == asset_text(spec_captures()[i].model_path@),
            None => summary matches Err(GainError::UnsupportedSetting(m)) && m@ == unsupported_message(tone@),
        },
{
    match resolve_capture(tone) {
        Ok(c) => {
            let parts = vec!["model='", c, "'"];
            assert(texts(parts@) =~= seq!["model='"@, c@, "'"@]);
            Ok(join(&parts))
        },
        Err(e) => Err(e),
    }
}

pub open spec fn spec_model_definition() -> ModelDefinitionView {
    ModelDefinitionView {
        id: MODEL_ID,
        display_name: DISPLAY_NAME,
        brand: BRAND,
        backend_kind: BackendKind::Nam,
        supported_instruments: Instruments::GuitarBass,
        knob_layout: seq![],
    }
}

/// What the registry lists for this model.
pub fn model_definition() -> (d: ModelDefinition)
    ensures
        d@ == spec_model_definition(),
{
    let knob_layout: Vec<KnobLayoutEntry> = Vec::new();
    let d = ModelDefinition {
        id: MODEL_ID,
        display_name: DISPLAY_NAME,
        brand: BRAND,
        backend_kind: BackendKind::Nam,
        supported_instruments: Instruments::GuitarBass,
        knob_layout,
    };
    assert(d@.knob_layout =~= spec_model_definition().knob_layout);
    d
}

/// The schema is sound: every parameter is, and no two share a path.
pub proof fn lemma_schema_well_formed()
    ensures
        schema_well_formed(spec_model_schema()),
{
    reveal_strlit("tone");
    reveal_strlit("5_battery_powered");
    reveal_strlit("6_battery_powered");
    reveal_strlit("7_battery_powered");
    reveal_strlit("8_battery_powered");
    reveal_strlit("setting");
    reveal_strlit("setting_2");
    reveal_strlit("setting_3");
    reveal_strlit("setting_4");
    let ps = spec_model_schema().parameters.unwrap();
    assert forall|i: int| 0 <= i < ps.len() implies parameter_well_formed(#[trigger] ps[i]) by {
        if ps[i].kind is Enum {
            let vs = choice_values(ps[i].kind->Enum_choices);
            assert forall|a: int, b: int| 0 <= a < b < vs.len() implies vs[a] != vs[b] by {
                if vs[a] == vs[b] {
                    assert(vs[a].len() == vs[b].len());
                    assert(vs[a][0] == vs[b][0]);
                    assert(vs[a][1] == vs[b][1]);
                    assert(vs[a][2] == vs[b][2]);
                    assert(vs[a][3] == vs[b][3]);
                    assert(vs[a][4] == vs[b][4]);
                    assert(vs[a][5] == vs[b][5]);
                    assert(vs[a][6] == vs[b][6]);
                    assert(vs[a][7] == vs[b][7]);
                    assert(vs[a][8] == vs[b][8]);
                }
            }
        }
        if i == 0 {
            assert(ps[0].kind->Enum_choices[0].value@ == "5_battery_powered"@);
        }
    }
}

/// Each capture is recorded at choices the schema offers.
pub proof fn lemma_captures_follow_schema()
    ensures
        captures_follow_schema(spec_model_schema(), key_params(), spec_captures()),
{
    let s = spec_model_schema();
    let t = spec_captures();
    assert forall|i: int, k: int| 0 <= i < t.len() && 0 <= k < key_params().len() implies {
        &&& #[trigger] t[i].keys.len() == key_params().len()
        &&& is_choice(choices_at(s, key_params()[k]), #[trigger] t[i].keys[k]@)
    } by {
        let cs = choices_at(s, key_params()[k]);
        if k == 0 {
            if t[i].keys[0] == "5_battery_powered" {
                assert(cs[0].value@ == t[i].keys[k]@);
            } else if t[i].keys[0] == "6_battery_powered" {
                assert(cs[1].value@ == t[i].keys[k]@);
            } else if t[i].keys[0] == "7_battery_powered" {
                assert(cs[2].value@ == t[i].keys[k]@);
            } else if t[i].keys[0] == "8_battery_powered" {
                assert(cs[3].value@ == t[i].keys[k]@);
            } else if t[i].keys[0] == "setting" {
                assert(cs[4].value@ == t[i].keys[k]@);
            } else if t[i].keys[0] == "setting_2" {
                assert(cs[5].value@ == t[i].keys[k]@);
            } else if t[i].keys[0] == "setting_3" {
                assert(cs[6].value@ == t[i].keys[k]@);
            } else {
                assert(cs[7].value@ == t[i].keys[k]@);
            }
        }
    }
}

/// No two captures share a setting.
pub proof fn lemma_captures_distinct()
    ensures
        captures_distinct(spec_captures()),
{
    reveal_strlit("5_battery_powered");
    reveal_strlit("6_battery_powered");
    reveal_strlit("7_battery_powered");
    reveal_strlit("8_battery_powered");
    reveal_strlit("setting");
    reveal_strlit("setting_2");
    reveal_strlit("setting_3");
    reveal_strlit("setting_4");
    let t = spec_captures();
    assert forall|a: int, b: int| 0 <= a < b < t.len() implies str_texts(t[a].keys) != str_texts(t[b].keys) by {
        let x = str_texts(t[a].keys);
        let y = str_texts(t[b].keys);
        if x == y {
            assert(x[0].len() == y[0].len());
            assert(x[0][0] == y[0][0]);
            assert(x[0][1] == y[0][1]);
            assert(x[0][2] == y[0][2]);
            assert(x[0][3] == y[0][3]);
            assert(x[0][4] == y[0][4]);
            assert(x[0][5] == y[0][5]);
            assert(x[0][6] == y[0][6]);
            assert(x[0][7] == y[0][7]);
            assert(x[0][8] == y[0][8]);
        }
    }
}

/// Every setting the schema offers selects a capture; so do the defaults.
pub proof fn lemma_every_setting_selects()
    ensures
        every_setting_selects(spec_model_schema(), key_params(), spec_captures()),
        defaults_present(spec_model_schema(), key_params()),
        first_selected(spec_captures(), default_setting(spec_model_schema(), key_params())) is Some,
{
    let s = spec_model_schema();
    let t = spec_captures();
    assert forall|r: Seq<Seq<char>>| setting_of_choices(s, key_params(), r) implies
        (#[trigger] first_selected(t, r)) is Some by {
        let c0 = choices_at(s, 0);
        let i0 = choose|i: int| 0 <= i < c0.len() && c0[i].value@ == r[0];
        if i0 == 0 {
            lemma_selected_at(t, r, 0);
        } else if i0 == 1 {
            lemma_selected_at(t, r, 1);
        } else if i0 == 2 {
            lemma_selected_at(t, r, 2);
        } else if i0 == 3 {
            lemma_selected_at(t, r, 3);
        } else if i0 == 4 {
            lemma_selected_at(t, r, 4);
        } else if i0 == 5 {
            lemma_selected_at(t, r, 5);
        } else if i0 == 6 {
            lemma_selected_at(t, r, 6);
        } else if i0 == 7 {
            lemma_selected_at(t, r, 7);
        }
    }
    let dflt = default_setting(s, key_params());
    assert(dflt =~= seq!["5_battery_powered"@]);
    lemma_selected_at(t, dflt, 0);
}

/// Every capture names a file that writes each value of its setting, and
/// no two captures name the same file.
pub proof fn lemma_capture_files()
    ensures
        files_name_settings(spec_captures()),
        files_distinct(spec_captures()),
{
    reveal_strlit("pedals/boss_mt_2_metal_zone/boss_metalzone_clean_boost_5_battery_powered.nam");
    reveal_strlit("pedals/boss_mt_2_metal_zone/boss_metalzone_clean_boost_6_battery_powered.nam");
    reveal_strlit("pedals/boss_mt_2_metal_zone/boss_metalzone_clean_boost_7_battery_powered.nam");
    reveal_strlit("pedals/boss_mt_2_metal_zone/boss_metalzone_clean_boost_8_battery_powered.nam");
    reveal_strlit("pedals/boss_mt_2_metal_zone/boss_metalzone_clean_boost_setting.nam");
    reveal_strlit("pedals/boss_mt_2_metal_zone/boss_metalzone_clean_boost_setting_2.nam");
    reveal_strlit("pedals/boss_mt_2_metal_zone/boss_metalzone_clean_boost_setting_3.nam");
    reveal_strlit("pedals/boss_mt_2_metal_zone/boss_metalzone_clean_boost_setting_4.nam");
    reveal_strlit("5_battery_powered");
    reveal_strlit("6_battery_powered");
    reveal_strlit("7_battery_powered");
    reveal_strlit("8_battery_powered");
    reveal_strlit("setting");
    reveal_strlit("setting_2");
    reveal_strlit("setting_3");
    reveal_strlit("setting_4");
    let t = spec_captures();
    assert forall|i: int, k: int| 0 <= i < t.len() && 0 <= k < t[i].keys.len() implies
        names_value(#[trigger] t[i].model_path@, #[trigger] t[i].keys[k]@) by {
        let path = t[i].model_path@;
        let key = t[i].keys[k]@;
        if i == 0 {
            if k == 0 {
                assert(path.subrange(55int, 55int + key.len()) =~= key);
            }
        } else if i == 1 {
            if k == 0 {
                assert(path.subrange(55int, 55int + key.len()) =~= key);
            }
        } else if i == 2 {
            if k == 0 {
                assert(path.subrange(55int, 55int + key.len()) =~= key);
            }
        } else if i == 3 {
            if k == 0 {
                assert(path.subrange(55int, 55int + key.len()) =~= key);
            }
        } else if i == 4 {
            if k == 0 {
                assert(path.subrange(55int, 55int + key.len()) =~= key);
            }
        } else if i == 5 {
            if k == 0 {
                assert(path.subrange(55int, 55int + key.len()) =~= key);
            }
        } else if i == 6 {
            if k == 0 {
                assert(path.subrange(55int, 55int + key.len()) =~= key);
            }
        } else if i == 7 {
            if k == 0 {
                assert(path.subrange(55int, 55int + key.len()) =~= key);
            }
        }
    }
    assert forall|a: int, b: int| 0 <= a < b < 8 implies t[a].model_path@ != t[b].model_path@ by {
        if a == 0 && b == 1 {
            assert(t[0].model_path@[55] != t[1].model_path@[55]);
        } else if a == 0 && b == 2 {
            assert(t[0].model_path@[55] != t[2].model_path@[55]);
        } else if a == 0 && b == 3 {
            assert(t[0].model_path@[55] != t[3].model_path@[55]);
        } else if a == 0 && b == 4 {
            assert(t[0].model_path@.len() != t[4].model_path@.len());
        } else if a == 0 && b == 5 {
            assert(t[0].model_path@.len() != t[5].model_path@.len());
        } else if a == 0 && b == 6 {
            assert(t[0].model_path@.len() != t[6].model_path@.len());
        } else if a == 0 && b == 7 {
            assert(t[0].model_path@.len() != t[7].model_path@.len());
        } else if a == 1 && b == 2 {
            assert(t[1].model_path@[55] != t[2].model_path@[55]);
        } else if a == 1 && b == 3 {
            assert(t[1].model_path@[55] != t[3].model_path@[55]);
        } else if a == 1 && b == 4 {
            assert(t[1].model_path@.len() != t[4].model_path@.len());
        } else if a == 1 && b == 5 {
            assert(t[1].model_path@.len() != t[5].model_path@.len());
        } else if a == 1 && b == 6 {
            assert(t[1].model_path@.len() != t[6].model_path@.len());
        } else if a == 1 && b == 7 {
            assert(t[1].model_path@.len() != t[7].model_path@.len());
        } else if a == 2 && b == 3 {
            assert(t[2].model_path@[55] != t[3].model_path@[55]);
        } else if a == 2 && b == 4 {
            assert(t[2].model_path@.len() != t[4].model_path@.len());
        } else if a == 2 && b == 5 {
            assert(t[2].model_path@.len() != t[5].model_path@.len());
        } else if a == 2 && b == 6 {
            assert(t[2].model_path@.len() != t[6].model_path@.len());
        } else if a == 2 && b == 7 {
            assert(t[2].model_path@.len() != t[7].model_path@.len());
        } else if a == 3 && b == 4 {
            assert(t[3].model_path@.len() != t[4].model_path@.len());
        } else if a == 3 && b == 5 {
            assert(t[3].model_path@.len() != t[5].model_path@.len());
        } else if a == 3 && b == 6 {
            assert(t[3].model_path@.len() != t[6].model_path@.len());
        } else if a == 3 && b == 7 {
            assert(t[3].model_path@.len() != t[7].model_path@.len());
        } else if a == 4 && b == 5 {
            assert(t[4].model_path@.len() != t[5].model_path@.len());
        } else if a == 4 && b == 6 {
            assert(t[4].model_path@.len() != t[6].model_path@.len());
        } else if a == 4 && b == 7 {
            assert(t[4].model_path@.len() != t[7].model_path@.len());
        } else if a == 5 && b == 6 {
            assert(t[5].model_path@[63] != t[6].model_path@[63]);
        } else if a == 5 && b == 7 {
            assert(t[5].model_path@[63] != t[7].model_path@[63]);
        } else if a == 6 && b == 7 {
            assert(t[6].model_path@[63] != t[7].model_path@[63]);
        }
    }
}

/// The file recorded at a setting, as the recording names it.
pub open spec fn recorded_file(tone: Seq<char>) -> Seq<char> {
    "pedals/boss_mt_2_metal_zone/boss_metalzone_clean_boost_"@ + tone + ".nam"@
}

/// Every capture names the file recorded at its own setting.
pub proof fn lemma_captures_name_their_setting()
    ensures
        forall|i: int| 0 <= i < spec_captures().len() ==>
            (#[trigger] spec_captures()[i]).model_path@ == recorded_file(spec_captures()[i].keys[0]@),
{
    reveal_strlit("pedals/boss_mt_2_metal_zone/boss_metalzone_clean_boost_");
    reveal_strlit(".nam");
    reveal_strlit("pedals/boss_mt_2_metal_zone/boss_metalzone_clean_boost_5_battery_powered.nam");
    reveal_strlit("pedals/boss_mt_2_metal_zone/boss_metalzone_clean_boost_6_battery_powered.nam");
    reveal_strlit("pedals/boss_mt_2_metal_zone/boss_metalzone_clean_boost_7_battery_powered.nam");
    reveal_strlit("pedals/boss_mt_2_metal_zone/boss_metalzone_clean_boost_8_battery_powered.nam");
    reveal_strlit("pedals/boss_mt_2_metal_zone/boss_metalzone_clean_boost_setting.nam");
    reveal_strlit("pedals/boss_mt_2_metal_zone/boss_metalzone_clean_boost_setting_2.nam");
    reveal_strlit("pedals/boss_mt_2_metal_zone/boss_metalzone_clean_boost_setting_3.nam");
    reveal_strlit("pedals/boss_mt_2_metal_zone/boss_metalzone_clean_boost_setting_4.nam");
    reveal_strlit("5_battery_powered");
    reveal_strlit("6_battery_powered");
    reveal_strlit("7_battery_powered");
    reveal_strlit("8_battery_powered");
    reveal_strlit("setting");
    reveal_strlit("setting_2");
    reveal_strlit("setting_3");
    reveal_strlit("setting_4");
    let t = spec_captures();
    assert forall|i: int| 0 <= i < t.len() implies
        (#[trigger] t[i]).model_path@ == recorded_file(t[i].keys[0]@) by {
        if i == 0 {
            assert(t[i].model_path@ =~= recorded_file("5_battery_powered"@));
        } else if i == 1 {
            assert(t[i].model_path@ =~= recorded_file("6_battery_powered"@));
        } else if i == 2 {
            assert(t[i].model_path@ =~= recorded_file("7_battery_powered"@));
        } else if i == 3 {
            assert(t[i].model_path@ =~= recorded_file("8_battery_powered"@));
        } else if i == 4 {
            assert(t[i].model_path@ =~= recorded_file("setting"@));
        } else if i == 5 {
            assert(t[i].model_path@ =~= recorded_file("setting_2"@));
        } else if i == 6 {
            assert(t[i].model_path@ =~= recorded_file("setting_3"@));
        } else if i == 7 {
            assert(t[i].model_path@ =~= recorded_file("setting_4"@));
        }
    }
}

/// A setting that selects a capture selects the file recorded at that setting.
pub proof fn lemma_selected_file(tone: Seq<char>)
    ensures
        selection(tone) matches Some(i) ==> spec_captures()[i].model_path@ == recorded_file(tone),
{
    lemma_first_selected(spec_captures(), seq![tone]);
    lemma_captures_name_their_setting();
    if let Some(i) = selection(tone) {
        assert(spec_captures()[i].model_path@ == recorded_file(spec_captures()[i].keys[0]@));
    }
}

} // verus!
