//! The "Fulltone 69" gain model (fulltone), played from neural captures, one per recorded setting.

use vstd::prelude::*;
use crate::capture::{
    names_value, files_name_settings, files_distinct,
    Capture, CaptureView, table_view, find_capture, first_selected, asset_text, lemma_first_selected,
    lemma_selected_at, captures_follow_schema, default_setting, defaults_present, captures_distinct,
    every_setting_selects, setting_of_choices,
};
use crate::error::GainError;
use crate::model::{BackendKind, Instruments, KnobLayoutEntry, ModelDefinition, ModelDefinitionView};
use crate::schema::{
    EffectType, EnumChoice, ModelSchema, ModelSchemaView, ParameterKindView, ParameterSpecView,
    choice, enum_parameter, parameters_view, schema_well_formed, choices_at, str_texts, is_choice,
    parameter_well_formed, choice_values, parameter_paths,
};
use crate::text::{concat, join, texts};

verus! {

pub const MODEL_ID: &'static str = "nam_fulltone_69";
pub const DISPLAY_NAME: &'static str = "Fulltone 69";
pub const BRAND: &'static str = "fulltone";

pub open spec fn spec_model_schema() -> ModelSchemaView {
    ModelSchemaView {
        effect_type: EffectType::Gain,
        model: MODEL_ID,
        display_name: DISPLAY_NAME,
        audio_mode: None,
        parameters: Some(seq![
            ParameterSpecView {
                path: "tone",
                label: "Tone",
                group: Some("Pedal"),
                kind: ParameterKindView::Enum {
                    default: Some("hendrix_67_vol_2_contour_12_bias_and_fuzz_full"),
                    choices: seq![
                        EnumChoice { value: "hendrix_67_vol_2_contour_12_bias_and_fuzz_full", label: "Hendrix 67 Vol 2 Contour 12 Bias And Fuzz Full" },
                        EnumChoice { value: "high_contour_vol_2_contour_bias_and_fuzz_full", label: "High Contour Vol 2 Contour Bias And Fuzz Full" },
                        EnumChoice { value: "high_vol_low_contour_contour_off_vol_bias_and_f", label: "High Vol Low Contour Contour Off Vol Bias And F" },
                        EnumChoice { value: "high_vol_mid_contour_contour_12_vol_bias_and_fu", label: "High Vol Mid Contour Contour 12 Vol Bias And Fu" },
                        EnumChoice { value: "high_vol_mid_contour_contour_12_vol_bias_and_fu_1", label: "High Vol Mid Contour Contour 12 Vol Bias And Fu 1" },
                        EnumChoice { value: "maxx_fuzz_vol_contour_bias_and_fuzz_full_gain_t", label: "Maxx Fuzz Vol Contour Bias And Fuzz Full Gain T" },
                        EnumChoice { value: "stock_fuzzface_vol_2_contour_off_bias_and_fuzz", label: "Stock Fuzzface Vol 2 Contour Off Bias And Fuzz" },
                    ],
                },
            },
        ]),
    }
}

/// The parameters of the model.
pub fn model_schema() -> (schema: ModelSchema)
    ensures
        schema@ == spec_model_schema(),
{
    let parameters = vec![
        enum_parameter(
            "tone",
            "Tone",
            Some("Pedal"),
            Some("hendrix_67_vol_2_contour_12_bias_and_fuzz_full"),
            vec![
                choice("hendrix_67_vol_2_contour_12_bias_and_fuzz_full", "Hendrix 67 Vol 2 Contour 12 Bias And Fuzz Full"),
                choice("high_contour_vol_2_contour_bias_and_fuzz_full", "High Contour Vol 2 Contour Bias And Fuzz Full"),
                choice("high_vol_low_contour_contour_off_vol_bias_and_f", "High Vol Low Contour Contour Off Vol Bias And F"),
                choice("high_vol_mid_contour_contour_12_vol_bias_and_fu", "High Vol Mid Contour Contour 12 Vol Bias And Fu"),
                choice("high_vol_mid_contour_contour_12_vol_bias_and_fu_1", "High Vol Mid Contour Contour 12 Vol Bias And Fu 1"),
                choice("maxx_fuzz_vol_contour_bias_and_fuzz_full_gain_t", "Maxx Fuzz Vol Contour Bias And Fuzz Full Gain T"),
                choice("stock_fuzzface_vol_2_contour_off_bias_and_fuzz", "Stock Fuzzface Vol 2 Contour Off Bias And Fuzz"),
            ],
        ),
    ];
    assert(parameters_view(parameters@) =~= spec_model_schema().parameters.unwrap());
    ModelSchema {
        effect_type: EffectType::Gain,
        model: MODEL_ID,
        display_name: DISPLAY_NAME,
        audio_mode: None,
        parameters: Some(parameters),
    }
}

/// The positions, in the schema, of the parameters that select a capture.
pub open spec fn key_params() -> Seq<int> {
    seq![0]
}

pub open spec fn spec_captures() -> Seq<CaptureView> {
    seq![
        CaptureView { keys: seq!["hendrix_67_vol_2_contour_12_bias_and_fuzz_full"], model_path: "pedals/fulltone_69/69_hendrix_67_vol_2_contour_12_bias_and_fuzz_full.nam" },
        CaptureView { keys: seq!["high_contour_vol_2_contour_bias_and_fuzz_full"], model_path: "pedals/fulltone_69/69_high_contour_vol_2_contour_bias_and_fuzz_full.nam" },
        CaptureView { keys: seq!["high_vol_low_contour_contour_off_vol_bias_and_f"], model_path: "pedals/fulltone_69/69_high_vol_low_contour_contour_off_vol_bias_and_f.nam" },
        CaptureView { keys: seq!["high_vol_mid_contour_contour_12_vol_bias_and_fu"], model_path: "pedals/fulltone_69/69_high_vol_mid_contour_contour_12_vol_bias_and_fu.nam" },
        CaptureView { keys: seq!["high_vol_mid_contour_contour_12_vol_bias_and_fu_1"], model_path: "pedals/fulltone_69/69_high_vol_mid_contour_contour_12_vol_bias_and_fu_1.nam" },
        CaptureView { keys: seq!["maxx_fuzz_vol_contour_bias_and_fuzz_full_gain_t"], model_path: "pedals/fulltone_69/69_maxx_fuzz_vol_contour_bias_and_fuzz_full_gain_t.nam" },
        CaptureView { keys: seq!["stock_fuzzface_vol_2_contour_off_bias_and_fuzz"], model_path: "pedals/fulltone_69/69_stock_fuzzface_vol_2_contour_off_bias_and_fuzz_.nam" },
    ]
}

/// The captures of the pedal, each with its (tone) setting.
pub fn captures() -> (table: Vec<Capture>)
    ensures
        table_view(table@) == spec_captures(),
{
    let table = vec![
        Capture::one("hendrix_67_vol_2_contour_12_bias_and_fuzz_full", "pedals/fulltone_69/69_hendrix_67_vol_2_contour_12_bias_and_fuzz_full.nam"),
        Capture::one("high_contour_vol_2_contour_bias_and_fuzz_full", "pedals/fulltone_69/69_high_contour_vol_2_contour_bias_and_fuzz_full.nam"),
        Capture::one("high_vol_low_contour_contour_off_vol_bias_and_f", "pedals/fulltone_69/69_high_vol_low_contour_contour_off_vol_bias_and_f.nam"),
        Capture::one("high_vol_mid_contour_contour_12_vol_bias_and_fu", "pedals/fulltone_69/69_high_vol_mid_contour_contour_12_vol_bias_and_fu.nam"),
        Capture::one("high_vol_mid_contour_contour_12_vol_bias_and_fu_1", "pedals/fulltone_69/69_high_vol_mid_contour_contour_12_vol_bias_and_fu_1.nam"),
        Capture::one("maxx_fuzz_vol_contour_bias_and_fuzz_full_gain_t", "pedals/fulltone_69/69_maxx_fuzz_vol_contour_bias_and_fuzz_full_gain_t.nam"),
        Capture::one("stock_fuzzface_vol_2_contour_off_bias_and_fuzz", "pedals/fulltone_69/69_stock_fuzzface_vol_2_contour_off_bias_and_fuzz_.nam"),
    ];
    assert(table_view(table@) =~= spec_captures());
    table
}

/// What the model reports for a setting at which no capture was recorded.
pub open spec fn unsupported_message(tone: Seq<char>) -> Seq<char> {
    concat(seq!["gain model '"@, MODEL_ID@, "' does not support tone='"@, tone, "'"@])
}

/// The index of the capture that (tone) selects.
pub open spec fn selection(tone: Seq<char>) -> Option<int> {
    first_selected(spec_captures(), seq![tone])
}

fn unsupported(tone: &str) -> (e: GainError)
    ensures
        e matches GainError::UnsupportedSetting(m) && m@ == unsupported_message(tone@),
{
    let parts = vec!["gain model '", MODEL_ID, "' does not support tone='", tone, "'"];
    let m = join(&parts);
    assert(texts(parts@) =~= seq!["gain model '"@, MODEL_ID@, "' does not support tone='"@, tone@, "'"@]);
    GainError::UnsupportedSetting(m)
}

/// The capture recorded at (tone).
pub fn resolve_capture(tone: &str) -> (selected: Result<&'static str, GainError>)
    ensures
        match selection(tone@) {
            Some(i) => selected matches Ok(path) && path == spec_captures()[i].model_path,
            None => selected matches Err(GainError::UnsupportedSetting(m)) && m@ == unsupported_message(tone@),
        },
{
    let table = captures();
    let request = vec![tone];
    assert(texts(request@) =~= seq![tone@]);
    match find_capture(&table, &request) {
        Some(i) => {
            proof {
                lemma_first_selected(spec_captures(), seq![tone@]);
            }
            Ok(table[i].model_path)
        },
        None => Err(unsupported(tone)),
    }
}

/// Accepts (tone) exactly where a capture was recorded there.
pub fn validate_params(tone: &str) -> (checked: Result<(), GainError>)
    ensures
        match selection(tone@) {
            Some(i) => checked is Ok,
            None => checked matches Err(GainError::UnsupportedSetting(m)) && m@ == unsupported_message(tone@),
        },
{
    match resolve_capture(tone) {
        Ok(_) => Ok(()),
        Err(e) => Err(e),
    }
}

/// Names the capture file that (tone) selects.
pub fn asset_summary(tone: &str) -> (summary: Result<String, GainError>)
    ensures
        match selection(tone@) {
            Some(i) => summary matches Ok(s) && s@ == asset_text(spec_captures()[i].model_path@),
            None => summary matches Err(GainError::UnsupportedSetting(m)) && m@ == unsupported_message(tone@),
        },
{
    match resolve_capture(tone) {
        Ok(c) => {
            let parts = vec!["model='", c, "'"];
            assert(texts(parts@) =~= seq!["model='"@, c@, "'"@]);
            Ok(join(&parts))
        },
        Err(e) => Err(e),
    }
}

pub open spec fn spec_model_definition() -> ModelDefinitionView {
    ModelDefinitionView {
        id: MODEL_ID,
        display_name: DISPLAY_NAME,
        brand: BRAND,
        backend_kind: BackendKind::Nam,
        supported_instruments: Instruments::GuitarBass,
        knob_layout: seq![],
    }
}

/// What the registry lists for this model.
pub fn model_definition() -> (d: ModelDefinition)
    ensures
        d@ == spec_model_definition(),
{
    let knob_layout: Vec<KnobLayoutEntry> = Vec::new();
    let d = ModelDefinition {
        id: MODEL_ID,
        display_name: DISPLAY_NAME,
        brand: BRAND,
        backend_kind: BackendKind::Nam,
        supported_instruments: Instruments::GuitarBass,
        knob_layout,
    };
    assert(d@.knob_layout =~= spec_model_definition().knob_layout);
    d
}

/// The schema is sound: every parameter is, and no two share a path.
pub proof fn lemma_schema_well_formed()
    ensures
        schema_well_formed(spec_model_schema()),
{
    reveal_strlit("tone");
    reveal_strlit("hendrix_67_vol_2_contour_12_bias_and_fuzz_full");
    reveal_strlit("high_contour_vol_2_contour_bias_and_fuzz_full");
    reveal_strlit("high_vol_low_contour_contour_off_vol_bias_and_f");
    reveal_strlit("high_vol_mid_contour_contour_12_vol_bias_and_fu");
    reveal_strlit("high_vol_mid_contour_contour_12_vol_bias_and_fu_1");
    reveal_strlit("maxx_fuzz_vol_contour_bias_and_fuzz_full_gain_t");
    reveal_strlit("stock_fuzzface_vol_2_contour_off_bias_and_fuzz");
    let ps = spec_model_schema().parameters.unwrap();
    assert forall|i: int| 0 <= i < ps.len() implies parameter_well_formed(#[trigger] ps[i]) by {
        if ps[i].kind is Enum {
            let vs = choice_values(ps[i].kind->Enum_choices);
            assert forall|a: int, b: int| 0 <= a < b < vs.len() implies vs[a] != vs[b] by {
                if vs[a] == vs[b] {
                    assert(vs[a].len() == vs[b].len());
                    assert(vs[a][0] == vs[b][0]);
                    assert(vs[a][1] == vs[b][1]);
                    assert(vs[a][2] == vs[b][2]);
                    assert(vs[a][3] == vs[b][3]);
                    assert(vs[a][4] == vs[b][4]);
                    assert(vs[a][5] == vs[b][5]);
                    assert(vs[a][6] == vs[b][6]);
                    assert(vs[a][7] == vs[b][7]);
                    assert(vs[a][8] == vs[b][8]);
                    assert(vs[a][9] == vs[b][9]);
                }
            }
        }
        if i == 0 {
            assert(ps[0].kind->Enum_choices[0].value@ == "hendrix_67_vol_2_contour_12_bias_and_fuzz_full"@);
        }
    }
}

/// Each capture is recorded at choices the schema offers.
pub proof fn lemma_captures_follow_schema()
    ensures
        captures_follow_schema(spec_model_schema(), key_params(), spec_captures()),
{
    let s = spec_model_schema();
    let t = spec_captures();
    assert forall|i: int, k: int| 0 <= i < t.len() && 0 <= k < key_params().len() implies {
        &&& #[trigger] t[i].keys.len() == key_params().len()
        &&& is_choice(choices_at(s, key_params()[k]), #[trigger] t[i].keys[k]@)
    } by {
        let cs = choices_at(s, key_params()[k]);
        if k == 0 {
            if t[i].keys[0] == "hendrix_67_vol_2_contour_12_bias_and_fuzz_full" {
                assert(cs[0].value@ == t[i].keys[k]@);
            } else if t[i].keys[0] == "high_contour_vol_2_contour_bias_and_fuzz_full" {
                assert(cs[1].value@ == t[i].keys[k]@);
            } else if t[i].keys[0] == "high_vol_low_contour_contour_off_vol_bias_and_f" {
                assert(cs[2].value@ == t[i].keys[k]@);
            } else if t[i].keys[0] == "high_vol_mid_contour_contour_12_vol_bias_and_fu" {
                assert(cs[3].value@ == t[i].keys[k]@);
            } else if t[i].keys[0] == "high_vol_mid_contour_contour_12_vol_bias_and_fu_1" {
                assert(cs[4].value@ == t[i].keys[k]@);
            } else if t[i].keys[0] == "maxx_fuzz_vol_contour_bias_and_fuzz_full_gain_t" {
                assert(cs[5].value@ == t[i].keys[k]@);
            } else {
                assert(cs[6].value@ == t[i].keys[k]@);
            }
        }
    }
}

/// No two captures share a setting.
pub proof fn lemma_captures_distinct()
    ensures
        captures_distinct(spec_captures()),
{
    reveal_strlit("hendrix_67_vol_2_contour_12_bias_and_fuzz_full");
    reveal_strlit("high_contour_vol_2_contour_bias_and_fuzz_full");
    reveal_strlit("high_vol_low_contour_contour_off_vol_bias_and_f");
    reveal_strlit("high_vol_mid_contour_contour_12_vol_bias_and_fu");
    reveal_strlit("high_vol_mid_contour_contour_12_vol_bias_and_fu_1");
    reveal_strlit("maxx_fuzz_vol_contour_bias_and_fuzz_full_gain_t");
    reveal_strlit("stock_fuzzface_vol_2_contour_off_bias_and_fuzz");
    let t = spec_captures();
    assert forall|a: int, b: int| 0 <= a < b < t.len() implies str_texts(t[a].keys) != str_texts(t[b].keys) by {
        let x = str_texts(t[a].keys);
        let y = str_texts(t[b].keys);
        if x == y {
            assert(x[0].len() == y[0].len());
            assert(x[0][0] == y[0][0]);
            assert(x[0][1] == y[0][1]);
            assert(x[0][2] == y[0][2]);
            assert(x[0][3] == y[0][3]);
            assert(x[0][4] == y[0][4]);
            assert(x[0][5] == y[0][5]);
            assert(x[0][6] == y[0][6]);
            assert(x[0][7] == y[0][7]);
            assert(x[0][8] == y[0][8]);
            assert(x[0][9] == y[0][9]);
        }
    }
}

/// Every setting the schema offers selects a capture; so do the defaults.
pub proof fn lemma_every_setting_selects()
    ensures
        every_setting_selects(spec_model_schema(), key_params(), spec_captures()),
        defaults_present(spec_model_schema(), key_params()),
        first_selected(spec_captures(), default_setting(spec_model_schema(), key_params())) is Some,
{
    let s = spec_model_schema();
    let t = spec_captures();
    assert forall|r: Seq<Seq<char>>| setting_of_choices(s, key_params(), r) implies
        (#[trigger] first_selected(t, r)) is Some by {
        let c0 = choices_at(s, 0);
        let i0 = choose|i: int| 0 <= i < c0.len() && c0[i].value@ == r[0];
        if i0 == 0 {
            lemma_selected_at(t, r, 0);
        } else if i0 == 1 {
            lemma_selected_at(t, r, 1);
        } else if i0 == 2 {
            lemma_selected_at(t, r, 2);
        } else if i0 == 3 {
            lemma_selected_at(t, r, 3);
        } else if i0 == 4 {
            lemma_selected_at(t, r, 4);
        } else if i0 == 5 {
            lemma_selected_at(t, r, 5);
        } else if i0 == 6 {
            lemma_selected_at(t, r, 6);
        }
    }
    let dflt = default_setting(s, key_params());
    assert(dflt =~= seq!["hendrix_67_vol_2_contour_12_bias_and_fuzz_full"@]);
    lemma_selected_at(t, dflt, 0);
}

/// Every capture names a file that writes each value of its setting, and
/// no two captures name the same file.
pub proof fn lemma_capture_files()
    ensures
        files_name_settings(spec_captures()),
        files_distinct(spec_captures()),
{
    reveal_strlit("pedals/fulltone_69/69_hendrix_67_vol_2_contour_12_bias_and_fuzz_full.nam");
    reveal_strlit("pedals/fulltone_69/69_high_contour_vol_2_contour_bias_and_fuzz_full.nam");
    reveal_strlit("pedals/fulltone_69/69_high_vol_low_contour_contour_off_vol_bias_and_f.nam");
    reveal_strlit("pedals/fulltone_69/69_high_vol_mid_contour_contour_12_vol_bias_and_fu.nam");
    reveal_strlit("pedals/fulltone_69/69_high_vol_mid_contour_contour_12_vol_bias_and_fu_1.nam");
    reveal_strlit("pedals/fulltone_69/69_maxx_fuzz_vol_contour_bias_and_fuzz_full_gain_t.nam");
    reveal_strlit("pedals/fulltone_69/69_stock_fuzzface_vol_2_contour_off_bias_and_fuzz_.nam");
    reveal_strlit("hendrix_67_vol_2_contour_12_bias_and_fuzz_full");
    reveal_strlit("high_contour_vol_2_contour_bias_and_fuzz_full");
    reveal_strlit("high_vol_low_contour_contour_off_vol_bias_and_f");
    reveal_strlit("high_vol_mid_contour_contour_12_vol_bias_and_fu");
    reveal_strlit("high_vol_mid_contour_contour_12_vol_bias_and_fu_1");
    reveal_strlit("maxx_fuzz_vol_contour_bias_and_fuzz_full_gain_t");
    reveal_strlit("stock_fuzzface_vol_2_contour_off_bias_and_fuzz");
    let t = spec_captures();
    assert forall|i: int, k: int| 0 <= i < t.len() && 0 <= k < t[i].keys.len() implies
        names_value(#[trigger] t[i].model_path@, #[trigger] t[i].keys[k]@) by {
        let path = t[i].model_path@;
        let key = t[i].keys[k]@;
        if i == 0 {
            if k == 0 {
                assert(path.subrange(22int, 22int + key.len()) =~= key);
            }
        } else if i == 1 {
            if k == 0 {
                assert(path.subrange(22int, 22int + key.len()) =~= key);
            }
        } else if i == 2 {
            if k == 0 {
                assert(path.subrange(22int, 22int + key.len()) =~= key);
            }
        } else if i == 3 {
            if k == 0 {
                assert(path.subrange(22int, 22int + key.len()) =~= key);
            }
        } else if i == 4 {
            if k == 0 {
                assert(path.subrange(22int, 22int + key.len()) =~= key);
            }
        } else if i == 5 {
            if k == 0 {
                assert(path.subrange(22int, 22int + key.len()) =~= key);
            }
        } else if i == 6 {
            if k == 0 {
                assert(path.subrange(22int, 22int + key.len()) =~= key);
            }
        }
    }
    assert forall|a: int, b: int| 0 <= a < b < 7 implies t[a].model_path@ != t[b].model_path@ by {
        if a == 0 && b == 1 {
            assert(t[0].model_path@.len() != t[1].model_path@.len());
        } else if a == 0 && b == 2 {
            assert(t[0].model_path@.len() != t[2].model_path@.len());
        } else if a == 0 && b == 3 {
            assert(t[0].model_path@.len() != t[3].model_path@.len());
        } else if a == 0 && b == 4 {
            assert(t[0].model_path@.len() != t[4].model_path@.len());
        } else if a == 0 && b == 5 {
            assert(t[0].model_path@.len() != t[5].model_path@.len());
        } else if a == 0 && b == 6 {
            assert(t[0].model_path@.len() != t[6].model_path@.len());
        } else if a == 1 && b == 2 {
            assert(t[1].model_path@.len() != t[2].model_path@.len());
        } else if a == 1 && b == 3 {
            assert(t[1].model_path@.len() != t[3].model_path@.len());
        } else if a == 1 && b == 4 {
            assert(t[1].model_path@.len() != t[4].model_path@.len());
        } else if a == 1 && b == 5 {
            assert(t[1].model_path@.len() != t[5].model_path@.len());
        } else if a == 1 && b == 6 {
            assert(t[1].model_path@.len() != t[6].model_path@.len());
        } else if a == 2 && b == 3 {
            assert(t[2].model_path@[31] != t[3].model_path@[31]);
        } else if a == 2 && b == 4 {
            assert(t[2].model_path@.len() != t[4].model_path@.len());
        } else if a == 2 && b == 5 {
            assert(t[2].model_path@[22] != t[5].model_path@[22]);
        } else if a == 2 && b == 6 {
            assert(t[2].model_path@[22] != t[6].model_path@[22]);
        } else if a == 3 && b == 4 {
            assert(t[3].model_path@.len() != t[4].model_path@.len());
        } else if a == 3 && b == 5 {
            assert(t[3].model_path@[22] != t[5].model_path@[22]);
        } else if a == 3 && b == 6 {
            assert(t[3].model_path@[22] != t[6].model_path@[22]);
        } else if a == 4 && b == 5 {
            assert(t[4].model_path@.len() != t[5].model_path@.len());
        } else if a == 4 && b == 6 {
            assert(t[4].model_path@.len() != t[6].model_path@.len());
        } else if a == 5 && b == 6 {
            assert(t[5].model_path@[22] != t[6].model_path@[22]);
        }
    }
}

/// Every capture names a file that writes each value of its setting in its
/// own place, between the texts that mark that place in the file name.
pub proof fn lemma_files_write_settings()
    ensures
        forall|i: int| 0 <= i < spec_captures().len() ==> {
            &&& names_value((#[trigger] spec_captures()[i]).model_path@, "69_"@ + spec_captures()[i].keys[0]@)
        },
{
    reveal_strlit("69_");
    reveal_strlit("pedals/fulltone_69/69_hendrix_67_vol_2_contour_12_bias_and_fuzz_full.nam");
    reveal_strlit("pedals/fulltone_69/69_high_contour_vol_2_contour_bias_and_fuzz_full.nam");
    reveal_strlit("pedals/fulltone_69/69_high_vol_low_contour_contour_off_vol_bias_and_f.nam");
    reveal_strlit("pedals/fulltone_69/69_high_vol_mid_contour_contour_12_vol_bias_and_fu.nam");
    reveal_strlit("pedals/fulltone_69/69_high_vol_mid_contour_contour_12_vol_bias_and_fu_1.nam");
    reveal_strlit("pedals/fulltone_69/69_maxx_fuzz_vol_contour_bias_and_fuzz_full_gain_t.nam");
    reveal_strlit("pedals/fulltone_69/69_stock_fuzzface_vol_2_contour_off_bias_and_fuzz_.nam");
    reveal_strlit("hendrix_67_vol_2_contour_12_bias_and_fuzz_full");
    reveal_strlit("high_contour_vol_2_contour_bias_and_fuzz_full");
    reveal_strlit("high_vol_low_contour_contour_off_vol_bias_and_f");
    reveal_strlit("high_vol_mid_contour_contour_12_vol_bias_and_fu");
    reveal_strlit("high_vol_mid_contour_contour_12_vol_bias_and_fu_1");
    reveal_strlit("maxx_fuzz_vol_contour_bias_and_fuzz_full_gain_t");
    reveal_strlit("stock_fuzzface_vol_2_contour_off_bias_and_fuzz");
    let t = spec_captures();
    assert forall|i: int| 0 <= i < t.len() implies {
        &&& names_value((#[trigger] t[i]).model_path@, "69_"@ + t[i].keys[0]@)
    } by {
        let path = t[i].model_path@;
        if i == 0 {
            let v0 = "69_"@ + t[i].keys[0]@;
            assert(path.subrange(19int, 19int + v0.len()) =~= v0);
        } else if i == 1 {
            let v0 = "69_"@ + t[i].keys[0]@;
            assert(path.subrange(19int, 19int + v0.len()) =~= v0);
        } else if i == 2 {
            let v0 = "69_"@ + t[i].keys[0]@;
            assert(path.subrange(19int, 19int + v0.len()) =~= v0);
        } else if i == 3 {
            let v0 = "69_"@ + t[i].keys[0]@;
            assert(path.subrange(19int, 19int + v0.len()) =~= v0);
        } else if i == 4 {
            let v0 = "69_"@ + t[i].keys[0]@;
            assert(path.subrange(19int, 19int + v0.len()) =~= v0);
        } else if i == 5 {
            let v0 = "69_"@ + t[i].keys[0]@;
            assert(path.subrange(19int, 19int + v0.len()) =~= v0);
        } else if i == 6 {
            let v0 = "69_"@ + t[i].keys[0]@;
            assert(path.subrange(19int, 19int + v0.len()) =~= v0);
        }
    }
}

} // verus!
