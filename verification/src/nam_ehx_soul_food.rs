//! The "EHX Soul Food" gain model (ehx), played from neural captures, one per recorded setting.

use vstd::prelude::*;
use crate::capture::{
    names_value, files_name_settings, files_distinct,
    Capture, CaptureView, table_view, find_capture, first_selected, asset_text, lemma_first_selected,
    lemma_selected_at, captures_follow_schema, default_setting, defaults_present, captures_distinct,
    every_setting_selects, setting_of_choices,
};
use crate::error::GainError;
use crate::model::{BackendKind, Instruments, KnobLayoutEntry, ModelDefinition, ModelDefinitionView};
use crate::schema::{
    EffectType, EnumChoice, ModelSchema, ModelSchemaView, ParameterKindView, ParameterSpecView,
    choice, enum_parameter, parameters_view, schema_well_formed, choices_at, str_texts, is_choice,
    parameter_well_formed, choice_values, parameter_paths,
};
use crate::text::{concat, join, texts};

verus! {

pub const MODEL_ID: &'static str = "nam_ehx_soul_food";
pub const DISPLAY_NAME: &'static str = "EHX Soul Food";
pub const BRAND: &'static str = "ehx";

pub open spec fn spec_model_schema() -> ModelSchemaView {
    ModelSchemaView {
        effect_type: EffectType::Gain,
        model: MODEL_ID,
        display_name: DISPLAY_NAME,
        audio_mode: None,
        parameters: Some(seq![
            ParameterSpecView {
                path: "drive",
                label: "Drive",
                group: Some("Pedal"),
                kind: ParameterKindView::Enum {
                    default: Some("50"),
                    choices: seq![
                        EnumChoice { value: "0", label: "0%" },
                        EnumChoice { value: "25", label: "25%" },
                        EnumChoice { value: "40", label: "40%" },
                        EnumChoice { value: "50", label: "50%" },
                        EnumChoice { value: "60", label: "60%" },
                        EnumChoice { value: "75", label: "75%" },
                        EnumChoice { value: "100", label: "100%" },
                    ],
                },
            },
        ]),
    }
}

/// The parameters of the model.
pub fn model_schema() -> (schema: ModelSchema)
    ensures
        schema@ == spec_model_schema(),
{
    let parameters = vec![
        enum_parameter(
            "drive",
            "Drive",
            Some("Pedal"),
            Some("50"),
            vec![
                choice("0", "0%"),
                choice("25", "25%"),
                choice("40", "40%"),
                choice("50", "50%"),
                choice("60", "60%"),
                choice("75", "75%"),
                choice("100", "100%"),
            ],
        ),
    ];
    assert(parameters_view(parameters@) =~= spec_model_schema().parameters.unwrap());
    ModelSchema {
        effect_type: EffectType::Gain,
        model: MODEL_ID,
        display_name: DISPLAY_NAME,
        audio_mode: None,
        parameters: Some(parameters),
    }
}

/// The positions, in the schema, of the parameters that select a capture.
pub open spec fn key_params() -> Seq<int> {
    seq![0]
}

pub open spec fn spec_captures() -> Seq<CaptureView> {
    seq![
        CaptureView { keys: seq!["0"], model_path: "pedals/ehx_soul_food/gp_eh_soul_food_vol_10_treb_05_drive_00.nam" },
        CaptureView { keys: seq!["25"], model_path: "pedals/ehx_soul_food/gp_eh_soul_food_vol_10_treb_05_drive_25.nam" },
        CaptureView { keys: seq!["40"], model_path: "pedals/ehx_soul_food/gp_eh_soul_food_vol_10_treb_05_drive_40.nam" },
        CaptureView { keys: seq!["50"], model_path: "pedals/ehx_soul_food/gp_eh_soul_food_vol_10_treb_05_drive_50.nam" },
        CaptureView { keys: seq!["60"], model_path: "pedals/ehx_soul_food/gp_eh_soul_food_vol_10_treb_05_drive_60.nam" },
        CaptureView { keys: seq!["75"], model_path: "pedals/ehx_soul_food/gp_eh_soul_food_vol_10_treb_05_drive_75.nam" },
        CaptureView { keys: seq!["100"], model_path: "pedals/ehx_soul_food/gp_eh_soul_food_vol_10_treb_05_drive_100.nam" },
    ]
}

/// The captures of the pedal, each with its (drive) setting.
pub fn captures() -> (table: Vec<Capture>)
    ensures
        table_view(table@) == spec_captures(),
{
    let table = vec![
        Capture::one("0", "pedals/ehx_soul_food/gp_eh_soul_food_vol_10_treb_05_drive_00.nam"),
        Capture::one("25", "pedals/ehx_soul_food/gp_eh_soul_food_vol_10_treb_05_drive_25.nam"),
        Capture::one("40", "pedals/ehx_soul_food/gp_eh_soul_food_vol_10_treb_05_drive_40.nam"),
        Capture::one("50", "pedals/ehx_soul_food/gp_eh_soul_food_vol_10_treb_05_drive_50.nam"),
        Capture::one("60", "pedals/ehx_soul_food/gp_eh_soul_food_vol_10_treb_05_drive_60.nam"),
        Capture::one("75", "pedals/ehx_soul_food/gp_eh_soul_food_vol_10_treb_05_drive_75.nam"),
        Capture::one("100", "pedals/ehx_soul_food/gp_eh_soul_food_vol_10_treb_05_drive_100.nam"),
    ];
    assert(table_view(table@) =~= spec_captures());
    table
}

/// What the model reports for a setting at which no capture was recorded.
pub open spec fn unsupported_message(drive: Seq<char>) -> Seq<char> {
    concat(seq!["gain '"@, MODEL_ID@, "' has no capture for drive="@, drive])
}

/// The index of the capture that (drive) selects.
pub open spec fn selection(drive: Seq<char>) -> Option<int> {
    first_selected(spec_captures(), seq![drive])
}

fn unsupported(drive: &str) -> (e: GainError)
    ensures
        e matches GainError::UnsupportedSetting(m) && m@ == unsupported_message(drive@),
{
    let parts = vec!["gain '", MODEL_ID, "' has no capture for drive=", drive];
    let m = join(&parts);
    assert(texts(parts@) =~= seq!["gain '"@, MODEL_ID@, "' has no capture for drive="@, drive@]);
    GainError::UnsupportedSetting(m)
}

/// The capture recorded at (drive).
pub fn resolve_capture(drive: &str) -> (selected: Result<&'static str, GainError>)
    ensures
        match selection(drive@) {
            Some(i) => selected matches Ok(path) && path == spec_captures()[i].model_path,
            None => selected matches Err(GainError::UnsupportedSetting(m)) && m@ == unsupported_message(drive@),
        },
{
    let table = captures();
    let request = vec![drive];
    assert(texts(request@) =~= seq![drive@]);
    match find_capture(&table, &request) {
        Some(i) => {
            proof {
                lemma_first_selected(spec_captures(), seq![drive@]);
            }
            Ok(table[i].model_path)
        },
        None => Err(unsupported(drive)),
    }
}

/// Accepts (drive) exactly where a capture was recorded there.
pub fn validate_params(drive: &str) -> (checked: Result<(), GainError>)
    ensures
        match selection(drive@) {
            Some(i) => checked is Ok,
            None => checked matches Err(GainError::UnsupportedSetting(m)) && m@ == unsupported_message(drive@),
        },
{
    match resolve_capture(drive) {
        Ok(_) => Ok(()),
        Err(e) => Err(e),
    }
}

/// Names the capture file that (drive) selects.
pub fn asset_summary(drive: &str) -> (summary: Result<String, GainError>)
    ensures
        match selection(drive@) {
            Some(i) => summary matches Ok(s) && s@ == asset_text(spec_captures()[i].model_path@),
            None => summary matches Err(GainError::UnsupportedSetting(m)) && m@ == unsupported_message(drive@),
        },
{
    match resolve_capture(drive) {
        Ok(c) => {
            let parts = vec!["model='", c, "'"];
            assert(texts(parts@) =~= seq!["model='"@, c@, "'"@]);
            Ok(join(&parts))
        },
        Err(e) => Err(e),
    }
}

pub open spec fn spec_model_definition() -> ModelDefinitionView {
    ModelDefinitionView {
        id: MODEL_ID,
        display_name: DISPLAY_NAME,
        brand: BRAND,
        backend_kind: BackendKind::Nam,
        supported_instruments: Instruments::GuitarBass,
        knob_layout: seq![],
    }
}

/// What the registry lists for this model.
pub fn model_definition() -> (d: ModelDefinition)
    ensures
        d@ == spec_model_definition(),
{
    let knob_layout: Vec<KnobLayoutEntry> = Vec::new();
    let d = ModelDefinition {
        id: MODEL_ID,
        display_name: DISPLAY_NAME,
        brand: BRAND,
        backend_kind: BackendKind::Nam,
        supported_instruments: Instruments::GuitarBass,
        knob_layout,
    };
    assert(d@.knob_layout =~= spec_model_definition().knob_layout);
    d
}

/// The schema is sound: every parameter is, and no two share a path.
pub proof fn lemma_schema_well_formed()
    ensures
        schema_well_formed(spec_model_schema()),
{
    reveal_strlit("drive");
    reveal_strlit("0");
    reveal_strlit("25");
    reveal_strlit("40");
    reveal_strlit("50");
    reveal_strlit("60");
    reveal_strlit("75");
    reveal_strlit("100");
    let ps = spec_model_schema().parameters.unwrap();
    assert forall|i: int| 0 <= i < ps.len() implies parameter_well_formed(#[trigger] ps[i]) by {
        if ps[i].kind is Enum {
            let vs = choice_values(ps[i].kind->Enum_choices);
            assert forall|a: int, b: int| 0 <= a < b < vs.len() implies vs[a] != vs[b] by {
                if vs[a] == vs[b] {
                    assert(vs[a].len() == vs[b].len());
                    assert(vs[a][0] == vs[b][0]);
                }
            }
        }
        if i == 0 {
            assert(ps[0].kind->Enum_choices[3].value@ == "50"@);
        }
    }
}

/// Each capture is recorded at choices the schema offers.
pub proof fn lemma_captures_follow_schema()
    ensures
        captures_follow_schema(spec_model_schema(), key_params(), spec_captures()),
{
    let s = spec_model_schema();
    let t = spec_captures();
    assert forall|i: int, k: int| 0 <= i < t.len() && 0 <= k < key_params().len() implies {
        &&& #[trigger] t[i].keys.len() == key_params().len()
        &&& is_choice(choices_at(s, key_params()[k]), #[trigger] t[i].keys[k]@)
    } by {
        let cs = choices_at(s, key_params()[k]);
        if k == 0 {
            if t[i].keys[0] == "0" {
                assert(cs[0].value@ == t[i].keys[k]@);
            } else if t[i].keys[0] == "25" {
                assert(cs[1].value@ == t[i].keys[k]@);
            } else if t[i].keys[0] == "40" {
                assert(cs[2].value@ == t[i].keys[k]@);
            } else if t[i].keys[0] == "50" {
                assert(cs[3].value@ == t[i].keys[k]@);
            } else if t[i].keys[0] == "60" {
                assert(cs[4].value@ == t[i].keys[k]@);
            } else if t[i].keys[0] == "75" {
                assert(cs[5].value@ == t[i].keys[k]@);
            } else {
                assert(cs[6].value@ == t[i].keys[k]@);
            }
        }
    }
}

/// No two captures share a setting.
pub proof fn lemma_captures_distinct()
    ensures
        captures_distinct(spec_captures()),
{
    reveal_strlit("0");
    reveal_strlit("25");
    reveal_strlit("40");
    reveal_strlit("50");
    reveal_strlit("60");
    reveal_strlit("75");
    reveal_strlit("100");
    let t = spec_captures();
    assert forall|a: int, b: int| 0 <= a < b < t.len() implies str_texts(t[a].keys) != str_texts(t[b].keys) by {
        let x = str_texts(t[a].keys);
        let y = str_texts(t[b].keys);
        if x == y {
            assert(x[0].len() == y[0].len());
            assert(x[0][0] == y[0][0]);
        }
    }
}

/// Every setting the schema offers selects a capture; so do the defaults.
pub proof fn lemma_every_setting_selects()
    ensures
        every_setting_selects(spec_model_schema(), key_params(), spec_captures()),
        defaults_present(spec_model_schema(), key_params()),
        first_selected(spec_captures(), default_setting(spec_model_schema(), key_params())) is Some,
{
    let s = spec_model_schema();
    let t = spec_captures();
    assert forall|r: Seq<Seq<char>>| setting_of_choices(s, key_params(), r) implies
        (#[trigger] first_selected(t, r)) is Some by {
        let c0 = choices_at(s, 0);
        let i0 = choose|i: int| 0 <= i < c0.len() && c0[i].value@ == r[0];
        if i0 == 0 {
            lemma_selected_at(t, r, 0);
        } else if i0 == 1 {
            lemma_selected_at(t, r, 1);
        } else if i0 == 2 {
            lemma_selected_at(t, r, 2);
        } else if i0 == 3 {
            lemma_selected_at(t, r, 3);
        } else if i0 == 4 {
            lemma_selected_at(t, r, 4);
        } else if i0 == 5 {
            lemma_selected_at(t, r, 5);
        } else if i0 == 6 {
            lemma_selected_at(t, r, 6);
        }
    }
    let dflt = default_setting(s, key_params());
    assert(dflt =~= seq!["50"@]);
    lemma_selected_at(t, dflt, 3);
}

/// Every capture names a file that writes each value of its setting, and
/// no two captures name the same file.
pub proof fn lemma_capture_files()
    ensures
        files_name_settings(spec_captures()),
        files_distinct(spec_captures()),
{
    reveal_strlit("pedals/ehx_soul_food/gp_eh_soul_food_vol_10_treb_05_drive_00.nam");
    reveal_strlit("pedals/ehx_soul_food/gp_eh_soul_food_vol_10_treb_05_drive_25.nam");
    reveal_strlit("pedals/ehx_soul_food/gp_eh_soul_food_vol_10_treb_05_drive_40.nam");
    reveal_strlit("pedals/ehx_soul_food/gp_eh_soul_food_vol_10_treb_05_drive_50.nam");
    reveal_strlit("pedals/ehx_soul_food/gp_eh_soul_food_vol_10_treb_05_drive_60.nam");
    reveal_strlit("pedals/ehx_soul_food/gp_eh_soul_food_vol_10_treb_05_drive_75.nam");
    reveal_strlit("pedals/ehx_soul_food/gp_eh_soul_food_vol_10_treb_05_drive_100.nam");
    reveal_strlit("0");
    reveal_strlit("25");
    reveal_strlit("40");
    reveal_strlit("50");
    reveal_strlit("60");
    reveal_strlit("75");
    reveal_strlit("100");
    let t = spec_captures();
    assert forall|i: int, k: int| 0 <= i < t.len() && 0 <= k < t[i].keys.len() implies
        names_value(#[trigger] t[i].model_path@, #[trigger] t[i].keys[k]@) by {
        let path = t[i].model_path@;
        let key = t[i].keys[k]@;
        if i == 0 {
            if k == 0 {
                assert(path.subrange(42int, 42int + key.len()) =~= key);
            }
        } else if i == 1 {
            if k == 0 {
                assert(path.subrange(58int, 58int + key.len()) =~= key);
            }
        } else if i == 2 {
            if k == 0 {
                assert(path.subrange(58int, 58int + key.len()) =~= key);
            }
        } else if i == 3 {
            if k == 0 {
                assert(path.subrange(58int, 58int + key.len()) =~= key);
            }
        } else if i == 4 {
            if k == 0 {
                assert(path.subrange(58int, 58int + key.len()) =~= key);
            }
        } else if i == 5 {
            if k == 0 {
                assert(path.subrange(58int, 58int + key.len()) =~= key);
            }
        } else if i == 6 {
            if k == 0 {
                assert(path.subrange(58int, 58int + key.len()) =~= key);
            }
        }
    }
    assert forall|a: int, b: int| 0 <= a < b < 7 implies t[a].model_path@ != t[b].model_path@ by {
        if a == 0 && b == 1 {
            assert(t[0].model_path@[58] != t[1].model_path@[58]);
        } else if a == 0 && b == 2 {
            assert(t[0].model_path@[58] != t[2].model_path@[58]);
        } else if a == 0 && b == 3 {
            assert(t[0].model_path@[58] != t[3].model_path@[58]);
        } else if a == 0 && b == 4 {
            assert(t[0].model_path@[58] != t[4].model_path@[58]);
        } else if a == 0 && b == 5 {
            assert(t[0].model_path@[58] != t[5].model_path@[58]);
        } else if a == 0 && b == 6 {
            assert(t[0].model_path@.len() != t[6].model_path@.len());
        } else if a == 1 && b == 2 {
            assert(t[1].model_path@[58] != t[2].model_path@[58]);
        } else if a == 1 && b == 3 {
            assert(t[1].model_path@[58] != t[3].model_path@[58]);
        } else if a == 1 && b == 4 {
            assert(t[1].model_path@[58] != t[4].model_path@[58]);
        } else if a == 1 && b == 5 {
            assert(t[1].model_path@[58] != t[5].model_path@[58]);
        } else if a == 1 && b == 6 {
            assert(t[1].model_path@.len() != t[6].model_path@.len());
        } else if a == 2 && b == 3 {
            assert(t[2].model_path@[58] != t[3].model_path@[58]);
        } else if a == 2 && b == 4 {
            assert(t[2].model_path@[58] != t[4].model_path@[58]);
        } else if a == 2 && b == 5 {
            assert(t[2].model_path@[58] != t[5].model_path@[58]);
        } else if a == 2 && b == 6 {
            assert(t[2].model_path@.len() != t[6].model_path@.len());
        } else if a == 3 && b == 4 {
            assert(t[3].model_path@[58] != t[4].model_path@[58]);
        } else if a == 3 && b == 5 {
            assert(t[3].model_path@[58] != t[5].model_path@[58]);
        } else if a == 3 && b == 6 {
            assert(t[3].model_path@.len() != t[6].model_path@.len());
        } else if a == 4 && b == 5 {
            assert(t[4].model_path@[58] != t[5].model_path@[58]);
        } else if a == 4 && b == 6 {
            assert(t[4].model_path@.len() != t[6].model_path@.len());
        } else if a == 5 && b == 6 {
            assert(t[5].model_path@.len() != t[6].model_path@.len());
        }
    }
}

/// Every capture names a file that writes each value of its setting in its
/// own place, between the texts that mark that place in the file name.
pub proof fn lemma_files_write_settings()
    ensures
        forall|i: int| 0 <= i < spec_captures().len() ==> {
            &&& names_value((#[trigger] spec_captures()[i]).model_path@, "eb_05_drive_"@ + spec_captures()[i].keys[0]@)
        },
{
    reveal_strlit("eb_05_drive_");
    reveal_strlit("pedals/ehx_soul_food/gp_eh_soul_food_vol_10_treb_05_drive_00.nam");
    reveal_strlit("pedals/ehx_soul_food/gp_eh_soul_food_vol_10_treb_05_drive_25.nam");
    reveal_strlit("pedals/ehx_soul_food/gp_eh_soul_food_vol_10_treb_05_drive_40.nam");
    reveal_strlit("pedals/ehx_soul_food/gp_eh_soul_food_vol_10_treb_05_drive_50.nam");
    reveal_strlit("pedals/ehx_soul_food/gp_eh_soul_food_vol_10_treb_05_drive_60.nam");
    reveal_strlit("pedals/ehx_soul_food/gp_eh_soul_food_vol_10_treb_05_drive_75.nam");
    reveal_strlit("pedals/ehx_soul_food/gp_eh_soul_food_vol_10_treb_05_drive_100.nam");
    reveal_strlit("0");
    reveal_strlit("25");
    reveal_strlit("40");
    reveal_strlit("50");
    reveal_strlit("60");
    reveal_strlit("75");
    reveal_strlit("100");
    let t = spec_captures();
    assert forall|i: int| 0 <= i < t.len() implies {
        &&& names_value((#[trigger] t[i]).model_path@, "eb_05_drive_"@ + t[i].keys[0]@)
    } by {
        let path = t[i].model_path@;
        if i == 0 {
            let v0 = "eb_05_drive_"@ + t[i].keys[0]@;
            assert(path.subrange(46int, 46int + v0.len()) =~= v0);
        } else if i == 1 {
            let v0 = "eb_05_drive_"@ + t[i].keys[0]@;
            assert(path.subrange(46int, 46int + v0.len()) =~= v0);
        } else if i == 2 {
            let v0 = "eb_05_drive_"@ + t[i].keys[0]@;
            assert(path.subrange(46int, 46int + v0.len()) =~= v0);
        } else if i == 3 {
            let v0 = "eb_05_drive_"@ + t[i].keys[0]@;
            assert(path.subrange(46int, 46int + v0.len()) =~= v0);
        } else if i == 4 {
            let v0 = "eb_05_drive_"@ + t[i].keys[0]@;
            assert(path.subrange(46int, 46int + v0.len()) =~= v0);
        } else if i == 5 {
            let v0 = "eb_05_drive_"@ + t[i].keys[0]@;
            assert(path.subrange(46int, 46int + v0.len()) =~= v0);
        } else if i == 6 {
            let v0 = "eb_05_drive_"@ + t[i].keys[0]@;
            assert(path.subrange(46int, 46int + v0.len()) =~= v0);
        }
    }
}

} // verus!
