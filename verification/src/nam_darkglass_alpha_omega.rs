//! The "Alpha Omega Ultra" gain model (darkglass), played from neural captures, one per recorded setting.

use vstd::prelude::*;
use crate::capture::{
    names_value, files_name_settings, files_distinct,
    Capture, CaptureView, table_view, find_capture, first_selected, asset_text, lemma_first_selected,
    lemma_selected_at, captures_follow_schema, default_setting, defaults_present, captures_distinct,
    every_setting_selects, setting_of_choices,
};
use crate::error::GainError;
use crate::model::{BackendKind, Instruments, KnobLayoutEntry, ModelDefinition, ModelDefinitionView};
use crate::schema::{
    EffectType, EnumChoice, ModelSchema, ModelSchemaView, ParameterKindView, ParameterSpecView,
    choice, enum_parameter, parameters_view, schema_well_formed, choices_at, str_texts, is_choice,
    parameter_well_formed, choice_values, parameter_paths,
};
use crate::text::{concat, join, texts};

verus! {

pub const MODEL_ID: &'static str = "darkglass_alpha_omega";
pub const DISPLAY_NAME: &'static str = "Alpha Omega Ultra";
pub const BRAND: &'static str = "darkglass";

/// The setting a capture was recorded at.
#[derive(Clone, Copy, Debug, PartialEq, Eq)]
pub struct AlphaOmegaParams {
    pub channel: &'static str,
    pub gain: &'static str,
}

/// A capture of the pedal and the setting it was recorded at.
#[derive(Clone, Copy, Debug)]
pub struct AlphaOmegaCapture {
    pub params: AlphaOmegaParams,
    pub model_path: &'static str,
}

pub open spec fn spec_model_schema() -> ModelSchemaView {
    ModelSchemaView {
        effect_type: EffectType::Gain,
        model: MODEL_ID,
        display_name: DISPLAY_NAME,
        audio_mode: None,
        parameters: Some(seq![
            ParameterSpecView {
                path: "channel",
                label: "Channel",
                group: Some("Pedal"),
                kind: ParameterKindView::Enum {
                    default: Some("omega"),
                    choices: seq![
                        EnumChoice { value: "alpha", label: "Alpha" },
                        EnumChoice { value: "omega", label: "Omega" },
                    ],
                },
            },
            ParameterSpecView {
                path: "gain",
                label: "Gain",
                group: Some("Pedal"),
                kind: ParameterKindView::Enum {
                    default: Some("5"),
                    choices: seq![
                        EnumChoice { value: "2", label: "2" },
                        EnumChoice { value: "5", label: "5" },
                        EnumChoice { value: "8", label: "8" },
                        EnumChoice { value: "10", label: "10" },
                    ],
                },
            },
        ]),
    }
}

/// The parameters of the model.
pub fn model_schema() -> (schema: ModelSchema)
    ensures
        schema@ == spec_model_schema(),
{
    let parameters = vec![
        enum_parameter(
            "channel",
            "Channel",
            Some("Pedal"),
            Some("omega"),
            vec![
                choice("alpha", "Alpha"),
                choice("omega", "Omega"),
            ],
        ),
        enum_parameter(
            "gain",
            "Gain",
            Some("Pedal"),
            Some("5"),
            vec![
                choice("2", "2"),
                choice("5", "5"),
                choice("8", "8"),
                choice("10", "10"),
            ],
        ),
    ];
    assert(parameters_view(parameters@) =~= spec_model_schema().parameters.unwrap());
    ModelSchema {
        effect_type: EffectType::Gain,
        model: MODEL_ID,
        display_name: DISPLAY_NAME,
        audio_mode: None,
        parameters: Some(parameters),
    }
}

/// The positions, in the schema, of the parameters that select a capture.
pub open spec fn key_params() -> Seq<int> {
    seq![0, 1]
}

pub open spec fn spec_captures() -> Seq<CaptureView> {
    seq![
        CaptureView { keys: seq!["alpha", "2"], model_path: "pedals/darkglass_alpha_omega/alpha_omega_alpha_g2.nam" },
        CaptureView { keys: seq!["alpha", "5"], model_path: "pedals/darkglass_alpha_omega/alpha_omega_alpha_g5.nam" },
        CaptureView { keys: seq!["alpha", "8"], model_path: "pedals/darkglass_alpha_omega/alpha_omega_alpha_g8.nam" },
        CaptureView { keys: seq!["alpha", "10"], model_path: "pedals/darkglass_alpha_omega/alpha_omega_alpha_g10.nam" },
        CaptureView { keys: seq!["omega", "2"], model_path: "pedals/darkglass_alpha_omega/alpha_omega_omega_g2.nam" },
        CaptureView { keys: seq!["omega", "5"], model_path: "pedals/darkglass_alpha_omega/alpha_omega_omega_g5.nam" },
        CaptureView { keys: seq!["omega", "8"], model_path: "pedals/darkglass_alpha_omega/alpha_omega_omega_g8.nam" },
        CaptureView { keys: seq!["omega", "10"], model_path: "pedals/darkglass_alpha_omega/alpha_omega_omega_g10.nam" },
    ]
}

/// The captures of the pedal, each with its (channel, gain) setting.
pub fn captures() -> (table: Vec<Capture>)
    ensures
        table_view(table@) == spec_captures(),
{
    let table = vec![
        Capture::two("alpha", "2", "pedals/darkglass_alpha_omega/alpha_omega_alpha_g2.nam"),
        Capture::two("alpha", "5", "pedals/darkglass_alpha_omega/alpha_omega_alpha_g5.nam"),
        Capture::two("alpha", "8", "pedals/darkglass_alpha_omega/alpha_omega_alpha_g8.nam"),
        Capture::two("alpha", "10", "pedals/darkglass_alpha_omega/alpha_omega_alpha_g10.nam"),
        Capture::two("omega", "2", "pedals/darkglass_alpha_omega/alpha_omega_omega_g2.nam"),
        Capture::two("omega", "5", "pedals/darkglass_alpha_omega/alpha_omega_omega_g5.nam"),
        Capture::two("omega", "8", "pedals/darkglass_alpha_omega/alpha_omega_omega_g8.nam"),
        Capture::two("omega", "10", "pedals/darkglass_alpha_omega/alpha_omega_omega_g10.nam"),
    ];
    assert(table_view(table@) =~= spec_captures());
    table
}

/// What the model reports for a setting at which no capture was recorded.
pub open spec fn unsupported_message(channel: Seq<char>, gain: Seq<char>) -> Seq<char> {
    concat(seq!["gain model '"@, MODEL_ID@, "' does not support channel='"@, channel, "' gain='"@, gain, "'"@])
}

/// The index of the capture that (channel, gain) selects.
pub open spec fn selection(channel: Seq<char>, gain: Seq<char>) -> Option<int> {
    first_selected(spec_captures(), seq![channel, gain])
}

fn unsupported(channel: &str, gain: &str) -> (e: GainError)
    ensures
        e matches GainError::UnsupportedSetting(m) && m@ == unsupported_message(channel@, gain@),
{
    let parts = vec!["gain model '", MODEL_ID, "' does not support channel='", channel, "' gain='", gain, "'"];
    let m = join(&parts);
    assert(texts(parts@) =~= seq!["gain model '"@, MODEL_ID@, "' does not support channel='"@, channel@, "' gain='"@, gain@, "'"@]);
    GainError::UnsupportedSetting(m)
}

/// The capture recorded at (channel, gain).
pub fn resolve_capture(channel: &str, gain: &str) -> (selected: Result<AlphaOmegaCapture, GainError>)
    ensures
        match selection(channel@, gain@) {
            Some(i) => selected matches Ok(c) && c.params.channel == spec_captures()[i].keys[0] && c.params.gain == spec_captures()[i].keys[1]
                && c.model_path == spec_captures()[i].model_path,
            None => selected matches Err(GainError::UnsupportedSetting(m)) && m@ == unsupported_message(channel@, gain@),
        },
{
    let table = captures();
    let request = vec![channel, gain];
    assert(texts(request@) =~= seq![channel@, gain@]);
    match find_capture(&table, &request) {
        Some(i) => {
            proof {
                lemma_first_selected(spec_captures(), seq![channel@, gain@]);
            }
            let c = &table[i];
            Ok(AlphaOmegaCapture { params: AlphaOmegaParams { channel: c.keys[0], gain: c.keys[1] }, model_path: c.model_path })
        },
        None => Err(unsupported(channel, gain)),
    }
}

/// Accepts (channel, gain) exactly where a capture was recorded there.
pub fn validate_params(channel: &str, gain: &str) -> (checked: Result<(), GainError>)
    ensures
        match selection(channel@, gain@) {
            Some(i) => checked is Ok,
            None => checked matches Err(GainError::UnsupportedSetting(m)) && m@ == unsupported_message(channel@, gain@),
        },
{
    match resolve_capture(channel, gain) {
        Ok(_) => Ok(()),
        Err(e) => Err(e),
    }
}

/// Names the capture file that (channel, gain) selects.
pub fn asset_summary(channel: &str, gain: &str) -> (summary: Result<String, GainError>)
    ensures
        match selection(channel@, gain@) {
            Some(i) => summary matches Ok(s) && s@ == asset_text(spec_captures()[i].model_path@),
            None => summary matches Err(GainError::UnsupportedSetting(m)) && m@ == unsupported_message(channel@, gain@),
        },
{
    match resolve_capture(channel, gain) {
        Ok(c) => {
            let parts = vec!["model='", c.model_path, "'"];
            assert(texts(parts@) =~= seq!["model='"@, c.model_path@, "'"@]);
            Ok(join(&parts))
        },
        Err(e) => Err(e),
    }
}

pub open spec fn spec_model_definition() -> ModelDefinitionView {
    ModelDefinitionView {
        id: MODEL_ID,
        display_name: DISPLAY_NAME,
        brand: BRAND,
        backend_kind: BackendKind::Nam,
        supported_instruments: Instruments::GuitarBass,
        knob_layout: seq![],
    }
}

/// What the registry lists for this model.
pub fn model_definition() -> (d: ModelDefinition)
    ensures
        d@ == spec_model_definition(),
{
    let knob_layout: Vec<KnobLayoutEntry> = Vec::new();
    let d = ModelDefinition {
        id: MODEL_ID,
        display_name: DISPLAY_NAME,
        brand: BRAND,
        backend_kind: BackendKind::Nam,
        supported_instruments: Instruments::GuitarBass,
        knob_layout,
    };
    assert(d@.knob_layout =~= spec_model_definition().knob_layout);
    d
}

/// The schema is sound: every parameter is, and no two share a path.
pub proof fn lemma_schema_well_formed()
    ensures
        schema_well_formed(spec_model_schema()),
{
    reveal_strlit("channel");
    reveal_strlit("gain");
    reveal_strlit("alpha");
    reveal_strlit("omega");
    reveal_strlit("2");
    reveal_strlit("5");
    reveal_strlit("8");
    reveal_strlit("10");
    let ps = spec_model_schema().parameters.unwrap();
    assert forall|i: int| 0 <= i < ps.len() implies parameter_well_formed(#[trigger] ps[i]) by {
        if ps[i].kind is Enum {
            let vs = choice_values(ps[i].kind->Enum_choices);
            assert forall|a: int, b: int| 0 <= a < b < vs.len() implies vs[a] != vs[b] by {
                if vs[a] == vs[b] {
                    assert(vs[a].len() == vs[b].len());
                    assert(vs[a][0] == vs[b][0]);
                }
            }
        }
        if i == 0 {
            assert(ps[0].kind->Enum_choices[1].value@ == "omega"@);
        } else if i == 1 {
            assert(ps[1].kind->Enum_choices[1].value@ == "5"@);
        }
    }
    let paths = parameter_paths(ps);
    assert forall|a: int, b: int| 0 <= a < b < paths.len() implies paths[a] != paths[b] by {
        if paths[a] == paths[b] {
            assert(paths[a].len() == paths[b].len());
        }
    }
}

/// Each capture is recorded at choices the schema offers.
pub proof fn lemma_captures_follow_schema()
    ensures
        captures_follow_schema(spec_model_schema(), key_params(), spec_captures()),
{
    let s = spec_model_schema();
    let t = spec_captures();
    assert forall|i: int, k: int| 0 <= i < t.len() && 0 <= k < key_params().len() implies {
        &&& #[trigger] t[i].keys.len() == key_params().len()
        &&& is_choice(choices_at(s, key_params()[k]), #[trigger] t[i].keys[k]@)
    } by {
        let cs = choices_at(s, key_params()[k]);
        if k == 0 {
            if t[i].keys[0] == "alpha" {
                assert(cs[0].value@ == t[i].keys[k]@);
            } else {
                assert(cs[1].value@ == t[i].keys[k]@);
            }
        } else if k == 1 {
            if t[i].keys[1] == "2" {
                assert(cs[0].value@ == t[i].keys[k]@);
            } else if t[i].keys[1] == "5" {
                assert(cs[1].value@ == t[i].keys[k]@);
            } else if t[i].keys[1] == "8" {
                assert(cs[2].value@ == t[i].keys[k]@);
            } else {
                assert(cs[3].value@ == t[i].keys[k]@);
            }
        }
    }
}

/// No two captures share a setting.
pub proof fn lemma_captures_distinct()
    ensures
        captures_distinct(spec_captures()),
{
    reveal_strlit("alpha");
    reveal_strlit("2");
    reveal_strlit("5");
    reveal_strlit("8");
    reveal_strlit("10");
    reveal_strlit("omega");
    let t = spec_captures();
    assert forall|a: int, b: int| 0 <= a < b < t.len() implies str_texts(t[a].keys) != str_texts(t[b].keys) by {
        let x = str_texts(t[a].keys);
        let y = str_texts(t[b].keys);
        if x == y {
            assert(x[0].len() == y[0].len());
            assert(x[0][0] == y[0][0]);
            assert(x[1].len() == y[1].len());
            assert(x[1][0] == y[1][0]);
        }
    }
}

/// Every setting the schema offers selects a capture; so do the defaults.
pub proof fn lemma_every_setting_selects()
    ensures
        every_setting_selects(spec_model_schema(), key_params(), spec_captures()),
        defaults_present(spec_model_schema(), key_params()),
        first_selected(spec_captures(), default_setting(spec_model_schema(), key_params())) is Some,
{
    let s = spec_model_schema();
    let t = spec_captures();
    assert forall|r: Seq<Seq<char>>| setting_of_choices(s, key_params(), r) implies
        (#[trigger] first_selected(t, r)) is Some by {
        let c0 = choices_at(s, 0);
        let i0 = choose|i: int| 0 <= i < c0.len() && c0[i].value@ == r[0];
        let c1 = choices_at(s, 1);
        let i1 = choose|i: int| 0 <= i < c1.len() && c1[i].value@ == r[1];
        if i0 == 0 && i1 == 0 {
            lemma_selected_at(t, r, 0);
        } else if i0 == 0 && i1 == 1 {
            lemma_selected_at(t, r, 1);
        } else if i0 == 0 && i1 == 2 {
            lemma_selected_at(t, r, 2);
        } else if i0 == 0 && i1 == 3 {
            lemma_selected_at(t, r, 3);
        } else if i0 == 1 && i1 == 0 {
            lemma_selected_at(t, r, 4);
        } else if i0 == 1 && i1 == 1 {
            lemma_selected_at(t, r, 5);
        } else if i0 == 1 && i1 == 2 {
            lemma_selected_at(t, r, 6);
        } else if i0 == 1 && i1 == 3 {
            lemma_selected_at(t, r, 7);
        }
    }
    let dflt = default_setting(s, key_params());
    assert(dflt =~= seq!["omega"@, "5"@]);
    lemma_selected_at(t, dflt, 5);
}

/// Every capture names a file that writes each value of its setting, and
/// no two captures name the same file.
pub proof fn lemma_capture_files()
    ensures
        files_name_settings(spec_captures()),
        files_distinct(spec_captures()),
{
    reveal_strlit("pedals/darkglass_alpha_omega/alpha_omega_alpha_g2.nam");
    reveal_strlit("pedals/darkglass_alpha_omega/alpha_omega_alpha_g5.nam");
    reveal_strlit("pedals/darkglass_alpha_omega/alpha_omega_alpha_g8.nam");
    reveal_strlit("pedals/darkglass_alpha_omega/alpha_omega_alpha_g10.nam");
    reveal_strlit("pedals/darkglass_alpha_omega/alpha_omega_omega_g2.nam");
    reveal_strlit("pedals/darkglass_alpha_omega/alpha_omega_omega_g5.nam");
    reveal_strlit("pedals/darkglass_alpha_omega/alpha_omega_omega_g8.nam");
    reveal_strlit("pedals/darkglass_alpha_omega/alpha_omega_omega_g10.nam");
    reveal_strlit("alpha");
    reveal_strlit("2");
    reveal_strlit("5");
    reveal_strlit("8");
    reveal_strlit("10");
    reveal_strlit("omega");
    let t = spec_captures();
    assert forall|i: int, k: int| 0 <= i < t.len() && 0 <= k < t[i].keys.len() implies
        names_value(#[trigger] t[i].model_path@, #[trigger] t[i].keys[k]@) by {
        let path = t[i].model_path@;
        let key = t[i].keys[k]@;
        if i == 0 {
            if k == 0 {
                assert(path.subrange(29int, 29int + key.len()) =~= key);
            } else if k == 1 {
                assert(path.subrange(48int, 48int + key.len()) =~= key);
            }
        } else if i == 1 {
            if k == 0 {
                assert(path.subrange(29int, 29int + key.len()) =~= key);
            } else if k == 1 {
                assert(path.subrange(48int, 48int + key.len()) =~= key);
            }
        } else if i == 2 {
            if k == 0 {
                assert(path.subrange(29int, 29int + key.len()) =~= key);
            } else if k == 1 {
                assert(path.subrange(48int, 48int + key.len()) =~= key);
            }
        } else if i == 3 {
            if k == 0 {
                assert(path.subrange(29int, 29int + key.len()) =~= key);
            } else if k == 1 {
                assert(path.subrange(48int, 48int + key.len()) =~= key);
            }
        } else if i == 4 {
            if k == 0 {
                assert(path.subrange(35int, 35int + key.len()) =~= key);
            } else if k == 1 {
                assert(path.subrange(48int, 48int + key.len()) =~= key);
            }
        } else if i == 5 {
            if k == 0 {
                assert(path.subrange(35int, 35int + key.len()) =~= key);
            } else if k == 1 {
                assert(path.subrange(48int, 48int + key.len()) =~= key);
            }
        } else if i == 6 {
            if k == 0 {
                assert(path.subrange(35int, 35int + key.len()) =~= key);
            } else if k == 1 {
                assert(path.subrange(48int, 48int + key.len()) =~= key);
            }
        } else if i == 7 {
            if k == 0 {
                assert(path.subrange(35int, 35int + key.len()) =~= key);
            } else if k == 1 {
                assert(path.subrange(48int, 48int + key.len()) =~= key);
            }
        }
    }
    assert forall|a: int, b: int| 0 <= a < b < 8 implies t[a].model_path@ != t[b].model_path@ by {
        if a == 0 && b == 1 {
            assert(t[0].model_path@[48] != t[1].model_path@[48]);
        } else if a == 0 && b == 2 {
            assert(t[0].model_path@[48] != t[2].model_path@[48]);
        } else if a == 0 && b == 3 {
            assert(t[0].model_path@.len() != t[3].model_path@.len());
        } else if a == 0 && b == 4 {
            assert(t[0].model_path@[41] != t[4].model_path@[41]);
        } else if a == 0 && b == 5 {
            assert(t[0].model_path@[41] != t[5].model_path@[41]);
        } else if a == 0 && b == 6 {
            assert(t[0].model_path@[41] != t[6].model_path@[41]);
        } else if a == 0 && b == 7 {
            assert(t[0].model_path@.len() != t[7].model_path@.len());
        } else if a == 1 && b == 2 {
            assert(t[1].model_path@[48] != t[2].model_path@[48]);
        } else if a == 1 && b == 3 {
            assert(t[1].model_path@.len() != t[3].model_path@.len());
        } else if a == 1 && b == 4 {
            assert(t[1].model_path@[41] != t[4].model_path@[41]);
        } else if a == 1 && b == 5 {
            assert(t[1].model_path@[41] != t[5].model_path@[41]);
        } else if a == 1 && b == 6 {
            assert(t[1].model_path@[41] != t[6].model_path@[41]);
        } else if a == 1 && b == 7 {
            assert(t[1].model_path@.len() != t[7].model_path@.len());
        } else if a == 2 && b == 3 {
            assert(t[2].model_path@.len() != t[3].model_path@.len());
        } else if a == 2 && b == 4 {
            assert(t[2].model_path@[41] != t[4].model_path@[41]);
        } else if a == 2 && b == 5 {
            assert(t[2].model_path@[41] != t[5].model_path@[41]);
        } else if a == 2 && b == 6 {
            assert(t[2].model_path@[41] != t[6].model_path@[41]);
        } else if a == 2 && b == 7 {
            assert(t[2].model_path@.len() != t[7].model_path@.len());
        } else if a == 3 && b == 4 {
            assert(t[3].model_path@.len() != t[4].model_path@.len());
        } else if a == 3 && b == 5 {
            assert(t[3].model_path@.len() != t[5].model_path@.len());
        } else if a == 3 && b == 6 {
            assert(t[3].model_path@.len() != t[6].model_path@.len());
        } else if a == 3 && b == 7 {
            assert(t[3].model_path@[41] != t[7].model_path@[41]);
        } else if a == 4 && b == 5 {
            assert(t[4].model_path@[48] != t[5].model_path@[48]);
        } else if a == 4 && b == 6 {
            assert(t[4].model_path@[48] != t[6].model_path@[48]);
        } else if a == 4 && b == 7 {
            assert(t[4].model_path@.len() != t[7].model_path@.len());
        } else if a == 5 && b == 6 {
            assert(t[5].model_path@[48] != t[6].model_path@[48]);
        } else if a == 5 && b == 7 {
            assert(t[5].model_path@.len() != t[7].model_path@.len());
        } else if a == 6 && b == 7 {
            assert(t[6].model_path@.len() != t[7].model_path@.len());
        }
    }
}

/// The file recorded at a setting, as the recording names it.
pub open spec fn recorded_file(channel: Seq<char>, gain: Seq<char>) -> Seq<char> {
    "pedals/darkglass_alpha_omega/alpha_omega_"@ + channel + "_g"@ + gain + ".nam"@
}

/// Every capture names the file recorded at its own setting.
pub proof fn lemma_captures_name_their_setting()
    ensures
        forall|i: int| 0 <= i < spec_captures().len() ==>
            (#[trigger] spec_captures()[i]).model_path@ == recorded_file(spec_captures()[i].keys[0]@, spec_captures()[i].keys[1]@),
{
    reveal_strlit("pedals/darkglass_alpha_omega/alpha_omega_");
    reveal_strlit("_g");
    reveal_strlit(".nam");
    reveal_strlit("pedals/darkglass_alpha_omega/alpha_omega_alpha_g2.nam");
    reveal_strlit("pedals/darkglass_alpha_omega/alpha_omega_alpha_g5.nam");
    reveal_strlit("pedals/darkglass_alpha_omega/alpha_omega_alpha_g8.nam");
    reveal_strlit("pedals/darkglass_alpha_omega/alpha_omega_alpha_g10.nam");
    reveal_strlit("pedals/darkglass_alpha_omega/alpha_omega_omega_g2.nam");
    reveal_strlit("pedals/darkglass_alpha_omega/alpha_omega_omega_g5.nam");
    reveal_strlit("pedals/darkglass_alpha_omega/alpha_omega_omega_g8.nam");
    reveal_strlit("pedals/darkglass_alpha_omega/alpha_omega_omega_g10.nam");
    reveal_strlit("alpha");
    reveal_strlit("2");
    reveal_strlit("5");
    reveal_strlit("8");
    reveal_strlit("10");
    reveal_strlit("omega");
    let t = spec_captures();
    assert forall|i: int| 0 <= i < t.len() implies
        (#[trigger] t[i]).model_path@ == recorded_file(t[i].keys[0]@, t[i].keys[1]@) by {
        if i == 0 {
            assert(t[i].model_path@ =~= recorded_file("alpha"@, "2"@));
        } else if i == 1 {
            assert(t[i].model_path@ =~= recorded_file("alpha"@, "5"@));
        } else if i == 2 {
            assert(t[i].model_path@ =~= recorded_file("alpha"@, "8"@));
        } else if i == 3 {
            assert(t[i].model_path@ =~= recorded_file("alpha"@, "10"@));
        } else if i == 4 {
            assert(t[i].model_path@ =~= recorded_file("omega"@, "2"@));
        } else if i == 5 {
            assert(t[i].model_path@ =~= recorded_file("omega"@, "5"@));
        } else if i == 6 {
            assert(t[i].model_path@ =~= recorded_file("omega"@, "8"@));
        } else if i == 7 {
            assert(t[i].model_path@ =~= recorded_file("omega"@, "10"@));
        }
    }
}

/// A setting that selects a capture selects the file recorded at that setting.
pub proof fn lemma_selected_file(channel: Seq<char>, gain: Seq<char>)
    ensures
        selection(channel, gain) matches Some(i) ==> spec_captures()[i].model_path@ == recorded_file(channel, gain),
{
    lemma_first_selected(spec_captures(), seq![channel, gain]);
    lemma_captures_name_their_setting();
    if let Some(i) = selection(channel, gain) {
        assert(spec_captures()[i].model_path@ == recorded_file(spec_captures()[i].keys[0]@, spec_captures()[i].keys[1]@));
    }
}

} // verus!
