//! The "Driva" gain model (artyfx), run as an LV2 plugin.

use vstd::prelude::*;
use crate::schema::{EffectType, ModelSchema, ModelSchemaView, ParameterKindView, ParameterSpecView, parameters_view, schema_well_formed, parameter_well_formed, parameter_paths, AudioMode, EnumChoice, choice, enum_parameter, choice_values, ParameterUnit, float_parameter};
use crate::model::{BackendKind, Instruments, KnobLayoutEntry, ModelDefinition, ModelDefinitionView};
use crate::text::{concat, join, texts};
use crate::text::str_eq;
use crate::schema::choices_at;

verus! {

pub const MODEL_ID: &'static str = "lv2_driva";
pub const DISPLAY_NAME: &'static str = "Driva";
pub const BRAND: &'static str = "artyfx";

pub open spec fn spec_model_schema() -> ModelSchemaView {
    ModelSchemaView {
        effect_type: EffectType::Gain,
        model: MODEL_ID,
        display_name: DISPLAY_NAME,
        audio_mode: Some(AudioMode::DualMono),
        parameters: Some(seq![
            ParameterSpecView {
                path: "tone",
                label: "Tone",
                group: None,
                kind: ParameterKindView::Enum {
                    default: Some("odie"),
                    choices: seq![
                        EnumChoice { value: "odie", label: "Odie" },
                        EnumChoice { value: "grunge", label: "Grunge" },
                        EnumChoice { value: "distort", label: "Distort" },
                        EnumChoice { value: "ratty", label: "Ratty" },
                        EnumChoice { value: "classic", label: "Classic" },
                        EnumChoice { value: "morbid", label: "Morbid" },
                        EnumChoice { value: "metal", label: "Metal" },
                    ],
                },
            },
            ParameterSpecView {
                path: "distortion",
                label: "Distortion",
                group: None,
                kind: ParameterKindView::Float {
                    default: Some(0),
                    min: 0,
                    max: 10000,
                    step: 100,
                    unit: ParameterUnit::Percent,
                },
            },
        ]),
    }
}

/// The parameters of the model.
pub fn model_schema() -> (schema: ModelSchema)
    ensures
        schema@ == spec_model_schema(),
{
    let parameters = vec![
        enum_parameter(
            "tone",
            "Tone",
            None,
            Some("odie"),
            vec![
                choice("odie", "Odie"),
                choice("grunge", "Grunge"),
                choice("distort", "Distort"),
                choice("ratty", "Ratty"),
                choice("classic", "Classic"),
                choice("morbid", "Morbid"),
                choice("metal", "Metal"),
            ],
        ),
        float_parameter(
            "distortion",
            "Distortion",
            None,
            Some(0),
            0,
            10000,
            100,
            ParameterUnit::Percent,
        ),
    ];
    assert(parameters_view(parameters@) =~= spec_model_schema().parameters.unwrap());
    ModelSchema {
        effect_type: EffectType::Gain,
        model: MODEL_ID,
        display_name: DISPLAY_NAME,
        audio_mode: Some(AudioMode::DualMono),
        parameters: Some(parameters),
    }
}

pub open spec fn spec_model_definition() -> ModelDefinitionView {
    ModelDefinitionView {
        id: MODEL_ID,
        display_name: DISPLAY_NAME,
        brand: BRAND,
        backend_kind: BackendKind::Lv2,
        supported_instruments: Instruments::GuitarBass,
        knob_layout: seq![],
    }
}

/// What the registry lists for this model.
pub fn model_definition() -> (d: ModelDefinition)
    ensures
        d@ == spec_model_definition(),
{
    let knob_layout: Vec<KnobLayoutEntry> = Vec::new();
    let d = ModelDefinition {
        id: MODEL_ID,
        display_name: DISPLAY_NAME,
        brand: BRAND,
        backend_kind: BackendKind::Lv2,
        supported_instruments: Instruments::GuitarBass,
        knob_layout,
    };
    assert(d@.knob_layout =~= spec_model_definition().knob_layout);
    d
}

/// What the model reports as its asset: the plugin it runs.
pub open spec fn asset_text() -> Seq<char> {
    concat(seq!["lv2='"@, MODEL_ID@, "'"@])
}

/// Names the plugin the model runs; it needs no parameter.
pub fn asset_summary() -> (summary: String)
    ensures
        summary@ == asset_text(),
{
    let parts = vec!["lv2='", MODEL_ID, "'"];
    assert(texts(parts@) =~= seq!["lv2='"@, MODEL_ID@, "'"@]);
    join(&parts)
}

/// The value the plugin's `tone` port takes for a choice of `tone`: the
/// choice's place in the schema. Any other text counts as "odie".
pub open spec fn spec_tone_port_value(tone: Seq<char>) -> u8 {
    if tone == "grunge"@ {
        1
    } else if tone == "distort"@ {
        2
    } else if tone == "ratty"@ {
        3
    } else if tone == "classic"@ {
        4
    } else if tone == "morbid"@ {
        5
    } else if tone == "metal"@ {
        6
    } else {
        0
    }
}

/// The port value for `tone`, as the plugin is driven.
pub fn tone_port_value(tone: &str) -> (value: u8)
    ensures
        value == spec_tone_port_value(tone@),
{
    if str_eq(tone, "grunge") {
        1
    } else if str_eq(tone, "distort") {
        2
    } else if str_eq(tone, "ratty") {
        3
    } else if str_eq(tone, "classic") {
        4
    } else if str_eq(tone, "morbid") {
        5
    } else if str_eq(tone, "metal") {
        6
    } else {
        0
    }
}

/// Each choice of `tone` drives the port with its place among the choices.
pub proof fn lemma_tone_values_follow_choices()
    ensures
        forall|i: int| 0 <= i < choices_at(spec_model_schema(), 0).len() ==>
            spec_tone_port_value(#[trigger] choices_at(spec_model_schema(), 0)[i].value@) == i,
{
    reveal_strlit("odie");
    reveal_strlit("grunge");
    reveal_strlit("distort");
    reveal_strlit("ratty");
    reveal_strlit("classic");
    reveal_strlit("morbid");
    reveal_strlit("metal");
    assert("odie"@.len() != "grunge"@.len());
    assert("odie"@.len() != "distort"@.len());
    assert("odie"@.len() != "ratty"@.len());
    assert("odie"@.len() != "classic"@.len());
    assert("odie"@.len() != "morbid"@.len());
    assert("odie"@.len() != "metal"@.len());
    assert("grunge"@.len() != "distort"@.len());
    assert("grunge"@.len() != "ratty"@.len());
    assert("grunge"@.len() != "classic"@.len());
    assert("grunge"@[0] != "morbid"@[0]);
    assert("grunge"@.len() != "metal"@.len());
    assert("distort"@.len() != "ratty"@.len());
    assert("distort"@[0] != "classic"@[0]);
    assert("distort"@.len() != "morbid"@.len());
    assert("distort"@.len() != "metal"@.len());
    assert("ratty"@.len() != "classic"@.len());
    assert("ratty"@.len() != "morbid"@.len());
    assert("ratty"@[0] != "metal"@[0]);
    assert("classic"@.len() != "morbid"@.len());
    assert("classic"@.len() != "metal"@.len());
    assert("morbid"@.len() != "metal"@.len());
}

/// The schema is sound: every parameter is, and no two share a path.
pub proof fn lemma_schema_well_formed()
    ensures
        schema_well_formed(spec_model_schema()),
{
    reveal_strlit("tone");
    reveal_strlit("distortion");
    reveal_strlit("odie");
    reveal_strlit("grunge");
    reveal_strlit("distort");
    reveal_strlit("ratty");
    reveal_strlit("classic");
    reveal_strlit("morbid");
    reveal_strlit("metal");
    let ps = spec_model_schema().parameters.unwrap();
    assert forall|i: int| 0 <= i < ps.len() implies parameter_well_formed(#[trigger] ps[i]) by {
        if ps[i].kind is Enum {
            let vs = choice_values(ps[i].kind->Enum_choices);
            assert forall|a: int, b: int| 0 <= a < b < vs.len() implies vs[a] != vs[b] by {
                if vs[a] == vs[b] {
                    assert(vs[a].len() == vs[b].len());
                    assert(vs[a][0] == vs[b][0]);
                }
            }
        }
        if i == 0 {
            assert(ps[0].kind->Enum_choices[0].value@ == "odie"@);
        }
    }
    let paths = parameter_paths(ps);
    assert forall|a: int, b: int| 0 <= a < b < paths.len() implies paths[a] != paths[b] by {
        if paths[a] == paths[b] {
            assert(paths[a].len() == paths[b].len());
        }
    }
}

} // verus!
