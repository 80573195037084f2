//! The "OJD" gain model (schrammel), run as an LV2 plugin.

use vstd::prelude::*;
use crate::schema::{EffectType, ModelSchema, ModelSchemaView, ParameterKindView, ParameterSpecView, parameters_view, schema_well_formed, parameter_well_formed, parameter_paths, AudioMode, EnumChoice, choice, enum_parameter, choice_values, ParameterUnit, float_parameter};
use crate::model::{BackendKind, Instruments, KnobLayoutEntry, ModelDefinition, ModelDefinitionView};
use crate::text::{concat, join, texts};
use crate::text::str_eq;
use crate::schema::choices_at;

verus! {

pub const MODEL_ID: &'static str = "lv2_ojd";
pub const DISPLAY_NAME: &'static str = "OJD";
pub const BRAND: &'static str = "schrammel";

pub open spec fn spec_model_schema() -> ModelSchemaView {
    ModelSchemaView {
        effect_type: EffectType::Gain,
        model: MODEL_ID,
        display_name: DISPLAY_NAME,
        audio_mode: Some(AudioMode::DualMono),
        parameters: Some(seq![
            ParameterSpecView {
                path: "drive",
                label: "Drive",
                group: None,
                kind: ParameterKindView::Float {
                    default: Some(1700),
                    min: 0,
                    max: 10000,
                    step: 100,
                    unit: ParameterUnit::Percent,
                },
            },
            ParameterSpecView {
                path: "tone",
                label: "Tone",
                group: None,
                kind: ParameterKindView::Float {
                    default: Some(5000),
                    min: 0,
                    max: 10000,
                    step: 100,
                    unit: ParameterUnit::Percent,
                },
            },
            ParameterSpecView {
                path: "volume",
                label: "Volume",
                group: None,
                kind: ParameterKindView::Float {
                    default: Some(8400),
                    min: 0,
                    max: 10000,
                    step: 100,
                    unit: ParameterUnit::Percent,
                },
            },
            ParameterSpecView {
                path: "hp_lp",
                label: "HP / LP",
                group: None,
                kind: ParameterKindView::Enum {
                    default: Some("lp"),
                    choices: seq![
                        EnumChoice { value: "lp", label: "LP" },
                        EnumChoice { value: "hp", label: "HP" },
                    ],
                },
            },
        ]),
    }
}

/// The parameters of the model.
pub fn model_schema() -> (schema: ModelSchema)
    ensures
        schema@ == spec_model_schema(),
{
    let parameters = vec![
        float_parameter(
            "drive",
            "Drive",
            None,
            Some(1700),
            0,
            10000,
            100,
            ParameterUnit::Percent,
        ),
        float_parameter(
            "tone",
            "Tone",
            None,
            Some(5000),
            0,
            10000,
            100,
            ParameterUnit::Percent,
        ),
        float_parameter(
            "volume",
            "Volume",
            None,
            Some(8400),
            0,
            10000,
            100,
            ParameterUnit::Percent,
        ),
        enum_parameter(
            "hp_lp",
            "HP / LP",
            None,
            Some("lp"),
            vec![
                choice("lp", "LP"),
                choice("hp", "HP"),
            ],
        ),
    ];
    assert(parameters_view(parameters@) =~= spec_model_schema().parameters.unwrap());
    ModelSchema {
        effect_type: EffectType::Gain,
        model: MODEL_ID,
        display_name: DISPLAY_NAME,
        audio_mode: Some(AudioMode::DualMono),
        parameters: Some(parameters),
    }
}

pub open spec fn spec_model_definition() -> ModelDefinitionView {
    ModelDefinitionView {
        id: MODEL_ID,
        display_name: DISPLAY_NAME,
        brand: BRAND,
        backend_kind: BackendKind::Lv2,
        supported_instruments: Instruments::GuitarBass,
        knob_layout: seq![],
    }
}

/// What the registry lists for this model.
pub fn model_definition() -> (d: ModelDefinition)
    ensures
        d@ == spec_model_definition(),
{
    let knob_layout: Vec<KnobLayoutEntry> = Vec::new();
    let d = ModelDefinition {
        id: MODEL_ID,
        display_name: DISPLAY_NAME,
        brand: BRAND,
        backend_kind: BackendKind::Lv2,
        supported_instruments: Instruments::GuitarBass,
        knob_layout,
    };
    assert(d@.knob_layout =~= spec_model_definition().knob_layout);
    d
}

/// What the model reports as its asset: the plugin it runs.
pub open spec fn asset_text() -> Seq<char> {
    concat(seq!["lv2='"@, MODEL_ID@, "'"@])
}

/// Names the plugin the model runs; it needs no parameter.
pub fn asset_summary() -> (summary: String)
    ensures
        summary@ == asset_text(),
{
    let parts = vec!["lv2='", MODEL_ID, "'"];
    assert(texts(parts@) =~= seq!["lv2='"@, MODEL_ID@, "'"@]);
    join(&parts)
}

/// The value the plugin's `hp_lp` port takes for a choice of `hp_lp`: the
/// choice's place in the schema. Any other text counts as "lp".
pub open spec fn spec_hp_lp_port_value(hp_lp: Seq<char>) -> u8 {
    if hp_lp == "hp"@ {
        1
    } else {
        0
    }
}

/// The port value for `hp_lp`, as the plugin is driven.
pub fn hp_lp_port_value(hp_lp: &str) -> (value: u8)
    ensures
        value == spec_hp_lp_port_value(hp_lp@),
{
    if str_eq(hp_lp, "hp") {
        1
    } else {
        0
    }
}

/// Each choice of `hp_lp` drives the port with its place among the choices.
pub proof fn lemma_hp_lp_values_follow_choices()
    ensures
        forall|i: int| 0 <= i < choices_at(spec_model_schema(), 3).len() ==>
            spec_hp_lp_port_value(#[trigger] choices_at(spec_model_schema(), 3)[i].value@) == i,
{
    reveal_strlit("lp");
    reveal_strlit("hp");
    assert("lp"@[0] != "hp"@[0]);
}

/// The schema is sound: every parameter is, and no two share a path.
pub proof fn lemma_schema_well_formed()
    ensures
        schema_well_formed(spec_model_schema()),
{
    reveal_strlit("drive");
    reveal_strlit("tone");
    reveal_strlit("volume");
    reveal_strlit("hp_lp");
    reveal_strlit("lp");
    reveal_strlit("hp");
    let ps = spec_model_schema().parameters.unwrap();
    assert forall|i: int| 0 <= i < ps.len() implies parameter_well_formed(#[trigger] ps[i]) by {
        if ps[i].kind is Enum {
            let vs = choice_values(ps[i].kind->Enum_choices);
            assert forall|a: int, b: int| 0 <= a < b < vs.len() implies vs[a] != vs[b] by {
                if vs[a] == vs[b] {
                    assert(vs[a].len() == vs[b].len());
                    assert(vs[a][0] == vs[b][0]);
                }
            }
        }
        if i == 3 {
            assert(ps[3].kind->Enum_choices[0].value@ == "lp"@);
        }
    }
    let paths = parameter_paths(ps);
    assert forall|a: int, b: int| 0 <= a < b < paths.len() implies paths[a] != paths[b] by {
        if paths[a] == paths[b] {
            assert(paths[a].len() == paths[b].len());
            assert(paths[a][0] == paths[b][0]);
        }
    }
}

} // verus!
