//! The "Invada Tube" gain model (invada), run as an LV2 plugin.

use vstd::prelude::*;
use crate::schema::{EffectType, ModelSchema, ModelSchemaView, ParameterKindView, ParameterSpecView, parameters_view, schema_well_formed, parameter_well_formed, parameter_paths, AudioMode, ParameterUnit, float_parameter};
use crate::model::{BackendKind, Instruments, KnobLayoutEntry, ModelDefinition, ModelDefinitionView};
use crate::error::GainError;

verus! {

pub const MODEL_ID: &'static str = "lv2_invada_tube";
pub const DISPLAY_NAME: &'static str = "Invada Tube";
pub const BRAND: &'static str = "invada";

pub open spec fn spec_model_schema() -> ModelSchemaView {
    ModelSchemaView {
        effect_type: EffectType::Gain,
        model: MODEL_ID,
        display_name: DISPLAY_NAME,
        audio_mode: Some(AudioMode::MonoToStereo),
        parameters: Some(seq![
            ParameterSpecView {
                path: "drive",
                label: "Drive",
                group: None,
                kind: ParameterKindView::Float {
                    default: Some(0),
                    min: 0,
                    max: 1800,
                    step: 10,
                    unit: ParameterUnit::Decibels,
                },
            },
            ParameterSpecView {
                path: "mix",
                label: "Mix",
                group: None,
                kind: ParameterKindView::Float {
                    default: Some(7500),
                    min: 0,
                    max: 10000,
                    step: 100,
                    unit: ParameterUnit::Percent,
                },
            },
        ]),
    }
}

/// The parameters of the model.
pub fn model_schema() -> (schema: ModelSchema)
    ensures
        schema@ == spec_model_schema(),
{
    let parameters = vec![
        float_parameter(
            "drive",
            "Drive",
            None,
            Some(0),
            0,
            1800,
            10,
            ParameterUnit::Decibels,
        ),
        float_parameter(
            "mix",
            "Mix",
            None,
            Some(7500),
            0,
            10000,
            100,
            ParameterUnit::Percent,
        ),
    ];
    assert(parameters_view(parameters@) =~= spec_model_schema().parameters.unwrap());
    ModelSchema {
        effect_type: EffectType::Gain,
        model: MODEL_ID,
        display_name: DISPLAY_NAME,
        audio_mode: Some(AudioMode::MonoToStereo),
        parameters: Some(parameters),
    }
}

pub open spec fn spec_model_definition() -> ModelDefinitionView {
    ModelDefinitionView {
        id: MODEL_ID,
        display_name: DISPLAY_NAME,
        brand: BRAND,
        backend_kind: BackendKind::Lv2,
        supported_instruments: Instruments::All,
        knob_layout: seq![],
    }
}

/// What the registry lists for this model.
pub fn model_definition() -> (d: ModelDefinition)
    ensures
        d@ == spec_model_definition(),
{
    let knob_layout: Vec<KnobLayoutEntry> = Vec::new();
    let d = ModelDefinition {
        id: MODEL_ID,
        display_name: DISPLAY_NAME,
        brand: BRAND,
        backend_kind: BackendKind::Lv2,
        supported_instruments: Instruments::All,
        knob_layout,
    };
    assert(d@.knob_layout =~= spec_model_definition().knob_layout);
    d
}

/// The model accepts any parameter set.
pub fn validate_params() -> (checked: Result<(), GainError>)
    ensures
        checked is Ok,
{
    Ok(())
}

/// The model reports no asset: its summary is empty.
pub fn asset_summary() -> (summary: String)
    ensures
        summary@ == Seq::<char>::empty(),
{
    String::new()
}

/// The schema is sound: every parameter is, and no two share a path.
pub proof fn lemma_schema_well_formed()
    ensures
        schema_well_formed(spec_model_schema()),
{
    reveal_strlit("drive");
    reveal_strlit("mix");
    let ps = spec_model_schema().parameters.unwrap();
    let paths = parameter_paths(ps);
    assert forall|a: int, b: int| 0 <= a < b < paths.len() implies paths[a] != paths[b] by {
        if paths[a] == paths[b] {
            assert(paths[a].len() == paths[b].len());
        }
    }
}

} // verus!
