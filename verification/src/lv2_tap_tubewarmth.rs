//! The "TAP Tubewarmth" gain model (tap), run as an LV2 plugin.

use vstd::prelude::*;
use crate::schema::{EffectType, ModelSchema, ModelSchemaView, ParameterKindView, ParameterSpecView, parameters_view, schema_well_formed, parameter_well_formed, parameter_paths, AudioMode, ParameterUnit, float_parameter};
use crate::model::{BackendKind, Instruments, KnobLayoutEntry, ModelDefinition, ModelDefinitionView};
use crate::error::GainError;

verus! {

pub const MODEL_ID: &'static str = "lv2_tap_tubewarmth";
pub const DISPLAY_NAME: &'static str = "TAP Tubewarmth";
pub const BRAND: &'static str = "tap";

pub open spec fn spec_model_schema() -> ModelSchemaView {
    ModelSchemaView {
        effect_type: EffectType::Gain,
        model: MODEL_ID,
        display_name: DISPLAY_NAME,
        audio_mode: Some(AudioMode::MonoToStereo),
        parameters: Some(seq![
            ParameterSpecView {
                path: "drive",
                label: "Drive",
                group: None,
                kind: ParameterKindView::Float {
                    default: Some(500),
                    min: 10,
                    max: 1000,
                    step: 10,
                    unit: ParameterUnit::Unitless,
                },
            },
            ParameterSpecView {
                path: "blend",
                label: "Blend",
                group: None,
                kind: ParameterKindView::Float {
                    default: Some(1000),
                    min: -1000i64,
                    max: 1000,
                    step: 10,
                    unit: ParameterUnit::Unitless,
                },
            },
        ]),
    }
}

/// The parameters of the model.
pub fn model_schema() -> (schema: ModelSchema)
    ensures
        schema@ == spec_model_schema(),
{
    let parameters = vec![
        float_parameter(
            "drive",
            "Drive",
            None,
            Some(500),
            10,
            1000,
            10,
            ParameterUnit::Unitless,
        ),
        float_parameter(
            "blend",
            "Blend",
            None,
            Some(1000),
            -1000,
            1000,
            10,
            ParameterUnit::Unitless,
        ),
    ];
    assert(parameters_view(parameters@) =~= spec_model_schema().parameters.unwrap());
    ModelSchema {
        effect_type: EffectType::Gain,
        model: MODEL_ID,
        display_name: DISPLAY_NAME,
        audio_mode: Some(AudioMode::MonoToStereo),
        parameters: Some(parameters),
    }
}

pub open spec fn spec_model_definition() -> ModelDefinitionView {
    ModelDefinitionView {
        id: MODEL_ID,
        display_name: DISPLAY_NAME,
        brand: BRAND,
        backend_kind: BackendKind::Lv2,
        supported_instruments: Instruments::All,
        knob_layout: seq![],
    }
}

/// What the registry lists for this model.
pub fn model_definition() -> (d: ModelDefinition)
    ensures
        d@ == spec_model_definition(),
{
    let knob_layout: Vec<KnobLayoutEntry> = Vec::new();
    let d = ModelDefinition {
        id: MODEL_ID,
        display_name: DISPLAY_NAME,
        brand: BRAND,
        backend_kind: BackendKind::Lv2,
        supported_instruments: Instruments::All,
        knob_layout,
    };
    assert(d@.knob_layout =~= spec_model_definition().knob_layout);
    d
}

/// The model accepts any parameter set.
pub fn validate_params() -> (checked: Result<(), GainError>)
    ensures
        checked is Ok,
{
    Ok(())
}

/// The model reports no asset: its summary is empty.
pub fn asset_summary() -> (summary: String)
    ensures
        summary@ == Seq::<char>::empty(),
{
    String::new()
}

/// The schema is sound: every parameter is, and no two share a path.
pub proof fn lemma_schema_well_formed()
    ensures
        schema_well_formed(spec_model_schema()),
{
    reveal_strlit("drive");
    reveal_strlit("blend");
    let ps = spec_model_schema().parameters.unwrap();
    let paths = parameter_paths(ps);
    assert forall|a: int, b: int| 0 <= a < b < paths.len() implies paths[a] != paths[b] by {
        if paths[a] == paths[b] {
            assert(paths[a].len() == paths[b].len());
            assert(paths[a][0] == paths[b][0]);
        }
    }
}

} // verus!
