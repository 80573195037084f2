//! The "Tone Machine" gain model (guitarix), run as an LV2 plugin.

use vstd::prelude::*;
use crate::schema::{EffectType, ModelSchema, ModelSchemaView, ParameterKindView, ParameterSpecView, parameters_view, schema_well_formed, parameter_well_formed, parameter_paths, AudioMode, ParameterUnit, float_parameter};
use crate::model::{BackendKind, Instruments, KnobLayoutEntry, ModelDefinition, ModelDefinitionView};
use crate::text::{concat, join, texts};

verus! {

pub const MODEL_ID: &'static str = "lv2_gx_tonemachine";
pub const DISPLAY_NAME: &'static str = "Tone Machine";
pub const BRAND: &'static str = "guitarix";

pub open spec fn spec_model_schema() -> ModelSchemaView {
    ModelSchemaView {
        effect_type: EffectType::Gain,
        model: MODEL_ID,
        display_name: DISPLAY_NAME,
        audio_mode: Some(AudioMode::DualMono),
        parameters: Some(seq![
            ParameterSpecView {
                path: "octave",
                label: "Octave",
                group: None,
                kind: ParameterKindView::Float {
                    default: Some(0),
                    min: 0,
                    max: 10000,
                    step: 100,
                    unit: ParameterUnit::Percent,
                },
            },
            ParameterSpecView {
                path: "sustain",
                label: "Sustain",
                group: None,
                kind: ParameterKindView::Float {
                    default: Some(2500),
                    min: 0,
                    max: 10000,
                    step: 100,
                    unit: ParameterUnit::Percent,
                },
            },
            ParameterSpecView {
                path: "tone",
                label: "Tone",
                group: None,
                kind: ParameterKindView::Float {
                    default: Some(5000),
                    min: 0,
                    max: 10000,
                    step: 100,
                    unit: ParameterUnit::Percent,
                },
            },
            ParameterSpecView {
                path: "volume",
                label: "Volume",
                group: None,
                kind: ParameterKindView::Float {
                    default: Some(2500),
                    min: 0,
                    max: 10000,
                    step: 100,
                    unit: ParameterUnit::Percent,
                },
            },
        ]),
    }
}

/// The parameters of the model.
pub fn model_schema() -> (schema: ModelSchema)
    ensures
        schema@ == spec_model_schema(),
{
    let parameters = vec![
        float_parameter(
            "octave",
            "Octave",
            None,
            Some(0),
            0,
            10000,
            100,
            ParameterUnit::Percent,
        ),
        float_parameter(
            "sustain",
            "Sustain",
            None,
            Some(2500),
            0,
            10000,
            100,
            ParameterUnit::Percent,
        ),
        float_parameter(
            "tone",
            "Tone",
            None,
            Some(5000),
            0,
            10000,
            100,
            ParameterUnit::Percent,
        ),
        float_parameter(
            "volume",
            "Volume",
            None,
            Some(2500),
            0,
            10000,
            100,
            ParameterUnit::Percent,
        ),
    ];
    assert(parameters_view(parameters@) =~= spec_model_schema().parameters.unwrap());
    ModelSchema {
        effect_type: EffectType::Gain,
        model: MODEL_ID,
        display_name: DISPLAY_NAME,
        audio_mode: Some(AudioMode::DualMono),
        parameters: Some(parameters),
    }
}

pub open spec fn spec_model_definition() -> ModelDefinitionView {
    ModelDefinitionView {
        id: MODEL_ID,
        display_name: DISPLAY_NAME,
        brand: BRAND,
        backend_kind: BackendKind::Lv2,
        supported_instruments: Instruments::GuitarBass,
        knob_layout: seq![],
    }
}

/// What the registry lists for this model.
pub fn model_definition() -> (d: ModelDefinition)
    ensures
        d@ == spec_model_definition(),
{
    let knob_layout: Vec<KnobLayoutEntry> = Vec::new();
    let d = ModelDefinition {
        id: MODEL_ID,
        display_name: DISPLAY_NAME,
        brand: BRAND,
        backend_kind: BackendKind::Lv2,
        supported_instruments: Instruments::GuitarBass,
        knob_layout,
    };
    assert(d@.knob_layout =~= spec_model_definition().knob_layout);
    d
}

/// What the model reports as its asset: the plugin it runs.
pub open spec fn asset_text() -> Seq<char> {
    concat(seq!["lv2='"@, MODEL_ID@, "'"@])
}

/// Names the plugin the model runs; it needs no parameter.
pub fn asset_summary() -> (summary: String)
    ensures
        summary@ == asset_text(),
{
    let parts = vec!["lv2='", MODEL_ID, "'"];
    assert(texts(parts@) =~= seq!["lv2='"@, MODEL_ID@, "'"@]);
    join(&parts)
}

/// The schema is sound: every parameter is, and no two share a path.
pub proof fn lemma_schema_well_formed()
    ensures
        schema_well_formed(spec_model_schema()),
{
    reveal_strlit("octave");
    reveal_strlit("sustain");
    reveal_strlit("tone");
    reveal_strlit("volume");
    let ps = spec_model_schema().parameters.unwrap();
    let paths = parameter_paths(ps);
    assert forall|a: int, b: int| 0 <= a < b < paths.len() implies paths[a] != paths[b] by {
        if paths[a] == paths[b] {
            assert(paths[a].len() == paths[b].len());
            assert(paths[a][0] == paths[b][0]);
        }
    }
}

} // verus!
