//! The "Klone" gain model (electro-harmonix), played from neural captures, one per recorded setting.

use vstd::prelude::*;
use crate::capture::asset_text;
use crate::error::GainError;
use crate::model::{BackendKind, Instruments, KnobLayoutEntry, ModelDefinition, ModelDefinitionView};
use crate::schema::{EffectType, ModelSchema, ModelSchemaView, ParameterKindView, ParameterSpecView, parameters_view, schema_well_formed, parameter_well_formed, parameter_paths};
use crate::text::{join, texts};

verus! {

pub const MODEL_ID: &'static str = "klone";
pub const DISPLAY_NAME: &'static str = "Klone";
pub const BRAND: &'static str = "electro-harmonix";

pub open spec fn spec_model_schema() -> ModelSchemaView {
    ModelSchemaView {
        effect_type: EffectType::Gain,
        model: MODEL_ID,
        display_name: DISPLAY_NAME,
        audio_mode: None,
        parameters: None,
    }
}

/// The parameters of the model.
pub fn model_schema() -> (schema: ModelSchema)
    ensures
        schema@ == spec_model_schema(),
{
    ModelSchema {
        effect_type: EffectType::Gain,
        model: MODEL_ID,
        display_name: DISPLAY_NAME,
        audio_mode: None,
        parameters: None,
    }
}

/// The one capture of the pedal.
pub const CAPTURE_PATH: &'static str = "pedals/klone/klone.nam";

/// The model takes no parameter; any set is accepted.
pub fn validate_params() -> (checked: Result<(), GainError>)
    ensures
        checked is Ok,
{
    Ok(())
}

/// Names the capture file of the pedal.
pub fn asset_summary() -> (summary: String)
    ensures
        summary@ == asset_text(CAPTURE_PATH@),
{
    let parts = vec!["model='", CAPTURE_PATH, "'"];
    assert(texts(parts@) =~= seq!["model='"@, CAPTURE_PATH@, "'"@]);
    join(&parts)
}

pub open spec fn spec_model_definition() -> ModelDefinitionView {
    ModelDefinitionView {
        id: MODEL_ID,
        display_name: DISPLAY_NAME,
        brand: BRAND,
        backend_kind: BackendKind::Nam,
        supported_instruments: Instruments::GuitarBass,
        knob_layout: seq![],
    }
}

/// What the registry lists for this model.
pub fn model_definition() -> (d: ModelDefinition)
    ensures
        d@ == spec_model_definition(),
{
    let knob_layout: Vec<KnobLayoutEntry> = Vec::new();
    let d = ModelDefinition {
        id: MODEL_ID,
        display_name: DISPLAY_NAME,
        brand: BRAND,
        backend_kind: BackendKind::Nam,
        supported_instruments: Instruments::GuitarBass,
        knob_layout,
    };
    assert(d@.knob_layout =~= spec_model_definition().knob_layout);
    d
}

/// The schema is sound: every parameter is, and no two share a path.
pub proof fn lemma_schema_well_formed()
    ensures
        schema_well_formed(spec_model_schema()),
{
}


} // verus!
