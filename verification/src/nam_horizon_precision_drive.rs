//! The "Horizon Precision Drive" gain model (horizon_devices), played from neural captures laid on a grid of knob positions.

use vstd::prelude::*;
use crate::schema::{EffectType, ModelSchema, ModelSchemaView, ParameterKindView, ParameterSpecView, parameters_view, schema_well_formed, parameter_well_formed, parameter_paths, AudioMode, EnumChoice, choice, enum_parameter, choice_values, ParameterUnit, float_parameter};
use crate::model::{BackendKind, Instruments, KnobLayoutEntry, ModelDefinition, ModelDefinitionView};
use crate::error::GainError;
use crate::text::{concat, join, texts, str_eq};
use crate::schema::choices_at;

verus! {

pub const MODEL_ID: &'static str = "nam_horizon_precision_drive";
pub const DISPLAY_NAME: &'static str = "Horizon Precision Drive";
pub const BRAND: &'static str = "horizon_devices";

pub open spec fn spec_model_schema() -> ModelSchemaView {
    ModelSchemaView {
        effect_type: EffectType::Gain,
        model: MODEL_ID,
        display_name: DISPLAY_NAME,
        audio_mode: Some(AudioMode::DualMono),
        parameters: Some(seq![
            ParameterSpecView {
                path: "bass",
                label: "Bass",
                group: Some("Pedal"),
                kind: ParameterKindView::Float {
                    default: Some(5000),
                    min: 0,
                    max: 10000,
                    step: 100,
                    unit: ParameterUnit::Percent,
                },
            },
            ParameterSpecView {
                path: "drive",
                label: "Drive",
                group: Some("Pedal"),
                kind: ParameterKindView::Float {
                    default: Some(5000),
                    min: 0,
                    max: 10000,
                    step: 100,
                    unit: ParameterUnit::Percent,
                },
            },
            ParameterSpecView {
                path: "presence",
                label: "Presence",
                group: Some("Pedal"),
                kind: ParameterKindView::Float {
                    default: Some(5000),
                    min: 0,
                    max: 10000,
                    step: 100,
                    unit: ParameterUnit::Percent,
                },
            },
            ParameterSpecView {
                path: "volume",
                label: "Volume",
                group: Some("Pedal"),
                kind: ParameterKindView::Float {
                    default: Some(5000),
                    min: 0,
                    max: 10000,
                    step: 100,
                    unit: ParameterUnit::Percent,
                },
            },
            ParameterSpecView {
                path: "size",
                label: "Model Size",
                group: Some("Capture"),
                kind: ParameterKindView::Enum {
                    default: Some("standard"),
                    choices: seq![
                        EnumChoice { value: "lite", label: "Lite" },
                        EnumChoice { value: "standard", label: "Standard" },
                    ],
                },
            },
        ]),
    }
}

/// The parameters of the model.
pub fn model_schema() -> (schema: ModelSchema)
    ensures
        schema@ == spec_model_schema(),
{
    let parameters = vec![
        float_parameter(
            "bass",
            "Bass",
            Some("Pedal"),
            Some(5000),
            0,
            10000,
            100,
            ParameterUnit::Percent,
        ),
        float_parameter(
            "drive",
            "Drive",
            Some("Pedal"),
            Some(5000),
            0,
            10000,
            100,
            ParameterUnit::Percent,
        ),
        float_parameter(
            "presence",
            "Presence",
            Some("Pedal"),
            Some(5000),
            0,
            10000,
            100,
            ParameterUnit::Percent,
        ),
        float_parameter(
            "volume",
            "Volume",
            Some("Pedal"),
            Some(5000),
            0,
            10000,
            100,
            ParameterUnit::Percent,
        ),
        enum_parameter(
            "size",
            "Model Size",
            Some("Capture"),
            Some("standard"),
            vec![
                choice("lite", "Lite"),
                choice("standard", "Standard"),
            ],
        ),
    ];
    assert(parameters_view(parameters@) =~= spec_model_schema().parameters.unwrap());
    ModelSchema {
        effect_type: EffectType::Gain,
        model: MODEL_ID,
        display_name: DISPLAY_NAME,
        audio_mode: Some(AudioMode::DualMono),
        parameters: Some(parameters),
    }
}

pub open spec fn spec_model_definition() -> ModelDefinitionView {
    ModelDefinitionView {
        id: MODEL_ID,
        display_name: DISPLAY_NAME,
        brand: BRAND,
        backend_kind: BackendKind::Nam,
        supported_instruments: Instruments::GuitarBass,
        knob_layout: seq![],
    }
}

/// What the registry lists for this model.
pub fn model_definition() -> (d: ModelDefinition)
    ensures
        d@ == spec_model_definition(),
{
    let knob_layout: Vec<KnobLayoutEntry> = Vec::new();
    let d = ModelDefinition {
        id: MODEL_ID,
        display_name: DISPLAY_NAME,
        brand: BRAND,
        backend_kind: BackendKind::Nam,
        supported_instruments: Instruments::GuitarBass,
        knob_layout,
    };
    assert(d@.knob_layout =~= spec_model_definition().knob_layout);
    d
}

/// The resolutions the captures were trained at.
#[derive(Clone, Copy, PartialEq, Eq, Debug, Structural)]
pub enum NamSize {
    Lite,
    Standard,
}

/// The resolution a `size` text names.
pub open spec fn spec_size(size: Seq<char>) -> Option<NamSize> {
    if size == "lite"@ {
        Some(NamSize::Lite)
    } else if size == "standard"@ {
        Some(NamSize::Standard)
    } else {
        None
    }
}

/// What the model reports for a size it does not know.
pub open spec fn unknown_size_message(size: Seq<char>) -> Seq<char> {
    concat(seq!["unknown size '"@, size, "'"@])
}

/// Reads the `size` parameter.
pub fn parse_size(size: &str) -> (parsed: Result<NamSize, GainError>)
    ensures
        match spec_size(size@) {
            Some(n) => parsed matches Ok(p) && p == n,
            None => parsed matches Err(GainError::InvalidChoice(m)) && m@ == unknown_size_message(size@),
        },
{
    if str_eq(size, "lite") {
        Ok(NamSize::Lite)
    } else if str_eq(size, "standard") {
        Ok(NamSize::Standard)
    } else {
        let parts = vec!["unknown size '", size, "'"];
        assert(texts(parts@) =~= seq!["unknown size '"@, size@, "'"@]);
        Err(GainError::InvalidChoice(join(&parts)))
    }
}

/// Every size the schema offers names a resolution.
pub proof fn lemma_sizes_follow_choices()
    ensures
        forall|i: int| 0 <= i < choices_at(spec_model_schema(), 4).len() ==>
            spec_size(#[trigger] choices_at(spec_model_schema(), 4)[i].value@) is Some,
{
    reveal_strlit("lite");
    reveal_strlit("standard");
}

/// The schema is sound: every parameter is, and no two share a path.
pub proof fn lemma_schema_well_formed()
    ensures
        schema_well_formed(spec_model_schema()),
{
    reveal_strlit("bass");
    reveal_strlit("drive");
    reveal_strlit("presence");
    reveal_strlit("volume");
    reveal_strlit("size");
    reveal_strlit("lite");
    reveal_strlit("standard");
    let ps = spec_model_schema().parameters.unwrap();
    assert forall|i: int| 0 <= i < ps.len() implies parameter_well_formed(#[trigger] ps[i]) by {
        if ps[i].kind is Enum {
            let vs = choice_values(ps[i].kind->Enum_choices);
            assert forall|a: int, b: int| 0 <= a < b < vs.len() implies vs[a] != vs[b] by {
                if vs[a] == vs[b] {
                    assert(vs[a].len() == vs[b].len());
                }
            }
        }
        if i == 4 {
            assert(ps[4].kind->Enum_choices[1].value@ == "standard"@);
        }
    }
    let paths = parameter_paths(ps);
    assert forall|a: int, b: int| 0 <= a < b < paths.len() implies paths[a] != paths[b] by {
        if paths[a] == paths[b] {
            assert(paths[a].len() == paths[b].len());
            assert(paths[a][0] == paths[b][0]);
        }
    }
}

} // verus!
