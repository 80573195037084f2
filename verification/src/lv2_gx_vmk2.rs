//! The "Vmk2" gain model (guitarix), run as an LV2 plugin.

use vstd::prelude::*;
use crate::schema::{EffectType, ModelSchema, ModelSchemaView, ParameterKindView, ParameterSpecView, parameters_view, schema_well_formed, parameter_well_formed, parameter_paths, AudioMode, ParameterUnit, float_parameter, float_allows, float_unit};
use crate::model::{BackendKind, Instruments, KnobLayoutEntry, ModelDefinition, ModelDefinitionView};
use crate::text::{concat, join, texts};

verus! {

pub const MODEL_ID: &'static str = "lv2_gx_vmk2";
pub const DISPLAY_NAME: &'static str = "Vmk2";
pub const BRAND: &'static str = "guitarix";

pub open spec fn spec_model_schema() -> ModelSchemaView {
    ModelSchemaView {
        effect_type: EffectType::Gain,
        model: MODEL_ID,
        display_name: DISPLAY_NAME,
        audio_mode: Some(AudioMode::DualMono),
        parameters: Some(seq![
            ParameterSpecView {
                path: "bass",
                label: "Bass",
                group: None,
                kind: ParameterKindView::Float {
                    default: Some(5000),
                    min: 0,
                    max: 10000,
                    step: 100,
                    unit: ParameterUnit::Percent,
                },
            },
            ParameterSpecView {
                path: "depth",
                label: "Depth",
                group: None,
                kind: ParameterKindView::Float {
                    default: Some(5000),
                    min: 0,
                    max: 10000,
                    step: 100,
                    unit: ParameterUnit::Percent,
                },
            },
            ParameterSpecView {
                path: "mrbselect",
                label: "MRB Select",
                group: None,
                kind: ParameterKindView::Float {
                    default: Some(0),
                    min: 0,
                    max: 200,
                    step: 100,
                    unit: ParameterUnit::Unitless,
                },
            },
            ParameterSpecView {
                path: "mrb",
                label: "MRB",
                group: None,
                kind: ParameterKindView::Float {
                    default: Some(0),
                    min: 0,
                    max: 10000,
                    step: 100,
                    unit: ParameterUnit::Percent,
                },
            },
            ParameterSpecView {
                path: "reverblevel",
                label: "Reverb Level",
                group: None,
                kind: ParameterKindView::Float {
                    default: Some(5000),
                    min: 0,
                    max: 10000,
                    step: 100,
                    unit: ParameterUnit::Percent,
                },
            },
            ParameterSpecView {
                path: "reverb",
                label: "Reverb",
                group: None,
                kind: ParameterKindView::Float {
                    default: Some(0),
                    min: 0,
                    max: 10000,
                    step: 100,
                    unit: ParameterUnit::Percent,
                },
            },
            ParameterSpecView {
                path: "speed",
                label: "Speed",
                group: None,
                kind: ParameterKindView::Float {
                    default: Some(50),
                    min: 1,
                    max: 100,
                    step: 1,
                    unit: ParameterUnit::Unitless,
                },
            },
            ParameterSpecView {
                path: "treble",
                label: "Treble",
                group: None,
                kind: ParameterKindView::Float {
                    default: Some(5000),
                    min: 0,
                    max: 10000,
                    step: 100,
                    unit: ParameterUnit::Percent,
                },
            },
            ParameterSpecView {
                path: "vibe",
                label: "Vibe",
                group: None,
                kind: ParameterKindView::Float {
                    default: Some(0),
                    min: 0,
                    max: 10000,
                    step: 100,
                    unit: ParameterUnit::Percent,
                },
            },
            ParameterSpecView {
                path: "volume",
                label: "Volume",
                group: None,
                kind: ParameterKindView::Float {
                    default: Some(5000),
                    min: 0,
                    max: 10000,
                    step: 100,
                    unit: ParameterUnit::Percent,
                },
            },
        ]),
    }
}

/// The parameters of the model.
pub fn model_schema() -> (schema: ModelSchema)
    ensures
        schema@ == spec_model_schema(),
{
    let parameters = vec![
        float_parameter(
            "bass",
            "Bass",
            None,
            Some(5000),
            0,
            10000,
            100,
            ParameterUnit::Percent,
        ),
        float_parameter(
            "depth",
            "Depth",
            None,
            Some(5000),
            0,
            10000,
            100,
            ParameterUnit::Percent,
        ),
        float_parameter(
            "mrbselect",
            "MRB Select",
            None,
            Some(0),
            0,
            200,
            100,
            ParameterUnit::Unitless,
        ),
        float_parameter(
            "mrb",
            "MRB",
            None,
            Some(0),
            0,
            10000,
            100,
            ParameterUnit::Percent,
        ),
        float_parameter(
            "reverblevel",
            "Reverb Level",
            None,
            Some(5000),
            0,
            10000,
            100,
            ParameterUnit::Percent,
        ),
        float_parameter(
            "reverb",
            "Reverb",
            None,
            Some(0),
            0,
            10000,
            100,
            ParameterUnit::Percent,
        ),
        float_parameter(
            "speed",
            "Speed",
            None,
            Some(50),
            1,
            100,
            1,
            ParameterUnit::Unitless,
        ),
        float_parameter(
            "treble",
            "Treble",
            None,
            Some(5000),
            0,
            10000,
            100,
            ParameterUnit::Percent,
        ),
        float_parameter(
            "vibe",
            "Vibe",
            None,
            Some(0),
            0,
            10000,
            100,
            ParameterUnit::Percent,
        ),
        float_parameter(
            "volume",
            "Volume",
            None,
            Some(5000),
            0,
            10000,
            100,
            ParameterUnit::Percent,
        ),
    ];
    assert(parameters_view(parameters@) =~= spec_model_schema().parameters.unwrap());
    ModelSchema {
        effect_type: EffectType::Gain,
        model: MODEL_ID,
        display_name: DISPLAY_NAME,
        audio_mode: Some(AudioMode::DualMono),
        parameters: Some(parameters),
    }
}

pub open spec fn spec_model_definition() -> ModelDefinitionView {
    ModelDefinitionView {
        id: MODEL_ID,
        display_name: DISPLAY_NAME,
        brand: BRAND,
        backend_kind: BackendKind::Lv2,
        supported_instruments: Instruments::GuitarBass,
        knob_layout: seq![],
    }
}

/// What the registry lists for this model.
pub fn model_definition() -> (d: ModelDefinition)
    ensures
        d@ == spec_model_definition(),
{
    let knob_layout: Vec<KnobLayoutEntry> = Vec::new();
    let d = ModelDefinition {
        id: MODEL_ID,
        display_name: DISPLAY_NAME,
        brand: BRAND,
        backend_kind: BackendKind::Lv2,
        supported_instruments: Instruments::GuitarBass,
        knob_layout,
    };
    assert(d@.knob_layout =~= spec_model_definition().knob_layout);
    d
}

/// What the model reports as its asset: the plugin it runs.
pub open spec fn asset_text() -> Seq<char> {
    concat(seq!["lv2='"@, MODEL_ID@, "'"@])
}

/// Names the plugin the model runs; it needs no parameter.
pub fn asset_summary() -> (summary: String)
    ensures
        summary@ == asset_text(),
{
    let parts = vec!["lv2='", MODEL_ID, "'"];
    assert(texts(parts@) =~= seq!["lv2='"@, MODEL_ID@, "'"@]);
    join(&parts)
}

/// The schema is sound: every parameter is, and no two share a path.
pub proof fn lemma_schema_well_formed()
    ensures
        schema_well_formed(spec_model_schema()),
{
    reveal_strlit("bass");
    reveal_strlit("depth");
    reveal_strlit("mrbselect");
    reveal_strlit("mrb");
    reveal_strlit("reverblevel");
    reveal_strlit("reverb");
    reveal_strlit("speed");
    reveal_strlit("treble");
    reveal_strlit("vibe");
    reveal_strlit("volume");
    let ps = spec_model_schema().parameters.unwrap();
    let paths = parameter_paths(ps);
    assert forall|a: int, b: int| 0 <= a < b < paths.len() implies paths[a] != paths[b] by {
        if paths[a] == paths[b] {
            assert(paths[a].len() == paths[b].len());
            assert(paths[a][0] == paths[b][0]);
        }
    }
}

/// The knobs send the plugin what its ports take: the MRB selector exactly the
/// plugin's three positions 0, 1 and 2, the speed 0.01 to 1.00 by 0.01, and
/// every other knob a percentage from 0 to 100 by whole steps.
pub proof fn lemma_knobs_fit_the_ports()
    ensures
        forall|i: int| 0 <= i < spec_model_schema().parameters.unwrap().len()
            && (#[trigger] spec_model_schema().parameters.unwrap()[i]).path@ == "mrbselect"@ ==> {
            &&& forall|v: int| #[trigger] float_allows(spec_model_schema().parameters.unwrap()[i].kind, v)
                <==> (v == 0 || v == 100 || v == 200)
            &&& float_unit(spec_model_schema().parameters.unwrap()[i].kind) == Some(ParameterUnit::Unitless)
        },
        forall|i: int| 0 <= i < spec_model_schema().parameters.unwrap().len()
            && (#[trigger] spec_model_schema().parameters.unwrap()[i]).path@ == "speed"@ ==> {
            &&& forall|v: int| #[trigger] float_allows(spec_model_schema().parameters.unwrap()[i].kind, v)
                <==> 1 <= v <= 100
            &&& float_unit(spec_model_schema().parameters.unwrap()[i].kind) == Some(ParameterUnit::Unitless)
        },
        forall|i: int| 0 <= i < spec_model_schema().parameters.unwrap().len()
            && (#[trigger] spec_model_schema().parameters.unwrap()[i]).path@ != "mrbselect"@
            && spec_model_schema().parameters.unwrap()[i].path@ != "speed"@ ==> {
            &&& forall|v: int| #[trigger] float_allows(spec_model_schema().parameters.unwrap()[i].kind, v)
                <==> (0 <= v <= 10000 && v % 100 == 0)
            &&& float_unit(spec_model_schema().parameters.unwrap()[i].kind) == Some(ParameterUnit::Percent)
        },
{
    reveal_strlit("bass");
    reveal_strlit("depth");
    reveal_strlit("mrbselect");
    reveal_strlit("mrb");
    reveal_strlit("reverblevel");
    reveal_strlit("reverb");
    reveal_strlit("speed");
    reveal_strlit("treble");
    reveal_strlit("vibe");
    reveal_strlit("volume");
    let ps = spec_model_schema().parameters.unwrap();
    assert forall|i: int| 0 <= i < ps.len() implies
        (ps[i].path@ == "mrbselect"@) == (i == 2) && (ps[i].path@ == "speed"@) == (i == 6) by {
        if i == 0 {
            assert(ps[i].path@.len() != "mrbselect"@.len() || ps[i].path@[1] != "mrbselect"@[1]);
            assert(ps[i].path@.len() != "speed"@.len() || ps[i].path@[0] != "speed"@[0]);
        } else if i == 1 {
            assert(ps[i].path@.len() != "mrbselect"@.len() || ps[i].path@[1] != "mrbselect"@[1]);
            assert(ps[i].path@.len() != "speed"@.len() || ps[i].path@[0] != "speed"@[0]);
        } else if i == 2 {
            assert(ps[i].path@.len() != "speed"@.len() || ps[i].path@[0] != "speed"@[0]);
        } else if i == 3 {
            assert(ps[i].path@.len() != "mrbselect"@.len() || ps[i].path@[1] != "mrbselect"@[1]);
            assert(ps[i].path@.len() != "speed"@.len() || ps[i].path@[0] != "speed"@[0]);
        } else if i == 4 {
            assert(ps[i].path@.len() != "mrbselect"@.len() || ps[i].path@[1] != "mrbselect"@[1]);
            assert(ps[i].path@.len() != "speed"@.len() || ps[i].path@[0] != "speed"@[0]);
        } else if i == 5 {
            assert(ps[i].path@.len() != "mrbselect"@.len() || ps[i].path@[1] != "mrbselect"@[1]);
            assert(ps[i].path@.len() != "speed"@.len() || ps[i].path@[0] != "speed"@[0]);
        } else if i == 6 {
            assert(ps[i].path@.len() != "mrbselect"@.len() || ps[i].path@[1] != "mrbselect"@[1]);
        } else if i == 7 {
            assert(ps[i].path@.len() != "mrbselect"@.len() || ps[i].path@[1] != "mrbselect"@[1]);
            assert(ps[i].path@.len() != "speed"@.len() || ps[i].path@[0] != "speed"@[0]);
        } else if i == 8 {
            assert(ps[i].path@.len() != "mrbselect"@.len() || ps[i].path@[1] != "mrbselect"@[1]);
            assert(ps[i].path@.len() != "speed"@.len() || ps[i].path@[0] != "speed"@[0]);
        } else if i == 9 {
            assert(ps[i].path@.len() != "mrbselect"@.len() || ps[i].path@[1] != "mrbselect"@[1]);
            assert(ps[i].path@.len() != "speed"@.len() || ps[i].path@[0] != "speed"@[0]);
        }
    }
}

} // verus!
