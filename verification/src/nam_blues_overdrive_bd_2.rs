//! The "Blues Driver BD-2" gain model (boss), played from neural captures, one per recorded setting.

use vstd::prelude::*;
use crate::capture::asset_text;
use crate::error::GainError;
use crate::model::{BackendKind, Instruments, KnobLayoutEntry, ModelDefinition, ModelDefinitionView};
use crate::schema::{EffectType, ModelSchema, ModelSchemaView, ParameterKindView, ParameterSpecView, parameters_view, schema_well_formed, parameter_well_formed, parameter_paths, ParameterUnit, float_parameter};
use crate::text::{concat, join, texts, decimal, decimal_text, digits};

verus! {

pub const MODEL_ID: &'static str = "blues_overdrive_bd_2";
pub const DISPLAY_NAME: &'static str = "Blues Driver BD-2";
pub const BRAND: &'static str = "boss";

pub open spec fn spec_model_schema() -> ModelSchemaView {
    ModelSchemaView {
        effect_type: EffectType::Gain,
        model: MODEL_ID,
        display_name: DISPLAY_NAME,
        audio_mode: None,
        parameters: Some(seq![
            ParameterSpecView {
                path: "gain_percent",
                label: "Gain",
                group: Some("Drive"),
                kind: ParameterKindView::Float {
                    default: Some(5000),
                    min: 2500,
                    max: 7500,
                    step: 2500,
                    unit: ParameterUnit::Percent,
                },
            },
        ]),
    }
}

/// The parameters of the model.
pub fn model_schema() -> (schema: ModelSchema)
    ensures
        schema@ == spec_model_schema(),
{
    let parameters = vec![
        float_parameter(
            "gain_percent",
            "Gain",
            Some("Drive"),
            Some(5000),
            2500,
            7500,
            2500,
            ParameterUnit::Percent,
        ),
    ];
    assert(parameters_view(parameters@) =~= spec_model_schema().parameters.unwrap());
    ModelSchema {
        effect_type: EffectType::Gain,
        model: MODEL_ID,
        display_name: DISPLAY_NAME,
        audio_mode: None,
        parameters: Some(parameters),
    }
}

/// The setting a capture was recorded at.
#[derive(Debug, Clone, Copy, PartialEq, Eq, Structural)]
pub struct BluesOverdriveParams {
    pub gain_percent: i32,
}

/// A capture of the pedal and the setting it was recorded at.
#[derive(Debug, Clone, Copy, PartialEq, Eq)]
pub struct BluesOverdriveCapture {
    pub params: BluesOverdriveParams,
    pub model_path: &'static str,
}

/// A capture recorded at `gain_percent`.
pub fn capture(gain_percent: i32, model_path: &'static str) -> (c: BluesOverdriveCapture)
    ensures
        c == (BluesOverdriveCapture { params: BluesOverdriveParams { gain_percent }, model_path }),
{
    BluesOverdriveCapture { params: BluesOverdriveParams { gain_percent }, model_path }
}

pub open spec fn spec_captures() -> Seq<BluesOverdriveCapture> {
    seq![
        BluesOverdriveCapture { params: BluesOverdriveParams { gain_percent: 25 }, model_path: "pedals/boss_blues_driver_bd_2/Boss Blues Driver BD-2 Gain 25percent.nam" },
        BluesOverdriveCapture { params: BluesOverdriveParams { gain_percent: 50 }, model_path: "pedals/boss_blues_driver_bd_2/Boss Blues Driver BD-2 Gain 50percent.nam" },
        BluesOverdriveCapture { params: BluesOverdriveParams { gain_percent: 75 }, model_path: "pedals/boss_blues_driver_bd_2/Boss Blues Driver BD-2 Gain 75percent.nam" },
    ]
}

/// The captures of the pedal, each with its gain_percent setting.
pub fn captures() -> (table: Vec<BluesOverdriveCapture>)
    ensures
        table@ == spec_captures(),
{
    let table = vec![
        capture(25, "pedals/boss_blues_driver_bd_2/Boss Blues Driver BD-2 Gain 25percent.nam"),
        capture(50, "pedals/boss_blues_driver_bd_2/Boss Blues Driver BD-2 Gain 50percent.nam"),
        capture(75, "pedals/boss_blues_driver_bd_2/Boss Blues Driver BD-2 Gain 75percent.nam"),
    ];
    assert(table@ =~= spec_captures());
    table
}

/// The index of the first capture recorded at `gain_percent` percent, at `start` or after.
pub open spec fn selection_from(gain_percent: i32, start: int) -> Option<int>
    decreases spec_captures().len() - start,
{
    if start < 0 || start >= spec_captures().len() {
        None
    } else if spec_captures()[start].params.gain_percent == gain_percent {
        Some(start)
    } else {
        selection_from(gain_percent, start + 1)
    }
}

/// The index of the capture recorded at `gain_percent` percent.
pub open spec fn selection(gain_percent: i32) -> Option<int> {
    selection_from(gain_percent, 0)
}

/// What the model reports for a percentage at which no capture was recorded.
pub open spec fn unsupported_message(gain_percent: i32) -> Seq<char> {
    concat(seq!["gain model '"@, MODEL_ID@, "' does not support gain_percent="@, decimal(gain_percent as int)])
}

/// The capture recorded at `gain_percent` percent, a whole number.
pub fn resolve_capture(gain_percent: i32) -> (selected: Result<BluesOverdriveCapture, GainError>)
    ensures
        match selection(gain_percent) {
            Some(i) => selected matches Ok(c) && c == spec_captures()[i] && c.model_path@ == recorded_file(gain_percent as int),
            None => selected matches Err(GainError::UnsupportedSetting(m)) && m@ == unsupported_message(gain_percent),
        },
{
    let table = captures();
    let mut i: usize = 0;
    while i < table.len()
        invariant
            table@ == spec_captures(),
            i <= table.len(),
            selection_from(gain_percent, 0) == selection_from(gain_percent, i as int),
        decreases table.len() - i,
    {
        if table[i].params.gain_percent == gain_percent {
            proof {
                lemma_selected_file(gain_percent);
            }
            return Ok(table[i]);
        }
        i = i + 1;
    }
    let text = decimal_text(gain_percent);
    let parts = vec!["gain model '", MODEL_ID, "' does not support gain_percent=", text.as_str()];
    assert(texts(parts@) =~= seq!["gain model '"@, MODEL_ID@, "' does not support gain_percent="@, decimal(gain_percent as int)]);
    Err(GainError::UnsupportedSetting(join(&parts)))
}

/// Accepts a percentage exactly where a capture was recorded at it.
pub fn validate_params(gain_percent: i32) -> (checked: Result<(), GainError>)
    ensures
        match selection(gain_percent) {
            Some(i) => checked is Ok,
            None => checked matches Err(GainError::UnsupportedSetting(m)) && m@ == unsupported_message(gain_percent),
        },
{
    match resolve_capture(gain_percent) {
        Ok(_) => Ok(()),
        Err(e) => Err(e),
    }
}

/// Names the capture file that the percentage selects.
pub fn asset_summary(gain_percent: i32) -> (summary: Result<String, GainError>)
    ensures
        match selection(gain_percent) {
            Some(i) => summary matches Ok(s) && s@ == asset_text(spec_captures()[i].model_path@)
                && s@ == asset_text(recorded_file(gain_percent as int)),
            None => summary matches Err(GainError::UnsupportedSetting(m)) && m@ == unsupported_message(gain_percent),
        },
{
    proof {
        lemma_selected_file(gain_percent);
    }
    match resolve_capture(gain_percent) {
        Ok(c) => {
            let parts = vec!["model='", c.model_path, "'"];
            assert(texts(parts@) =~= seq!["model='"@, c.model_path@, "'"@]);
            Ok(join(&parts))
        },
        Err(e) => Err(e),
    }
}

pub open spec fn spec_model_definition() -> ModelDefinitionView {
    ModelDefinitionView {
        id: MODEL_ID,
        display_name: DISPLAY_NAME,
        brand: BRAND,
        backend_kind: BackendKind::Nam,
        supported_instruments: Instruments::GuitarBass,
        knob_layout: seq![],
    }
}

/// What the registry lists for this model.
pub fn model_definition() -> (d: ModelDefinition)
    ensures
        d@ == spec_model_definition(),
{
    let knob_layout: Vec<KnobLayoutEntry> = Vec::new();
    let d = ModelDefinition {
        id: MODEL_ID,
        display_name: DISPLAY_NAME,
        brand: BRAND,
        backend_kind: BackendKind::Nam,
        supported_instruments: Instruments::GuitarBass,
        knob_layout,
    };
    assert(d@.knob_layout =~= spec_model_definition().knob_layout);
    d
}

/// The schema is sound: every parameter is, and no two share a path.
pub proof fn lemma_schema_well_formed()
    ensures
        schema_well_formed(spec_model_schema()),
{
    reveal_strlit("gain_percent");
    let ps = spec_model_schema().parameters.unwrap();
}

proof fn lemma_selection_from(gain_percent: i32, start: int)
    requires
        0 <= start,
    ensures
        match selection_from(gain_percent, start) {
            Some(i) => start <= i < spec_captures().len() && spec_captures()[i].params.gain_percent == gain_percent,
            None => forall|j: int| start <= j < spec_captures().len() ==> (#[trigger] spec_captures()[j]).params.gain_percent != gain_percent,
        },
    decreases spec_captures().len() - start,
{
    if start < spec_captures().len() && spec_captures()[start].params.gain_percent != gain_percent {
        lemma_selection_from(gain_percent, start + 1);
    }
}

/// A percentage selects a capture exactly when one was recorded at it.
pub proof fn lemma_selection(gain_percent: i32)
    ensures
        (selection(gain_percent) is Some) == (exists|j: int| 0 <= j < spec_captures().len() && (#[trigger] spec_captures()[j]).params.gain_percent == gain_percent),
        selection(gain_percent) matches Some(i) ==> spec_captures()[i].params.gain_percent == gain_percent,
{
    lemma_selection_from(gain_percent, 0);
}

/// No two captures share a percentage.
pub proof fn lemma_captures_distinct()
    ensures
        forall|a: int, b: int| 0 <= a < b < spec_captures().len() ==>
            (#[trigger] spec_captures()[a]).params.gain_percent != (#[trigger] spec_captures()[b]).params.gain_percent,
{
}

/// Every whole step of the schema's range, the default among them, selects a
/// capture.
pub proof fn lemma_every_step_selects()
    ensures
        spec_model_schema().parameters.unwrap()[0].kind matches ParameterKindView::Float { default, min, max, step, unit }
            && default matches Some(dv) && dv % 100 == 0 && selection((dv / 100) as i32) is Some
            && forall|k: int| 0 <= k && min + k * step <= max ==> {
                &&& (min + k * step) % 100 == 0
                &&& #[trigger] selection(((min + k * step) / 100) as i32) is Some
            },
{
    assert forall|k: int| 0 <= k && 2500 + k * 2500 <= 7500 implies {
        &&& (2500 + k * 2500) % 100 == 0
        &&& #[trigger] selection(((2500 + k * 2500) / 100) as i32) is Some
    } by {
        if k == 0 {
            lemma_selection(25);
            assert(spec_captures()[0].params.gain_percent == 25);
        } else if k == 1 {
            lemma_selection(50);
            assert(spec_captures()[1].params.gain_percent == 50);
        } else if k == 2 {
            lemma_selection(75);
            assert(spec_captures()[2].params.gain_percent == 75);
        }
    }
    lemma_selection(50);
    assert(spec_captures()[1].params.gain_percent == 50);
}

/// The file recorded at `percent`, as the recording names it.
pub open spec fn recorded_file(percent: int) -> Seq<char> {
    "pedals/boss_blues_driver_bd_2/Boss Blues Driver BD-2 Gain "@ + decimal(percent) + "percent.nam"@
}

/// Every capture names the file recorded at its own percentage, and no two
/// captures name the same file.
pub proof fn lemma_captures_name_their_percent()
    ensures
        forall|i: int| 0 <= i < spec_captures().len() ==>
            (#[trigger] spec_captures()[i]).model_path@ == recorded_file(spec_captures()[i].params.gain_percent as int),
        forall|a: int, b: int| 0 <= a < b < spec_captures().len() ==>
            (#[trigger] spec_captures()[a]).model_path@ != (#[trigger] spec_captures()[b]).model_path@,
{
    reveal_strlit("pedals/boss_blues_driver_bd_2/Boss Blues Driver BD-2 Gain ");
    reveal_strlit("percent.nam");
    reveal_strlit("pedals/boss_blues_driver_bd_2/Boss Blues Driver BD-2 Gain 25percent.nam");
    reveal_strlit("pedals/boss_blues_driver_bd_2/Boss Blues Driver BD-2 Gain 50percent.nam");
    reveal_strlit("pedals/boss_blues_driver_bd_2/Boss Blues Driver BD-2 Gain 75percent.nam");
    reveal_with_fuel(digits, 3);
    let t = spec_captures();
    assert forall|i: int| 0 <= i < t.len() implies
        (#[trigger] t[i]).model_path@ == recorded_file(t[i].params.gain_percent as int) by {
        if i == 0 {
            assert(decimal(25) =~= seq!['2', '5']);
            assert(t[i].model_path@ =~= recorded_file(25));
        } else if i == 1 {
            assert(decimal(50) =~= seq!['5', '0']);
            assert(t[i].model_path@ =~= recorded_file(50));
        } else if i == 2 {
            assert(decimal(75) =~= seq!['7', '5']);
            assert(t[i].model_path@ =~= recorded_file(75));
        }
    }
    assert forall|a: int, b: int| 0 <= a < b < 3 implies t[a].model_path@ != t[b].model_path@ by {
        if a == 0 && b == 1 {
            assert(t[0].model_path@[58] != t[1].model_path@[58]);
        } else if a == 0 && b == 2 {
            assert(t[0].model_path@[58] != t[2].model_path@[58]);
        } else if a == 1 && b == 2 {
            assert(t[1].model_path@[58] != t[2].model_path@[58]);
        }
    }
}

/// The capture that a percentage selects names the file recorded at that
/// percentage.
pub proof fn lemma_selected_file(gain_percent: i32)
    ensures
        selection(gain_percent) matches Some(i) ==> spec_captures()[i].model_path@ == recorded_file(gain_percent as int),
{
    lemma_selection_from(gain_percent, 0);
    lemma_captures_name_their_percent();
    if let Some(i) = selection(gain_percent) {
        assert(spec_captures()[i].model_path@ == recorded_file(spec_captures()[i].params.gain_percent as int));
    }
}

} // verus!
