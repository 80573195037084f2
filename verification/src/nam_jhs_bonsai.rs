//! The "Bonsai (9 TS)" gain model (jhs), played from neural captures, one per recorded setting.

use vstd::prelude::*;
use crate::capture::asset_text;
use crate::error::GainError;
use crate::model::{BackendKind, Instruments, KnobLayoutEntry, ModelDefinition, ModelDefinitionView};
use crate::schema::{EffectType, ModelSchema, ModelSchemaView, ParameterKindView, ParameterSpecView, parameters_view, schema_well_formed, parameter_well_formed, parameter_paths, EnumChoice, choice, enum_parameter, choice_values, bool_parameter, choices_at, default_at, is_choice};
use crate::text::{concat, join, texts, str_eq, bool_text};

verus! {

pub const MODEL_ID: &'static str = "jhs_bonsai";
pub const DISPLAY_NAME: &'static str = "Bonsai (9 TS)";
pub const BRAND: &'static str = "jhs";

pub open spec fn spec_model_schema() -> ModelSchemaView {
    ModelSchemaView {
        effect_type: EffectType::Gain,
        model: MODEL_ID,
        display_name: DISPLAY_NAME,
        audio_mode: None,
        parameters: Some(seq![
            ParameterSpecView {
                path: "mode",
                label: "Mode",
                group: Some("Pedal"),
                kind: ParameterKindView::Enum {
                    default: Some("808"),
                    choices: seq![
                        EnumChoice { value: "808", label: "TS808" },
                        EnumChoice { value: "ts9", label: "TS9" },
                        EnumChoice { value: "od1", label: "OD-1" },
                        EnumChoice { value: "jhs", label: "JHS" },
                        EnumChoice { value: "keeley", label: "Keeley" },
                    ],
                },
            },
            ParameterSpecView {
                path: "boost",
                label: "Boost",
                group: Some("Pedal"),
                kind: ParameterKindView::Bool { default: Some(false) },
            },
        ]),
    }
}

/// The parameters of the model.
pub fn model_schema() -> (schema: ModelSchema)
    ensures
        schema@ == spec_model_schema(),
{
    let parameters = vec![
        enum_parameter(
            "mode",
            "Mode",
            Some("Pedal"),
            Some("808"),
            vec![
                choice("808", "TS808"),
                choice("ts9", "TS9"),
                choice("od1", "OD-1"),
                choice("jhs", "JHS"),
                choice("keeley", "Keeley"),
            ],
        ),
        bool_parameter("boost", "Boost", Some("Pedal"), Some(false)),
    ];
    assert(parameters_view(parameters@) =~= spec_model_schema().parameters.unwrap());
    ModelSchema {
        effect_type: EffectType::Gain,
        model: MODEL_ID,
        display_name: DISPLAY_NAME,
        audio_mode: None,
        parameters: Some(parameters),
    }
}

/// The setting a capture was recorded at.
#[derive(Debug, Clone, Copy, PartialEq, Eq)]
pub struct BonsaiParams {
    pub mode: &'static str,
    pub boost: bool,
}

/// A capture of the pedal and the setting it was recorded at.
#[derive(Debug, Clone, Copy)]
pub struct BonsaiCapture {
    pub params: BonsaiParams,
    pub model_path: &'static str,
}

pub open spec fn spec_captures() -> Seq<BonsaiCapture> {
    seq![
        BonsaiCapture { params: BonsaiParams { mode: "808", boost: false }, model_path: "pedals/jhs_bonsai/bonsai_808_neutral.nam" },
        BonsaiCapture { params: BonsaiParams { mode: "808", boost: true }, model_path: "pedals/jhs_bonsai/bonsai_808_boost.nam" },
        BonsaiCapture { params: BonsaiParams { mode: "ts9", boost: false }, model_path: "pedals/jhs_bonsai/bonsai_ts9_neutral.nam" },
        BonsaiCapture { params: BonsaiParams { mode: "ts9", boost: true }, model_path: "pedals/jhs_bonsai/bonsai_ts9_boost.nam" },
        BonsaiCapture { params: BonsaiParams { mode: "od1", boost: false }, model_path: "pedals/jhs_bonsai/bonsai_od1_neutral.nam" },
        BonsaiCapture { params: BonsaiParams { mode: "od1", boost: true }, model_path: "pedals/jhs_bonsai/bonsai_od1_boost.nam" },
        BonsaiCapture { params: BonsaiParams { mode: "jhs", boost: false }, model_path: "pedals/jhs_bonsai/bonsai_jhs_neutral.nam" },
        BonsaiCapture { params: BonsaiParams { mode: "jhs", boost: true }, model_path: "pedals/jhs_bonsai/bonsai_jhs_boost.nam" },
        BonsaiCapture { params: BonsaiParams { mode: "keeley", boost: false }, model_path: "pedals/jhs_bonsai/bonsai_keeley_neutral.nam" },
        BonsaiCapture { params: BonsaiParams { mode: "keeley", boost: true }, model_path: "pedals/jhs_bonsai/bonsai_keeley_boost.nam" },
    ]
}

/// The captures of the pedal, each with its (mode, boost) setting.
pub fn captures() -> (table: Vec<BonsaiCapture>)
    ensures
        table@ == spec_captures(),
{
    let table = vec![
        BonsaiCapture { params: BonsaiParams { mode: "808", boost: false }, model_path: "pedals/jhs_bonsai/bonsai_808_neutral.nam" },
        BonsaiCapture { params: BonsaiParams { mode: "808", boost: true }, model_path: "pedals/jhs_bonsai/bonsai_808_boost.nam" },
        BonsaiCapture { params: BonsaiParams { mode: "ts9", boost: false }, model_path: "pedals/jhs_bonsai/bonsai_ts9_neutral.nam" },
        BonsaiCapture { params: BonsaiParams { mode: "ts9", boost: true }, model_path: "pedals/jhs_bonsai/bonsai_ts9_boost.nam" },
        BonsaiCapture { params: BonsaiParams { mode: "od1", boost: false }, model_path: "pedals/jhs_bonsai/bonsai_od1_neutral.nam" },
        BonsaiCapture { params: BonsaiParams { mode: "od1", boost: true }, model_path: "pedals/jhs_bonsai/bonsai_od1_boost.nam" },
        BonsaiCapture { params: BonsaiParams { mode: "jhs", boost: false }, model_path: "pedals/jhs_bonsai/bonsai_jhs_neutral.nam" },
        BonsaiCapture { params: BonsaiParams { mode: "jhs", boost: true }, model_path: "pedals/jhs_bonsai/bonsai_jhs_boost.nam" },
        BonsaiCapture { params: BonsaiParams { mode: "keeley", boost: false }, model_path: "pedals/jhs_bonsai/bonsai_keeley_neutral.nam" },
        BonsaiCapture { params: BonsaiParams { mode: "keeley", boost: true }, model_path: "pedals/jhs_bonsai/bonsai_keeley_boost.nam" },
    ];
    assert(table@ =~= spec_captures());
    table
}

/// Capture `c` was recorded at (mode, boost).
pub open spec fn recorded_at(c: BonsaiCapture, mode: Seq<char>, boost: bool) -> bool {
    c.params.mode@ == mode && c.params.boost == boost
}

/// The index of the first capture, at `start` or after, recorded at (mode, boost).
pub open spec fn selection_from(mode: Seq<char>, boost: bool, start: int) -> Option<int>
    decreases spec_captures().len() - start,
{
    if start < 0 || start >= spec_captures().len() {
        None
    } else if recorded_at(spec_captures()[start], mode, boost) {
        Some(start)
    } else {
        selection_from(mode, boost, start + 1)
    }
}

/// The index of the capture that (mode, boost) selects.
pub open spec fn selection(mode: Seq<char>, boost: bool) -> Option<int> {
    selection_from(mode, boost, 0)
}

/// What the model reports for a setting at which no capture was recorded.
pub open spec fn unsupported_message(mode: Seq<char>, boost: bool) -> Seq<char> {
    concat(seq![
        "gain model '"@, MODEL_ID@, "' does not support mode='"@, mode, "' boost="@,
        if boost { "true"@ } else { "false"@ },
    ])
}

/// The capture recorded at (mode, boost); an unset boost reads as off.
pub fn resolve_capture(mode: &str, boost: bool) -> (selected: Result<BonsaiCapture, GainError>)
    ensures
        match selection(mode@, boost) {
            Some(i) => selected matches Ok(c) && c == spec_captures()[i],
            None => selected matches Err(GainError::UnsupportedSetting(m)) && m@ == unsupported_message(mode@, boost),
        },
{
    let table = captures();
    let mut i: usize = 0;
    while i < table.len()
        invariant
            table@ == spec_captures(),
            i <= table.len(),
            selection_from(mode@, boost, 0) == selection_from(mode@, boost, i as int),
        decreases table.len() - i,
    {
        if str_eq(table[i].params.mode, mode) && table[i].params.boost == boost {
            return Ok(table[i]);
        }
        i = i + 1;
    }
    let parts = vec!["gain model '", MODEL_ID, "' does not support mode='", mode, "' boost=", bool_text(boost)];
    assert(texts(parts@) =~= seq![
        "gain model '"@, MODEL_ID@, "' does not support mode='"@, mode@, "' boost="@,
        if boost { "true"@ } else { "false"@ },
    ]);
    Err(GainError::UnsupportedSetting(join(&parts)))
}

/// Accepts (mode, boost) exactly where a capture was recorded there.
pub fn validate_params(mode: &str, boost: bool) -> (checked: Result<(), GainError>)
    ensures
        match selection(mode@, boost) {
            Some(i) => checked is Ok,
            None => checked matches Err(GainError::UnsupportedSetting(m)) && m@ == unsupported_message(mode@, boost),
        },
{
    match resolve_capture(mode, boost) {
        Ok(_) => Ok(()),
        Err(e) => Err(e),
    }
}

/// Names the capture file that (mode, boost) selects.
pub fn asset_summary(mode: &str, boost: bool) -> (summary: Result<String, GainError>)
    ensures
        match selection(mode@, boost) {
            Some(i) => summary matches Ok(s) && s@ == asset_text(spec_captures()[i].model_path@),
            None => summary matches Err(GainError::UnsupportedSetting(m)) && m@ == unsupported_message(mode@, boost),
        },
{
    match resolve_capture(mode, boost) {
        Ok(c) => {
            let parts = vec!["model='", c.model_path, "'"];
            assert(texts(parts@) =~= seq!["model='"@, c.model_path@, "'"@]);
            Ok(join(&parts))
        },
        Err(e) => Err(e),
    }
}

pub open spec fn spec_model_definition() -> ModelDefinitionView {
    ModelDefinitionView {
        id: MODEL_ID,
        display_name: DISPLAY_NAME,
        brand: BRAND,
        backend_kind: BackendKind::Nam,
        supported_instruments: Instruments::GuitarBass,
        knob_layout: seq![],
    }
}

/// What the registry lists for this model.
pub fn model_definition() -> (d: ModelDefinition)
    ensures
        d@ == spec_model_definition(),
{
    let knob_layout: Vec<KnobLayoutEntry> = Vec::new();
    let d = ModelDefinition {
        id: MODEL_ID,
        display_name: DISPLAY_NAME,
        brand: BRAND,
        backend_kind: BackendKind::Nam,
        supported_instruments: Instruments::GuitarBass,
        knob_layout,
    };
    assert(d@.knob_layout =~= spec_model_definition().knob_layout);
    d
}

/// The schema is sound: every parameter is, and no two share a path.
pub proof fn lemma_schema_well_formed()
    ensures
        schema_well_formed(spec_model_schema()),
{
    reveal_strlit("mode");
    reveal_strlit("boost");
    reveal_strlit("808");
    reveal_strlit("ts9");
    reveal_strlit("od1");
    reveal_strlit("jhs");
    reveal_strlit("keeley");
    let ps = spec_model_schema().parameters.unwrap();
    assert forall|i: int| 0 <= i < ps.len() implies parameter_well_formed(#[trigger] ps[i]) by {
        if ps[i].kind is Enum {
            let vs = choice_values(ps[i].kind->Enum_choices);
            assert forall|a: int, b: int| 0 <= a < b < vs.len() implies vs[a] != vs[b] by {
                if vs[a] == vs[b] {
                    assert(vs[a].len() == vs[b].len());
                    assert(vs[a][0] == vs[b][0]);
                }
            }
        }
        if i == 0 {
            assert(ps[0].kind->Enum_choices[0].value@ == "808"@);
        }
    }
    let paths = parameter_paths(ps);
    assert forall|a: int, b: int| 0 <= a < b < paths.len() implies paths[a] != paths[b] by {
        if paths[a] == paths[b] {
            assert(paths[a].len() == paths[b].len());
        }
    }
}

proof fn lemma_selection_from(mode: Seq<char>, boost: bool, start: int)
    requires
        0 <= start,
    ensures
        match selection_from(mode, boost, start) {
            Some(i) => start <= i < spec_captures().len() && recorded_at(spec_captures()[i], mode, boost),
            None => forall|j: int| start <= j < spec_captures().len() ==> !recorded_at(#[trigger] spec_captures()[j], mode, boost),
        },
    decreases spec_captures().len() - start,
{
    if start < spec_captures().len() && !recorded_at(spec_captures()[start], mode, boost) {
        lemma_selection_from(mode, boost, start + 1);
    }
}

/// A setting selects a capture exactly when one was recorded at it.
pub proof fn lemma_selection(mode: Seq<char>, boost: bool)
    ensures
        (selection(mode, boost) is Some)
            == (exists|j: int| 0 <= j < spec_captures().len() && recorded_at(#[trigger] spec_captures()[j], mode, boost)),
        selection(mode, boost) matches Some(i) ==> recorded_at(spec_captures()[i], mode, boost),
{
    lemma_selection_from(mode, boost, 0);
}

/// Each capture's mode is one the schema offers, and no two captures share a setting.
pub proof fn lemma_captures_follow_schema()
    ensures
        forall|i: int| 0 <= i < spec_captures().len() ==>
            is_choice(choices_at(spec_model_schema(), 0), (#[trigger] spec_captures()[i]).params.mode@),
        forall|a: int, b: int| 0 <= a < b < spec_captures().len() ==>
            !recorded_at(#[trigger] spec_captures()[a], (#[trigger] spec_captures()[b]).params.mode@, spec_captures()[b].params.boost),
{
    reveal_strlit("808");
    reveal_strlit("ts9");
    reveal_strlit("od1");
    reveal_strlit("jhs");
    reveal_strlit("keeley");
    let t = spec_captures();
    let cs = choices_at(spec_model_schema(), 0);
    assert forall|i: int| 0 <= i < t.len() implies is_choice(cs, (#[trigger] t[i]).params.mode@) by {
        if t[i].params.mode == "808" {
            assert(cs[0].value@ == t[i].params.mode@);
        } else if t[i].params.mode == "ts9" {
            assert(cs[1].value@ == t[i].params.mode@);
        } else if t[i].params.mode == "od1" {
            assert(cs[2].value@ == t[i].params.mode@);
        } else if t[i].params.mode == "jhs" {
            assert(cs[3].value@ == t[i].params.mode@);
        } else {
            assert(cs[4].value@ == t[i].params.mode@);
        }
    }
    assert forall|a: int, b: int| 0 <= a < b < t.len() implies
        !recorded_at(#[trigger] t[a], (#[trigger] t[b]).params.mode@, t[b].params.boost) by {
        let x = t[a].params.mode@;
        let y = t[b].params.mode@;
        if x == y && t[a].params.boost == t[b].params.boost {
            assert(x.len() == y.len());
            assert(x[0] == y[0]);
        }
    }
}

/// Every mode the schema offers, with the boost on or off, selects a capture;
/// so do the defaults.
pub proof fn lemma_every_setting_selects()
    ensures
        forall|i: int, boost: bool| 0 <= i < choices_at(spec_model_schema(), 0).len() ==>
            (#[trigger] selection(choices_at(spec_model_schema(), 0)[i].value@, boost)) is Some,
        default_at(spec_model_schema(), 0) == Some("808"),
        spec_model_schema().parameters.unwrap()[1].kind == (ParameterKindView::Bool { default: Some(false) }),
        selection("808"@, false) is Some,
{
    let t = spec_captures();
    let cs = choices_at(spec_model_schema(), 0);
    assert forall|i: int, boost: bool| 0 <= i < cs.len() implies (#[trigger] selection(cs[i].value@, boost)) is Some by {
        lemma_selection(cs[i].value@, boost);
        if i == 0 && boost == false {
            assert(recorded_at(t[0], cs[i].value@, boost));
        } else if i == 0 && boost == true {
            assert(recorded_at(t[1], cs[i].value@, boost));
        } else if i == 1 && boost == false {
            assert(recorded_at(t[2], cs[i].value@, boost));
        } else if i == 1 && boost == true {
            assert(recorded_at(t[3], cs[i].value@, boost));
        } else if i == 2 && boost == false {
            assert(recorded_at(t[4], cs[i].value@, boost));
        } else if i == 2 && boost == true {
            assert(recorded_at(t[5], cs[i].value@, boost));
        } else if i == 3 && boost == false {
            assert(recorded_at(t[6], cs[i].value@, boost));
        } else if i == 3 && boost == true {
            assert(recorded_at(t[7], cs[i].value@, boost));
        } else if i == 4 && boost == false {
            assert(recorded_at(t[8], cs[i].value@, boost));
        } else if i == 4 && boost == true {
            assert(recorded_at(t[9], cs[i].value@, boost));
        }
    }
    lemma_selection("808"@, false);
    assert(recorded_at(t[0], "808"@, false));
}

/// The file recorded at a setting, as the recording names it: the mode,
/// then `boost` or `neutral`.
pub open spec fn recorded_file(mode: Seq<char>, boost: bool) -> Seq<char> {
    "pedals/jhs_bonsai/bonsai_"@ + mode + "_"@ + (if boost { "boost"@ } else { "neutral"@ }) + ".nam"@
}

/// Every capture names the file recorded at its own setting, and no two
/// captures name the same file.
pub proof fn lemma_captures_name_their_setting()
    ensures
        forall|i: int| 0 <= i < spec_captures().len() ==>
            (#[trigger] spec_captures()[i]).model_path@
                == recorded_file(spec_captures()[i].params.mode@, spec_captures()[i].params.boost),
        forall|a: int, b: int| 0 <= a < b < spec_captures().len() ==>
            (#[trigger] spec_captures()[a]).model_path@ != (#[trigger] spec_captures()[b]).model_path@,
{
    reveal_strlit("pedals/jhs_bonsai/bonsai_");
    reveal_strlit("_");
    reveal_strlit("boost");
    reveal_strlit("neutral");
    reveal_strlit(".nam");
    reveal_strlit("808");
    reveal_strlit("ts9");
    reveal_strlit("od1");
    reveal_strlit("jhs");
    reveal_strlit("keeley");
    reveal_strlit("pedals/jhs_bonsai/bonsai_808_neutral.nam");
    reveal_strlit("pedals/jhs_bonsai/bonsai_808_boost.nam");
    reveal_strlit("pedals/jhs_bonsai/bonsai_ts9_neutral.nam");
    reveal_strlit("pedals/jhs_bonsai/bonsai_ts9_boost.nam");
    reveal_strlit("pedals/jhs_bonsai/bonsai_od1_neutral.nam");
    reveal_strlit("pedals/jhs_bonsai/bonsai_od1_boost.nam");
    reveal_strlit("pedals/jhs_bonsai/bonsai_jhs_neutral.nam");
    reveal_strlit("pedals/jhs_bonsai/bonsai_jhs_boost.nam");
    reveal_strlit("pedals/jhs_bonsai/bonsai_keeley_neutral.nam");
    reveal_strlit("pedals/jhs_bonsai/bonsai_keeley_boost.nam");
    let t = spec_captures();
    assert forall|i: int| 0 <= i < t.len() implies
        (#[trigger] t[i]).model_path@ == recorded_file(t[i].params.mode@, t[i].params.boost) by {
        if i == 0 {
            assert(t[i].model_path@ =~= recorded_file("808"@, false));
        } else if i == 1 {
            assert(t[i].model_path@ =~= recorded_file("808"@, true));
        } else if i == 2 {
            assert(t[i].model_path@ =~= recorded_file("ts9"@, false));
        } else if i == 3 {
            assert(t[i].model_path@ =~= recorded_file("ts9"@, true));
        } else if i == 4 {
            assert(t[i].model_path@ =~= recorded_file("od1"@, false));
        } else if i == 5 {
            assert(t[i].model_path@ =~= recorded_file("od1"@, true));
        } else if i == 6 {
            assert(t[i].model_path@ =~= recorded_file("jhs"@, false));
        } else if i == 7 {
            assert(t[i].model_path@ =~= recorded_file("jhs"@, true));
        } else if i == 8 {
            assert(t[i].model_path@ =~= recorded_file("keeley"@, false));
        } else if i == 9 {
            assert(t[i].model_path@ =~= recorded_file("keeley"@, true));
        }
    }
    assert forall|a: int, b: int| 0 <= a < b < 10 implies t[a].model_path@ != t[b].model_path@ by {
        if a == 0 && b == 1 {
            assert(t[0].model_path@.len() != t[1].model_path@.len());
        } else if a == 0 && b == 2 {
            assert(t[0].model_path@[25] != t[2].model_path@[25]);
        } else if a == 0 && b == 3 {
            assert(t[0].model_path@.len() != t[3].model_path@.len());
        } else if a == 0 && b == 4 {
            assert(t[0].model_path@[25] != t[4].model_path@[25]);
        } else if a == 0 && b == 5 {
            assert(t[0].model_path@.len() != t[5].model_path@.len());
        } else if a == 0 && b == 6 {
            assert(t[0].model_path@[25] != t[6].model_path@[25]);
        } else if a == 0 && b == 7 {
            assert(t[0].model_path@.len() != t[7].model_path@.len());
        } else if a == 0 && b == 8 {
            assert(t[0].model_path@.len() != t[8].model_path@.len());
        } else if a == 0 && b == 9 {
            assert(t[0].model_path@.len() != t[9].model_path@.len());
        } else if a == 1 && b == 2 {
            assert(t[1].model_path@.len() != t[2].model_path@.len());
        } else if a == 1 && b == 3 {
            assert(t[1].model_path@[25] != t[3].model_path@[25]);
        } else if a == 1 && b == 4 {
            assert(t[1].model_path@.len() != t[4].model_path@.len());
        } else if a == 1 && b == 5 {
            assert(t[1].model_path@[25] != t[5].model_path@[25]);
        } else if a == 1 && b == 6 {
            assert(t[1].model_path@.len() != t[6].model_path@.len());
        } else if a == 1 && b == 7 {
            assert(t[1].model_path@[25] != t[7].model_path@[25]);
        } else if a == 1 && b == 8 {
            assert(t[1].model_path@.len() != t[8].model_path@.len());
        } else if a == 1 && b == 9 {
            assert(t[1].model_path@.len() != t[9].model_path@.len());
        } else if a == 2 && b == 3 {
            assert(t[2].model_path@.len() != t[3].model_path@.len());
        } else if a == 2 && b == 4 {
            assert(t[2].model_path@[25] != t[4].model_path@[25]);
        } else if a == 2 && b == 5 {
            assert(t[2].model_path@.len() != t[5].model_path@.len());
        } else if a == 2 && b == 6 {
            assert(t[2].model_path@[25] != t[6].model_path@[25]);
        } else if a == 2 && b == 7 {
            assert(t[2].model_path@.len() != t[7].model_path@.len());
        } else if a == 2 && b == 8 {
            assert(t[2].model_path@.len() != t[8].model_path@.len());
        } else if a == 2 && b == 9 {
            assert(t[2].model_path@.len() != t[9].model_path@.len());
        } else if a == 3 && b == 4 {
            assert(t[3].model_path@.len() != t[4].model_path@.len());
        } else if a == 3 && b == 5 {
            assert(t[3].model_path@[25] != t[5].model_path@[25]);
        } else if a == 3 && b == 6 {
            assert(t[3].model_path@.len() != t[6].model_path@.len());
        } else if a == 3 && b == 7 {
            assert(t[3].model_path@[25] != t[7].model_path@[25]);
        } else if a == 3 && b == 8 {
            assert(t[3].model_path@.len() != t[8].model_path@.len());
        } else if a == 3 && b == 9 {
            assert(t[3].model_path@.len() != t[9].model_path@.len());
        } else if a == 4 && b == 5 {
            assert(t[4].model_path@.len() != t[5].model_path@.len());
        } else if a == 4 && b == 6 {
            assert(t[4].model_path@[25] != t[6].model_path@[25]);
        } else if a == 4 && b == 7 {
            assert(t[4].model_path@.len() != t[7].model_path@.len());
        } else if a == 4 && b == 8 {
            assert(t[4].model_path@.len() != t[8].model_path@.len());
        } else if a == 4 && b == 9 {
            assert(t[4].model_path@.len() != t[9].model_path@.len());
        } else if a == 5 && b == 6 {
            assert(t[5].model_path@.len() != t[6].model_path@.len());
        } else if a == 5 && b == 7 {
            assert(t[5].model_path@[25] != t[7].model_path@[25]);
        } else if a == 5 && b == 8 {
            assert(t[5].model_path@.len() != t[8].model_path@.len());
        } else if a == 5 && b == 9 {
            assert(t[5].model_path@.len() != t[9].model_path@.len());
        } else if a == 6 && b == 7 {
            assert(t[6].model_path@.len() != t[7].model_path@.len());
        } else if a == 6 && b == 8 {
            assert(t[6].model_path@.len() != t[8].model_path@.len());
        } else if a == 6 && b == 9 {
            assert(t[6].model_path@.len() != t[9].model_path@.len());
        } else if a == 7 && b == 8 {
            assert(t[7].model_path@.len() != t[8].model_path@.len());
        } else if a == 7 && b == 9 {
            assert(t[7].model_path@.len() != t[9].model_path@.len());
        } else if a == 8 && b == 9 {
            assert(t[8].model_path@.len() != t[9].model_path@.len());
        }
    }
}

/// A setting that selects a capture selects the file recorded at that setting.
pub proof fn lemma_selected_file(mode: Seq<char>, boost: bool)
    ensures
        selection(mode, boost) matches Some(i) ==> spec_captures()[i].model_path@ == recorded_file(mode, boost),
{
    lemma_selection_from(mode, boost, 0);
    lemma_captures_name_their_setting();
    if let Some(i) = selection(mode, boost) {
        assert(spec_captures()[i].model_path@
            == recorded_file(spec_captures()[i].params.mode@, spec_captures()[i].params.boost));
    }
}

} // verus!
