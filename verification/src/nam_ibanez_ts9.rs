//! The "TS9 Tube Screamer (NAM)" gain model (ibanez), played from neural captures, one per recorded setting.

use vstd::prelude::*;
use crate::capture::asset_text;
use crate::model::{BackendKind, Instruments, KnobLayoutEntry, ModelDefinition, ModelDefinitionView};
use crate::schema::{EffectType, ModelSchema, ModelSchemaView, ParameterKindView, ParameterSpecView, parameters_view, schema_well_formed, parameter_well_formed, parameter_paths, ParameterUnit, float_parameter};
use crate::text::{join, texts, decimal, digits};

verus! {

pub const MODEL_ID: &'static str = "nam_ibanez_ts9";
pub const DISPLAY_NAME: &'static str = "TS9 Tube Screamer (NAM)";
pub const BRAND: &'static str = "ibanez";

pub open spec fn spec_model_schema() -> ModelSchemaView {
    ModelSchemaView {
        effect_type: EffectType::Gain,
        model: MODEL_ID,
        display_name: DISPLAY_NAME,
        audio_mode: None,
        parameters: Some(seq![
            ParameterSpecView {
                path: "drive",
                label: "Drive",
                group: Some("Gain"),
                kind: ParameterKindView::Float {
                    default: Some(700),
                    min: 0,
                    max: 1000,
                    step: 100,
                    unit: ParameterUnit::Unitless,
                },
            },
            ParameterSpecView {
                path: "tone",
                label: "Tone",
                group: Some("EQ"),
                kind: ParameterKindView::Float {
                    default: Some(700),
                    min: 0,
                    max: 1000,
                    step: 100,
                    unit: ParameterUnit::Unitless,
                },
            },
            ParameterSpecView {
                path: "level",
                label: "Level",
                group: Some("Output"),
                kind: ParameterKindView::Float {
                    default: Some(700),
                    min: 0,
                    max: 1000,
                    step: 100,
                    unit: ParameterUnit::Unitless,
                },
            },
        ]),
    }
}

/// The parameters of the model.
pub fn model_schema() -> (schema: ModelSchema)
    ensures
        schema@ == spec_model_schema(),
{
    let parameters = vec![
        float_parameter(
            "drive",
            "Drive",
            Some("Gain"),
            Some(700),
            0,
            1000,
            100,
            ParameterUnit::Unitless,
        ),
        float_parameter(
            "tone",
            "Tone",
            Some("EQ"),
            Some(700),
            0,
            1000,
            100,
            ParameterUnit::Unitless,
        ),
        float_parameter(
            "level",
            "Level",
            Some("Output"),
            Some(700),
            0,
            1000,
            100,
            ParameterUnit::Unitless,
        ),
    ];
    assert(parameters_view(parameters@) =~= spec_model_schema().parameters.unwrap());
    ModelSchema {
        effect_type: EffectType::Gain,
        model: MODEL_ID,
        display_name: DISPLAY_NAME,
        audio_mode: None,
        parameters: Some(parameters),
    }
}

/// A capture of the pedal and the knob positions it was recorded at.
#[derive(Debug, Clone, Copy)]
pub struct Ts9Capture {
    pub drive: i32,
    pub tone: i32,
    pub level: i32,
    pub model_path: &'static str,
}

pub open spec fn spec_captures() -> Seq<Ts9Capture> {
    seq![
        Ts9Capture { drive: 0, tone: 6, level: 6, model_path: "pedals/ibanez_ts9_tube_screamer/Ibanez TS9 Tube Screamer Drive 0 Tone 6 Level 6.nam" },
        Ts9Capture { drive: 0, tone: 7, level: 7, model_path: "pedals/ibanez_ts9_tube_screamer/Ibanez TS9 Tube Screamer Drive 0 Tone 7 Level 7.nam" },
        Ts9Capture { drive: 0, tone: 9, level: 9, model_path: "pedals/ibanez_ts9_tube_screamer/Ibanez TS9 Tube Screamer Drive 0 Tone 9 Level 9.nam" },
        Ts9Capture { drive: 2, tone: 7, level: 10, model_path: "pedals/ibanez_ts9_tube_screamer/Ibanez TS9 Tube Screamer Drive 2 Tone 7 Level 10.nam" },
        Ts9Capture { drive: 7, tone: 7, level: 7, model_path: "pedals/ibanez_ts9_tube_screamer/Ibanez TS9 Tube Screamer Drive 7 Tone 7 Level 7.nam" },
        Ts9Capture { drive: 7, tone: 7, level: 9, model_path: "pedals/ibanez_ts9_tube_screamer/Ibanez TS9 Tube Screamer Drive 7 Tone 7 Level 9.nam" },
        Ts9Capture { drive: 8, tone: 4, level: 5, model_path: "pedals/ibanez_ts9_tube_screamer/Ibanez TS9 Tube Screamer Drive 8 Tone 4 Level 5.nam" },
        Ts9Capture { drive: 8, tone: 8, level: 8, model_path: "pedals/ibanez_ts9_tube_screamer/Ibanez TS9 Tube Screamer Drive 8 Tone 8 Level 8.nam" },
        Ts9Capture { drive: 10, tone: 9, level: 7, model_path: "pedals/ibanez_ts9_tube_screamer/Ibanez TS9 Tube Screamer Drive 10 Tone 9 Level 7.nam" },
    ]
}

/// The captures of the pedal, with their knob positions.
pub fn captures() -> (table: Vec<Ts9Capture>)
    ensures
        table@ == spec_captures(),
{
    let table = vec![
        Ts9Capture { drive: 0, tone: 6, level: 6, model_path: "pedals/ibanez_ts9_tube_screamer/Ibanez TS9 Tube Screamer Drive 0 Tone 6 Level 6.nam" },
        Ts9Capture { drive: 0, tone: 7, level: 7, model_path: "pedals/ibanez_ts9_tube_screamer/Ibanez TS9 Tube Screamer Drive 0 Tone 7 Level 7.nam" },
        Ts9Capture { drive: 0, tone: 9, level: 9, model_path: "pedals/ibanez_ts9_tube_screamer/Ibanez TS9 Tube Screamer Drive 0 Tone 9 Level 9.nam" },
        Ts9Capture { drive: 2, tone: 7, level: 10, model_path: "pedals/ibanez_ts9_tube_screamer/Ibanez TS9 Tube Screamer Drive 2 Tone 7 Level 10.nam" },
        Ts9Capture { drive: 7, tone: 7, level: 7, model_path: "pedals/ibanez_ts9_tube_screamer/Ibanez TS9 Tube Screamer Drive 7 Tone 7 Level 7.nam" },
        Ts9Capture { drive: 7, tone: 7, level: 9, model_path: "pedals/ibanez_ts9_tube_screamer/Ibanez TS9 Tube Screamer Drive 7 Tone 7 Level 9.nam" },
        Ts9Capture { drive: 8, tone: 4, level: 5, model_path: "pedals/ibanez_ts9_tube_screamer/Ibanez TS9 Tube Screamer Drive 8 Tone 4 Level 5.nam" },
        Ts9Capture { drive: 8, tone: 8, level: 8, model_path: "pedals/ibanez_ts9_tube_screamer/Ibanez TS9 Tube Screamer Drive 8 Tone 8 Level 8.nam" },
        Ts9Capture { drive: 10, tone: 9, level: 7, model_path: "pedals/ibanez_ts9_tube_screamer/Ibanez TS9 Tube Screamer Drive 10 Tone 9 Level 7.nam" },
    ];
    assert(table@ =~= spec_captures());
    table
}

pub open spec fn abs(x: int) -> int {
    if x < 0 { -x } else { x }
}

/// How far a capture is from the requested knobs: the drive weighs a hundred,
/// the tone ten, the level one.
pub open spec fn distance(c: Ts9Capture, drive: i32, tone: i32, level: i32) -> int {
    abs(c.drive - drive) * 100 + abs(c.tone - tone) * 10 + abs(c.level - level)
}

/// Capture `i` is the first of those nearest to the request.
pub open spec fn is_nearest_at(t: Seq<Ts9Capture>, drive: i32, tone: i32, level: i32, i: int) -> bool {
    &&& 0 <= i < t.len()
    &&& forall|j: int| 0 <= j < t.len() ==> distance(t[i], drive, tone, level) <= distance(#[trigger] t[j], drive, tone, level)
    &&& forall|j: int| 0 <= j < i ==> distance(#[trigger] t[j], drive, tone, level) > distance(t[i], drive, tone, level)
}

/// The index of the capture that the knobs select.
pub open spec fn spec_nearest(drive: i32, tone: i32, level: i32) -> int {
    choose|i: int| is_nearest_at(spec_captures(), drive, tone, level, i)
}

fn gap(a: i32, b: i32) -> (g: i64)
    ensures
        g == abs(a - b),
{
    let d = a as i64 - b as i64;
    if d < 0 { -d } else { d }
}

fn distance_of(c: &Ts9Capture, drive: i32, tone: i32, level: i32) -> (d: i64)
    ensures
        d == distance(*c, drive, tone, level),
{
    gap(c.drive, drive) * 100 + gap(c.tone, tone) * 10 + gap(c.level, level)
}

/// Two first-nearest captures are the same one.
pub proof fn lemma_nearest_unique(t: Seq<Ts9Capture>, drive: i32, tone: i32, level: i32, i: int, j: int)
    requires
        is_nearest_at(t, drive, tone, level, i),
        is_nearest_at(t, drive, tone, level, j),
    ensures
        i == j,
{
    if i < j {
        assert(distance(t[i], drive, tone, level) > distance(t[j], drive, tone, level));
    } else if j < i {
        assert(distance(t[j], drive, tone, level) > distance(t[i], drive, tone, level));
    }
}

/// The capture nearest to the requested knobs, drive first, then tone, then
/// level; the knobs are the schema's numbers rounded to whole positions.
pub fn resolve_capture(drive: i32, tone: i32, level: i32) -> (c: Ts9Capture)
    ensures
        c == spec_captures()[spec_nearest(drive, tone, level)],
        c.model_path@ == recorded_file(c.drive as int, c.tone as int, c.level as int),
{
    let table = captures();
    let mut best: usize = 0;
    let mut best_distance = distance_of(&table[0], drive, tone, level);
    let mut i: usize = 1;
    while i < table.len()
        invariant
            table@ == spec_captures(),
            1 <= i <= table.len(),
            best < i,
            best_distance == distance(table@[best as int], drive, tone, level),
            forall|j: int| 0 <= j < i ==> best_distance <= distance(#[trigger] table@[j], drive, tone, level),
            forall|j: int| 0 <= j < best ==> distance(#[trigger] table@[j], drive, tone, level) > best_distance,
        decreases table.len() - i,
    {
        let d = distance_of(&table[i], drive, tone, level);
        if d < best_distance {
            best = i;
            best_distance = d;
        }
        i = i + 1;
    }
    proof {
        assert(is_nearest_at(spec_captures(), drive, tone, level, best as int));
        lemma_nearest_unique(spec_captures(), drive, tone, level, spec_nearest(drive, tone, level), best as int);
        lemma_captures_name_their_knobs();
    }
    table[best]
}

/// Names the capture file that the knobs select.
pub fn asset_summary(drive: i32, tone: i32, level: i32) -> (summary: String)
    ensures
        summary@ == asset_text(spec_captures()[spec_nearest(drive, tone, level)].model_path@),
        ({
            let c = spec_captures()[spec_nearest(drive, tone, level)];
            summary@ == asset_text(recorded_file(c.drive as int, c.tone as int, c.level as int))
        }),
{
    let c = resolve_capture(drive, tone, level);
    let parts = vec!["model='", c.model_path, "'"];
    assert(texts(parts@) =~= seq!["model='"@, c.model_path@, "'"@]);
    join(&parts)
}

pub open spec fn spec_model_definition() -> ModelDefinitionView {
    ModelDefinitionView {
        id: MODEL_ID,
        display_name: DISPLAY_NAME,
        brand: BRAND,
        backend_kind: BackendKind::Nam,
        supported_instruments: Instruments::GuitarBass,
        knob_layout: seq![
            KnobLayoutEntry { param_key: "drive", svg_cx: 13000, svg_cy: 9000, svg_r: 2200, min: 0, max: 1000, step: 100 },
            KnobLayoutEntry { param_key: "tone", svg_cx: 30200, svg_cy: 9000, svg_r: 2200, min: 0, max: 1000, step: 100 },
            KnobLayoutEntry { param_key: "level", svg_cx: 47000, svg_cy: 9000, svg_r: 2200, min: 0, max: 1000, step: 100 },
        ],
    }
}

/// What the registry lists for this model.
pub fn model_definition() -> (d: ModelDefinition)
    ensures
        d@ == spec_model_definition(),
{
    let knob_layout = vec![
        KnobLayoutEntry { param_key: "drive", svg_cx: 13000, svg_cy: 9000, svg_r: 2200, min: 0, max: 1000, step: 100 },
        KnobLayoutEntry { param_key: "tone", svg_cx: 30200, svg_cy: 9000, svg_r: 2200, min: 0, max: 1000, step: 100 },
        KnobLayoutEntry { param_key: "level", svg_cx: 47000, svg_cy: 9000, svg_r: 2200, min: 0, max: 1000, step: 100 },
    ];
    let d = ModelDefinition {
        id: MODEL_ID,
        display_name: DISPLAY_NAME,
        brand: BRAND,
        backend_kind: BackendKind::Nam,
        supported_instruments: Instruments::GuitarBass,
        knob_layout,
    };
    assert(d@.knob_layout =~= spec_model_definition().knob_layout);
    d
}

/// The schema is sound: every parameter is, and no two share a path.
pub proof fn lemma_schema_well_formed()
    ensures
        schema_well_formed(spec_model_schema()),
{
    reveal_strlit("drive");
    reveal_strlit("tone");
    reveal_strlit("level");
    let ps = spec_model_schema().parameters.unwrap();
    let paths = parameter_paths(ps);
    assert forall|a: int, b: int| 0 <= a < b < paths.len() implies paths[a] != paths[b] by {
        if paths[a] == paths[b] {
            assert(paths[a].len() == paths[b].len());
            assert(paths[a][0] == paths[b][0]);
        }
    }
}

proof fn lemma_prefix_nearest(t: Seq<Ts9Capture>, drive: i32, tone: i32, level: i32, n: int) -> (i: int)
    requires
        1 <= n <= t.len(),
    ensures
        0 <= i < n,
        forall|j: int| 0 <= j < n ==> distance(t[i], drive, tone, level) <= distance(#[trigger] t[j], drive, tone, level),
        forall|j: int| 0 <= j < i ==> distance(#[trigger] t[j], drive, tone, level) > distance(t[i], drive, tone, level),
    decreases n,
{
    if n == 1 {
        0
    } else {
        let i = lemma_prefix_nearest(t, drive, tone, level, n - 1);
        if distance(t[n - 1], drive, tone, level) < distance(t[i], drive, tone, level) {
            n - 1
        } else {
            i
        }
    }
}

/// Every request has a nearest capture.
pub proof fn lemma_nearest_exists(drive: i32, tone: i32, level: i32)
    ensures
        is_nearest_at(spec_captures(), drive, tone, level, spec_nearest(drive, tone, level)),
{
    let t = spec_captures();
    let i = lemma_prefix_nearest(t, drive, tone, level, t.len() as int);
    assert(is_nearest_at(t, drive, tone, level, i));
}

/// Where a capture was recorded at exactly the requested knobs, the first
/// such capture is the one selected.
pub proof fn lemma_exact_preferred(drive: i32, tone: i32, level: i32, j: int)
    requires
        0 <= j < spec_captures().len(),
        spec_captures()[j].drive == drive,
        spec_captures()[j].tone == tone,
        spec_captures()[j].level == level,
    ensures
        spec_captures()[spec_nearest(drive, tone, level)].drive == drive,
        spec_captures()[spec_nearest(drive, tone, level)].tone == tone,
        spec_captures()[spec_nearest(drive, tone, level)].level == level,
        spec_nearest(drive, tone, level) <= j,
{
    let t = spec_captures();
    lemma_nearest_exists(drive, tone, level);
    let i = spec_nearest(drive, tone, level);
    assert(distance(t[i], drive, tone, level) <= distance(t[j], drive, tone, level));
    if j < i {
        assert(distance(t[j], drive, tone, level) > distance(t[i], drive, tone, level));
    }
}

/// Every capture was recorded with the tone between 4 and 9.
proof fn lemma_tones_recorded(j: int)
    requires
        0 <= j < spec_captures().len(),
    ensures
        4 <= spec_captures()[j].tone <= 9,
{
}

/// The selected capture is nearest in drive: the drive knob counts first.
pub proof fn lemma_drive_first(drive: i32, tone: i32, level: i32)
    ensures
        forall|j: int| 0 <= j < spec_captures().len() ==>
            abs(spec_captures()[spec_nearest(drive, tone, level)].drive - drive)
                <= abs((#[trigger] spec_captures()[j]).drive - drive),
{
    let t = spec_captures();
    lemma_nearest_exists(drive, tone, level);
    let i = spec_nearest(drive, tone, level);
    assert forall|j: int| 0 <= j < t.len() implies
        abs(t[i].drive - drive) <= abs((#[trigger] t[j]).drive - drive) by {
        assert(distance(t[i], drive, tone, level) <= distance(t[j], drive, tone, level));
        lemma_tones_recorded(i);
        lemma_tones_recorded(j);
        lemma_levels_recorded(i);
        lemma_levels_recorded(j);
    }
}

/// Every capture was recorded with the level between 5 and 10.
proof fn lemma_levels_recorded(j: int)
    requires
        0 <= j < spec_captures().len(),
    ensures
        5 <= spec_captures()[j].level <= 10,
{
}

/// Among the captures as near in drive as the selected one, the selected one
/// is nearest in tone: the tone knob counts second.
pub proof fn lemma_tone_second(drive: i32, tone: i32, level: i32)
    ensures
        forall|j: int| 0 <= j < spec_captures().len()
            && abs((#[trigger] spec_captures()[j]).drive - drive)
                == abs(spec_captures()[spec_nearest(drive, tone, level)].drive - drive) ==>
            abs(spec_captures()[spec_nearest(drive, tone, level)].tone - tone)
                <= abs(spec_captures()[j].tone - tone),
{
    let t = spec_captures();
    lemma_nearest_exists(drive, tone, level);
    let i = spec_nearest(drive, tone, level);
    assert forall|j: int| 0 <= j < t.len()
        && abs((#[trigger] t[j]).drive - drive) == abs(t[i].drive - drive) implies
        abs(t[i].tone - tone) <= abs(t[j].tone - tone) by {
        assert(distance(t[i], drive, tone, level) <= distance(t[j], drive, tone, level));
        lemma_levels_recorded(i);
        lemma_levels_recorded(j);
    }
}

/// Among the captures as near in drive and in tone as the selected one, the
/// selected one is nearest in level: the level knob counts last.
pub proof fn lemma_level_third(drive: i32, tone: i32, level: i32)
    ensures
        forall|j: int| 0 <= j < spec_captures().len()
            && abs((#[trigger] spec_captures()[j]).drive - drive)
                == abs(spec_captures()[spec_nearest(drive, tone, level)].drive - drive)
            && abs(spec_captures()[j].tone - tone)
                == abs(spec_captures()[spec_nearest(drive, tone, level)].tone - tone) ==>
            abs(spec_captures()[spec_nearest(drive, tone, level)].level - level)
                <= abs(spec_captures()[j].level - level),
{
    let t = spec_captures();
    lemma_nearest_exists(drive, tone, level);
    let i = spec_nearest(drive, tone, level);
    assert forall|j: int| 0 <= j < t.len()
        && abs((#[trigger] t[j]).drive - drive) == abs(t[i].drive - drive)
        && abs(t[j].tone - tone) == abs(t[i].tone - tone) implies
        abs(t[i].level - level) <= abs(t[j].level - level) by {
        assert(distance(t[i], drive, tone, level) <= distance(t[j], drive, tone, level));
    }
}

/// The file recorded at the given knob positions, as the recording names it.
pub open spec fn recorded_file(drive: int, tone: int, level: int) -> Seq<char> {
    "pedals/ibanez_ts9_tube_screamer/Ibanez TS9 Tube Screamer Drive "@ + decimal(drive) + " Tone "@
        + decimal(tone) + " Level "@ + decimal(level) + ".nam"@
}

/// Every capture names the file recorded at its own knobs, and no two
/// captures name the same file.
pub proof fn lemma_captures_name_their_knobs()
    ensures
        forall|i: int| 0 <= i < spec_captures().len() ==>
            (#[trigger] spec_captures()[i]).model_path@
                == recorded_file(spec_captures()[i].drive as int, spec_captures()[i].tone as int, spec_captures()[i].level as int),
        forall|a: int, b: int| 0 <= a < b < spec_captures().len() ==>
            (#[trigger] spec_captures()[a]).model_path@ != (#[trigger] spec_captures()[b]).model_path@,
{
    reveal_strlit("pedals/ibanez_ts9_tube_screamer/Ibanez TS9 Tube Screamer Drive ");
    reveal_strlit(" Tone ");
    reveal_strlit(" Level ");
    reveal_strlit(".nam");
    reveal_strlit("pedals/ibanez_ts9_tube_screamer/Ibanez TS9 Tube Screamer Drive 0 Tone 6 Level 6.nam");
    reveal_strlit("pedals/ibanez_ts9_tube_screamer/Ibanez TS9 Tube Screamer Drive 0 Tone 7 Level 7.nam");
    reveal_strlit("pedals/ibanez_ts9_tube_screamer/Ibanez TS9 Tube Screamer Drive 0 Tone 9 Level 9.nam");
    reveal_strlit("pedals/ibanez_ts9_tube_screamer/Ibanez TS9 Tube Screamer Drive 2 Tone 7 Level 10.nam");
    reveal_strlit("pedals/ibanez_ts9_tube_screamer/Ibanez TS9 Tube Screamer Drive 7 Tone 7 Level 7.nam");
    reveal_strlit("pedals/ibanez_ts9_tube_screamer/Ibanez TS9 Tube Screamer Drive 7 Tone 7 Level 9.nam");
    reveal_strlit("pedals/ibanez_ts9_tube_screamer/Ibanez TS9 Tube Screamer Drive 8 Tone 4 Level 5.nam");
    reveal_strlit("pedals/ibanez_ts9_tube_screamer/Ibanez TS9 Tube Screamer Drive 8 Tone 8 Level 8.nam");
    reveal_strlit("pedals/ibanez_ts9_tube_screamer/Ibanez TS9 Tube Screamer Drive 10 Tone 9 Level 7.nam");
    reveal_with_fuel(digits, 2);
    let t = spec_captures();
    assert forall|i: int| 0 <= i < t.len() implies
        (#[trigger] t[i]).model_path@ == recorded_file(t[i].drive as int, t[i].tone as int, t[i].level as int) by {
        if i == 0 {
            assert(decimal(0) =~= seq!['0']);
            assert(decimal(6) =~= seq!['6']);
            assert(t[i].model_path@ =~= recorded_file(0, 6, 6));
        } else if i == 1 {
            assert(decimal(0) =~= seq!['0']);
            assert(decimal(7) =~= seq!['7']);
            assert(t[i].model_path@ =~= recorded_file(0, 7, 7));
        } else if i == 2 {
            assert(decimal(0) =~= seq!['0']);
            assert(decimal(9) =~= seq!['9']);
            assert(t[i].model_path@ =~= recorded_file(0, 9, 9));
        } else if i == 3 {
            assert(decimal(2) =~= seq!['2']);
            assert(decimal(7) =~= seq!['7']);
            assert(decimal(10) =~= seq!['1', '0']);
            assert(t[i].model_path@ =~= recorded_file(2, 7, 10));
        } else if i == 4 {
            assert(decimal(7) =~= seq!['7']);
            assert(t[i].model_path@ =~= recorded_file(7, 7, 7));
        } else if i == 5 {
            assert(decimal(7) =~= seq!['7']);
            assert(decimal(9) =~= seq!['9']);
            assert(t[i].model_path@ =~= recorded_file(7, 7, 9));
        } else if i == 6 {
            assert(decimal(4) =~= seq!['4']);
            assert(decimal(5) =~= seq!['5']);
            assert(decimal(8) =~= seq!['8']);
            assert(t[i].model_path@ =~= recorded_file(8, 4, 5));
        } else if i == 7 {
            assert(decimal(8) =~= seq!['8']);
            assert(t[i].model_path@ =~= recorded_file(8, 8, 8));
        } else if i == 8 {
            assert(decimal(7) =~= seq!['7']);
            assert(decimal(9) =~= seq!['9']);
            assert(decimal(10) =~= seq!['1', '0']);
            assert(t[i].model_path@ =~= recorded_file(10, 9, 7));
        }
    }
    assert forall|a: int, b: int| 0 <= a < b < 9 implies t[a].model_path@ != t[b].model_path@ by {
        if a == 0 && b == 1 {
            assert(t[0].model_path@[70] != t[1].model_path@[70]);
        } else if a == 0 && b == 2 {
            assert(t[0].model_path@[70] != t[2].model_path@[70]);
        } else if a == 0 && b == 3 {
            assert(t[0].model_path@.len() != t[3].model_path@.len());
        } else if a == 0 && b == 4 {
            assert(t[0].model_path@[63] != t[4].model_path@[63]);
        } else if a == 0 && b == 5 {
            assert(t[0].model_path@[63] != t[5].model_path@[63]);
        } else if a == 0 && b == 6 {
            assert(t[0].model_path@[63] != t[6].model_path@[63]);
        } else if a == 0 && b == 7 {
            assert(t[0].model_path@[63] != t[7].model_path@[63]);
        } else if a == 0 && b == 8 {
            assert(t[0].model_path@.len() != t[8].model_path@.len());
        } else if a == 1 && b == 2 {
            assert(t[1].model_path@[70] != t[2].model_path@[70]);
        } else if a == 1 && b == 3 {
            assert(t[1].model_path@.len() != t[3].model_path@.len());
        } else if a == 1 && b == 4 {
            assert(t[1].model_path@[63] != t[4].model_path@[63]);
        } else if a == 1 && b == 5 {
            assert(t[1].model_path@[63] != t[5].model_path@[63]);
        } else if a == 1 && b == 6 {
            assert(t[1].model_path@[63] != t[6].model_path@[63]);
        } else if a == 1 && b == 7 {
            assert(t[1].model_path@[63] != t[7].model_path@[63]);
        } else if a == 1 && b == 8 {
            assert(t[1].model_path@.len() != t[8].model_path@.len());
        } else if a == 2 && b == 3 {
            assert(t[2].model_path@.len() != t[3].model_path@.len());
        } else if a == 2 && b == 4 {
            assert(t[2].model_path@[63] != t[4].model_path@[63]);
        } else if a == 2 && b == 5 {
            assert(t[2].model_path@[63] != t[5].model_path@[63]);
        } else if a == 2 && b == 6 {
            assert(t[2].model_path@[63] != t[6].model_path@[63]);
        } else if a == 2 && b == 7 {
            assert(t[2].model_path@[63] != t[7].model_path@[63]);
        } else if a == 2 && b == 8 {
            assert(t[2].model_path@.len() != t[8].model_path@.len());
        } else if a == 3 && b == 4 {
            assert(t[3].model_path@.len() != t[4].model_path@.len());
        } else if a == 3 && b == 5 {
            assert(t[3].model_path@.len() != t[5].model_path@.len());
        } else if a == 3 && b == 6 {
            assert(t[3].model_path@.len() != t[6].model_path@.len());
        } else if a == 3 && b == 7 {
            assert(t[3].model_path@.len() != t[7].model_path@.len());
        } else if a == 3 && b == 8 {
            assert(t[3].model_path@[63] != t[8].model_path@[63]);
        } else if a == 4 && b == 5 {
            assert(t[4].model_path@[78] != t[5].model_path@[78]);
        } else if a == 4 && b == 6 {
            assert(t[4].model_path@[63] != t[6].model_path@[63]);
        } else if a == 4 && b == 7 {
            assert(t[4].model_path@[63] != t[7].model_path@[63]);
        } else if a == 4 && b == 8 {
            assert(t[4].model_path@.len() != t[8].model_path@.len());
        } else if a == 5 && b == 6 {
            assert(t[5].model_path@[63] != t[6].model_path@[63]);
        } else if a == 5 && b == 7 {
            assert(t[5].model_path@[63] != t[7].model_path@[63]);
        } else if a == 5 && b == 8 {
            assert(t[5].model_path@.len() != t[8].model_path@.len());
        } else if a == 6 && b == 7 {
            assert(t[6].model_path@[70] != t[7].model_path@[70]);
        } else if a == 6 && b == 8 {
            assert(t[6].model_path@.len() != t[8].model_path@.len());
        } else if a == 7 && b == 8 {
            assert(t[7].model_path@.len() != t[8].model_path@.len());
        }
    }
}

/// Where a capture was recorded at exactly the requested knobs, the selected
/// capture names the file recorded at those knobs.
pub proof fn lemma_exact_request_names_its_file(drive: i32, tone: i32, level: i32, j: int)
    requires
        0 <= j < spec_captures().len(),
        spec_captures()[j].drive == drive,
        spec_captures()[j].tone == tone,
        spec_captures()[j].level == level,
    ensures
        spec_captures()[spec_nearest(drive, tone, level)].model_path@
            == recorded_file(drive as int, tone as int, level as int),
{
    lemma_exact_preferred(drive, tone, level, j);
    lemma_nearest_exists(drive, tone, level);
    lemma_captures_name_their_knobs();
}

/// The knob turns the parameter: it carries the parameter's path and runs over
/// the parameter's range by its step.
pub open spec fn knob_turns(knob: KnobLayoutEntry, p: ParameterSpecView) -> bool {
    &&& p.path@ == knob.param_key@
    &&& p.kind matches ParameterKindView::Float { min, max, step, .. }
    &&& knob.min == min && knob.max == max && knob.step == step
}

/// Each knob of the pedal's picture turns a parameter of the schema, over that
/// parameter's range and by its step.
pub proof fn lemma_knobs_turn_parameters()
    ensures
        forall|k: int| #![trigger spec_model_definition().knob_layout[k]]
            0 <= k < spec_model_definition().knob_layout.len() ==> exists|i: int|
                0 <= i < spec_model_schema().parameters.unwrap().len()
                && #[trigger] knob_turns(spec_model_definition().knob_layout[k], spec_model_schema().parameters.unwrap()[i]),
{
    let layout = spec_model_definition().knob_layout;
    let ps = spec_model_schema().parameters.unwrap();
    assert forall|k: int| #![trigger layout[k]] 0 <= k < layout.len() implies exists|i: int|
        0 <= i < ps.len() && #[trigger] knob_turns(layout[k], ps[i]) by {
        assert(knob_turns(layout[k], ps[k]));
    }
}

} // verus!
