//! Parameter schemas: what a model asks for, and when such a description is sound.

use vstd::prelude::*;

verus! {

/// The kind of effect a model belongs to.
#[derive(Clone, Copy, PartialEq, Eq, Debug, Structural)]
pub enum EffectType {
    Gain,
}

/// How a mono model is laid out over a stereo chain.
#[derive(Clone, Copy, PartialEq, Eq, Debug, Structural)]
pub enum AudioMode {
    DualMono,
    MonoToStereo,
}

/// The unit a numeric parameter is shown in.
#[derive(Clone, Copy, PartialEq, Eq, Debug, Structural)]
pub enum ParameterUnit {
    Unitless,
    Percent,
    Decibels,
    Hertz,
}

/// One value an enumerated parameter can take, with its label.
#[derive(Clone, Copy, Debug)]
pub struct EnumChoice {
    pub value: &'static str,
    pub label: &'static str,
}

/// What a parameter holds. Numbers are kept in hundredths of the unit:
/// `Float { min: 0, max: 10000, step: 100, .. }` runs from 0.0 to 100.0 by 1.0.
#[allow(inconsistent_fields)]
pub enum ParameterKind {
    Enum { default: Option<&'static str>, choices: Vec<EnumChoice> },
    Float { default: Option<i64>, min: i64, max: i64, step: i64, unit: ParameterUnit },
    Bool { default: Option<bool> },
}

#[allow(inconsistent_fields)]
pub enum ParameterKindView {
    Enum { default: Option<&'static str>, choices: Seq<EnumChoice> },
    Float { default: Option<i64>, min: i64, max: i64, step: i64, unit: ParameterUnit },
    Bool { default: Option<bool> },
}

impl View for ParameterKind {
    type V = ParameterKindView;

    open spec fn view(&self) -> ParameterKindView {
        match self {
            ParameterKind::Enum { default, choices } => ParameterKindView::Enum {
                default: *default,
                choices: choices@,
            },
            ParameterKind::Float { default, min, max, step, unit } => ParameterKindView::Float {
                default: *default,
                min: *min,
                max: *max,
                step: *step,
                unit: *unit,
            },
            ParameterKind::Bool { default } => ParameterKindView::Bool { default: *default },
        }
    }
}

/// One parameter of a model: its path, label, optional group and kind.
pub struct ParameterSpec {
    pub path: &'static str,
    pub label: &'static str,
    pub group: Option<&'static str>,
    pub kind: ParameterKind,
}

pub struct ParameterSpecView {
    pub path: &'static str,
    pub label: &'static str,
    pub group: Option<&'static str>,
    pub kind: ParameterKindView,
}

impl View for ParameterSpec {
    type V = ParameterSpecView;

    open spec fn view(&self) -> ParameterSpecView {
        ParameterSpecView { path: self.path, label: self.label, group: self.group, kind: self.kind@ }
    }
}

/// A choice of an enumerated parameter.
pub fn choice(value: &'static str, label: &'static str) -> (c: EnumChoice)
    ensures
        c == (EnumChoice { value, label }),
{
    EnumChoice { value, label }
}

/// An enumerated parameter.
pub fn enum_parameter(
    path: &'static str,
    label: &'static str,
    group: Option<&'static str>,
    default: Option<&'static str>,
    choices: Vec<EnumChoice>,
) -> (p: ParameterSpec)
    ensures
        p@ == (ParameterSpecView {
            path,
            label,
            group,
            kind: ParameterKindView::Enum { default, choices: choices@ },
        }),
{
    ParameterSpec { path, label, group, kind: ParameterKind::Enum { default, choices } }
}

/// A numeric parameter; `default`, `min`, `max` and `step` are in hundredths.
pub fn float_parameter(
    path: &'static str,
    label: &'static str,
    group: Option<&'static str>,
    default: Option<i64>,
    min: i64,
    max: i64,
    step: i64,
    unit: ParameterUnit,
) -> (p: ParameterSpec)
    ensures
        p@ == (ParameterSpecView {
            path,
            label,
            group,
            kind: ParameterKindView::Float { default, min, max, step, unit },
        }),
{
    ParameterSpec { path, label, group, kind: ParameterKind::Float { default, min, max, step, unit } }
}

/// An on/off parameter.
pub fn bool_parameter(
    path: &'static str,
    label: &'static str,
    group: Option<&'static str>,
    default: Option<bool>,
) -> (p: ParameterSpec)
    ensures
        p@ == (ParameterSpecView { path, label, group, kind: ParameterKindView::Bool { default } }),
{
    ParameterSpec { path, label, group, kind: ParameterKind::Bool { default } }
}

/// The parameter schema of a model. `audio_mode` and `parameters` are `None`
/// where the model keeps what the capture backend's schema builder gives.
pub struct ModelSchema {
    pub effect_type: EffectType,
    pub model: &'static str,
    pub display_name: &'static str,
    pub audio_mode: Option<AudioMode>,
    pub parameters: Option<Vec<ParameterSpec>>,
}

pub struct ModelSchemaView {
    pub effect_type: EffectType,
    pub model: &'static str,
    pub display_name: &'static str,
    pub audio_mode: Option<AudioMode>,
    pub parameters: Option<Seq<ParameterSpecView>>,
}

pub open spec fn parameters_view(ps: Seq<ParameterSpec>) -> Seq<ParameterSpecView> {
    ps.map_values(|p: ParameterSpec| p@)
}

impl View for ModelSchema {
    type V = ModelSchemaView;

    open spec fn view(&self) -> ModelSchemaView {
        ModelSchemaView {
            effect_type: self.effect_type,
            model: self.model,
            display_name: self.display_name,
            audio_mode: self.audio_mode,
            parameters: match &self.parameters {
                Some(ps) => Some(parameters_view(ps@)),
                None => None,
            },
        }
    }
}

/// Whether a numeric parameter can be set to `v` (in hundredths): `v` lies in
/// its range and on one of its steps.
pub open spec fn float_allows(k: ParameterKindView, v: int) -> bool {
    match k {
        ParameterKindView::Float { min, max, step, .. } => min <= v <= max && (v - min) % (step as int) == 0,
        _ => false,
    }
}

/// The unit of a numeric parameter.
pub open spec fn float_unit(k: ParameterKindView) -> Option<ParameterUnit> {
    match k {
        ParameterKindView::Float { unit, .. } => Some(unit),
        _ => None,
    }
}

/// The texts of `strs`, in order.
pub open spec fn str_texts(strs: Seq<&'static str>) -> Seq<Seq<char>> {
    strs.map_values(|s: &'static str| s@)
}

/// No text occurs twice in `texts`.
pub open spec fn all_distinct(texts: Seq<Seq<char>>) -> bool {
    forall|i: int, j: int| 0 <= i < j < texts.len() ==> texts[i] != texts[j]
}

pub open spec fn choice_values(choices: Seq<EnumChoice>) -> Seq<Seq<char>> {
    choices.map_values(|c: EnumChoice| c.value@)
}

/// `value` is the value of one of `choices`.
pub open spec fn is_choice(choices: Seq<EnumChoice>, value: Seq<char>) -> bool {
    exists|i: int| 0 <= i < choices.len() && choices[i].value@ == value
}

/// A parameter is sound: an enumerated one offers at least one choice, no
/// value twice, and defaults to one of them; a numeric one has a positive
/// step and defaults to a value it allows, and a percentage stays within 0 to
/// 100 %.
pub open spec fn parameter_well_formed(p: ParameterSpecView) -> bool {
    match p.kind {
        ParameterKindView::Enum { default, choices } => {
            &&& choices.len() > 0
            &&& all_distinct(choice_values(choices))
            &&& (default matches Some(d) ==> is_choice(choices, d@))
        },
        ParameterKindView::Float { default, min, max, step, unit } => {
            &&& min <= max
            &&& step > 0
            &&& (default matches Some(d) ==> min <= d <= max)
            &&& (default matches Some(d) ==> (d - min) % (step as int) == 0)
            &&& (unit == ParameterUnit::Percent ==> 0 <= min && max <= 10000)
        },
        ParameterKindView::Bool { default } => true,
    }
}

pub open spec fn parameter_paths(ps: Seq<ParameterSpecView>) -> Seq<Seq<char>> {
    ps.map_values(|p: ParameterSpecView| p.path@)
}

/// Every parameter is sound and no two parameters share a path.
pub open spec fn schema_well_formed(s: ModelSchemaView) -> bool {
    s.parameters matches Some(ps) ==> {
        &&& forall|i: int| 0 <= i < ps.len() ==> parameter_well_formed(#[trigger] ps[i])
        &&& all_distinct(parameter_paths(ps))
    }
}

/// The `i`-th parameter of `s` is an enumerated one.
pub open spec fn enum_at(s: ModelSchemaView, i: int) -> bool {
    &&& s.parameters matches Some(ps)
    &&& 0 <= i < ps.len()
    &&& ps[i].kind is Enum
}

/// The choices of the enumerated parameter at `i`.
pub open spec fn choices_at(s: ModelSchemaView, i: int) -> Seq<EnumChoice> {
    s.parameters.unwrap()[i].kind->Enum_choices
}

/// The default of the enumerated parameter at `i`.
pub open spec fn default_at(s: ModelSchemaView, i: int) -> Option<&'static str> {
    s.parameters.unwrap()[i].kind->Enum_default
}

} // verus!
