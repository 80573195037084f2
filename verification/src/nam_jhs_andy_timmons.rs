//! The "Andy Timmons" gain model (jhs), played from neural captures, one per recorded setting.

use vstd::prelude::*;
use crate::error::GainError;
use crate::model::{BackendKind, Instruments, KnobLayoutEntry, ModelDefinition, ModelDefinitionView};
use crate::schema::{EffectType, ModelSchema, ModelSchemaView, ParameterKindView, ParameterSpecView, parameters_view, schema_well_formed, parameter_well_formed, parameter_paths, EnumChoice, choice, enum_parameter, choice_values, choices_at};
use crate::text::{concat, join, texts, str_eq};

verus! {

pub const MODEL_ID: &'static str = "nam_jhs_andy_timmons";
pub const DISPLAY_NAME: &'static str = "Andy Timmons";
pub const BRAND: &'static str = "jhs";

pub open spec fn spec_model_schema() -> ModelSchemaView {
    ModelSchemaView {
        effect_type: EffectType::Gain,
        model: MODEL_ID,
        display_name: DISPLAY_NAME,
        audio_mode: None,
        parameters: Some(seq![
            ParameterSpecView {
                path: "voicing",
                label: "Voicing",
                group: Some("Tone"),
                kind: ParameterKindView::Enum {
                    default: Some("main"),
                    choices: seq![
                        EnumChoice { value: "bright", label: "Bright" },
                        EnumChoice { value: "dark", label: "Dark" },
                        EnumChoice { value: "main", label: "Main" },
                        EnumChoice { value: "deliver_us", label: "Deliver Us" },
                        EnumChoice { value: "main_brighter", label: "Main Brighter" },
                        EnumChoice { value: "scoopy", label: "Scoopy" },
                    ],
                },
            },
            ParameterSpecView {
                path: "boost",
                label: "Boost",
                group: Some("Gain"),
                kind: ParameterKindView::Enum {
                    default: Some("off"),
                    choices: seq![
                        EnumChoice { value: "off", label: "Off" },
                        EnumChoice { value: "on", label: "On" },
                    ],
                },
            },
            ParameterSpecView {
                path: "quality",
                label: "Quality",
                group: Some("Model"),
                kind: ParameterKindView::Enum {
                    default: Some("s"),
                    choices: seq![
                        EnumChoice { value: "c", label: "Compact" },
                        EnumChoice { value: "s", label: "Standard" },
                        EnumChoice { value: "xs", label: "Extra Standard" },
                    ],
                },
            },
        ]),
    }
}

/// The parameters of the model.
pub fn model_schema() -> (schema: ModelSchema)
    ensures
        schema@ == spec_model_schema(),
{
    let parameters = vec![
        enum_parameter(
            "voicing",
            "Voicing",
            Some("Tone"),
            Some("main"),
            vec![
                choice("bright", "Bright"),
                choice("dark", "Dark"),
                choice("main", "Main"),
                choice("deliver_us", "Deliver Us"),
                choice("main_brighter", "Main Brighter"),
                choice("scoopy", "Scoopy"),
            ],
        ),
        enum_parameter(
            "boost",
            "Boost",
            Some("Gain"),
            Some("off"),
            vec![
                choice("off", "Off"),
                choice("on", "On"),
            ],
        ),
        enum_parameter(
            "quality",
            "Quality",
            Some("Model"),
            Some("s"),
            vec![
                choice("c", "Compact"),
                choice("s", "Standard"),
                choice("xs", "Extra Standard"),
            ],
        ),
    ];
    assert(parameters_view(parameters@) =~= spec_model_schema().parameters.unwrap());
    ModelSchema {
        effect_type: EffectType::Gain,
        model: MODEL_ID,
        display_name: DISPLAY_NAME,
        audio_mode: None,
        parameters: Some(parameters),
    }
}

/// The voicing switch of the pedal.
#[derive(Debug, Clone, Copy, PartialEq, Eq, Structural)]
pub enum Voicing {
    Bright,
    Dark,
    Main,
    DeliverUs,
    MainBrighter,
    Scoopy,
}

/// The boost switch of the pedal.
#[derive(Debug, Clone, Copy, PartialEq, Eq, Structural)]
pub enum Boost {
    Off,
    On,
}

/// The size of the trained model.
#[derive(Debug, Clone, Copy, PartialEq, Eq, Structural)]
pub enum Quality {
    C,
    S,
    Xs,
}

/// A capture of the pedal and the switch positions it was recorded at.
#[derive(Debug, Clone, Copy)]
pub struct JhsAndyTimmonsCapture {
    pub voicing: Voicing,
    pub boost: Boost,
    pub quality: Quality,
    pub nam_file: &'static str,
}

pub open spec fn spec_captures() -> Seq<JhsAndyTimmonsCapture> {
    seq![
        JhsAndyTimmonsCapture { voicing: Voicing::Bright, boost: Boost::On, quality: Quality::C, nam_file: "pedals/jhs_andy_timmons/SLAMMIN_JHS_TIMMONS_BRIGHT_BOOST_C.nam" },
        JhsAndyTimmonsCapture { voicing: Voicing::Bright, boost: Boost::On, quality: Quality::S, nam_file: "pedals/jhs_andy_timmons/SLAMMIN_JHS_TIMMONS_BRIGHT_BOOST_S.nam" },
        JhsAndyTimmonsCapture { voicing: Voicing::Bright, boost: Boost::On, quality: Quality::Xs, nam_file: "pedals/jhs_andy_timmons/SLAMMIN_JHS_TIMMONS_BRIGHT_BOOST_XS.nam" },
        JhsAndyTimmonsCapture { voicing: Voicing::Bright, boost: Boost::Off, quality: Quality::C, nam_file: "pedals/jhs_andy_timmons/SLAMMIN_JHS_TIMMONS_BRIGHT_C.nam" },
        JhsAndyTimmonsCapture { voicing: Voicing::Bright, boost: Boost::Off, quality: Quality::S, nam_file: "pedals/jhs_andy_timmons/SLAMMIN_JHS_TIMMONS_BRIGHT_S.nam" },
        JhsAndyTimmonsCapture { voicing: Voicing::Bright, boost: Boost::Off, quality: Quality::Xs, nam_file: "pedals/jhs_andy_timmons/SLAMMIN_JHS_TIMMONS_BRIGHT_XS.nam" },
        JhsAndyTimmonsCapture { voicing: Voicing::Dark, boost: Boost::On, quality: Quality::C, nam_file: "pedals/jhs_andy_timmons/SLAMMIN_JHS_TIMMONS_DARK_BOOST_C.nam" },
        JhsAndyTimmonsCapture { voicing: Voicing::Dark, boost: Boost::On, quality: Quality::S, nam_file: "pedals/jhs_andy_timmons/SLAMMIN_JHS_TIMMONS_DARK_BOOST_S.nam" },
        JhsAndyTimmonsCapture { voicing: Voicing::Dark, boost: Boost::On, quality: Quality::Xs, nam_file: "pedals/jhs_andy_timmons/SLAMMIN_JHS_TIMMONS_DARK_BOOST_XS.nam" },
        JhsAndyTimmonsCapture { voicing: Voicing::Dark, boost: Boost::Off, quality: Quality::C, nam_file: "pedals/jhs_andy_timmons/SLAMMIN_JHS_TIMMONS_DARK_C.nam" },
        JhsAndyTimmonsCapture { voicing: Voicing::Dark, boost: Boost::Off, quality: Quality::S, nam_file: "pedals/jhs_andy_timmons/SLAMMIN_JHS_TIMMONS_DARK_S.nam" },
        JhsAndyTimmonsCapture { voicing: Voicing::Dark, boost: Boost::Off, quality: Quality::Xs, nam_file: "pedals/jhs_andy_timmons/SLAMMIN_JHS_TIMMONS_DARK_XS.nam" },
        JhsAndyTimmonsCapture { voicing: Voicing::Main, boost: Boost::On, quality: Quality::C, nam_file: "pedals/jhs_andy_timmons/SLAMMIN_JHS_TIMMONS_MAIN_BOOST_C.nam" },
        JhsAndyTimmonsCapture { voicing: Voicing::Main, boost: Boost::On, quality: Quality::S, nam_file: "pedals/jhs_andy_timmons/SLAMMIN_JHS_TIMMONS_MAIN_BOOST_S.nam" },
        JhsAndyTimmonsCapture { voicing: Voicing::Main, boost: Boost::On, quality: Quality::Xs, nam_file: "pedals/jhs_andy_timmons/SLAMMIN_JHS_TIMMONS_MAIN_BOOST_XS.nam" },
        JhsAndyTimmonsCapture { voicing: Voicing::Main, boost: Boost::Off, quality: Quality::C, nam_file: "pedals/jhs_andy_timmons/SLAMMIN_JHS_TIMMONS_MAIN_C.nam" },
        JhsAndyTimmonsCapture { voicing: Voicing::Main, boost: Boost::Off, quality: Quality::S, nam_file: "pedals/jhs_andy_timmons/SLAMMIN_JHS_TIMMONS_MAIN_S.nam" },
        JhsAndyTimmonsCapture { voicing: Voicing::Main, boost: Boost::Off, quality: Quality::Xs, nam_file: "pedals/jhs_andy_timmons/SLAMMIN_JHS_TIMMONS_MAIN_XS.nam" },
        JhsAndyTimmonsCapture { voicing: Voicing::DeliverUs, boost: Boost::Off, quality: Quality::C, nam_file: "pedals/jhs_andy_timmons/SLAMMIN_TIMMONS_RIVERA_DELIVER_US_C.nam" },
        JhsAndyTimmonsCapture { voicing: Voicing::DeliverUs, boost: Boost::Off, quality: Quality::S, nam_file: "pedals/jhs_andy_timmons/SLAMMIN_TIMMONS_RIVERA_DELIVER_US_S.nam" },
        JhsAndyTimmonsCapture { voicing: Voicing::DeliverUs, boost: Boost::Off, quality: Quality::Xs, nam_file: "pedals/jhs_andy_timmons/SLAMMIN_TIMMONS_RIVERA_DELIVER_US_XS.nam" },
        JhsAndyTimmonsCapture { voicing: Voicing::MainBrighter, boost: Boost::On, quality: Quality::C, nam_file: "pedals/jhs_andy_timmons/SLAMMIN_TIMMONS_RIVERA_MAIN_BRIGHTER_BOOST_C.nam" },
        JhsAndyTimmonsCapture { voicing: Voicing::MainBrighter, boost: Boost::On, quality: Quality::S, nam_file: "pedals/jhs_andy_timmons/SLAMMIN_TIMMONS_RIVERA_MAIN_BRIGHTER_BOOST_S.nam" },
        JhsAndyTimmonsCapture { voicing: Voicing::MainBrighter, boost: Boost::On, quality: Quality::Xs, nam_file: "pedals/jhs_andy_timmons/SLAMMIN_TIMMONS_RIVERA_MAIN_BRIGHTER_BOOST_XS.nam" },
        JhsAndyTimmonsCapture { voicing: Voicing::MainBrighter, boost: Boost::Off, quality: Quality::C, nam_file: "pedals/jhs_andy_timmons/SLAMMIN_TIMMONS_RIVERA_MAIN_BRIGHTER_C.nam" },
        JhsAndyTimmonsCapture { voicing: Voicing::MainBrighter, boost: Boost::Off, quality: Quality::S, nam_file: "pedals/jhs_andy_timmons/SLAMMIN_TIMMONS_RIVERA_MAIN_BRIGHTER_S.nam" },
        JhsAndyTimmonsCapture { voicing: Voicing::MainBrighter, boost: Boost::Off, quality: Quality::Xs, nam_file: "pedals/jhs_andy_timmons/SLAMMIN_TIMMONS_RIVERA_MAIN_BRIGHTER_XS.nam" },
        JhsAndyTimmonsCapture { voicing: Voicing::Scoopy, boost: Boost::On, quality: Quality::C, nam_file: "pedals/jhs_andy_timmons/SLAMMIN_TIMMONS_RIVERA_SCOOPY_BOOST_C.nam" },
        JhsAndyTimmonsCapture { voicing: Voicing::Scoopy, boost: Boost::On, quality: Quality::S, nam_file: "pedals/jhs_andy_timmons/SLAMMIN_TIMMONS_RIVERA_SCOOPY_BOOST_S.nam" },
        JhsAndyTimmonsCapture { voicing: Voicing::Scoopy, boost: Boost::On, quality: Quality::Xs, nam_file: "pedals/jhs_andy_timmons/SLAMMIN_TIMMONS_RIVERA_SCOOPY_BOOST_XS.nam" },
    ]
}

/// The captures of the pedal, with their switch positions.
pub fn captures() -> (table: Vec<JhsAndyTimmonsCapture>)
    ensures
        table@ == spec_captures(),
{
    let table = vec![
        JhsAndyTimmonsCapture { voicing: Voicing::Bright, boost: Boost::On, quality: Quality::C, nam_file: "pedals/jhs_andy_timmons/SLAMMIN_JHS_TIMMONS_BRIGHT_BOOST_C.nam" },
        JhsAndyTimmonsCapture { voicing: Voicing::Bright, boost: Boost::On, quality: Quality::S, nam_file: "pedals/jhs_andy_timmons/SLAMMIN_JHS_TIMMONS_BRIGHT_BOOST_S.nam" },
        JhsAndyTimmonsCapture { voicing: Voicing::Bright, boost: Boost::On, quality: Quality::Xs, nam_file: "pedals/jhs_andy_timmons/SLAMMIN_JHS_TIMMONS_BRIGHT_BOOST_XS.nam" },
        JhsAndyTimmonsCapture { voicing: Voicing::Bright, boost: Boost::Off, quality: Quality::C, nam_file: "pedals/jhs_andy_timmons/SLAMMIN_JHS_TIMMONS_BRIGHT_C.nam" },
        JhsAndyTimmonsCapture { voicing: Voicing::Bright, boost: Boost::Off, quality: Quality::S, nam_file: "pedals/jhs_andy_timmons/SLAMMIN_JHS_TIMMONS_BRIGHT_S.nam" },
        JhsAndyTimmonsCapture { voicing: Voicing::Bright, boost: Boost::Off, quality: Quality::Xs, nam_file: "pedals/jhs_andy_timmons/SLAMMIN_JHS_TIMMONS_BRIGHT_XS.nam" },
        JhsAndyTimmonsCapture { voicing: Voicing::Dark, boost: Boost::On, quality: Quality::C, nam_file: "pedals/jhs_andy_timmons/SLAMMIN_JHS_TIMMONS_DARK_BOOST_C.nam" },
        JhsAndyTimmonsCapture { voicing: Voicing::Dark, boost: Boost::On, quality: Quality::S, nam_file: "pedals/jhs_andy_timmons/SLAMMIN_JHS_TIMMONS_DARK_BOOST_S.nam" },
        JhsAndyTimmonsCapture { voicing: Voicing::Dark, boost: Boost::On, quality: Quality::Xs, nam_file: "pedals/jhs_andy_timmons/SLAMMIN_JHS_TIMMONS_DARK_BOOST_XS.nam" },
        JhsAndyTimmonsCapture { voicing: Voicing::Dark, boost: Boost::Off, quality: Quality::C, nam_file: "pedals/jhs_andy_timmons/SLAMMIN_JHS_TIMMONS_DARK_C.nam" },
        JhsAndyTimmonsCapture { voicing: Voicing::Dark, boost: Boost::Off, quality: Quality::S, nam_file: "pedals/jhs_andy_timmons/SLAMMIN_JHS_TIMMONS_DARK_S.nam" },
        JhsAndyTimmonsCapture { voicing: Voicing::Dark, boost: Boost::Off, quality: Quality::Xs, nam_file: "pedals/jhs_andy_timmons/SLAMMIN_JHS_TIMMONS_DARK_XS.nam" },
        JhsAndyTimmonsCapture { voicing: Voicing::Main, boost: Boost::On, quality: Quality::C, nam_file: "pedals/jhs_andy_timmons/SLAMMIN_JHS_TIMMONS_MAIN_BOOST_C.nam" },
        JhsAndyTimmonsCapture { voicing: Voicing::Main, boost: Boost::On, quality: Quality::S, nam_file: "pedals/jhs_andy_timmons/SLAMMIN_JHS_TIMMONS_MAIN_BOOST_S.nam" },
        JhsAndyTimmonsCapture { voicing: Voicing::Main, boost: Boost::On, quality: Quality::Xs, nam_file: "pedals/jhs_andy_timmons/SLAMMIN_JHS_TIMMONS_MAIN_BOOST_XS.nam" },
        JhsAndyTimmonsCapture { voicing: Voicing::Main, boost: Boost::Off, quality: Quality::C, nam_file: "pedals/jhs_andy_timmons/SLAMMIN_JHS_TIMMONS_MAIN_C.nam" },
        JhsAndyTimmonsCapture { voicing: Voicing::Main, boost: Boost::Off, quality: Quality::S, nam_file: "pedals/jhs_andy_timmons/SLAMMIN_JHS_TIMMONS_MAIN_S.nam" },
        JhsAndyTimmonsCapture { voicing: Voicing::Main, boost: Boost::Off, quality: Quality::Xs, nam_file: "pedals/jhs_andy_timmons/SLAMMIN_JHS_TIMMONS_MAIN_XS.nam" },
        JhsAndyTimmonsCapture { voicing: Voicing::DeliverUs, boost: Boost::Off, quality: Quality::C, nam_file: "pedals/jhs_andy_timmons/SLAMMIN_TIMMONS_RIVERA_DELIVER_US_C.nam" },
        JhsAndyTimmonsCapture { voicing: Voicing::DeliverUs, boost: Boost::Off, quality: Quality::S, nam_file: "pedals/jhs_andy_timmons/SLAMMIN_TIMMONS_RIVERA_DELIVER_US_S.nam" },
        JhsAndyTimmonsCapture { voicing: Voicing::DeliverUs, boost: Boost::Off, quality: Quality::Xs, nam_file: "pedals/jhs_andy_timmons/SLAMMIN_TIMMONS_RIVERA_DELIVER_US_XS.nam" },
        JhsAndyTimmonsCapture { voicing: Voicing::MainBrighter, boost: Boost::On, quality: Quality::C, nam_file: "pedals/jhs_andy_timmons/SLAMMIN_TIMMONS_RIVERA_MAIN_BRIGHTER_BOOST_C.nam" },
        JhsAndyTimmonsCapture { voicing: Voicing::MainBrighter, boost: Boost::On, quality: Quality::S, nam_file: "pedals/jhs_andy_timmons/SLAMMIN_TIMMONS_RIVERA_MAIN_BRIGHTER_BOOST_S.nam" },
        JhsAndyTimmonsCapture { voicing: Voicing::MainBrighter, boost: Boost::On, quality: Quality::Xs, nam_file: "pedals/jhs_andy_timmons/SLAMMIN_TIMMONS_RIVERA_MAIN_BRIGHTER_BOOST_XS.nam" },
        JhsAndyTimmonsCapture { voicing: Voicing::MainBrighter, boost: Boost::Off, quality: Quality::C, nam_file: "pedals/jhs_andy_timmons/SLAMMIN_TIMMONS_RIVERA_MAIN_BRIGHTER_C.nam" },
        JhsAndyTimmonsCapture { voicing: Voicing::MainBrighter, boost: Boost::Off, quality: Quality::S, nam_file: "pedals/jhs_andy_timmons/SLAMMIN_TIMMONS_RIVERA_MAIN_BRIGHTER_S.nam" },
        JhsAndyTimmonsCapture { voicing: Voicing::MainBrighter, boost: Boost::Off, quality: Quality::Xs, nam_file: "pedals/jhs_andy_timmons/SLAMMIN_TIMMONS_RIVERA_MAIN_BRIGHTER_XS.nam" },
        JhsAndyTimmonsCapture { voicing: Voicing::Scoopy, boost: Boost::On, quality: Quality::C, nam_file: "pedals/jhs_andy_timmons/SLAMMIN_TIMMONS_RIVERA_SCOOPY_BOOST_C.nam" },
        JhsAndyTimmonsCapture { voicing: Voicing::Scoopy, boost: Boost::On, quality: Quality::S, nam_file: "pedals/jhs_andy_timmons/SLAMMIN_TIMMONS_RIVERA_SCOOPY_BOOST_S.nam" },
        JhsAndyTimmonsCapture { voicing: Voicing::Scoopy, boost: Boost::On, quality: Quality::Xs, nam_file: "pedals/jhs_andy_timmons/SLAMMIN_TIMMONS_RIVERA_SCOOPY_BOOST_XS.nam" },
    ];
    assert(table@ =~= spec_captures());
    table
}

pub open spec fn spec_voicing(value: Seq<char>) -> Option<Voicing> {
    if value == "bright"@ {
        Some(Voicing::Bright)
    } else if value == "dark"@ {
        Some(Voicing::Dark)
    } else if value == "main"@ {
        Some(Voicing::Main)
    } else if value == "deliver_us"@ {
        Some(Voicing::DeliverUs)
    } else if value == "main_brighter"@ {
        Some(Voicing::MainBrighter)
    } else if value == "scoopy"@ {
        Some(Voicing::Scoopy)
    } else {
        None
    }
}

pub open spec fn spec_boost(value: Seq<char>) -> Option<Boost> {
    if value == "off"@ {
        Some(Boost::Off)
    } else if value == "on"@ {
        Some(Boost::On)
    } else {
        None
    }
}

pub open spec fn spec_quality(value: Seq<char>) -> Option<Quality> {
    if value == "c"@ {
        Some(Quality::C)
    } else if value == "s"@ {
        Some(Quality::S)
    } else if value == "xs"@ {
        Some(Quality::Xs)
    } else {
        None
    }
}

pub open spec fn invalid_voicing_message(value: Seq<char>) -> Seq<char> {
    concat(seq!["invalid voicing '"@, value, "' for model '"@, MODEL_ID@, "'"@])
}

pub open spec fn invalid_boost_message(value: Seq<char>) -> Seq<char> {
    concat(seq!["invalid boost '"@, value, "' for model '"@, MODEL_ID@, "'"@])
}

pub open spec fn invalid_quality_message(value: Seq<char>) -> Seq<char> {
    concat(seq!["invalid quality '"@, value, "' for model '"@, MODEL_ID@, "'"@])
}

fn invalid(what: &'static str, value: &str) -> (e: GainError)
    ensures
        e matches GainError::InvalidChoice(m)
            && m@ == concat(seq![what@, value@, "' for model '"@, MODEL_ID@, "'"@]),
{
    let parts = vec![what, value, "' for model '", MODEL_ID, "'"];
    assert(texts(parts@) =~= seq![what@, value@, "' for model '"@, MODEL_ID@, "'"@]);
    GainError::InvalidChoice(join(&parts))
}

/// Reads the voicing switch.
pub fn parse_voicing(value: &str) -> (parsed: Result<Voicing, GainError>)
    ensures
        match spec_voicing(value@) {
            Some(v) => parsed matches Ok(p) && p == v,
            None => parsed matches Err(GainError::InvalidChoice(m)) && m@ == invalid_voicing_message(value@),
        },
{
    if str_eq(value, "bright") {
        Ok(Voicing::Bright)
    } else if str_eq(value, "dark") {
        Ok(Voicing::Dark)
    } else if str_eq(value, "main") {
        Ok(Voicing::Main)
    } else if str_eq(value, "deliver_us") {
        Ok(Voicing::DeliverUs)
    } else if str_eq(value, "main_brighter") {
        Ok(Voicing::MainBrighter)
    } else if str_eq(value, "scoopy") {
        Ok(Voicing::Scoopy)
    } else {
        Err(invalid("invalid voicing '", value))
    }
}

/// Reads the boost switch.
pub fn parse_boost(value: &str) -> (parsed: Result<Boost, GainError>)
    ensures
        match spec_boost(value@) {
            Some(b) => parsed matches Ok(p) && p == b,
            None => parsed matches Err(GainError::InvalidChoice(m)) && m@ == invalid_boost_message(value@),
        },
{
    if str_eq(value, "off") {
        Ok(Boost::Off)
    } else if str_eq(value, "on") {
        Ok(Boost::On)
    } else {
        Err(invalid("invalid boost '", value))
    }
}

/// Reads the quality choice.
pub fn parse_quality(value: &str) -> (parsed: Result<Quality, GainError>)
    ensures
        match spec_quality(value@) {
            Some(q) => parsed matches Ok(p) && p == q,
            None => parsed matches Err(GainError::InvalidChoice(m)) && m@ == invalid_quality_message(value@),
        },
{
    if str_eq(value, "c") {
        Ok(Quality::C)
    } else if str_eq(value, "s") {
        Ok(Quality::S)
    } else if str_eq(value, "xs") {
        Ok(Quality::Xs)
    } else {
        Err(invalid("invalid quality '", value))
    }
}

pub open spec fn spec_voicing_priority(v: Voicing) -> i32 {
    match v {
        Voicing::Bright => 0,
        Voicing::Dark => 1,
        Voicing::Main => 2,
        Voicing::DeliverUs => 3,
        Voicing::MainBrighter => 4,
        Voicing::Scoopy => 5,
    }
}

pub open spec fn spec_boost_priority(b: Boost) -> i32 {
    match b {
        Boost::Off => 0,
        Boost::On => 1,
    }
}

pub open spec fn spec_quality_priority(q: Quality) -> i32 {
    match q {
        Quality::C => 0,
        Quality::S => 1,
        Quality::Xs => 2,
    }
}

/// The place of a voicing on the switch.
pub fn voicing_priority(v: &Voicing) -> (p: i32)
    ensures
        p == spec_voicing_priority(*v),
{
    match v {
        Voicing::Bright => 0,
        Voicing::Dark => 1,
        Voicing::Main => 2,
        Voicing::DeliverUs => 3,
        Voicing::MainBrighter => 4,
        Voicing::Scoopy => 5,
    }
}

/// The place of a boost position.
pub fn boost_priority(b: &Boost) -> (p: i32)
    ensures
        p == spec_boost_priority(*b),
{
    match b {
        Boost::Off => 0,
        Boost::On => 1,
    }
}

/// The place of a quality.
pub fn quality_priority(q: &Quality) -> (p: i32)
    ensures
        p == spec_quality_priority(*q),
{
    match q {
        Quality::C => 0,
        Quality::S => 1,
        Quality::Xs => 2,
    }
}

pub open spec fn abs(x: int) -> int {
    if x < 0 { -x } else { x }
}

/// How far apart two places are.
pub open spec fn gap(a: i32, b: i32) -> int {
    abs(a - b)
}

/// How far a capture is from the requested positions: the voicing weighs a
/// thousand, the boost a hundred, the quality one.
pub open spec fn distance(c: JhsAndyTimmonsCapture, v: Voicing, b: Boost, q: Quality) -> int {
    gap(spec_voicing_priority(c.voicing), spec_voicing_priority(v)) * 1000
        + gap(spec_boost_priority(c.boost), spec_boost_priority(b)) * 100
        + gap(spec_quality_priority(c.quality), spec_quality_priority(q))
}

/// The capture was recorded at exactly the requested positions.
pub open spec fn exact(c: JhsAndyTimmonsCapture, v: Voicing, b: Boost, q: Quality) -> bool {
    c.voicing == v && c.boost == b && c.quality == q
}

/// Capture `i` is the first of those nearest to the request.
pub open spec fn is_nearest_at(t: Seq<JhsAndyTimmonsCapture>, v: Voicing, b: Boost, q: Quality, i: int) -> bool {
    &&& 0 <= i < t.len()
    &&& forall|j: int| 0 <= j < t.len() ==> distance(t[i], v, b, q) <= distance(#[trigger] t[j], v, b, q)
    &&& forall|j: int| 0 <= j < i ==> distance(#[trigger] t[j], v, b, q) > distance(t[i], v, b, q)
}

/// The index of the capture that the positions select.
pub open spec fn spec_nearest(v: Voicing, b: Boost, q: Quality) -> int {
    choose|i: int| is_nearest_at(spec_captures(), v, b, q, i)
}

fn distance_of(c: &JhsAndyTimmonsCapture, v: Voicing, b: Boost, q: Quality) -> (d: i32)
    ensures
        d == distance(*c, v, b, q),
{
    let mut dv = voicing_priority(&c.voicing) - voicing_priority(&v);
    if dv < 0 {
        dv = -dv;
    }
    let mut db = boost_priority(&c.boost) - boost_priority(&b);
    if db < 0 {
        db = -db;
    }
    let mut dq = quality_priority(&c.quality) - quality_priority(&q);
    if dq < 0 {
        dq = -dq;
    }
    dv * 1000 + db * 100 + dq
}

/// Two first-nearest captures are the same one.
pub proof fn lemma_nearest_unique(t: Seq<JhsAndyTimmonsCapture>, v: Voicing, b: Boost, q: Quality, i: int, j: int)
    requires
        is_nearest_at(t, v, b, q, i),
        is_nearest_at(t, v, b, q, j),
    ensures
        i == j,
{
    if i < j {
        assert(distance(t[i], v, b, q) > distance(t[j], v, b, q));
    } else if j < i {
        assert(distance(t[j], v, b, q) > distance(t[i], v, b, q));
    }
}

/// A capture is at distance zero exactly when it was recorded at the request.
pub proof fn lemma_distance_zero(c: JhsAndyTimmonsCapture, v: Voicing, b: Boost, q: Quality)
    ensures
        distance(c, v, b, q) >= 0,
        (distance(c, v, b, q) == 0) == exact(c, v, b, q),
{
}

/// The index of the first capture nearest to the request.
fn nearest_index(table: &Vec<JhsAndyTimmonsCapture>, v: Voicing, b: Boost, q: Quality) -> (best: usize)
    requires
        table@ == spec_captures(),
    ensures
        is_nearest_at(spec_captures(), v, b, q, best as int),
        best as int == spec_nearest(v, b, q),
{
    let mut best: usize = 0;
    let mut best_distance = distance_of(&table[0], v, b, q);
    let mut i: usize = 1;
    while i < table.len()
        invariant
            table@ == spec_captures(),
            1 <= i <= table.len(),
            best < i,
            best_distance == distance(table@[best as int], v, b, q),
            forall|j: int| 0 <= j < i ==> best_distance <= distance(#[trigger] table@[j], v, b, q),
            forall|j: int| 0 <= j < best ==> distance(#[trigger] table@[j], v, b, q) > best_distance,
        decreases table.len() - i,
    {
        let d = distance_of(&table[i], v, b, q);
        if d < best_distance {
            best = i;
            best_distance = d;
        }
        i = i + 1;
    }
    proof {
        let k = spec_nearest(v, b, q);
        assert(is_nearest_at(spec_captures(), v, b, q, best as int));
        lemma_nearest_unique(spec_captures(), v, b, q, k, best as int);
    }
    best
}

/// The capture nearest to the positions: an exact one if one was recorded,
/// else the closest by voicing first, then boost, then quality.
pub fn select_capture(v: Voicing, b: Boost, q: Quality) -> (c: JhsAndyTimmonsCapture)
    ensures
        c == spec_captures()[spec_nearest(v, b, q)],
{
    let table = captures();
    let mut i: usize = 0;
    while i < table.len()
        invariant
            table@ == spec_captures(),
            i <= table.len(),
            forall|j: int| 0 <= j < i ==> !exact(#[trigger] table@[j], v, b, q),
        decreases table.len() - i,
    {
        let c = table[i];
        if c.voicing == v && c.boost == b && c.quality == q {
            proof {
                assert forall|j: int| 0 <= j < table.len() implies
                    distance(table@[i as int], v, b, q) <= distance(#[trigger] table@[j], v, b, q) by {
                    lemma_distance_zero(table@[i as int], v, b, q);
                    lemma_distance_zero(table@[j], v, b, q);
                }
                assert forall|j: int| 0 <= j < i implies
                    distance(#[trigger] table@[j], v, b, q) > distance(table@[i as int], v, b, q) by {
                    lemma_distance_zero(table@[i as int], v, b, q);
                    lemma_distance_zero(table@[j], v, b, q);
                }
                assert(is_nearest_at(spec_captures(), v, b, q, i as int));
                lemma_nearest_unique(spec_captures(), v, b, q, spec_nearest(v, b, q), i as int);
            }
            return c;
        }
        i = i + 1;
    }
    let best = nearest_index(&table, v, b, q);
    table[best]
}

/// The capture that the switch texts select.
pub fn resolve_capture(voicing: &str, boost: &str, quality: &str) -> (selected: Result<JhsAndyTimmonsCapture, GainError>)
    ensures
        match (spec_voicing(voicing@), spec_boost(boost@), spec_quality(quality@)) {
            (Some(v), Some(b), Some(q)) => selected matches Ok(c) && c == spec_captures()[spec_nearest(v, b, q)]
                && c.nam_file@ == recorded_file(c.voicing, c.boost, c.quality),
            (None, _, _) => selected matches Err(GainError::InvalidChoice(m)) && m@ == invalid_voicing_message(voicing@),
            (Some(_), None, _) => selected matches Err(GainError::InvalidChoice(m)) && m@ == invalid_boost_message(boost@),
            (Some(_), Some(_), None) => selected matches Err(GainError::InvalidChoice(m))
                && m@ == invalid_quality_message(quality@),
        },
{
    let v = match parse_voicing(voicing) {
        Ok(v) => v,
        Err(e) => return Err(e),
    };
    let b = match parse_boost(boost) {
        Ok(b) => b,
        Err(e) => return Err(e),
    };
    let q = match parse_quality(quality) {
        Ok(q) => q,
        Err(e) => return Err(e),
    };
    proof {
        lemma_selected_file(v, b, q);
    }
    Ok(select_capture(v, b, q))
}

/// Accepts the switch texts exactly where each names a position.
pub fn validate_params(voicing: &str, boost: &str, quality: &str) -> (checked: Result<(), GainError>)
    ensures
        match (spec_voicing(voicing@), spec_boost(boost@), spec_quality(quality@)) {
            (Some(v), Some(b), Some(q)) => checked is Ok,
            (None, _, _) => checked matches Err(GainError::InvalidChoice(m)) && m@ == invalid_voicing_message(voicing@),
            (Some(_), None, _) => checked matches Err(GainError::InvalidChoice(m)) && m@ == invalid_boost_message(boost@),
            (Some(_), Some(_), None) => checked matches Err(GainError::InvalidChoice(m))
                && m@ == invalid_quality_message(quality@),
        },
{
    match resolve_capture(voicing, boost, quality) {
        Ok(_) => Ok(()),
        Err(e) => Err(e),
    }
}

/// What a summary of a capture asset reads.
pub open spec fn asset_id_text(nam_file: Seq<char>) -> Seq<char> {
    concat(seq!["asset_id='"@, nam_file, "'"@])
}

/// Names the capture file that the switch texts select.
pub fn asset_summary(voicing: &str, boost: &str, quality: &str) -> (summary: Result<String, GainError>)
    ensures
        match (spec_voicing(voicing@), spec_boost(boost@), spec_quality(quality@)) {
            (Some(v), Some(b), Some(q)) => summary matches Ok(s)
                && s@ == asset_id_text(spec_captures()[spec_nearest(v, b, q)].nam_file@)
                && ({
                    let c = spec_captures()[spec_nearest(v, b, q)];
                    s@ == asset_id_text(recorded_file(c.voicing, c.boost, c.quality))
                }),
            (None, _, _) => summary matches Err(GainError::InvalidChoice(m)) && m@ == invalid_voicing_message(voicing@),
            (Some(_), None, _) => summary matches Err(GainError::InvalidChoice(m)) && m@ == invalid_boost_message(boost@),
            (Some(_), Some(_), None) => summary matches Err(GainError::InvalidChoice(m))
                && m@ == invalid_quality_message(quality@),
        },
{
    match resolve_capture(voicing, boost, quality) {
        Ok(c) => {
            let parts = vec!["asset_id='", c.nam_file, "'"];
            assert(texts(parts@) =~= seq!["asset_id='"@, c.nam_file@, "'"@]);
            Ok(join(&parts))
        },
        Err(e) => Err(e),
    }
}

pub open spec fn spec_model_definition() -> ModelDefinitionView {
    ModelDefinitionView {
        id: MODEL_ID,
        display_name: DISPLAY_NAME,
        brand: BRAND,
        backend_kind: BackendKind::Nam,
        supported_instruments: Instruments::GuitarBass,
        knob_layout: seq![],
    }
}

/// What the registry lists for this model.
pub fn model_definition() -> (d: ModelDefinition)
    ensures
        d@ == spec_model_definition(),
{
    let knob_layout: Vec<KnobLayoutEntry> = Vec::new();
    let d = ModelDefinition {
        id: MODEL_ID,
        display_name: DISPLAY_NAME,
        brand: BRAND,
        backend_kind: BackendKind::Nam,
        supported_instruments: Instruments::GuitarBass,
        knob_layout,
    };
    assert(d@.knob_layout =~= spec_model_definition().knob_layout);
    d
}

/// The schema is sound: every parameter is, and no two share a path.
pub proof fn lemma_schema_well_formed()
    ensures
        schema_well_formed(spec_model_schema()),
{
    reveal_strlit("voicing");
    reveal_strlit("boost");
    reveal_strlit("quality");
    reveal_strlit("bright");
    reveal_strlit("dark");
    reveal_strlit("main");
    reveal_strlit("deliver_us");
    reveal_strlit("main_brighter");
    reveal_strlit("scoopy");
    reveal_strlit("off");
    reveal_strlit("on");
    reveal_strlit("c");
    reveal_strlit("s");
    reveal_strlit("xs");
    let ps = spec_model_schema().parameters.unwrap();
    assert forall|i: int| 0 <= i < ps.len() implies parameter_well_formed(#[trigger] ps[i]) by {
        if ps[i].kind is Enum {
            let vs = choice_values(ps[i].kind->Enum_choices);
            assert forall|a: int, b: int| 0 <= a < b < vs.len() implies vs[a] != vs[b] by {
                if vs[a] == vs[b] {
                    assert(vs[a].len() == vs[b].len());
                    assert(vs[a][0] == vs[b][0]);
                }
            }
        }
        if i == 0 {
            assert(ps[0].kind->Enum_choices[2].value@ == "main"@);
        } else if i == 1 {
            assert(ps[1].kind->Enum_choices[0].value@ == "off"@);
        } else if i == 2 {
            assert(ps[2].kind->Enum_choices[1].value@ == "s"@);
        }
    }
    let paths = parameter_paths(ps);
    assert forall|a: int, b: int| 0 <= a < b < paths.len() implies paths[a] != paths[b] by {
        if paths[a] == paths[b] {
            assert(paths[a].len() == paths[b].len());
            assert(paths[a][0] == paths[b][0]);
        }
    }
}

proof fn lemma_prefix_nearest(t: Seq<JhsAndyTimmonsCapture>, v: Voicing, b: Boost, q: Quality, n: int) -> (i: int)
    requires
        1 <= n <= t.len(),
    ensures
        0 <= i < n,
        forall|j: int| 0 <= j < n ==> distance(t[i], v, b, q) <= distance(#[trigger] t[j], v, b, q),
        forall|j: int| 0 <= j < i ==> distance(#[trigger] t[j], v, b, q) > distance(t[i], v, b, q),
    decreases n,
{
    if n == 1 {
        0
    } else {
        let i = lemma_prefix_nearest(t, v, b, q, n - 1);
        if distance(t[n - 1], v, b, q) < distance(t[i], v, b, q) {
            n - 1
        } else {
            i
        }
    }
}

/// Every request has a nearest capture.
pub proof fn lemma_nearest_exists(v: Voicing, b: Boost, q: Quality)
    ensures
        is_nearest_at(spec_captures(), v, b, q, spec_nearest(v, b, q)),
{
    let t = spec_captures();
    let i = lemma_prefix_nearest(t, v, b, q, t.len() as int);
    assert(is_nearest_at(t, v, b, q, i));
}

/// Where a capture was recorded at exactly the requested positions, the
/// first such capture is the one selected.
pub proof fn lemma_exact_preferred(v: Voicing, b: Boost, q: Quality, j: int)
    requires
        0 <= j < spec_captures().len(),
        exact(spec_captures()[j], v, b, q),
    ensures
        exact(spec_captures()[spec_nearest(v, b, q)], v, b, q),
        spec_nearest(v, b, q) <= j,
{
    let t = spec_captures();
    lemma_nearest_exists(v, b, q);
    let i = spec_nearest(v, b, q);
    lemma_distance_zero(t[i], v, b, q);
    lemma_distance_zero(t[j], v, b, q);
    assert(distance(t[i], v, b, q) <= distance(t[j], v, b, q));
    if j < i {
        assert(distance(t[j], v, b, q) > distance(t[i], v, b, q));
    }
}

/// The selected capture is nearest by voicing first; among captures equally
/// near in voicing, by boost; among those, by quality.
pub proof fn lemma_voicing_first(v: Voicing, b: Boost, q: Quality)
    ensures
        forall|j: int| 0 <= j < spec_captures().len() ==> {
            let c = spec_captures()[spec_nearest(v, b, q)];
            let d = #[trigger] spec_captures()[j];
            let cv = gap(spec_voicing_priority(c.voicing), spec_voicing_priority(v));
            let dv = gap(spec_voicing_priority(d.voicing), spec_voicing_priority(v));
            let cb = gap(spec_boost_priority(c.boost), spec_boost_priority(b));
            let db = gap(spec_boost_priority(d.boost), spec_boost_priority(b));
            let cq = gap(spec_quality_priority(c.quality), spec_quality_priority(q));
            let dq = gap(spec_quality_priority(d.quality), spec_quality_priority(q));
            &&& cv <= dv
            &&& cv == dv ==> cb <= db
            &&& cv == dv && cb == db ==> cq <= dq
        },
{
    let t = spec_captures();
    lemma_nearest_exists(v, b, q);
    let i = spec_nearest(v, b, q);
    assert forall|j: int| 0 <= j < t.len() implies {
        let c = t[i];
        let d = #[trigger] t[j];
        let cv = gap(spec_voicing_priority(c.voicing), spec_voicing_priority(v));
        let dv = gap(spec_voicing_priority(d.voicing), spec_voicing_priority(v));
        let cb = gap(spec_boost_priority(c.boost), spec_boost_priority(b));
        let db = gap(spec_boost_priority(d.boost), spec_boost_priority(b));
        let cq = gap(spec_quality_priority(c.quality), spec_quality_priority(q));
        let dq = gap(spec_quality_priority(d.quality), spec_quality_priority(q));
        &&& cv <= dv
        &&& cv == dv ==> cb <= db
        &&& cv == dv && cb == db ==> cq <= dq
    } by {
        assert(distance(t[i], v, b, q) <= distance(t[j], v, b, q));
    }
}

/// Every position the schema offers is read as one, and every setting of
/// them selects a capture; the defaults select one recorded exactly there.
pub proof fn lemma_choices_parse()
    ensures
        forall|i: int| 0 <= i < choices_at(spec_model_schema(), 0).len() ==>
            spec_voicing(#[trigger] choices_at(spec_model_schema(), 0)[i].value@) is Some,
        forall|i: int| 0 <= i < choices_at(spec_model_schema(), 1).len() ==>
            spec_boost(#[trigger] choices_at(spec_model_schema(), 1)[i].value@) is Some,
        forall|i: int| 0 <= i < choices_at(spec_model_schema(), 2).len() ==>
            spec_quality(#[trigger] choices_at(spec_model_schema(), 2)[i].value@) is Some,
        spec_voicing("main"@) == Some(Voicing::Main),
        spec_boost("off"@) == Some(Boost::Off),
        spec_quality("s"@) == Some(Quality::S),
        exact(spec_captures()[spec_nearest(Voicing::Main, Boost::Off, Quality::S)], Voicing::Main, Boost::Off, Quality::S),
{
    reveal_strlit("bright");
    reveal_strlit("dark");
    reveal_strlit("main");
    reveal_strlit("deliver_us");
    reveal_strlit("main_brighter");
    reveal_strlit("scoopy");
    reveal_strlit("off");
    reveal_strlit("on");
    reveal_strlit("c");
    reveal_strlit("s");
    reveal_strlit("xs");
    assert("bright"@.len() != "dark"@.len());
    assert("bright"@.len() != "main"@.len());
    assert("bright"@.len() != "deliver_us"@.len());
    assert("bright"@.len() != "main_brighter"@.len());
    assert("bright"@[0] != "scoopy"@[0]);
    assert("dark"@[0] != "main"@[0]);
    assert("dark"@.len() != "deliver_us"@.len());
    assert("dark"@.len() != "main_brighter"@.len());
    assert("dark"@.len() != "scoopy"@.len());
    assert("main"@.len() != "deliver_us"@.len());
    assert("main"@.len() != "main_brighter"@.len());
    assert("main"@.len() != "scoopy"@.len());
    assert("deliver_us"@.len() != "main_brighter"@.len());
    assert("deliver_us"@.len() != "scoopy"@.len());
    assert("main_brighter"@.len() != "scoopy"@.len());
    assert("off"@.len() != "on"@.len());
    assert("c"@[0] != "s"@[0]);
    assert("c"@.len() != "xs"@.len());
    assert("s"@.len() != "xs"@.len());
    lemma_exact_preferred(Voicing::Main, Boost::Off, Quality::S, 16);
}

/// The part of a file name that the voicing writes.
pub open spec fn voicing_stem(v: Voicing) -> Seq<char> {
    match v {
        Voicing::Bright => "JHS_TIMMONS_BRIGHT"@,
        Voicing::Dark => "JHS_TIMMONS_DARK"@,
        Voicing::Main => "JHS_TIMMONS_MAIN"@,
        Voicing::DeliverUs => "TIMMONS_RIVERA_DELIVER_US"@,
        Voicing::MainBrighter => "TIMMONS_RIVERA_MAIN_BRIGHTER"@,
        Voicing::Scoopy => "TIMMONS_RIVERA_SCOOPY"@,
    }
}

/// The part of a file name that the quality writes.
pub open spec fn quality_tag(q: Quality) -> Seq<char> {
    match q {
        Quality::C => "C"@,
        Quality::S => "S"@,
        Quality::Xs => "XS"@,
    }
}

/// The file recorded at the given switch positions, as the recording names
/// it: the voicing, `_BOOST` when the boost is on, then the quality.
pub open spec fn recorded_file(v: Voicing, b: Boost, q: Quality) -> Seq<char> {
    "pedals/jhs_andy_timmons/SLAMMIN_"@ + voicing_stem(v) + (if b == Boost::On { "_BOOST"@ } else { Seq::empty() })
        + "_"@ + quality_tag(q) + ".nam"@
}

/// Every capture names the file recorded at its own switch positions, and no
/// two captures name the same file.
pub proof fn lemma_captures_name_their_positions()
    ensures
        forall|i: int| 0 <= i < spec_captures().len() ==>
            (#[trigger] spec_captures()[i]).nam_file@
                == recorded_file(spec_captures()[i].voicing, spec_captures()[i].boost, spec_captures()[i].quality),
        forall|a: int, b: int| 0 <= a < b < spec_captures().len() ==>
            (#[trigger] spec_captures()[a]).nam_file@ != (#[trigger] spec_captures()[b]).nam_file@,
{
    reveal_strlit("pedals/jhs_andy_timmons/SLAMMIN_");
    reveal_strlit("_BOOST");
    reveal_strlit("_");
    reveal_strlit(".nam");
    reveal_strlit("JHS_TIMMONS_BRIGHT");
    reveal_strlit("JHS_TIMMONS_DARK");
    reveal_strlit("JHS_TIMMONS_MAIN");
    reveal_strlit("TIMMONS_RIVERA_DELIVER_US");
    reveal_strlit("TIMMONS_RIVERA_MAIN_BRIGHTER");
    reveal_strlit("TIMMONS_RIVERA_SCOOPY");
    reveal_strlit("C");
    reveal_strlit("S");
    reveal_strlit("XS");
    reveal_strlit("pedals/jhs_andy_timmons/SLAMMIN_JHS_TIMMONS_BRIGHT_BOOST_C.nam");
    reveal_strlit("pedals/jhs_andy_timmons/SLAMMIN_JHS_TIMMONS_BRIGHT_BOOST_S.nam");
    reveal_strlit("pedals/jhs_andy_timmons/SLAMMIN_JHS_TIMMONS_BRIGHT_BOOST_XS.nam");
    reveal_strlit("pedals/jhs_andy_timmons/SLAMMIN_JHS_TIMMONS_BRIGHT_C.nam");
    reveal_strlit("pedals/jhs_andy_timmons/SLAMMIN_JHS_TIMMONS_BRIGHT_S.nam");
    reveal_strlit("pedals/jhs_andy_timmons/SLAMMIN_JHS_TIMMONS_BRIGHT_XS.nam");
    reveal_strlit("pedals/jhs_andy_timmons/SLAMMIN_JHS_TIMMONS_DARK_BOOST_C.nam");
    reveal_strlit("pedals/jhs_andy_timmons/SLAMMIN_JHS_TIMMONS_DARK_BOOST_S.nam");
    reveal_strlit("pedals/jhs_andy_timmons/SLAMMIN_JHS_TIMMONS_DARK_BOOST_XS.nam");
    reveal_strlit("pedals/jhs_andy_timmons/SLAMMIN_JHS_TIMMONS_DARK_C.nam");
    reveal_strlit("pedals/jhs_andy_timmons/SLAMMIN_JHS_TIMMONS_DARK_S.nam");
    reveal_strlit("pedals/jhs_andy_timmons/SLAMMIN_JHS_TIMMONS_DARK_XS.nam");
    reveal_strlit("pedals/jhs_andy_timmons/SLAMMIN_JHS_TIMMONS_MAIN_BOOST_C.nam");
    reveal_strlit("pedals/jhs_andy_timmons/SLAMMIN_JHS_TIMMONS_MAIN_BOOST_S.nam");
    reveal_strlit("pedals/jhs_andy_timmons/SLAMMIN_JHS_TIMMONS_MAIN_BOOST_XS.nam");
    reveal_strlit("pedals/jhs_andy_timmons/SLAMMIN_JHS_TIMMONS_MAIN_C.nam");
    reveal_strlit("pedals/jhs_andy_timmons/SLAMMIN_JHS_TIMMONS_MAIN_S.nam");
    reveal_strlit("pedals/jhs_andy_timmons/SLAMMIN_JHS_TIMMONS_MAIN_XS.nam");
    reveal_strlit("pedals/jhs_andy_timmons/SLAMMIN_TIMMONS_RIVERA_DELIVER_US_C.nam");
    reveal_strlit("pedals/jhs_andy_timmons/SLAMMIN_TIMMONS_RIVERA_DELIVER_US_S.nam");
    reveal_strlit("pedals/jhs_andy_timmons/SLAMMIN_TIMMONS_RIVERA_DELIVER_US_XS.nam");
    reveal_strlit("pedals/jhs_andy_timmons/SLAMMIN_TIMMONS_RIVERA_MAIN_BRIGHTER_BOOST_C.nam");
    reveal_strlit("pedals/jhs_andy_timmons/SLAMMIN_TIMMONS_RIVERA_MAIN_BRIGHTER_BOOST_S.nam");
    reveal_strlit("pedals/jhs_andy_timmons/SLAMMIN_TIMMONS_RIVERA_MAIN_BRIGHTER_BOOST_XS.nam");
    reveal_strlit("pedals/jhs_andy_timmons/SLAMMIN_TIMMONS_RIVERA_MAIN_BRIGHTER_C.nam");
    reveal_strlit("pedals/jhs_andy_timmons/SLAMMIN_TIMMONS_RIVERA_MAIN_BRIGHTER_S.nam");
    reveal_strlit("pedals/jhs_andy_timmons/SLAMMIN_TIMMONS_RIVERA_MAIN_BRIGHTER_XS.nam");
    reveal_strlit("pedals/jhs_andy_timmons/SLAMMIN_TIMMONS_RIVERA_SCOOPY_BOOST_C.nam");
    reveal_strlit("pedals/jhs_andy_timmons/SLAMMIN_TIMMONS_RIVERA_SCOOPY_BOOST_S.nam");
    reveal_strlit("pedals/jhs_andy_timmons/SLAMMIN_TIMMONS_RIVERA_SCOOPY_BOOST_XS.nam");
    let t = spec_captures();
    assert forall|i: int| 0 <= i < t.len() implies
        (#[trigger] t[i]).nam_file@ == recorded_file(t[i].voicing, t[i].boost, t[i].quality) by {
        if i == 0 {
            assert(t[i].nam_file@ =~= recorded_file(Voicing::Bright, Boost::On, Quality::C));
        } else if i == 1 {
            assert(t[i].nam_file@ =~= recorded_file(Voicing::Bright, Boost::On, Quality::S));
        } else if i == 2 {
            assert(t[i].nam_file@ =~= recorded_file(Voicing::Bright, Boost::On, Quality::Xs));
        } else if i == 3 {
            assert(t[i].nam_file@ =~= recorded_file(Voicing::Bright, Boost::Off, Quality::C));
        } else if i == 4 {
            assert(t[i].nam_file@ =~= recorded_file(Voicing::Bright, Boost::Off, Quality::S));
        } else if i == 5 {
            assert(t[i].nam_file@ =~= recorded_file(Voicing::Bright, Boost::Off, Quality::Xs));
        } else if i == 6 {
            assert(t[i].nam_file@ =~= recorded_file(Voicing::Dark, Boost::On, Quality::C));
        } else if i == 7 {
            assert(t[i].nam_file@ =~= recorded_file(Voicing::Dark, Boost::On, Quality::S));
        } else if i == 8 {
            assert(t[i].nam_file@ =~= recorded_file(Voicing::Dark, Boost::On, Quality::Xs));
        } else if i == 9 {
            assert(t[i].nam_file@ =~= recorded_file(Voicing::Dark, Boost::Off, Quality::C));
        } else if i == 10 {
            assert(t[i].nam_file@ =~= recorded_file(Voicing::Dark, Boost::Off, Quality::S));
        } else if i == 11 {
            assert(t[i].nam_file@ =~= recorded_file(Voicing::Dark, Boost::Off, Quality::Xs));
        } else if i == 12 {
            assert(t[i].nam_file@ =~= recorded_file(Voicing::Main, Boost::On, Quality::C));
        } else if i == 13 {
            assert(t[i].nam_file@ =~= recorded_file(Voicing::Main, Boost::On, Quality::S));
        } else if i == 14 {
            assert(t[i].nam_file@ =~= recorded_file(Voicing::Main, Boost::On, Quality::Xs));
        } else if i == 15 {
            assert(t[i].nam_file@ =~= recorded_file(Voicing::Main, Boost::Off, Quality::C));
        } else if i == 16 {
            assert(t[i].nam_file@ =~= recorded_file(Voicing::Main, Boost::Off, Quality::S));
        } else if i == 17 {
            assert(t[i].nam_file@ =~= recorded_file(Voicing::Main, Boost::Off, Quality::Xs));
        } else if i == 18 {
            assert(t[i].nam_file@ =~= recorded_file(Voicing::DeliverUs, Boost::Off, Quality::C));
        } else if i == 19 {
            assert(t[i].nam_file@ =~= recorded_file(Voicing::DeliverUs, Boost::Off, Quality::S));
        } else if i == 20 {
            assert(t[i].nam_file@ =~= recorded_file(Voicing::DeliverUs, Boost::Off, Quality::Xs));
        } else if i == 21 {
            assert(t[i].nam_file@ =~= recorded_file(Voicing::MainBrighter, Boost::On, Quality::C));
        } else if i == 22 {
            assert(t[i].nam_file@ =~= recorded_file(Voicing::MainBrighter, Boost::On, Quality::S));
        } else if i == 23 {
            assert(t[i].nam_file@ =~= recorded_file(Voicing::MainBrighter, Boost::On, Quality::Xs));
        } else if i == 24 {
            assert(t[i].nam_file@ =~= recorded_file(Voicing::MainBrighter, Boost::Off, Quality::C));
        } else if i == 25 {
            assert(t[i].nam_file@ =~= recorded_file(Voicing::MainBrighter, Boost::Off, Quality::S));
        } else if i == 26 {
            assert(t[i].nam_file@ =~= recorded_file(Voicing::MainBrighter, Boost::Off, Quality::Xs));
        } else if i == 27 {
            assert(t[i].nam_file@ =~= recorded_file(Voicing::Scoopy, Boost::On, Quality::C));
        } else if i == 28 {
            assert(t[i].nam_file@ =~= recorded_file(Voicing::Scoopy, Boost::On, Quality::S));
        } else if i == 29 {
            assert(t[i].nam_file@ =~= recorded_file(Voicing::Scoopy, Boost::On, Quality::Xs));
        }
    }
    assert forall|a: int, b: int| 0 <= a < b < 30 implies t[a].nam_file@ != t[b].nam_file@ by {
        if a == 0 && b == 1 {
            assert(t[0].nam_file@[57] != t[1].nam_file@[57]);
        } else if a == 0 && b == 2 {
            assert(t[0].nam_file@.len() != t[2].nam_file@.len());
        } else if a == 0 && b == 3 {
            assert(t[0].nam_file@.len() != t[3].nam_file@.len());
        } else if a == 0 && b == 4 {
            assert(t[0].nam_file@.len() != t[4].nam_file@.len());
        } else if a == 0 && b == 5 {
            assert(t[0].nam_file@.len() != t[5].nam_file@.len());
        } else if a == 0 && b == 6 {
            assert(t[0].nam_file@.len() != t[6].nam_file@.len());
        } else if a == 0 && b == 7 {
            assert(t[0].nam_file@.len() != t[7].nam_file@.len());
        } else if a == 0 && b == 8 {
            assert(t[0].nam_file@.len() != t[8].nam_file@.len());
        } else if a == 0 && b == 9 {
            assert(t[0].nam_file@.len() != t[9].nam_file@.len());
        } else if a == 0 && b == 10 {
            assert(t[0].nam_file@.len() != t[10].nam_file@.len());
        } else if a == 0 && b == 11 {
            assert(t[0].nam_file@.len() != t[11].nam_file@.len());
        } else if a == 0 && b == 12 {
            assert(t[0].nam_file@.len() != t[12].nam_file@.len());
        } else if a == 0 && b == 13 {
            assert(t[0].nam_file@.len() != t[13].nam_file@.len());
        } else if a == 0 && b == 14 {
            assert(t[0].nam_file@.len() != t[14].nam_file@.len());
        } else if a == 0 && b == 15 {
            assert(t[0].nam_file@.len() != t[15].nam_file@.len());
        } else if a == 0 && b == 16 {
            assert(t[0].nam_file@.len() != t[16].nam_file@.len());
        } else if a == 0 && b == 17 {
            assert(t[0].nam_file@.len() != t[17].nam_file@.len());
        } else if a == 0 && b == 18 {
            assert(t[0].nam_file@.len() != t[18].nam_file@.len());
        } else if a == 0 && b == 19 {
            assert(t[0].nam_file@.len() != t[19].nam_file@.len());
        } else if a == 0 && b == 20 {
            assert(t[0].nam_file@.len() != t[20].nam_file@.len());
        } else if a == 0 && b == 21 {
            assert(t[0].nam_file@.len() != t[21].nam_file@.len());
        } else if a == 0 && b == 22 {
            assert(t[0].nam_file@.len() != t[22].nam_file@.len());
        } else if a == 0 && b == 23 {
            assert(t[0].nam_file@.len() != t[23].nam_file@.len());
        } else if a == 0 && b == 24 {
            assert(t[0].nam_file@.len() != t[24].nam_file@.len());
        } else if a == 0 && b == 25 {
            assert(t[0].nam_file@.len() != t[25].nam_file@.len());
        } else if a == 0 && b == 26 {
            assert(t[0].nam_file@.len() != t[26].nam_file@.len());
        } else if a == 0 && b == 27 {
            assert(t[0].nam_file@.len() != t[27].nam_file@.len());
        } else if a == 0 && b == 28 {
            assert(t[0].nam_file@.len() != t[28].nam_file@.len());
        } else if a == 0 && b == 29 {
            assert(t[0].nam_file@.len() != t[29].nam_file@.len());
        } else if a == 1 && b == 2 {
            assert(t[1].nam_file@.len() != t[2].nam_file@.len());
        } else if a == 1 && b == 3 {
            assert(t[1].nam_file@.len() != t[3].nam_file@.len());
        } else if a == 1 && b == 4 {
            assert(t[1].nam_file@.len() != t[4].nam_file@.len());
        } else if a == 1 && b == 5 {
            assert(t[1].nam_file@.len() != t[5].nam_file@.len());
        } else if a == 1 && b == 6 {
            assert(t[1].nam_file@.len() != t[6].nam_file@.len());
        } else if a == 1 && b == 7 {
            assert(t[1].nam_file@.len() != t[7].nam_file@.len());
        } else if a == 1 && b == 8 {
            assert(t[1].nam_file@.len() != t[8].nam_file@.len());
        } else if a == 1 && b == 9 {
            assert(t[1].nam_file@.len() != t[9].nam_file@.len());
        } else if a == 1 && b == 10 {
            assert(t[1].nam_file@.len() != t[10].nam_file@.len());
        } else if a == 1 && b == 11 {
            assert(t[1].nam_file@.len() != t[11].nam_file@.len());
        } else if a == 1 && b == 12 {
            assert(t[1].nam_file@.len() != t[12].nam_file@.len());
        } else if a == 1 && b == 13 {
            assert(t[1].nam_file@.len() != t[13].nam_file@.len());
        } else if a == 1 && b == 14 {
            assert(t[1].nam_file@.len() != t[14].nam_file@.len());
        } else if a == 1 && b == 15 {
            assert(t[1].nam_file@.len() != t[15].nam_file@.len());
        } else if a == 1 && b == 16 {
            assert(t[1].nam_file@.len() != t[16].nam_file@.len());
        } else if a == 1 && b == 17 {
            assert(t[1].nam_file@.len() != t[17].nam_file@.len());
        } else if a == 1 && b == 18 {
            assert(t[1].nam_file@.len() != t[18].nam_file@.len());
        } else if a == 1 && b == 19 {
            assert(t[1].nam_file@.len() != t[19].nam_file@.len());
        } else if a == 1 && b == 20 {
            assert(t[1].nam_file@.len() != t[20].nam_file@.len());
        } else if a == 1 && b == 21 {
            assert(t[1].nam_file@.len() != t[21].nam_file@.len());
        } else if a == 1 && b == 22 {
            assert(t[1].nam_file@.len() != t[22].nam_file@.len());
        } else if a == 1 && b == 23 {
            assert(t[1].nam_file@.len() != t[23].nam_file@.len());
        } else if a == 1 && b == 24 {
            assert(t[1].nam_file@.len() != t[24].nam_file@.len());
        } else if a == 1 && b == 25 {
            assert(t[1].nam_file@.len() != t[25].nam_file@.len());
        } else if a == 1 && b == 26 {
            assert(t[1].nam_file@.len() != t[26].nam_file@.len());
        } else if a == 1 && b == 27 {
            assert(t[1].nam_file@.len() != t[27].nam_file@.len());
        } else if a == 1 && b == 28 {
            assert(t[1].nam_file@.len() != t[28].nam_file@.len());
        } else if a == 1 && b == 29 {
            assert(t[1].nam_file@.len() != t[29].nam_file@.len());
        } else if a == 2 && b == 3 {
            assert(t[2].nam_file@.len() != t[3].nam_file@.len());
        } else if a == 2 && b == 4 {
            assert(t[2].nam_file@.len() != t[4].nam_file@.len());
        } else if a == 2 && b == 5 {
            assert(t[2].nam_file@.len() != t[5].nam_file@.len());
        } else if a == 2 && b == 6 {
            assert(t[2].nam_file@.len() != t[6].nam_file@.len());
        } else if a == 2 && b == 7 {
            assert(t[2].nam_file@.len() != t[7].nam_file@.len());
        } else if a == 2 && b == 8 {
            assert(t[2].nam_file@.len() != t[8].nam_file@.len());
        } else if a == 2 && b == 9 {
            assert(t[2].nam_file@.len() != t[9].nam_file@.len());
        } else if a == 2 && b == 10 {
            assert(t[2].nam_file@.len() != t[10].nam_file@.len());
        } else if a == 2 && b == 11 {
            assert(t[2].nam_file@.len() != t[11].nam_file@.len());
        } else if a == 2 && b == 12 {
            assert(t[2].nam_file@.len() != t[12].nam_file@.len());
        } else if a == 2 && b == 13 {
            assert(t[2].nam_file@.len() != t[13].nam_file@.len());
        } else if a == 2 && b == 14 {
            assert(t[2].nam_file@.len() != t[14].nam_file@.len());
        } else if a == 2 && b == 15 {
            assert(t[2].nam_file@.len() != t[15].nam_file@.len());
        } else if a == 2 && b == 16 {
            assert(t[2].nam_file@.len() != t[16].nam_file@.len());
        } else if a == 2 && b == 17 {
            assert(t[2].nam_file@.len() != t[17].nam_file@.len());
        } else if a == 2 && b == 18 {
            assert(t[2].nam_file@[32] != t[18].nam_file@[32]);
        } else if a == 2 && b == 19 {
            assert(t[2].nam_file@[32] != t[19].nam_file@[32]);
        } else if a == 2 && b == 20 {
            assert(t[2].nam_file@.len() != t[20].nam_file@.len());
        } else if a == 2 && b == 21 {
            assert(t[2].nam_file@.len() != t[21].nam_file@.len());
        } else if a == 2 && b == 22 {
            assert(t[2].nam_file@.len() != t[22].nam_file@.len());
        } else if a == 2 && b == 23 {
            assert(t[2].nam_file@.len() != t[23].nam_file@.len());
        } else if a == 2 && b == 24 {
            assert(t[2].nam_file@.len() != t[24].nam_file@.len());
        } else if a == 2 && b == 25 {
            assert(t[2].nam_file@.len() != t[25].nam_file@.len());
        } else if a == 2 && b == 26 {
            assert(t[2].nam_file@.len() != t[26].nam_file@.len());
        } else if a == 2 && b == 27 {
            assert(t[2].nam_file@.len() != t[27].nam_file@.len());
        } else if a == 2 && b == 28 {
            assert(t[2].nam_file@.len() != t[28].nam_file@.len());
        } else if a == 2 && b == 29 {
            assert(t[2].nam_file@.len() != t[29].nam_file@.len());
        } else if a == 3 && b == 4 {
            assert(t[3].nam_file@[51] != t[4].nam_file@[51]);
        } else if a == 3 && b == 5 {
            assert(t[3].nam_file@.len() != t[5].nam_file@.len());
        } else if a == 3 && b == 6 {
            assert(t[3].nam_file@.len() != t[6].nam_file@.len());
        } else if a == 3 && b == 7 {
            assert(t[3].nam_file@.len() != t[7].nam_file@.len());
        } else if a == 3 && b == 8 {
            assert(t[3].nam_file@.len() != t[8].nam_file@.len());
        } else if a == 3 && b == 9 {
            assert(t[3].nam_file@.len() != t[9].nam_file@.len());
        } else if a == 3 && b == 10 {
            assert(t[3].nam_file@.len() != t[10].nam_file@.len());
        } else if a == 3 && b == 11 {
            assert(t[3].nam_file@.len() != t[11].nam_file@.len());
        } else if a == 3 && b == 12 {
            assert(t[3].nam_file@.len() != t[12].nam_file@.len());
        } else if a == 3 && b == 13 {
            assert(t[3].nam_file@.len() != t[13].nam_file@.len());
        } else if a == 3 && b == 14 {
            assert(t[3].nam_file@.len() != t[14].nam_file@.len());
        } else if a == 3 && b == 15 {
            assert(t[3].nam_file@.len() != t[15].nam_file@.len());
        } else if a == 3 && b == 16 {
            assert(t[3].nam_file@.len() != t[16].nam_file@.len());
        } else if a == 3 && b == 17 {
            assert(t[3].nam_file@.len() != t[17].nam_file@.len());
        } else if a == 3 && b == 18 {
            assert(t[3].nam_file@.len() != t[18].nam_file@.len());
        } else if a == 3 && b == 19 {
            assert(t[3].nam_file@.len() != t[19].nam_file@.len());
        } else if a == 3 && b == 20 {
            assert(t[3].nam_file@.len() != t[20].nam_file@.len());
        } else if a == 3 && b == 21 {
            assert(t[3].nam_file@.len() != t[21].nam_file@.len());
        } else if a == 3 && b == 22 {
            assert(t[3].nam_file@.len() != t[22].nam_file@.len());
        } else if a == 3 && b == 23 {
            assert(t[3].nam_file@.len() != t[23].nam_file@.len());
        } else if a == 3 && b == 24 {
            assert(t[3].nam_file@.len() != t[24].nam_file@.len());
        } else if a == 3 && b == 25 {
            assert(t[3].nam_file@.len() != t[25].nam_file@.len());
        } else if a == 3 && b == 26 {
            assert(t[3].nam_file@.len() != t[26].nam_file@.len());
        } else if a == 3 && b == 27 {
            assert(t[3].nam_file@.len() != t[27].nam_file@.len());
        } else if a == 3 && b == 28 {
            assert(t[3].nam_file@.len() != t[28].nam_file@.len());
        } else if a == 3 && b == 29 {
            assert(t[3].nam_file@.len() != t[29].nam_file@.len());
        } else if a == 4 && b == 5 {
            assert(t[4].nam_file@.len() != t[5].nam_file@.len());
        } else if a == 4 && b == 6 {
            assert(t[4].nam_file@.len() != t[6].nam_file@.len());
        } else if a == 4 && b == 7 {
            assert(t[4].nam_file@.len() != t[7].nam_file@.len());
        } else if a == 4 && b == 8 {
            assert(t[4].nam_file@.len() != t[8].nam_file@.len());
        } else if a == 4 && b == 9 {
            assert(t[4].nam_file@.len() != t[9].nam_file@.len());
        } else if a == 4 && b == 10 {
            assert(t[4].nam_file@.len() != t[10].nam_file@.len());
        } else if a == 4 && b == 11 {
            assert(t[4].nam_file@.len() != t[11].nam_file@.len());
        } else if a == 4 && b == 12 {
            assert(t[4].nam_file@.len() != t[12].nam_file@.len());
        } else if a == 4 && b == 13 {
            assert(t[4].nam_file@.len() != t[13].nam_file@.len());
        } else if a == 4 && b == 14 {
            assert(t[4].nam_file@.len() != t[14].nam_file@.len());
        } else if a == 4 && b == 15 {
            assert(t[4].nam_file@.len() != t[15].nam_file@.len());
        } else if a == 4 && b == 16 {
            assert(t[4].nam_file@.len() != t[16].nam_file@.len());
        } else if a == 4 && b == 17 {
            assert(t[4].nam_file@.len() != t[17].nam_file@.len());
        } else if a == 4 && b == 18 {
            assert(t[4].nam_file@.len() != t[18].nam_file@.len());
        } else if a == 4 && b == 19 {
            assert(t[4].nam_file@.len() != t[19].nam_file@.len());
        } else if a == 4 && b == 20 {
            assert(t[4].nam_file@.len() != t[20].nam_file@.len());
        } else if a == 4 && b == 21 {
            assert(t[4].nam_file@.len() != t[21].nam_file@.len());
        } else if a == 4 && b == 22 {
            assert(t[4].nam_file@.len() != t[22].nam_file@.len());
        } else if a == 4 && b == 23 {
            assert(t[4].nam_file@.len() != t[23].nam_file@.len());
        } else if a == 4 && b == 24 {
            assert(t[4].nam_file@.len() != t[24].nam_file@.len());
        } else if a == 4 && b == 25 {
            assert(t[4].nam_file@.len() != t[25].nam_file@.len());
        } else if a == 4 && b == 26 {
            assert(t[4].nam_file@.len() != t[26].nam_file@.len());
        } else if a == 4 && b == 27 {
            assert(t[4].nam_file@.len() != t[27].nam_file@.len());
        } else if a == 4 && b == 28 {
            assert(t[4].nam_file@.len() != t[28].nam_file@.len());
        } else if a == 4 && b == 29 {
            assert(t[4].nam_file@.len() != t[29].nam_file@.len());
        } else if a == 5 && b == 6 {
            assert(t[5].nam_file@.len() != t[6].nam_file@.len());
        } else if a == 5 && b == 7 {
            assert(t[5].nam_file@.len() != t[7].nam_file@.len());
        } else if a == 5 && b == 8 {
            assert(t[5].nam_file@.len() != t[8].nam_file@.len());
        } else if a == 5 && b == 9 {
            assert(t[5].nam_file@.len() != t[9].nam_file@.len());
        } else if a == 5 && b == 10 {
            assert(t[5].nam_file@.len() != t[10].nam_file@.len());
        } else if a == 5 && b == 11 {
            assert(t[5].nam_file@.len() != t[11].nam_file@.len());
        } else if a == 5 && b == 12 {
            assert(t[5].nam_file@.len() != t[12].nam_file@.len());
        } else if a == 5 && b == 13 {
            assert(t[5].nam_file@.len() != t[13].nam_file@.len());
        } else if a == 5 && b == 14 {
            assert(t[5].nam_file@.len() != t[14].nam_file@.len());
        } else if a == 5 && b == 15 {
            assert(t[5].nam_file@.len() != t[15].nam_file@.len());
        } else if a == 5 && b == 16 {
            assert(t[5].nam_file@.len() != t[16].nam_file@.len());
        } else if a == 5 && b == 17 {
            assert(t[5].nam_file@.len() != t[17].nam_file@.len());
        } else if a == 5 && b == 18 {
            assert(t[5].nam_file@.len() != t[18].nam_file@.len());
        } else if a == 5 && b == 19 {
            assert(t[5].nam_file@.len() != t[19].nam_file@.len());
        } else if a == 5 && b == 20 {
            assert(t[5].nam_file@.len() != t[20].nam_file@.len());
        } else if a == 5 && b == 21 {
            assert(t[5].nam_file@.len() != t[21].nam_file@.len());
        } else if a == 5 && b == 22 {
            assert(t[5].nam_file@.len() != t[22].nam_file@.len());
        } else if a == 5 && b == 23 {
            assert(t[5].nam_file@.len() != t[23].nam_file@.len());
        } else if a == 5 && b == 24 {
            assert(t[5].nam_file@.len() != t[24].nam_file@.len());
        } else if a == 5 && b == 25 {
            assert(t[5].nam_file@.len() != t[25].nam_file@.len());
        } else if a == 5 && b == 26 {
            assert(t[5].nam_file@.len() != t[26].nam_file@.len());
        } else if a == 5 && b == 27 {
            assert(t[5].nam_file@.len() != t[27].nam_file@.len());
        } else if a == 5 && b == 28 {
            assert(t[5].nam_file@.len() != t[28].nam_file@.len());
        } else if a == 5 && b == 29 {
            assert(t[5].nam_file@.len() != t[29].nam_file@.len());
        } else if a == 6 && b == 7 {
            assert(t[6].nam_file@[55] != t[7].nam_file@[55]);
        } else if a == 6 && b == 8 {
            assert(t[6].nam_file@.len() != t[8].nam_file@.len());
        } else if a == 6 && b == 9 {
            assert(t[6].nam_file@.len() != t[9].nam_file@.len());
        } else if a == 6 && b == 10 {
            assert(t[6].nam_file@.len() != t[10].nam_file@.len());
        } else if a == 6 && b == 11 {
            assert(t[6].nam_file@.len() != t[11].nam_file@.len());
        } else if a == 6 && b == 12 {
            assert(t[6].nam_file@[44] != t[12].nam_file@[44]);
        } else if a == 6 && b == 13 {
            assert(t[6].nam_file@[44] != t[13].nam_file@[44]);
        } else if a == 6 && b == 14 {
            assert(t[6].nam_file@.len() != t[14].nam_file@.len());
        } else if a == 6 && b == 15 {
            assert(t[6].nam_file@.len() != t[15].nam_file@.len());
        } else if a == 6 && b == 16 {
            assert(t[6].nam_file@.len() != t[16].nam_file@.len());
        } else if a == 6 && b == 17 {
            assert(t[6].nam_file@.len() != t[17].nam_file@.len());
        } else if a == 6 && b == 18 {
            assert(t[6].nam_file@.len() != t[18].nam_file@.len());
        } else if a == 6 && b == 19 {
            assert(t[6].nam_file@.len() != t[19].nam_file@.len());
        } else if a == 6 && b == 20 {
            assert(t[6].nam_file@.len() != t[20].nam_file@.len());
        } else if a == 6 && b == 21 {
            assert(t[6].nam_file@.len() != t[21].nam_file@.len());
        } else if a == 6 && b == 22 {
            assert(t[6].nam_file@.len() != t[22].nam_file@.len());
        } else if a == 6 && b == 23 {
            assert(t[6].nam_file@.len() != t[23].nam_file@.len());
        } else if a == 6 && b == 24 {
            assert(t[6].nam_file@.len() != t[24].nam_file@.len());
        } else if a == 6 && b == 25 {
            assert(t[6].nam_file@.len() != t[25].nam_file@.len());
        } else if a == 6 && b == 26 {
            assert(t[6].nam_file@.len() != t[26].nam_file@.len());
        } else if a == 6 && b == 27 {
            assert(t[6].nam_file@.len() != t[27].nam_file@.len());
        } else if a == 6 && b == 28 {
            assert(t[6].nam_file@.len() != t[28].nam_file@.len());
        } else if a == 6 && b == 29 {
            assert(t[6].nam_file@.len() != t[29].nam_file@.len());
        } else if a == 7 && b == 8 {
            assert(t[7].nam_file@.len() != t[8].nam_file@.len());
        } else if a == 7 && b == 9 {
            assert(t[7].nam_file@.len() != t[9].nam_file@.len());
        } else if a == 7 && b == 10 {
            assert(t[7].nam_file@.len() != t[10].nam_file@.len());
        } else if a == 7 && b == 11 {
            assert(t[7].nam_file@.len() != t[11].nam_file@.len());
        } else if a == 7 && b == 12 {
            assert(t[7].nam_file@[44] != t[12].nam_file@[44]);
        } else if a == 7 && b == 13 {
            assert(t[7].nam_file@[44] != t[13].nam_file@[44]);
        } else if a == 7 && b == 14 {
            assert(t[7].nam_file@.len() != t[14].nam_file@.len());
        } else if a == 7 && b == 15 {
            assert(t[7].nam_file@.len() != t[15].nam_file@.len());
        } else if a == 7 && b == 16 {
            assert(t[7].nam_file@.len() != t[16].nam_file@.len());
        } else if a == 7 && b == 17 {
            assert(t[7].nam_file@.len() != t[17].nam_file@.len());
        } else if a == 7 && b == 18 {
            assert(t[7].nam_file@.len() != t[18].nam_file@.len());
        } else if a == 7 && b == 19 {
            assert(t[7].nam_file@.len() != t[19].nam_file@.len());
        } else if a == 7 && b == 20 {
            assert(t[7].nam_file@.len() != t[20].nam_file@.len());
        } else if a == 7 && b == 21 {
            assert(t[7].nam_file@.len() != t[21].nam_file@.len());
        } else if a == 7 && b == 22 {
            assert(t[7].nam_file@.len() != t[22].nam_file@.len());
        } else if a == 7 && b == 23 {
            assert(t[7].nam_file@.len() != t[23].nam_file@.len());
        } else if a == 7 && b == 24 {
            assert(t[7].nam_file@.len() != t[24].nam_file@.len());
        } else if a == 7 && b == 25 {
            assert(t[7].nam_file@.len() != t[25].nam_file@.len());
        } else if a == 7 && b == 26 {
            assert(t[7].nam_file@.len() != t[26].nam_file@.len());
        } else if a == 7 && b == 27 {
            assert(t[7].nam_file@.len() != t[27].nam_file@.len());
        } else if a == 7 && b == 28 {
            assert(t[7].nam_file@.len() != t[28].nam_file@.len());
        } else if a == 7 && b == 29 {
            assert(t[7].nam_file@.len() != t[29].nam_file@.len());
        } else if a == 8 && b == 9 {
            assert(t[8].nam_file@.len() != t[9].nam_file@.len());
        } else if a == 8 && b == 10 {
            assert(t[8].nam_file@.len() != t[10].nam_file@.len());
        } else if a == 8 && b == 11 {
            assert(t[8].nam_file@.len() != t[11].nam_file@.len());
        } else if a == 8 && b == 12 {
            assert(t[8].nam_file@.len() != t[12].nam_file@.len());
        } else if a == 8 && b == 13 {
            assert(t[8].nam_file@.len() != t[13].nam_file@.len());
        } else if a == 8 && b == 14 {
            assert(t[8].nam_file@[44] != t[14].nam_file@[44]);
        } else if a == 8 && b == 15 {
            assert(t[8].nam_file@.len() != t[15].nam_file@.len());
        } else if a == 8 && b == 16 {
            assert(t[8].nam_file@.len() != t[16].nam_file@.len());
        } else if a == 8 && b == 17 {
            assert(t[8].nam_file@.len() != t[17].nam_file@.len());
        } else if a == 8 && b == 18 {
            assert(t[8].nam_file@.len() != t[18].nam_file@.len());
        } else if a == 8 && b == 19 {
            assert(t[8].nam_file@.len() != t[19].nam_file@.len());
        } else if a == 8 && b == 20 {
            assert(t[8].nam_file@.len() != t[20].nam_file@.len());
        } else if a == 8 && b == 21 {
            assert(t[8].nam_file@.len() != t[21].nam_file@.len());
        } else if a == 8 && b == 22 {
            assert(t[8].nam_file@.len() != t[22].nam_file@.len());
        } else if a == 8 && b == 23 {
            assert(t[8].nam_file@.len() != t[23].nam_file@.len());
        } else if a == 8 && b == 24 {
            assert(t[8].nam_file@.len() != t[24].nam_file@.len());
        } else if a == 8 && b == 25 {
            assert(t[8].nam_file@.len() != t[25].nam_file@.len());
        } else if a == 8 && b == 26 {
            assert(t[8].nam_file@.len() != t[26].nam_file@.len());
        } else if a == 8 && b == 27 {
            assert(t[8].nam_file@.len() != t[27].nam_file@.len());
        } else if a == 8 && b == 28 {
            assert(t[8].nam_file@.len() != t[28].nam_file@.len());
        } else if a == 8 && b == 29 {
            assert(t[8].nam_file@.len() != t[29].nam_file@.len());
        } else if a == 9 && b == 10 {
            assert(t[9].nam_file@[49] != t[10].nam_file@[49]);
        } else if a == 9 && b == 11 {
            assert(t[9].nam_file@.len() != t[11].nam_file@.len());
        } else if a == 9 && b == 12 {
            assert(t[9].nam_file@.len() != t[12].nam_file@.len());
        } else if a == 9 && b == 13 {
            assert(t[9].nam_file@.len() != t[13].nam_file@.len());
        } else if a == 9 && b == 14 {
            assert(t[9].nam_file@.len() != t[14].nam_file@.len());
        } else if a == 9 && b == 15 {
            assert(t[9].nam_file@[44] != t[15].nam_file@[44]);
        } else if a == 9 && b == 16 {
            assert(t[9].nam_file@[44] != t[16].nam_file@[44]);
        } else if a == 9 && b == 17 {
            assert(t[9].nam_file@.len() != t[17].nam_file@.len());
        } else if a == 9 && b == 18 {
            assert(t[9].nam_file@.len() != t[18].nam_file@.len());
        } else if a == 9 && b == 19 {
            assert(t[9].nam_file@.len() != t[19].nam_file@.len());
        } else if a == 9 && b == 20 {
            assert(t[9].nam_file@.len() != t[20].nam_file@.len());
        } else if a == 9 && b == 21 {
            assert(t[9].nam_file@.len() != t[21].nam_file@.len());
        } else if a == 9 && b == 22 {
            assert(t[9].nam_file@.len() != t[22].nam_file@.len());
        } else if a == 9 && b == 23 {
            assert(t[9].nam_file@.len() != t[23].nam_file@.len());
        } else if a == 9 && b == 24 {
            assert(t[9].nam_file@.len() != t[24].nam_file@.len());
        } else if a == 9 && b == 25 {
            assert(t[9].nam_file@.len() != t[25].nam_file@.len());
        } else if a == 9 && b == 26 {
            assert(t[9].nam_file@.len() != t[26].nam_file@.len());
        } else if a == 9 && b == 27 {
            assert(t[9].nam_file@.len() != t[27].nam_file@.len());
        } else if a == 9 && b == 28 {
            assert(t[9].nam_file@.len() != t[28].nam_file@.len());
        } else if a == 9 && b == 29 {
            assert(t[9].nam_file@.len() != t[29].nam_file@.len());
        } else if a == 10 && b == 11 {
            assert(t[10].nam_file@.len() != t[11].nam_file@.len());
        } else if a == 10 && b == 12 {
            assert(t[10].nam_file@.len() != t[12].nam_file@.len());
        } else if a == 10 && b == 13 {
            assert(t[10].nam_file@.len() != t[13].nam_file@.len());
        } else if a == 10 && b == 14 {
            assert(t[10].nam_file@.len() != t[14].nam_file@.len());
        } else if a == 10 && b == 15 {
            assert(t[10].nam_file@[44] != t[15].nam_file@[44]);
        } else if a == 10 && b == 16 {
            assert(t[10].nam_file@[44] != t[16].nam_file@[44]);
        } else if a == 10 && b == 17 {
            assert(t[10].nam_file@.len() != t[17].nam_file@.len());
        } else if a == 10 && b == 18 {
            assert(t[10].nam_file@.len() != t[18].nam_file@.len());
        } else if a == 10 && b == 19 {
            assert(t[10].nam_file@.len() != t[19].nam_file@.len());
        } else if a == 10 && b == 20 {
            assert(t[10].nam_file@.len() != t[20].nam_file@.len());
        } else if a == 10 && b == 21 {
            assert(t[10].nam_file@.len() != t[21].nam_file@.len());
        } else if a == 10 && b == 22 {
            assert(t[10].nam_file@.len() != t[22].nam_file@.len());
        } else if a == 10 && b == 23 {
            assert(t[10].nam_file@.len() != t[23].nam_file@.len());
        } else if a == 10 && b == 24 {
            assert(t[10].nam_file@.len() != t[24].nam_file@.len());
        } else if a == 10 && b == 25 {
            assert(t[10].nam_file@.len() != t[25].nam_file@.len());
        } else if a == 10 && b == 26 {
            assert(t[10].nam_file@.len() != t[26].nam_file@.len());
        } else if a == 10 && b == 27 {
            assert(t[10].nam_file@.len() != t[27].nam_file@.len());
        } else if a == 10 && b == 28 {
            assert(t[10].nam_file@.len() != t[28].nam_file@.len());
        } else if a == 10 && b == 29 {
            assert(t[10].nam_file@.len() != t[29].nam_file@.len());
        } else if a == 11 && b == 12 {
            assert(t[11].nam_file@.len() != t[12].nam_file@.len());
        } else if a == 11 && b == 13 {
            assert(t[11].nam_file@.len() != t[13].nam_file@.len());
        } else if a == 11 && b == 14 {
            assert(t[11].nam_file@.len() != t[14].nam_file@.len());
        } else if a == 11 && b == 15 {
            assert(t[11].nam_file@.len() != t[15].nam_file@.len());
        } else if a == 11 && b == 16 {
            assert(t[11].nam_file@.len() != t[16].nam_file@.len());
        } else if a == 11 && b == 17 {
            assert(t[11].nam_file@[44] != t[17].nam_file@[44]);
        } else if a == 11 && b == 18 {
            assert(t[11].nam_file@.len() != t[18].nam_file@.len());
        } else if a == 11 && b == 19 {
            assert(t[11].nam_file@.len() != t[19].nam_file@.len());
        } else if a == 11 && b == 20 {
            assert(t[11].nam_file@.len() != t[20].nam_file@.len());
        } else if a == 11 && b == 21 {
            assert(t[11].nam_file@.len() != t[21].nam_file@.len());
        } else if a == 11 && b == 22 {
            assert(t[11].nam_file@.len() != t[22].nam_file@.len());
        } else if a == 11 && b == 23 {
            assert(t[11].nam_file@.len() != t[23].nam_file@.len());
        } else if a == 11 && b == 24 {
            assert(t[11].nam_file@.len() != t[24].nam_file@.len());
        } else if a == 11 && b == 25 {
            assert(t[11].nam_file@.len() != t[25].nam_file@.len());
        } else if a == 11 && b == 26 {
            assert(t[11].nam_file@.len() != t[26].nam_file@.len());
        } else if a == 11 && b == 27 {
            assert(t[11].nam_file@.len() != t[27].nam_file@.len());
        } else if a == 11 && b == 28 {
            assert(t[11].nam_file@.len() != t[28].nam_file@.len());
        } else if a == 11 && b == 29 {
            assert(t[11].nam_file@.len() != t[29].nam_file@.len());
        } else if a == 12 && b == 13 {
            assert(t[12].nam_file@[55] != t[13].nam_file@[55]);
        } else if a == 12 && b == 14 {
            assert(t[12].nam_file@.len() != t[14].nam_file@.len());
        } else if a == 12 && b == 15 {
            assert(t[12].nam_file@.len() != t[15].nam_file@.len());
        } else if a == 12 && b == 16 {
            assert(t[12].nam_file@.len() != t[16].nam_file@.len());
        } else if a == 12 && b == 17 {
            assert(t[12].nam_file@.len() != t[17].nam_file@.len());
        } else if a == 12 && b == 18 {
            assert(t[12].nam_file@.len() != t[18].nam_file@.len());
        } else if a == 12 && b == 19 {
            assert(t[12].nam_file@.len() != t[19].nam_file@.len());
        } else if a == 12 && b == 20 {
            assert(t[12].nam_file@.len() != t[20].nam_file@.len());
        } else if a == 12 && b == 21 {
            assert(t[12].nam_file@.len() != t[21].nam_file@.len());
        } else if a == 12 && b == 22 {
            assert(t[12].nam_file@.len() != t[22].nam_file@.len());
        } else if a == 12 && b == 23 {
            assert(t[12].nam_file@.len() != t[23].nam_file@.len());
        } else if a == 12 && b == 24 {
            assert(t[12].nam_file@.len() != t[24].nam_file@.len());
        } else if a == 12 && b == 25 {
            assert(t[12].nam_file@.len() != t[25].nam_file@.len());
        } else if a == 12 && b == 26 {
            assert(t[12].nam_file@.len() != t[26].nam_file@.len());
        } else if a == 12 && b == 27 {
            assert(t[12].nam_file@.len() != t[27].nam_file@.len());
        } else if a == 12 && b == 28 {
            assert(t[12].nam_file@.len() != t[28].nam_file@.len());
        } else if a == 12 && b == 29 {
            assert(t[12].nam_file@.len() != t[29].nam_file@.len());
        } else if a == 13 && b == 14 {
            assert(t[13].nam_file@.len() != t[14].nam_file@.len());
        } else if a == 13 && b == 15 {
            assert(t[13].nam_file@.len() != t[15].nam_file@.len());
        } else if a == 13 && b == 16 {
            assert(t[13].nam_file@.len() != t[16].nam_file@.len());
        } else if a == 13 && b == 17 {
            assert(t[13].nam_file@.len() != t[17].nam_file@.len());
        } else if a == 13 && b == 18 {
            assert(t[13].nam_file@.len() != t[18].nam_file@.len());
        } else if a == 13 && b == 19 {
            assert(t[13].nam_file@.len() != t[19].nam_file@.len());
        } else if a == 13 && b == 20 {
            assert(t[13].nam_file@.len() != t[20].nam_file@.len());
        } else if a == 13 && b == 21 {
            assert(t[13].nam_file@.len() != t[21].nam_file@.len());
        } else if a == 13 && b == 22 {
            assert(t[13].nam_file@.len() != t[22].nam_file@.len());
        } else if a == 13 && b == 23 {
            assert(t[13].nam_file@.len() != t[23].nam_file@.len());
        } else if a == 13 && b == 24 {
            assert(t[13].nam_file@.len() != t[24].nam_file@.len());
        } else if a == 13 && b == 25 {
            assert(t[13].nam_file@.len() != t[25].nam_file@.len());
        } else if a == 13 && b == 26 {
            assert(t[13].nam_file@.len() != t[26].nam_file@.len());
        } else if a == 13 && b == 27 {
            assert(t[13].nam_file@.len() != t[27].nam_file@.len());
        } else if a == 13 && b == 28 {
            assert(t[13].nam_file@.len() != t[28].nam_file@.len());
        } else if a == 13 && b == 29 {
            assert(t[13].nam_file@.len() != t[29].nam_file@.len());
        } else if a == 14 && b == 15 {
            assert(t[14].nam_file@.len() != t[15].nam_file@.len());
        } else if a == 14 && b == 16 {
            assert(t[14].nam_file@.len() != t[16].nam_file@.len());
        } else if a == 14 && b == 17 {
            assert(t[14].nam_file@.len() != t[17].nam_file@.len());
        } else if a == 14 && b == 18 {
            assert(t[14].nam_file@.len() != t[18].nam_file@.len());
        } else if a == 14 && b == 19 {
            assert(t[14].nam_file@.len() != t[19].nam_file@.len());
        } else if a == 14 && b == 20 {
            assert(t[14].nam_file@.len() != t[20].nam_file@.len());
        } else if a == 14 && b == 21 {
            assert(t[14].nam_file@.len() != t[21].nam_file@.len());
        } else if a == 14 && b == 22 {
            assert(t[14].nam_file@.len() != t[22].nam_file@.len());
        } else if a == 14 && b == 23 {
            assert(t[14].nam_file@.len() != t[23].nam_file@.len());
        } else if a == 14 && b == 24 {
            assert(t[14].nam_file@.len() != t[24].nam_file@.len());
        } else if a == 14 && b == 25 {
            assert(t[14].nam_file@.len() != t[25].nam_file@.len());
        } else if a == 14 && b == 26 {
            assert(t[14].nam_file@.len() != t[26].nam_file@.len());
        } else if a == 14 && b == 27 {
            assert(t[14].nam_file@.len() != t[27].nam_file@.len());
        } else if a == 14 && b == 28 {
            assert(t[14].nam_file@.len() != t[28].nam_file@.len());
        } else if a == 14 && b == 29 {
            assert(t[14].nam_file@.len() != t[29].nam_file@.len());
        } else if a == 15 && b == 16 {
            assert(t[15].nam_file@[49] != t[16].nam_file@[49]);
        } else if a == 15 && b == 17 {
            assert(t[15].nam_file@.len() != t[17].nam_file@.len());
        } else if a == 15 && b == 18 {
            assert(t[15].nam_file@.len() != t[18].nam_file@.len());
        } else if a == 15 && b == 19 {
            assert(t[15].nam_file@.len() != t[19].nam_file@.len());
        } else if a == 15 && b == 20 {
            assert(t[15].nam_file@.len() != t[20].nam_file@.len());
        } else if a == 15 && b == 21 {
            assert(t[15].nam_file@.len() != t[21].nam_file@.len());
        } else if a == 15 && b == 22 {
            assert(t[15].nam_file@.len() != t[22].nam_file@.len());
        } else if a == 15 && b == 23 {
            assert(t[15].nam_file@.len() != t[23].nam_file@.len());
        } else if a == 15 && b == 24 {
            assert(t[15].nam_file@.len() != t[24].nam_file@.len());
        } else if a == 15 && b == 25 {
            assert(t[15].nam_file@.len() != t[25].nam_file@.len());
        } else if a == 15 && b == 26 {
            assert(t[15].nam_file@.len() != t[26].nam_file@.len());
        } else if a == 15 && b == 27 {
            assert(t[15].nam_file@.len() != t[27].nam_file@.len());
        } else if a == 15 && b == 28 {
            assert(t[15].nam_file@.len() != t[28].nam_file@.len());
        } else if a == 15 && b == 29 {
            assert(t[15].nam_file@.len() != t[29].nam_file@.len());
        } else if a == 16 && b == 17 {
            assert(t[16].nam_file@.len() != t[17].nam_file@.len());
        } else if a == 16 && b == 18 {
            assert(t[16].nam_file@.len() != t[18].nam_file@.len());
        } else if a == 16 && b == 19 {
            assert(t[16].nam_file@.len() != t[19].nam_file@.len());
        } else if a == 16 && b == 20 {
            assert(t[16].nam_file@.len() != t[20].nam_file@.len());
        } else if a == 16 && b == 21 {
            assert(t[16].nam_file@.len() != t[21].nam_file@.len());
        } else if a == 16 && b == 22 {
            assert(t[16].nam_file@.len() != t[22].nam_file@.len());
        } else if a == 16 && b == 23 {
            assert(t[16].nam_file@.len() != t[23].nam_file@.len());
        } else if a == 16 && b == 24 {
            assert(t[16].nam_file@.len() != t[24].nam_file@.len());
        } else if a == 16 && b == 25 {
            assert(t[16].nam_file@.len() != t[25].nam_file@.len());
        } else if a == 16 && b == 26 {
            assert(t[16].nam_file@.len() != t[26].nam_file@.len());
        } else if a == 16 && b == 27 {
            assert(t[16].nam_file@.len() != t[27].nam_file@.len());
        } else if a == 16 && b == 28 {
            assert(t[16].nam_file@.len() != t[28].nam_file@.len());
        } else if a == 16 && b == 29 {
            assert(t[16].nam_file@.len() != t[29].nam_file@.len());
        } else if a == 17 && b == 18 {
            assert(t[17].nam_file@.len() != t[18].nam_file@.len());
        } else if a == 17 && b == 19 {
            assert(t[17].nam_file@.len() != t[19].nam_file@.len());
        } else if a == 17 && b == 20 {
            assert(t[17].nam_file@.len() != t[20].nam_file@.len());
        } else if a == 17 && b == 21 {
            assert(t[17].nam_file@.len() != t[21].nam_file@.len());
        } else if a == 17 && b == 22 {
            assert(t[17].nam_file@.len() != t[22].nam_file@.len());
        } else if a == 17 && b == 23 {
            assert(t[17].nam_file@.len() != t[23].nam_file@.len());
        } else if a == 17 && b == 24 {
            assert(t[17].nam_file@.len() != t[24].nam_file@.len());
        } else if a == 17 && b == 25 {
            assert(t[17].nam_file@.len() != t[25].nam_file@.len());
        } else if a == 17 && b == 26 {
            assert(t[17].nam_file@.len() != t[26].nam_file@.len());
        } else if a == 17 && b == 27 {
            assert(t[17].nam_file@.len() != t[27].nam_file@.len());
        } else if a == 17 && b == 28 {
            assert(t[17].nam_file@.len() != t[28].nam_file@.len());
        } else if a == 17 && b == 29 {
            assert(t[17].nam_file@.len() != t[29].nam_file@.len());
        } else if a == 18 && b == 19 {
            assert(t[18].nam_file@[58] != t[19].nam_file@[58]);
        } else if a == 18 && b == 20 {
            assert(t[18].nam_file@.len() != t[20].nam_file@.len());
        } else if a == 18 && b == 21 {
            assert(t[18].nam_file@.len() != t[21].nam_file@.len());
        } else if a == 18 && b == 22 {
            assert(t[18].nam_file@.len() != t[22].nam_file@.len());
        } else if a == 18 && b == 23 {
            assert(t[18].nam_file@.len() != t[23].nam_file@.len());
        } else if a == 18 && b == 24 {
            assert(t[18].nam_file@.len() != t[24].nam_file@.len());
        } else if a == 18 && b == 25 {
            assert(t[18].nam_file@.len() != t[25].nam_file@.len());
        } else if a == 18 && b == 26 {
            assert(t[18].nam_file@.len() != t[26].nam_file@.len());
        } else if a == 18 && b == 27 {
            assert(t[18].nam_file@.len() != t[27].nam_file@.len());
        } else if a == 18 && b == 28 {
            assert(t[18].nam_file@.len() != t[28].nam_file@.len());
        } else if a == 18 && b == 29 {
            assert(t[18].nam_file@.len() != t[29].nam_file@.len());
        } else if a == 19 && b == 20 {
            assert(t[19].nam_file@.len() != t[20].nam_file@.len());
        } else if a == 19 && b == 21 {
            assert(t[19].nam_file@.len() != t[21].nam_file@.len());
        } else if a == 19 && b == 22 {
            assert(t[19].nam_file@.len() != t[22].nam_file@.len());
        } else if a == 19 && b == 23 {
            assert(t[19].nam_file@.len() != t[23].nam_file@.len());
        } else if a == 19 && b == 24 {
            assert(t[19].nam_file@.len() != t[24].nam_file@.len());
        } else if a == 19 && b == 25 {
            assert(t[19].nam_file@.len() != t[25].nam_file@.len());
        } else if a == 19 && b == 26 {
            assert(t[19].nam_file@.len() != t[26].nam_file@.len());
        } else if a == 19 && b == 27 {
            assert(t[19].nam_file@.len() != t[27].nam_file@.len());
        } else if a == 19 && b == 28 {
            assert(t[19].nam_file@.len() != t[28].nam_file@.len());
        } else if a == 19 && b == 29 {
            assert(t[19].nam_file@.len() != t[29].nam_file@.len());
        } else if a == 20 && b == 21 {
            assert(t[20].nam_file@.len() != t[21].nam_file@.len());
        } else if a == 20 && b == 22 {
            assert(t[20].nam_file@.len() != t[22].nam_file@.len());
        } else if a == 20 && b == 23 {
            assert(t[20].nam_file@.len() != t[23].nam_file@.len());
        } else if a == 20 && b == 24 {
            assert(t[20].nam_file@.len() != t[24].nam_file@.len());
        } else if a == 20 && b == 25 {
            assert(t[20].nam_file@.len() != t[25].nam_file@.len());
        } else if a == 20 && b == 26 {
            assert(t[20].nam_file@.len() != t[26].nam_file@.len());
        } else if a == 20 && b == 27 {
            assert(t[20].nam_file@.len() != t[27].nam_file@.len());
        } else if a == 20 && b == 28 {
            assert(t[20].nam_file@.len() != t[28].nam_file@.len());
        } else if a == 20 && b == 29 {
            assert(t[20].nam_file@.len() != t[29].nam_file@.len());
        } else if a == 21 && b == 22 {
            assert(t[21].nam_file@[67] != t[22].nam_file@[67]);
        } else if a == 21 && b == 23 {
            assert(t[21].nam_file@.len() != t[23].nam_file@.len());
        } else if a == 21 && b == 24 {
            assert(t[21].nam_file@.len() != t[24].nam_file@.len());
        } else if a == 21 && b == 25 {
            assert(t[21].nam_file@.len() != t[25].nam_file@.len());
        } else if a == 21 && b == 26 {
            assert(t[21].nam_file@.len() != t[26].nam_file@.len());
        } else if a == 21 && b == 27 {
            assert(t[21].nam_file@.len() != t[27].nam_file@.len());
        } else if a == 21 && b == 28 {
            assert(t[21].nam_file@.len() != t[28].nam_file@.len());
        } else if a == 21 && b == 29 {
            assert(t[21].nam_file@.len() != t[29].nam_file@.len());
        } else if a == 22 && b == 23 {
            assert(t[22].nam_file@.len() != t[23].nam_file@.len());
        } else if a == 22 && b == 24 {
            assert(t[22].nam_file@.len() != t[24].nam_file@.len());
        } else if a == 22 && b == 25 {
            assert(t[22].nam_file@.len() != t[25].nam_file@.len());
        } else if a == 22 && b == 26 {
            assert(t[22].nam_file@.len() != t[26].nam_file@.len());
        } else if a == 22 && b == 27 {
            assert(t[22].nam_file@.len() != t[27].nam_file@.len());
        } else if a == 22 && b == 28 {
            assert(t[22].nam_file@.len() != t[28].nam_file@.len());
        } else if a == 22 && b == 29 {
            assert(t[22].nam_file@.len() != t[29].nam_file@.len());
        } else if a == 23 && b == 24 {
            assert(t[23].nam_file@.len() != t[24].nam_file@.len());
        } else if a == 23 && b == 25 {
            assert(t[23].nam_file@.len() != t[25].nam_file@.len());
        } else if a == 23 && b == 26 {
            assert(t[23].nam_file@.len() != t[26].nam_file@.len());
        } else if a == 23 && b == 27 {
            assert(t[23].nam_file@.len() != t[27].nam_file@.len());
        } else if a == 23 && b == 28 {
            assert(t[23].nam_file@.len() != t[28].nam_file@.len());
        } else if a == 23 && b == 29 {
            assert(t[23].nam_file@.len() != t[29].nam_file@.len());
        } else if a == 24 && b == 25 {
            assert(t[24].nam_file@[61] != t[25].nam_file@[61]);
        } else if a == 24 && b == 26 {
            assert(t[24].nam_file@.len() != t[26].nam_file@.len());
        } else if a == 24 && b == 27 {
            assert(t[24].nam_file@.len() != t[27].nam_file@.len());
        } else if a == 24 && b == 28 {
            assert(t[24].nam_file@.len() != t[28].nam_file@.len());
        } else if a == 24 && b == 29 {
            assert(t[24].nam_file@[47] != t[29].nam_file@[47]);
        } else if a == 25 && b == 26 {
            assert(t[25].nam_file@.len() != t[26].nam_file@.len());
        } else if a == 25 && b == 27 {
            assert(t[25].nam_file@.len() != t[27].nam_file@.len());
        } else if a == 25 && b == 28 {
            assert(t[25].nam_file@.len() != t[28].nam_file@.len());
        } else if a == 25 && b == 29 {
            assert(t[25].nam_file@[47] != t[29].nam_file@[47]);
        } else if a == 26 && b == 27 {
            assert(t[26].nam_file@.len() != t[27].nam_file@.len());
        } else if a == 26 && b == 28 {
            assert(t[26].nam_file@.len() != t[28].nam_file@.len());
        } else if a == 26 && b == 29 {
            assert(t[26].nam_file@.len() != t[29].nam_file@.len());
        } else if a == 27 && b == 28 {
            assert(t[27].nam_file@[60] != t[28].nam_file@[60]);
        } else if a == 27 && b == 29 {
            assert(t[27].nam_file@.len() != t[29].nam_file@.len());
        } else if a == 28 && b == 29 {
            assert(t[28].nam_file@.len() != t[29].nam_file@.len());
        }
    }
}

/// The selected capture names the file recorded at its own positions; where a
/// capture was recorded at the requested positions, that is the file of the
/// requested positions.
pub proof fn lemma_selected_file(v: Voicing, b: Boost, q: Quality)
    ensures
        ({
            let c = spec_captures()[spec_nearest(v, b, q)];
            &&& c.nam_file@ == recorded_file(c.voicing, c.boost, c.quality)
            &&& (exists|j: int| 0 <= j < spec_captures().len() && exact(#[trigger] spec_captures()[j], v, b, q))
                ==> c.nam_file@ == recorded_file(v, b, q)
        }),
{
    lemma_nearest_exists(v, b, q);
    lemma_captures_name_their_positions();
    if exists|j: int| 0 <= j < spec_captures().len() && exact(#[trigger] spec_captures()[j], v, b, q) {
        let j = choose|j: int| 0 <= j < spec_captures().len() && exact(#[trigger] spec_captures()[j], v, b, q);
        lemma_exact_preferred(v, b, q, j);
    }
}

/// A letter in capitals; other characters stay as they are.
pub open spec fn capital(c: char) -> char {
    if 'a' <= c && c <= 'z' { ((c as int) - 32) as char } else { c }
}

/// A text in capitals.
pub open spec fn capitals(text: Seq<char>) -> Seq<char> {
    text.map_values(|c: char| capital(c))
}

/// A switch text names the position whose recorded files spell it: the file
/// stem of the voicing ends with the text in capitals, the quality tag is the
/// text in capitals, and the boost is on exactly for the text `on`, whose
/// files carry `_BOOST`.
pub proof fn lemma_texts_name_their_files(text: Seq<char>)
    ensures
        spec_voicing(text) matches Some(v) ==> voicing_stem(v).len() >= text.len()
            && voicing_stem(v).subrange(voicing_stem(v).len() - text.len(), voicing_stem(v).len() as int)
                == capitals(text),
        spec_quality(text) matches Some(q) ==> quality_tag(q) == capitals(text),
        spec_boost(text) matches Some(b) ==> (b == Boost::On <==> text == "on"@),
{
    reveal_strlit("bright");
    reveal_strlit("dark");
    reveal_strlit("main");
    reveal_strlit("deliver_us");
    reveal_strlit("main_brighter");
    reveal_strlit("scoopy");
    reveal_strlit("c");
    reveal_strlit("s");
    reveal_strlit("xs");
    reveal_strlit("on");
    reveal_strlit("off");
    reveal_strlit("JHS_TIMMONS_BRIGHT");
    reveal_strlit("JHS_TIMMONS_DARK");
    reveal_strlit("JHS_TIMMONS_MAIN");
    reveal_strlit("TIMMONS_RIVERA_DELIVER_US");
    reveal_strlit("TIMMONS_RIVERA_MAIN_BRIGHTER");
    reveal_strlit("TIMMONS_RIVERA_SCOOPY");
    reveal_strlit("C");
    reveal_strlit("S");
    reveal_strlit("XS");
    if text == "bright"@ {
        let st = voicing_stem(Voicing::Bright);
        assert(st.subrange(st.len() - text.len(), st.len() as int) =~= capitals(text));
    } else if text == "dark"@ {
        let st = voicing_stem(Voicing::Dark);
        assert(st.subrange(st.len() - text.len(), st.len() as int) =~= capitals(text));
    } else if text == "main"@ {
        let st = voicing_stem(Voicing::Main);
        assert(st.subrange(st.len() - text.len(), st.len() as int) =~= capitals(text));
    } else if text == "deliver_us"@ {
        let st = voicing_stem(Voicing::DeliverUs);
        assert(st.subrange(st.len() - text.len(), st.len() as int) =~= capitals(text));
    } else if text == "main_brighter"@ {
        let st = voicing_stem(Voicing::MainBrighter);
        assert(st.subrange(st.len() - text.len(), st.len() as int) =~= capitals(text));
    } else if text == "scoopy"@ {
        let st = voicing_stem(Voicing::Scoopy);
        assert(st.subrange(st.len() - text.len(), st.len() as int) =~= capitals(text));
    }
    if text == "c"@ {
        assert(quality_tag(Quality::C) =~= capitals(text));
    } else if text == "s"@ {
        assert(quality_tag(Quality::S) =~= capitals(text));
    } else if text == "xs"@ {
        assert(quality_tag(Quality::Xs) =~= capitals(text));
    }
    if text == "off"@ {
        assert(text[1] != "on"@[1]);
    }
}

} // verus!
