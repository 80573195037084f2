//! What the registry knows of a model: its names, its engine and its knob layout.

use vstd::prelude::*;

verus! {

/// The engine that runs a model.
#[derive(Clone, Copy, PartialEq, Eq, Debug, Structural)]
pub enum BackendKind {
    Nam,
    Lv2,
}

/// The instruments a model is offered for.
#[derive(Clone, Copy, PartialEq, Eq, Debug, Structural)]
pub enum Instruments {
    GuitarBass,
    All,
}

/// Where a knob of the pedal's picture stands and what it turns; every
/// number is in hundredths.
#[derive(Clone, Copy, Debug)]
pub struct KnobLayoutEntry {
    pub param_key: &'static str,
    pub svg_cx: i64,
    pub svg_cy: i64,
    pub svg_r: i64,
    pub min: i64,
    pub max: i64,
    pub step: i64,
}

/// What the registry knows of a model besides its functions.
pub struct ModelDefinition {
    pub id: &'static str,
    pub display_name: &'static str,
    pub brand: &'static str,
    pub backend_kind: BackendKind,
    pub supported_instruments: Instruments,
    pub knob_layout: Vec<KnobLayoutEntry>,
}

pub struct ModelDefinitionView {
    pub id: &'static str,
    pub display_name: &'static str,
    pub brand: &'static str,
    pub backend_kind: BackendKind,
    pub supported_instruments: Instruments,
    pub knob_layout: Seq<KnobLayoutEntry>,
}

impl View for ModelDefinition {
    type V = ModelDefinitionView;

    open spec fn view(&self) -> ModelDefinitionView {
        ModelDefinitionView {
            id: self.id,
            display_name: self.display_name,
            brand: self.brand,
            backend_kind: self.backend_kind,
            supported_instruments: self.supported_instruments,
            knob_layout: self.knob_layout@,
        }
    }
}

} // verus!
