//! Capture tables: the settings captures were recorded at, and how a request selects one.

use vstd::prelude::*;
use crate::text::{str_eq, concat, texts};
use crate::schema::{ModelSchemaView, enum_at, choices_at, default_at, is_choice, str_texts};

verus! {

/// One recorded capture of a pedal: the setting it was recorded at (one
/// value per selecting parameter, in the model's order) and its file.
pub struct Capture {
    pub keys: Vec<&'static str>,
    pub model_path: &'static str,
}

pub struct CaptureView {
    pub keys: Seq<&'static str>,
    pub model_path: &'static str,
}

impl View for Capture {
    type V = CaptureView;

    open spec fn view(&self) -> CaptureView {
        CaptureView { keys: self.keys@, model_path: self.model_path }
    }
}

impl Capture {
    /// A capture selected by one parameter.
    pub fn one(a: &'static str, model_path: &'static str) -> (c: Capture)
        ensures
            c@ == (CaptureView { keys: seq![a], model_path }),
    {
        let c = Capture { keys: vec![a], model_path };
        assert(c.keys@ =~= seq![a]);
        c
    }

    /// A capture selected by two parameters.
    pub fn two(a: &'static str, b: &'static str, model_path: &'static str) -> (c: Capture)
        ensures
            c@ == (CaptureView { keys: seq![a, b], model_path }),
    {
        Capture { keys: vec![a, b], model_path }
    }

    /// A capture selected by three parameters.
    pub fn three(a: &'static str, b: &'static str, c: &'static str, model_path: &'static str) -> (cap: Capture)
        ensures
            cap@ == (CaptureView { keys: seq![a, b, c], model_path }),
    {
        Capture { keys: vec![a, b, c], model_path }
    }
}

pub open spec fn table_view(table: Seq<Capture>) -> Seq<CaptureView> {
    table.map_values(|c: Capture| c@)
}

/// The capture's setting is `request`, value by value.
pub open spec fn setting_matches(keys: Seq<&'static str>, request: Seq<Seq<char>>) -> bool {
    &&& keys.len() == request.len()
    &&& forall|k: int| 0 <= k < keys.len() ==> #[trigger] keys[k]@ == request[k]
}

/// The index of the first capture, at `start` or after, recorded at `request`.
pub open spec fn first_selected_from(table: Seq<CaptureView>, request: Seq<Seq<char>>, start: int) -> Option<int>
    decreases table.len() - start,
{
    if start < 0 || start >= table.len() {
        None
    } else if setting_matches(table[start].keys, request) {
        Some(start)
    } else {
        first_selected_from(table, request, start + 1)
    }
}

/// The index of the first capture of `table` recorded at `request`.
pub open spec fn first_selected(table: Seq<CaptureView>, request: Seq<Seq<char>>) -> Option<int> {
    first_selected_from(table, request, 0)
}

/// What a summary of a capture asset reads.
pub open spec fn asset_text(model_path: Seq<char>) -> Seq<char> {
    concat(seq!["model='"@, model_path, "'"@])
}

/// Compares a capture's setting with a requested one.
pub fn setting_equal(keys: &Vec<&'static str>, request: &Vec<&str>) -> (equal: bool)
    ensures
        equal == setting_matches(keys@, texts(request@)),
{
    if keys.len() != request.len() {
        return false;
    }
    let mut i: usize = 0;
    while i < keys.len()
        invariant
            keys.len() == request.len(),
            i <= keys.len(),
            forall|j: int| 0 <= j < i ==> keys@[j]@ == texts(request@)[j],
        decreases keys.len() - i,
    {
        if !str_eq(keys[i], request[i]) {
            assert(keys@[i as int]@ != texts(request@)[i as int]);
            return false;
        }
        i = i + 1;
    }
    true
}

/// Finds the first capture of `table` recorded at the setting `request`.
pub fn find_capture(table: &Vec<Capture>, request: &Vec<&str>) -> (found: Option<usize>)
    ensures
        match found {
            Some(i) => first_selected(table_view(table@), texts(request@)) == Some(i as int),
            None => first_selected(table_view(table@), texts(request@)) is None,
        },
{
    let ghost t = table_view(table@);
    let ghost r = texts(request@);
    let mut i: usize = 0;
    while i < table.len()
        invariant
            i <= table.len(),
            t == table_view(table@),
            r == texts(request@),
            first_selected_from(t, r, 0) == first_selected_from(t, r, i as int),
        decreases table.len() - i,
    {
        if setting_equal(&table[i].keys, request) {
            return Some(i);
        }
        i = i + 1;
    }
    None
}

proof fn lemma_first_selected_from(table: Seq<CaptureView>, request: Seq<Seq<char>>, start: int)
    requires
        0 <= start,
    ensures
        match first_selected_from(table, request, start) {
            Some(i) => {
                &&& start <= i < table.len()
                &&& setting_matches(table[i].keys, request)
                &&& forall|j: int| start <= j < i ==> !setting_matches(#[trigger] table[j].keys, request)
            },
            None => forall|j: int| start <= j < table.len() ==> !setting_matches(#[trigger] table[j].keys, request),
        },
    decreases table.len() - start,
{
    if start < table.len() && !setting_matches(table[start].keys, request) {
        lemma_first_selected_from(table, request, start + 1);
    }
}

/// The first selected capture is recorded at the request, and none before it is;
/// where none is selected, no capture is recorded at the request.
pub proof fn lemma_first_selected(table: Seq<CaptureView>, request: Seq<Seq<char>>)
    ensures
        match first_selected(table, request) {
            Some(i) => {
                &&& 0 <= i < table.len()
                &&& setting_matches(table[i].keys, request)
                &&& forall|j: int| 0 <= j < i ==> !setting_matches(#[trigger] table[j].keys, request)
            },
            None => forall|j: int| 0 <= j < table.len() ==> !setting_matches(#[trigger] table[j].keys, request),
        },
{
    lemma_first_selected_from(table, request, 0);
}

/// A request at which some capture was recorded selects a capture.
pub proof fn lemma_selected_at(table: Seq<CaptureView>, request: Seq<Seq<char>>, j: int)
    requires
        0 <= j < table.len(),
        setting_matches(table[j].keys, request),
    ensures
        first_selected(table, request) matches Some(i) && i <= j,
{
    lemma_first_selected(table, request);
}

/// Every capture is recorded at choices of the model's selecting parameters,
/// which are enumerated parameters of its schema.
pub open spec fn captures_follow_schema(s: ModelSchemaView, key_params: Seq<int>, table: Seq<CaptureView>) -> bool {
    &&& forall|k: int| 0 <= k < key_params.len() ==> enum_at(s, #[trigger] key_params[k])
    &&& forall|i: int, k: int| 0 <= i < table.len() && 0 <= k < key_params.len() ==> {
        &&& #[trigger] table[i].keys.len() == key_params.len()
        &&& is_choice(choices_at(s, key_params[k]), #[trigger] table[i].keys[k]@)
    }
}

/// The setting made of the defaults of the selecting parameters.
pub open spec fn default_setting(s: ModelSchemaView, key_params: Seq<int>) -> Seq<Seq<char>> {
    key_params.map_values(|p: int| default_at(s, p).unwrap()@)
}

/// Each selecting parameter has a default.
pub open spec fn defaults_present(s: ModelSchemaView, key_params: Seq<int>) -> bool {
    forall|k: int| 0 <= k < key_params.len() ==> default_at(s, #[trigger] key_params[k]) is Some
}

/// No two captures were recorded at the same setting.
pub open spec fn captures_distinct(table: Seq<CaptureView>) -> bool {
    forall|i: int, j: int| 0 <= i < j < table.len() ==> str_texts(table[i].keys) != str_texts(table[j].keys)
}

/// `request` gives one of its choices to each selecting parameter.
pub open spec fn setting_of_choices(s: ModelSchemaView, key_params: Seq<int>, request: Seq<Seq<char>>) -> bool {
    &&& request.len() == key_params.len()
    &&& forall|k: int| 0 <= k < key_params.len() ==> is_choice(choices_at(s, key_params[k]), #[trigger] request[k])
}

/// Every setting made of choices selects a capture.
pub open spec fn every_setting_selects(s: ModelSchemaView, key_params: Seq<int>, table: Seq<CaptureView>) -> bool {
    forall|request: Seq<Seq<char>>| setting_of_choices(s, key_params, request)
        ==> (#[trigger] first_selected(table, request)) is Some
}

/// The file name `path` writes the setting value `value` somewhere in it.
pub open spec fn names_value(path: Seq<char>, value: Seq<char>) -> bool {
    exists|p: int| 0 <= p && p + value.len() <= path.len() && #[trigger] path.subrange(p, p + value.len()) == value
}

/// Every capture's file writes each value of the setting it was recorded at.
pub open spec fn files_name_settings(table: Seq<CaptureView>) -> bool {
    forall|i: int, k: int| 0 <= i < table.len() && 0 <= k < table[i].keys.len() ==>
        names_value(#[trigger] table[i].model_path@, #[trigger] table[i].keys[k]@)
}

/// No two captures name the same file.
pub open spec fn files_distinct(table: Seq<CaptureView>) -> bool {
    forall|a: int, b: int| 0 <= a < b < table.len() ==>
        (#[trigger] table[a]).model_path@ != (#[trigger] table[b]).model_path@
}

} // verus!
