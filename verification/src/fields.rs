//! The boundary value model: single field values and ordered field sets.
//!
//! Everything here is built from primitive values only (integers, booleans,
//! strings), so a value can cross the sandbox boundary without holding any
//! reference into host memory. Construction never fails: a value that does
//! not fit one of the typed kinds is carried as a pre-rendered debug string.

use vstd::prelude::*;

verus! {

/// Mathematical model of a single field value.
pub enum ValueView {
    Bool(bool),
    I64(i64),
    U64(u64),
    F64Bits(u64),
    Str(Seq<char>),
    Formatted(Seq<char>),
}

/// A single field value: a tagged union over the closed set of primitive
/// kinds a tracing field payload can take.
///
/// Each tag maps to exactly one boundary primitive kind; in particular a
/// UTF-8 string (`Str`) and a pre-rendered debug string (`Formatted`) are
/// distinct at the type level. A 64-bit float is carried as its IEEE-754 bit
/// pattern (`F64Bits`), which crosses the boundary as a plain integer and is
/// turned back into a float only by unverified code on either side.
#[derive(Debug)]
pub enum WasmValue {
    Bool(bool),
    I64(i64),
    U64(u64),
    F64Bits(u64),
    Str(String),
    Formatted(String),
}

impl View for WasmValue {
    type V = ValueView;

    open spec fn view(&self) -> ValueView {
        match self {
            WasmValue::Bool(b) => ValueView::Bool(*b),
            WasmValue::I64(x) => ValueView::I64(*x),
            WasmValue::U64(x) => ValueView::U64(*x),
            WasmValue::F64Bits(x) => ValueView::F64Bits(*x),
            WasmValue::Str(s) => ValueView::Str(s@),
            WasmValue::Formatted(s) => ValueView::Formatted(s@),
        }
    }
}

impl PartialEq for WasmValue {
    fn eq(&self, other: &WasmValue) -> bool {
        match (self, other) {
            (WasmValue::Bool(a), WasmValue::Bool(b)) => *a == *b,
            (WasmValue::I64(a), WasmValue::I64(b)) => *a == *b,
            (WasmValue::U64(a), WasmValue::U64(b)) => *a == *b,
            (WasmValue::F64Bits(a), WasmValue::F64Bits(b)) => *a == *b,
            (WasmValue::Str(a), WasmValue::Str(b)) => *a == *b,
            (WasmValue::Formatted(a), WasmValue::Formatted(b)) => *a == *b,
            _ => false,
        }
    }
}

impl vstd::std_specs::cmp::PartialEqSpecImpl for WasmValue {
    open spec fn obeys_eq_spec() -> bool {
        true
    }

    open spec fn eq_spec(&self, other: &WasmValue) -> bool {
        self@ == other@
    }
}

/// Model of an `Option`al field value.
pub open spec fn opt_value_view(v: Option<WasmValue>) -> Option<ValueView> {
    match v {
        Some(w) => Some(w@),
        None => None,
    }
}

/// Model of one named entry of a field set.
pub open spec fn entry_view(e: (String, Option<WasmValue>)) -> (Seq<char>, Option<ValueView>) {
    (e.0@, opt_value_view(e.1))
}

/// Mathematical model of a field set: the entries in insertion order.
pub type FieldsView = Seq<(Seq<char>, Option<ValueView>)>;

/// An ordered sequence of `(name, optional value)` pairs.
///
/// The builder is append-only and preserves insertion order. A field may be
/// declared with no value yet: span creation and field population are allowed
/// to happen in two steps, the placeholder being filled by a later `record`.
/// Names are caller-supplied and not guaranteed unique; a reader that needs
/// one value per name should let the last write win.
#[derive(Debug)]
pub struct WasmValues {
    entries: Vec<(String, Option<WasmValue>)>,
}

impl View for WasmValues {
    type V = FieldsView;

    closed spec fn view(&self) -> FieldsView {
        Seq::new(self.entries@.len(), |i: int| entry_view(self.entries@[i]))
    }
}

impl WasmValues {
    /// An empty field set.
    pub fn new() -> (r: WasmValues)
        ensures
            r@ =~= Seq::<(Seq<char>, Option<ValueView>)>::empty(),
    {
        WasmValues { entries: Vec::new() }
    }

    /// The number of entries.
    pub fn len(&self) -> (n: usize)
        ensures
            n == self@.len(),
    {
        self.entries.len()
    }

    /// Append a named value; never fails, every prior entry is kept in place.
    pub fn add(&mut self, name: String, value: WasmValue)
        ensures
            final(self)@ =~= old(self)@.push((name@, Some(value@))),
    {
        self.entries.push((name, Some(value)));
    }

    /// Append a named placeholder whose value is to be filled by a later
    /// `record` call.
    pub fn add_empty(&mut self, name: String)
        ensures
            final(self)@ =~= old(self)@.push((name@, Option::<ValueView>::None)),
    {
        self.entries.push((name, None));
    }

    /// The entry at position `i`, in insertion order.
    pub fn get(&self, i: usize) -> (e: &(String, Option<WasmValue>))
        requires
            i < self@.len(),
        ensures
            entry_view(*e) == self@[i as int],
    {
        &self.entries[i]
    }

    /// Append every entry of `other`, in order, after the entries of `self`.
    pub fn append(&mut self, other: WasmValues)
        ensures
            final(self)@ =~= old(self)@ + other@,
    {
        let mut tail = other;
        self.entries.append(&mut tail.entries);
    }
}

} // verus!
