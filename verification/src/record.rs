//! The composite records that cross the boundary: what kind of span or event
//! this is (`WasmMetadata`), a span-creation payload (`WasmAttributes`), and
//! a point-in-time occurrence (`WasmEvent`).
//!
//! All three are plain stack values built from the boundary value model.
//! Constructing one has no observable effect: a record is only observed when
//! it is consumed by the span lifecycle operations, which is what lets the
//! whole bridge collapse to a no-op when no subscriber is installed.

use vstd::prelude::*;

use crate::fields::FieldsView;
use crate::fields::WasmValues;
use crate::level::WasmLevel;

verus! {

/// Mathematical model of a `WasmMetadata`.
pub struct MetadataView {
    pub name: Seq<char>,
    pub target: Seq<char>,
    pub level: WasmLevel,
    pub file: Option<Seq<char>>,
    pub line: Option<u32>,
    pub module: Option<Seq<char>>,
    pub field_names: Seq<Seq<char>>,
}

/// Model of an optional string.
pub open spec fn opt_str_view(s: Option<String>) -> Option<Seq<char>> {
    match s {
        Some(s) => Some(s@),
        None => None,
    }
}

/// Identifies what kind of span or event a record describes, independent of
/// any particular invocation's values: a name, a target, a severity level,
/// optional source-location fields, and the ordered names of the fields that
/// invocations may carry. Immutable once constructed.
///
/// The length of `field_names` is an advisory cross-check against the number
/// of entries in any field set built for this metadata; the type itself does
/// not enforce it.
#[derive(Debug)]
pub struct WasmMetadata {
    pub name: String,
    pub target: String,
    pub level: WasmLevel,
    pub file: Option<String>,
    pub line: Option<u32>,
    pub module: Option<String>,
    pub field_names: Vec<String>,
}

impl View for WasmMetadata {
    type V = MetadataView;

    open spec fn view(&self) -> MetadataView {
        MetadataView {
            name: self.name@,
            target: self.target@,
            level: self.level,
            file: opt_str_view(self.file),
            line: self.line,
            module: opt_str_view(self.module),
            field_names: Seq::new(self.field_names@.len(), |i: int| self.field_names@[i]@),
        }
    }
}

impl WasmMetadata {
    /// Assemble a metadata record from a name, a target and a level, with no
    /// source location and no declared field names.
    pub fn new(name: String, target: String, level: WasmLevel) -> (m: WasmMetadata)
        ensures
            m@.name == name@,
            m@.target == target@,
            m@.level == level,
            m@.file.is_none(),
            m@.line.is_none(),
            m@.module.is_none(),
            m@.field_names =~= Seq::<Seq<char>>::empty(),
    {
        WasmMetadata {
            name,
            target,
            level,
            file: None,
            line: None,
            module: None,
            field_names: Vec::new(),
        }
    }

    /// The same metadata with the source file and line filled in.
    pub fn with_location(self, file: String, line: u32) -> (m: WasmMetadata)
        ensures
            m@ == (MetadataView { file: Some(file@), line: Some(line), ..self@ }),
    {
        WasmMetadata { file: Some(file), line: Some(line), ..self }
    }

    /// The same metadata with the enclosing module's path filled in.
    pub fn with_module(self, module: String) -> (m: WasmMetadata)
        ensures
            m@ == (MetadataView { module: Some(module@), ..self@ }),
    {
        WasmMetadata { module: Some(module), ..self }
    }

    /// The same metadata with the ordered field names declared.
    pub fn with_field_names(self, field_names: Vec<String>) -> (m: WasmMetadata)
        ensures
            m@ == (MetadataView {
                field_names: Seq::new(field_names@.len(), |i: int| field_names@[i]@),
                ..self@
            }),
    {
        WasmMetadata { field_names, ..self }
    }
}

/// Mathematical model of a `WasmAttributes`.
pub struct AttributesView {
    pub metadata: MetadataView,
    pub values: FieldsView,
}

/// The payload of span creation: create a new span of the kind described by
/// `metadata`, with `values` as its initial field set. Immutable; consumed
/// exactly once by `new_span`.
#[derive(Debug)]
pub struct WasmAttributes {
    pub metadata: WasmMetadata,
    pub values: WasmValues,
}

impl View for WasmAttributes {
    type V = AttributesView;

    open spec fn view(&self) -> AttributesView {
        AttributesView { metadata: self.metadata@, values: self.values@ }
    }
}

impl WasmAttributes {
    /// Combine a metadata record with an initial field set.
    pub fn new(metadata: WasmMetadata, values: WasmValues) -> (a: WasmAttributes)
        ensures
            a@.metadata == metadata@,
            a@.values == values@,
    {
        WasmAttributes { metadata, values }
    }
}

/// Mathematical model of a `WasmEvent`.
pub struct EventView {
    pub metadata: MetadataView,
    pub values: FieldsView,
}

/// A single point-in-time occurrence: structurally a metadata record plus a
/// field set, but without duration. Immutable; consumed exactly once by
/// `event`.
#[derive(Debug)]
pub struct WasmEvent {
    pub metadata: WasmMetadata,
    pub values: WasmValues,
}

impl View for WasmEvent {
    type V = EventView;

    open spec fn view(&self) -> EventView {
        EventView { metadata: self.metadata@, values: self.values@ }
    }
}

impl WasmEvent {
    /// Combine a metadata record with the field values observed at the event.
    pub fn new(metadata: WasmMetadata, values: WasmValues) -> (e: WasmEvent)
        ensures
            e@.metadata == metadata@,
            e@.values == values@,
    {
        WasmEvent { metadata, values }
    }
}

} // verus!
