//! Reserved-key remapping: the convention that lets a generic "named span
//! with fields" construction carry a caller-chosen name and target when the
//! calling convention cannot pass them directly.
//!
//! Three strings are reserved and must stay byte-for-byte stable, because
//! external consumers special-case them: a field name meaning "the real
//! target is in this field's value", a field name meaning "the real name is
//! in this field's value", and a span-name sentinel meaning "ignore my
//! literal name; derive the real name and target from the two reserved
//! fields". A caller using the mechanism must not use either reserved field
//! name for an unrelated purpose on the same span: the collision is not
//! detectable and silently corrupts the reported metadata. That fragility is
//! part of the documented convention and is preserved here.

use vstd::prelude::*;

use crate::fields::FieldsView;
use crate::fields::ValueView;
use crate::fields::WasmValue;
use crate::fields::WasmValues;
use crate::record::MetadataView;
use crate::record::WasmMetadata;
use crate::record::opt_str_view;

verus! {

/// The characters of the reserved field name that signals "override target".
pub open spec fn spec_wasm_target_key() -> Seq<char> {
    "target"@
}

/// The characters of the reserved field name that signals "override name".
pub open spec fn spec_wasm_name_key() -> Seq<char> {
    "name"@
}

/// The characters of the reserved span-name sentinel.
pub open spec fn spec_wasm_trace_identifier() -> Seq<char> {
    "wasm_tracing"@
}

/// The reserved field name whose value, on a span named with the sentinel,
/// carries the real target string.
pub fn wasm_target_key() -> (r: String)
    ensures
        r@ == spec_wasm_target_key(),
{
    "target".to_owned()
}

/// The reserved field name whose value, on a span named with the sentinel,
/// carries the real name string.
pub fn wasm_name_key() -> (r: String)
    ensures
        r@ == spec_wasm_name_key(),
{
    "name".to_owned()
}

/// The reserved span-name sentinel: a span with this literal name asks the
/// consumer to derive its real name and target from the two reserved fields.
pub fn wasm_trace_identifier() -> (r: String)
    ensures
        r@ == spec_wasm_trace_identifier(),
{
    "wasm_tracing".to_owned()
}

/// The string carried by the latest entry of `fields` that bears the name
/// `key` and holds a plain string value, if there is one. Later writes of
/// the same name win over earlier ones; an entry of the name whose value is
/// absent or not a string is passed over.
pub open spec fn lookup_override(fields: FieldsView, key: Seq<char>) -> Option<Seq<char>>
    decreases fields.len(),
{
    if fields.len() == 0 {
        None
    } else {
        let e = fields.last();
        if e.0 == key {
            match e.1 {
                Some(ValueView::Str(s)) => Some(s),
                _ => lookup_override(fields.drop_last(), key),
            }
        } else {
            lookup_override(fields.drop_last(), key)
        }
    }
}

/// The name a conforming consumer reports for a span: the literal metadata
/// name, unless that name is the reserved sentinel and the field set carries
/// the "override name" field, in which case the override's value.
pub open spec fn effective_name(metadata: MetadataView, fields: FieldsView) -> Seq<char> {
    if metadata.name == spec_wasm_trace_identifier() {
        match lookup_override(fields, spec_wasm_name_key()) {
            Some(n) => n,
            None => metadata.name,
        }
    } else {
        metadata.name
    }
}

/// The target a conforming consumer reports for a span: the literal metadata
/// target, unless the span's name is the reserved sentinel and the field set
/// carries the "override target" field, in which case the override's value.
pub open spec fn effective_target(metadata: MetadataView, fields: FieldsView) -> Seq<char> {
    if metadata.name == spec_wasm_trace_identifier() {
        match lookup_override(fields, spec_wasm_target_key()) {
            Some(t) => t,
            None => metadata.target,
        }
    } else {
        metadata.target
    }
}

/// Find the latest string value recorded under `key` in `values`.
pub fn string_override(values: &WasmValues, key: &String) -> (r: Option<String>)
    ensures
        opt_str_view(r) == lookup_override(values@, key@),
{
    let ghost full: FieldsView = values@;
    let mut i: usize = values.len();
    proof {
        assert(full.subrange(0, i as int) =~= full);
    }
    while i > 0
        invariant
            i <= values@.len(),
            full == values@,
            lookup_override(full, key@) == lookup_override(full.subrange(0, i as int), key@),
        decreases i,
    {
        i = i - 1;
        let e = values.get(i);
        let ghost prefix = full.subrange(0, i + 1);
        proof {
            assert(prefix.last() == full[i as int]);
            assert(prefix.drop_last() =~= full.subrange(0, i as int));
        }
        if e.0 == *key {
            match &e.1 {
                Some(v) => {
                    match v {
                        WasmValue::Str(s) => {
                            return Some(s.clone());
                        },
                        _ => {},
                    }
                },
                None => {},
            }
        }
    }
    None
}

/// With the sentinel name and both override fields present, a conforming
/// consumer substitutes the overrides: the span is reported under the name
/// and target carried by the two reserved fields, not under the literal
/// sentinel.
pub proof fn lemma_overrides_substituted(metadata: MetadataView, fields: FieldsView)
    requires
        metadata.name == spec_wasm_trace_identifier(),
        lookup_override(fields, spec_wasm_name_key()).is_some(),
        lookup_override(fields, spec_wasm_target_key()).is_some(),
    ensures
        effective_name(metadata, fields) == lookup_override(
            fields,
            spec_wasm_name_key(),
        ).unwrap(),
        effective_target(metadata, fields) == lookup_override(
            fields,
            spec_wasm_target_key(),
        ).unwrap(),
{
}

/// With the sentinel name but neither override field present, the fallback
/// path applies: the span is reported under its literal name and target,
/// unchanged.
pub proof fn lemma_missing_overrides_fall_back(metadata: MetadataView, fields: FieldsView)
    requires
        metadata.name == spec_wasm_trace_identifier(),
        lookup_override(fields, spec_wasm_name_key()).is_none(),
        lookup_override(fields, spec_wasm_target_key()).is_none(),
    ensures
        effective_name(metadata, fields) == metadata.name,
        effective_target(metadata, fields) == metadata.target,
{
}

/// A span whose name is not the sentinel is never remapped, whatever its
/// field set holds.
pub proof fn lemma_ordinary_name_not_remapped(metadata: MetadataView, fields: FieldsView)
    requires
        metadata.name != spec_wasm_trace_identifier(),
    ensures
        effective_name(metadata, fields) == metadata.name,
        effective_target(metadata, fields) == metadata.target,
{
}

/// Compute the name and target a conforming consumer reports for a span
/// described by `metadata` with the field set `values`.
pub fn effective_name_and_target(metadata: &WasmMetadata, values: &WasmValues) -> (r: (
    String,
    String,
))
    ensures
        r.0@ == effective_name(metadata@, values@),
        r.1@ == effective_target(metadata@, values@),
{
    let sentinel = wasm_trace_identifier();
    if metadata.name == sentinel {
        let name = match string_override(values, &wasm_name_key()) {
            Some(n) => n,
            None => metadata.name.clone(),
        };
        let target = match string_override(values, &wasm_target_key()) {
            Some(t) => t,
            None => metadata.target.clone(),
        };
        (name, target)
    } else {
        (metadata.name.clone(), metadata.target.clone())
    }
}

} // verus!
