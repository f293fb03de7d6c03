//! Wire values: what the byte-level reader hands over.

use vstd::prelude::*;

verus! {

/// A decoded value that has no Rust type yet.
#[derive(Debug, PartialEq, Eq)]
pub enum WireValue {
    Null,
    Bool(bool),
    Int(i64),
    /// A double, held as the 64 bits of its IEEE 754 encoding.
    Double(u64),
    String(String),
    Array(Vec<WireValue>),
    /// A map from names to values: its entries in the order of the wire.
    /// Keys may repeat.
    Object(Vec<(String, WireValue)>),
}

/// What a [`WireValue`] holds: strings as sequences of characters, arrays
/// and objects as sequences of what they hold.
pub enum Wire {
    Null,
    Bool(bool),
    Int(i64),
    Double(u64),
    String(Seq<char>),
    Array(Seq<Wire>),
    Object(Seq<(Seq<char>, Wire)>),
}

impl Wire {
    /// Neither an array nor an object.
    pub open spec fn is_scalar(self) -> bool {
        !(self is Array) && !(self is Object)
    }

    /// An object of exactly one entry: the encoding of a variant with data.
    pub open spec fn is_single_entry(self) -> bool {
        self is Object && self->Object_0.len() == 1
    }
}

/// What `value` holds.
pub open spec fn wire_view(value: WireValue) -> Wire
    decreases value,
{
    match value {
        WireValue::Null => Wire::Null,
        WireValue::Bool(b) => Wire::Bool(b),
        WireValue::Int(i) => Wire::Int(i),
        WireValue::Double(bits) => Wire::Double(bits),
        WireValue::String(s) => Wire::String(s@),
        WireValue::Array(items) => Wire::Array(wire_views(items@)),
        WireValue::Object(entries) => Wire::Object(entry_views(entries@)),
    }
}

/// What each of `values` holds, place by place.
pub open spec fn wire_views(values: Seq<WireValue>) -> Seq<Wire>
    decreases values,
{
    Seq::new(
        values.len(),
        |i: int|
            if 0 <= i < values.len() {
                wire_view(values[i])
            } else {
                Wire::Null
            },
    )
}

/// What each of `entries` holds, place by place.
pub open spec fn entry_views(entries: Seq<(String, WireValue)>) -> Seq<(Seq<char>, Wire)>
    decreases entries,
{
    Seq::new(
        entries.len(),
        |i: int|
            if 0 <= i < entries.len() {
                (entries[i].0@, wire_view(entries[i].1))
            } else {
                (Seq::empty(), Wire::Null)
            },
    )
}

impl View for WireValue {
    type V = Wire;

    open spec fn view(&self) -> Wire {
        wire_view(*self)
    }
}

/// Taking the last value away takes the last view away.
pub proof fn lemma_views_drop_last(values: Seq<WireValue>)
    requires
        values.len() > 0,
    ensures
        wire_views(values.drop_last()) == wire_views(values).drop_last(),
        wire_views(values).last() == values.last()@,
{
    assert(wire_views(values.drop_last()) =~= wire_views(values).drop_last());
}

/// Adding a value adds its view.
pub proof fn lemma_views_push(values: Seq<WireValue>, value: WireValue)
    ensures
        wire_views(values.push(value)) == wire_views(values).push(value@),
{
    assert(wire_views(values.push(value)) =~= wire_views(values).push(value@));
}

impl WireValue {
    /// Neither an array nor an object.
    pub fn scalar(&self) -> (b: bool)
        ensures
            b == self@.is_scalar(),
    {
        match self {
            WireValue::Array(_) => false,
            WireValue::Object(_) => false,
            _ => true,
        }
    }

    /// An object of exactly one entry.
    pub fn single_entry(&self) -> (b: bool)
        ensures
            b == self@.is_single_entry(),
    {
        match self {
            WireValue::Object(entries) => entries.len() == 1,
            _ => false,
        }
    }
}

} // verus!
