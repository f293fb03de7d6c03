//! Seeds: what a caller wants the next wire value decoded into.

use vstd::prelude::*;
use crate::wire::{wire_view, Wire, WireValue};

verus! {

/// The shape of the value to decode next.
#[derive(Debug, PartialEq, Eq)]
pub enum Seed {
    /// Whatever shape the wire value has.
    Any,
    /// Nothing: the wire value must be null.
    Unit,
    /// The name of a variant: the wire value must be a string.
    Identifier,
    /// One of the declared variants of an enum.
    Enum(Vec<VariantDecl>),
}

/// A variant as the caller declares it.
#[derive(Debug, PartialEq, Eq)]
pub struct VariantDecl {
    pub name: String,
    pub shape: VariantShape,
}

/// The payload that a declared variant carries.
#[derive(Debug, PartialEq, Eq)]
pub enum VariantShape {
    /// No payload.
    Unit,
    /// One value, decoded by the seed given.
    Newtype(Seed),
    /// As many values as given, in order.
    Tuple(usize),
    /// Fields of the names given, in order.
    Struct(Vec<String>),
}

/// A value as a decode hands it back.
#[derive(Debug, PartialEq, Eq)]
pub enum Decoded {
    /// What [`Seed::Unit`] gives.
    Unit,
    /// What [`Seed::Identifier`] gives: the name read.
    Identifier(String),
    /// What [`Seed::Any`] gives: the wire value as it stood.
    Value(WireValue),
    /// What [`Seed::Enum`] gives: the variant's name and its payload.
    Variant(String, Box<Decoded>),
}

/// What a [`Seed`] asks for.
pub enum Target {
    Any,
    Unit,
    Identifier,
    Enum(Seq<Declared>),
}

/// What a [`VariantDecl`] declares.
pub struct Declared {
    pub name: Seq<char>,
    pub shape: Shape,
}

/// What a [`VariantShape`] says of a payload.
pub enum Shape {
    Unit,
    Newtype(Target),
    Tuple(nat),
    Struct(Seq<Seq<char>>),
}

/// What a [`Decoded`] holds.
pub enum Reading {
    Unit,
    Identifier(Seq<char>),
    Value(Wire),
    Variant(Seq<char>, Box<Reading>),
}

impl Target {
    /// One for a target that may enter an enum, nought for any other: a
    /// decode that enters none reads one wire value and ends.
    pub open spec fn reentry(self) -> int {
        if self is Enum {
            1
        } else {
            0
        }
    }
}

/// What `seed` asks for.
pub open spec fn target_of(seed: Seed) -> Target
    decreases seed,
{
    match seed {
        Seed::Any => Target::Any,
        Seed::Unit => Target::Unit,
        Seed::Identifier => Target::Identifier,
        Seed::Enum(variants) => Target::Enum(declarations(variants@)),
    }
}

/// What each of `variants` declares, place by place.
pub open spec fn declarations(variants: Seq<VariantDecl>) -> Seq<Declared>
    decreases variants,
{
    Seq::new(
        variants.len(),
        |i: int|
            if 0 <= i < variants.len() {
                Declared { name: variants[i].name@, shape: shape_of(variants[i].shape) }
            } else {
                Declared { name: Seq::empty(), shape: Shape::Unit }
            },
    )
}

/// What `shape` says of a payload.
pub open spec fn shape_of(shape: VariantShape) -> Shape
    decreases shape,
{
    match shape {
        VariantShape::Unit => Shape::Unit,
        VariantShape::Newtype(seed) => Shape::Newtype(target_of(seed)),
        VariantShape::Tuple(len) => Shape::Tuple(len as nat),
        VariantShape::Struct(fields) => Shape::Struct(fields@.map_values(|field: String| field@)),
    }
}

/// What `value` holds.
pub open spec fn reading_of(value: Decoded) -> Reading
    decreases value,
{
    match value {
        Decoded::Unit => Reading::Unit,
        Decoded::Identifier(name) => Reading::Identifier(name@),
        Decoded::Value(wire) => Reading::Value(wire_view(wire)),
        Decoded::Variant(name, payload) => Reading::Variant(name@, Box::new(reading_of(*payload))),
    }
}

impl View for Seed {
    type V = Target;

    open spec fn view(&self) -> Target {
        target_of(*self)
    }
}

impl View for VariantDecl {
    type V = Declared;

    open spec fn view(&self) -> Declared {
        Declared { name: self.name@, shape: shape_of(self.shape) }
    }
}

impl View for VariantShape {
    type V = Shape;

    open spec fn view(&self) -> Shape {
        shape_of(*self)
    }
}

impl View for Decoded {
    type V = Reading;

    open spec fn view(&self) -> Reading {
        reading_of(*self)
    }
}

/// `i` is the first place in `variants` that declares `name`.
pub open spec fn declares_first(variants: Seq<Declared>, name: Seq<char>, i: int) -> bool {
    &&& 0 <= i < variants.len()
    &&& variants[i].name == name
    &&& forall|j: int| 0 <= j < i ==> (#[trigger] variants[j]).name != name
}

/// The first place in `variants` that declares `name`, if one does.
pub open spec fn declared(variants: Seq<Declared>, name: Seq<char>) -> Option<int> {
    if exists|i: int| declares_first(variants, name, i) {
        Some(choose|i: int| declares_first(variants, name, i))
    } else {
        None
    }
}

/// At most one place is the first to declare a name.
pub proof fn lemma_declared_is(variants: Seq<Declared>, name: Seq<char>, i: int)
    requires
        declares_first(variants, name, i),
    ensures
        declared(variants, name) == Some(i),
{
    let k = choose|k: int| declares_first(variants, name, k);
    assert(declares_first(variants, name, k));
    if k < i {
        assert(variants[k].name != name);
    }
    if i < k {
        assert(variants[i].name != name);
    }
}

/// Looks `name` up among the declared variants. Where two declare it, the
/// first counts.
pub fn find_variant(variants: &Vec<VariantDecl>, name: &String) -> (found: Option<usize>)
    ensures
        match found {
            Some(i) => declared(declarations(variants@), name@) == Some(i as int),
            None => declared(declarations(variants@), name@) is None,
        },
        found is None <==> forall|j: int|
            0 <= j < variants@.len() ==> (#[trigger] variants@[j]).name@ != name@,
{
    let ghost declared_so_far = declarations(variants@);
    let mut i: usize = 0;
    while i < variants.len()
        invariant
            i <= variants@.len(),
            declared_so_far == declarations(variants@),
            forall|j: int| 0 <= j < i ==> (#[trigger] variants@[j]).name@ != name@,
        decreases variants@.len() - i,
    {
        if variants[i].name == *name {
            proof {
                assert forall|j: int| 0 <= j < i implies (#[trigger] declared_so_far[j]).name
                    != name@ by {
                    assert(variants@[j].name@ != name@);
                }
                lemma_declared_is(declared_so_far, name@, i as int);
            }
            return Some(i);
        }
        i = i + 1;
    }
    proof {
        if exists|k: int| declares_first(declared_so_far, name@, k) {
            let k = choose|k: int| declares_first(declared_so_far, name@, k);
            assert(variants@[k].name@ != name@);
        }
    }
    None
}

} // verus!
