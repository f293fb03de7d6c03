//! The two ways to read a variant: with a key, or bare.

use vstd::prelude::*;
use crate::de::{outcome, Deserializer};
use crate::error::{unit_variant_mismatch, Error, Failure};
use crate::reentrant::ReentrantGuard;
use crate::session::bare_payload;
use crate::seed::{declarations, find_variant, Decoded, Reading, Seed, VariantDecl, VariantShape};

verus! {

/// The result of reading a unit payload, as a decode's result.
pub open spec fn unit_outcome(result: Result<(), Error>) -> Result<Reading, Failure> {
    match result {
        Ok(_) => Ok(Reading::Unit),
        Err(error) => Err(error@),
    }
}

/// Access to a variant that was written as an object of one entry. The
/// decoder stands before the key; the payload follows it.
///
/// Each operation takes the access by value, so that a name is read once
/// and a payload once. Only [`VariantAccess::new`] makes one.
#[non_exhaustive]
pub struct VariantAccess<'a> {
    pub de: &'a mut Deserializer,
}

impl<'a> VariantAccess<'a> {
    /// Access to the entry that `de` stands before. `_guard` shows that the
    /// caller has accounted for the level of nesting that the entry adds: it
    /// stands for a level that `de` is inside of.
    pub fn new(de: &'a mut Deserializer, _guard: &ReentrantGuard) -> (access: Self)
        requires
            _guard.level() <= old(de)@.depth,
        ensures
            *access.de == *old(de),
            *final(de) == *final(access.de),
    {
        VariantAccess { de }
    }

    /// Reads the key as `seed` asks, and hands the access back for the
    /// payload.
    pub fn variant_seed(self, seed: &Seed) -> (result: Result<(Decoded, Self), Error>)
        ensures
            match result {
                Ok((name, next)) => {
                    &&& old(self.de)@.decode(seed@) == (Ok::<Reading, Failure>(name@), next.de@)
                    &&& *final(self.de) == *final(next.de)
                },
                Err(error) => old(self.de)@.decode(seed@) == (
                    Err::<Reading, Failure>(error@),
                    final(self.de)@,
                ),
            },
        decreases old(self.de)@.limit - old(self.de)@.depth, seed@.reentry(), 3int,
    {
        match self.de.deserialize(seed) {
            Ok(name) => Ok((name, self)),
            Err(error) => Err(error),
        }
    }

    /// Reads the payload of a unit variant: a null.
    pub fn unit_variant(self) -> (result: Result<(), Error>)
        ensures
            (unit_outcome(result), final(self.de)@) == old(self.de)@.decode_unit(),
        decreases old(self.de)@.limit - old(self.de)@.depth, 0int, 3int,
    {
        match self.de.deserialize(&Seed::Unit) {
            Ok(_) => Ok(()),
            Err(error) => Err(error),
        }
    }

    /// Reads the payload of a newtype variant as `seed` asks.
    pub fn newtype_variant_seed(self, seed: &Seed) -> (result: Result<Decoded, Error>)
        ensures
            (outcome(result), final(self.de)@) == old(self.de)@.decode(seed@),
        decreases old(self.de)@.limit - old(self.de)@.depth, seed@.reentry(), 3int,
    {
        self.de.deserialize(seed)
    }

    /// Reads the payload of a tuple variant as whatever stands there. `_len`
    /// is not held against it.
    pub fn tuple_variant(self, _len: usize) -> (result: Result<Decoded, Error>)
        ensures
            (outcome(result), final(self.de)@) == old(self.de)@.decode_any(),
    {
        self.de.deserialize_any()
    }

    /// Reads the payload of a struct variant as whatever stands there.
    /// `_fields` is not held against it.
    pub fn struct_variant(self, _fields: &Vec<String>) -> (result: Result<Decoded, Error>)
        ensures
            (outcome(result), final(self.de)@) == old(self.de)@.decode_any(),
    {
        self.de.deserialize_any()
    }

    /// Reads the key as the name of one of `variants`, then the payload in
    /// the shape that this variant declares.
    pub fn resolve(self, variants: &Vec<VariantDecl>) -> (result: Result<Decoded, Error>)
        ensures
            (outcome(result), final(self.de)@) == old(self.de)@.resolve_keyed(declarations(variants@)),
        decreases old(self.de)@.limit - old(self.de)@.depth, 2int, 0int,
    {
        let (name, access) = match self.variant_seed(&Seed::Identifier) {
            Ok((Decoded::Identifier(name), access)) => (name, access),
            Ok(_) => {
                return Err(Error::InvalidWireShape);
            },
            Err(error) => {
                return Err(error);
            },
        };
        let i = match find_variant(variants, &name) {
            Some(i) => i,
            None => {
                return Err(Error::InvalidWireShape);
            },
        };
        let ghost keyed = access.de@;
        let payload = match &variants[i].shape {
            VariantShape::Unit => match access.unit_variant() {
                Ok(_) => Ok(Decoded::Unit),
                Err(error) => Err(error),
            },
            VariantShape::Newtype(seed) => access.newtype_variant_seed(seed),
            VariantShape::Tuple(len) => access.tuple_variant(*len),
            VariantShape::Struct(fields) => access.struct_variant(fields),
        };
        assert(outcome(payload) == keyed.keyed_payload(variants@[i as int].shape@).0);
        match payload {
            Ok(value) => Ok(Decoded::Variant(name, Box::new(value))),
            Err(error) => Err(error),
        }
    }
}

/// Access to a variant that was written as a bare scalar. The decoder stands
/// before the scalar, which is the variant's name; no payload follows.
///
/// Each operation takes the access by value, so that a name is read once
/// and a payload once. Only [`UnitVariantAccess::new`] makes one.
#[non_exhaustive]
pub struct UnitVariantAccess<'a> {
    pub de: &'a mut Deserializer,
}

impl<'a> UnitVariantAccess<'a> {
    /// Access to the scalar that `de` stands before.
    pub fn new(de: &'a mut Deserializer) -> (access: Self)
        ensures
            *access.de == *old(de),
            *final(de) == *final(access.de),
    {
        UnitVariantAccess { de }
    }

    /// Reads the scalar as `seed` asks, and hands the access back for the
    /// payload.
    pub fn variant_seed(self, seed: &Seed) -> (result: Result<(Decoded, Self), Error>)
        ensures
            match result {
                Ok((name, next)) => {
                    &&& old(self.de)@.decode(seed@) == (Ok::<Reading, Failure>(name@), next.de@)
                    &&& *final(self.de) == *final(next.de)
                },
                Err(error) => old(self.de)@.decode(seed@) == (
                    Err::<Reading, Failure>(error@),
                    final(self.de)@,
                ),
            },
        decreases old(self.de)@.limit - old(self.de)@.depth, seed@.reentry(), 3int,
    {
        match self.de.deserialize(seed) {
            Ok(name) => Ok((name, self)),
            Err(error) => Err(error),
        }
    }

    /// The payload of a unit variant: there is none to read.
    pub fn unit_variant(self) -> (result: Result<(), Error>)
        ensures
            result is Ok,
            *final(self.de) == *old(self.de),
    {
        Ok(())
    }

    /// A bare scalar has no newtype payload: fails, and reads nothing.
    pub fn newtype_variant_seed(self, _seed: &Seed) -> (result: Result<Decoded, Error>)
        ensures
            outcome(result) == Err::<Reading, Failure>(unit_variant_mismatch("newtype variant"@)),
            *final(self.de) == *old(self.de),
    {
        Err(Error::invalid_type("newtype variant"))
    }

    /// A bare scalar has no tuple payload: fails, and reads nothing.
    pub fn tuple_variant(self, _len: usize) -> (result: Result<Decoded, Error>)
        ensures
            outcome(result) == Err::<Reading, Failure>(unit_variant_mismatch("tuple variant"@)),
            *final(self.de) == *old(self.de),
    {
        Err(Error::invalid_type("tuple variant"))
    }

    /// A bare scalar has no struct payload: fails, and reads nothing.
    pub fn struct_variant(self, _fields: &Vec<String>) -> (result: Result<Decoded, Error>)
        ensures
            outcome(result) == Err::<Reading, Failure>(unit_variant_mismatch("struct variant"@)),
            *final(self.de) == *old(self.de),
    {
        Err(Error::invalid_type("struct variant"))
    }

    /// Reads the scalar as the name of one of `variants`, then the payload
    /// in the shape that this variant declares.
    pub fn resolve(self, variants: &Vec<VariantDecl>) -> (result: Result<Decoded, Error>)
        ensures
            (outcome(result), final(self.de)@) == old(self.de)@.resolve_bare(declarations(variants@)),
        decreases old(self.de)@.limit - old(self.de)@.depth, 1int, 0int,
    {
        let (name, access) = match self.variant_seed(&Seed::Identifier) {
            Ok((Decoded::Identifier(name), access)) => (name, access),
            Ok(_) => {
                return Err(Error::InvalidWireShape);
            },
            Err(error) => {
                return Err(error);
            },
        };
        let i = match find_variant(variants, &name) {
            Some(i) => i,
            None => {
                return Err(Error::InvalidWireShape);
            },
        };
        let ghost keyed = access.de@;
        let payload = match &variants[i].shape {
            VariantShape::Unit => match access.unit_variant() {
                Ok(_) => Ok(Decoded::Unit),
                Err(error) => Err(error),
            },
            VariantShape::Newtype(seed) => access.newtype_variant_seed(seed),
            VariantShape::Tuple(len) => access.tuple_variant(*len),
            VariantShape::Struct(fields) => access.struct_variant(fields),
        };
        assert(outcome(payload) == bare_payload(variants@[i as int].shape@));
        match payload {
            Ok(value) => Ok(Decoded::Variant(name, Box::new(value))),
            Err(error) => Err(error),
        }
    }
}

} // verus!
