//! The decoder: wire values in, seeded values out.

use vstd::prelude::*;
use crate::error::{Error, Failure};
use crate::laws::{
    lemma_decode_enum_keeps_depth, lemma_decode_keeps_depth, lemma_resolve_keyed_keeps_depth,
};
use crate::reentrant::ReentrantGuard;
use crate::seed::{declarations, Decoded, Reading, Seed, VariantDecl};
use crate::session::Session;
use crate::variant::{UnitVariantAccess, VariantAccess};
use crate::wire::{lemma_views_drop_last, lemma_views_push, wire_views, WireValue};

verus! {

/// How deep enums may nest where the caller names no limit.
pub const DEFAULT_RECURSION_LIMIT: usize = 128;

/// Reads wire values, one after the other, and keeps count of the enums it
/// is inside of.
pub struct Deserializer {
    pending: Vec<WireValue>,
    depth: usize,
    limit: usize,
}

impl View for Deserializer {
    type V = Session;

    closed spec fn view(&self) -> Session {
        Session {
            pending: wire_views(self.pending@),
            depth: self.depth as nat,
            limit: self.limit as nat,
        }
    }
}

/// A result with its error as a [`Failure`].
pub open spec fn outcome(result: Result<Decoded, Error>) -> Result<Reading, Failure> {
    match result {
        Ok(value) => Ok(value@),
        Err(error) => Err(error@),
    }
}

impl Deserializer {
    /// A decoder that reads `value`, outside any enum, and lets enums nest
    /// [`DEFAULT_RECURSION_LIMIT`] deep.
    pub fn new(value: WireValue) -> (de: Self)
        ensures
            de@ == (Session {
                pending: seq![value@],
                depth: 0,
                limit: DEFAULT_RECURSION_LIMIT as nat,
            }),
    {
        Deserializer::with_limit(value, DEFAULT_RECURSION_LIMIT)
    }

    /// A decoder that reads `value`, outside any enum, and lets enums nest
    /// `limit` deep.
    pub fn with_limit(value: WireValue, limit: usize) -> (de: Self)
        ensures
            de@ == (Session { pending: seq![value@], depth: 0, limit: limit as nat }),
    {
        let mut pending: Vec<WireValue> = Vec::new();
        pending.push(value);
        proof {
            assert(wire_views(pending@) =~= seq![value@]);
        }
        Deserializer { pending, depth: 0, limit }
    }

    /// How many enums the decoder is inside of.
    pub fn depth(&self) -> (depth: usize)
        ensures
            depth == self@.depth,
    {
        self.depth
    }

    /// How many enums it may be inside of at most.
    pub fn limit(&self) -> (limit: usize)
        ensures
            limit == self@.limit,
    {
        self.limit
    }

    /// How many wire values are still to be read.
    pub fn remaining(&self) -> (count: usize)
        ensures
            count == self@.pending.len(),
    {
        self.pending.len()
    }

    /// Enters one more enum, if the limit allows. Where it does not, the
    /// decoder is left as it was.
    pub fn acquire(&mut self) -> (result: Result<ReentrantGuard, Error>)
        ensures
            match result {
                Ok(guard) => {
                    &&& old(self)@.has_room()
                    &&& final(self)@ == old(self)@.enter()
                    &&& guard.level() == final(self)@.depth
                },
                Err(error) => {
                    &&& !old(self)@.has_room()
                    &&& error == Error::DepthExceeded
                    &&& *final(self) == *old(self)
                },
            },
    {
        if self.depth < self.limit {
            self.depth = self.depth + 1;
            Ok(ReentrantGuard::at(self.depth))
        } else {
            Err(Error::DepthExceeded)
        }
    }

    /// Leaves the innermost enum. `guard` is the one that was handed out on
    /// entering it.
    pub fn release(&mut self, guard: ReentrantGuard)
        requires
            guard.level() == old(self)@.depth,
        ensures
            final(self)@ == old(self)@.leave(),
    {
        let level = guard.depth();
        self.depth = level - 1;
    }

    /// Reads the next wire value as it stands.
    pub fn deserialize_any(&mut self) -> (result: Result<Decoded, Error>)
        ensures
            (outcome(result), final(self)@) == old(self)@.decode_any(),
    {
        proof {
            if self.pending@.len() > 0 {
                lemma_views_drop_last(self.pending@);
            }
        }
        match self.pending.pop() {
            Some(value) => Ok(Decoded::Value(value)),
            None => Err(Error::InvalidWireShape),
        }
    }

    /// Reads a null.
    fn deserialize_unit(&mut self) -> (result: Result<Decoded, Error>)
        ensures
            (outcome(result), final(self)@) == old(self)@.decode_unit(),
    {
        proof {
            if self.pending@.len() > 0 {
                lemma_views_drop_last(self.pending@);
            }
        }
        match self.pending.pop() {
            Some(WireValue::Null) => Ok(Decoded::Unit),
            Some(other) => {
                self.pending.push(other);
                proof {
                    assert(self.pending@ =~= old(self).pending@);
                }
                Err(Error::InvalidWireShape)
            },
            None => Err(Error::InvalidWireShape),
        }
    }

    /// Reads a string as a variant's name.
    fn deserialize_identifier(&mut self) -> (result: Result<Decoded, Error>)
        ensures
            (outcome(result), final(self)@) == old(self)@.decode_identifier(),
    {
        proof {
            if self.pending@.len() > 0 {
                lemma_views_drop_last(self.pending@);
            }
        }
        match self.pending.pop() {
            Some(WireValue::String(name)) => Ok(Decoded::Identifier(name)),
            Some(other) => {
                self.pending.push(other);
                proof {
                    assert(self.pending@ =~= old(self).pending@);
                }
                Err(Error::InvalidWireShape)
            },
            None => Err(Error::InvalidWireShape),
        }
    }

    /// Puts the one entry of the object that is next in its place: the key
    /// to be read first, the value after it.
    fn open_entry(&mut self)
        requires
            old(self)@.next() is Some,
            old(self)@.next().unwrap().is_single_entry(),
        ensures
            final(self)@ == old(self)@.open_entry(),
    {
        proof {
            lemma_views_drop_last(self.pending@);
        }
        if let Some(WireValue::Object(mut entries)) = self.pending.pop() {
            if let Some((key, value)) = entries.pop() {
                proof {
                    lemma_views_push(self.pending@, value);
                    lemma_views_push(self.pending@.push(value), WireValue::String(key));
                }
                self.pending.push(value);
                self.pending.push(WireValue::String(key));
            }
        }
    }

    /// Looks at the wire value that is next and tells how the variant was
    /// written. An object of one entry is a variant with its key: the
    /// decoder enters it, one level deeper, stands before the key, and hands
    /// out the guard for that level. A scalar is a bare variant: no guard,
    /// and nothing changes. Anything else is no variant. Where this fails,
    /// the decoder is left as it was.
    pub fn begin_enum(&mut self) -> (result: Result<Option<ReentrantGuard>, Error>)
        ensures
            match result {
                Ok(Some(guard)) => {
                    &&& old(self)@.next() is Some
                    &&& old(self)@.next().unwrap().is_single_entry()
                    &&& old(self)@.has_room()
                    &&& final(self)@ == old(self)@.open_entry().enter()
                    &&& guard.level() == final(self)@.depth
                },
                Ok(None) => {
                    &&& old(self)@.next() is Some
                    &&& old(self)@.next().unwrap().is_scalar()
                    &&& *final(self) == *old(self)
                },
                Err(error) => {
                    &&& *final(self) == *old(self)
                    &&& error == Error::DepthExceeded || error == Error::InvalidWireShape
                    &&& error == Error::DepthExceeded <==> {
                        &&& old(self)@.next() is Some
                        &&& old(self)@.next().unwrap().is_single_entry()
                        &&& !old(self)@.has_room()
                    }
                    &&& error == Error::InvalidWireShape <==> {
                        ||| old(self)@.next() is None
                        ||| {
                            &&& !old(self)@.next().unwrap().is_single_entry()
                            &&& !old(self)@.next().unwrap().is_scalar()
                        }
                    }
                },
            },
    {
        let count = self.pending.len();
        if count == 0 {
            return Err(Error::InvalidWireShape);
        }
        proof {
            lemma_views_drop_last(self.pending@);
        }
        if self.pending[count - 1].single_entry() {
            let guard = match self.acquire() {
                Ok(guard) => guard,
                Err(error) => {
                    return Err(error);
                },
            };
            self.open_entry();
            Ok(Some(guard))
        } else if self.pending[count - 1].scalar() {
            Ok(None)
        } else {
            Err(Error::InvalidWireShape)
        }
    }

    /// Reads the next wire value as `seed` asks.
    pub fn deserialize(&mut self, seed: &Seed) -> (result: Result<Decoded, Error>)
        ensures
            (outcome(result), final(self)@) == old(self)@.decode(seed@),
            final(self)@.depth == old(self)@.depth,
            final(self)@.limit == old(self)@.limit,
        decreases old(self)@.limit - old(self)@.depth, seed@.reentry(), 2int,
    {
        proof {
            lemma_decode_keeps_depth(old(self)@, seed@);
        }
        match seed {
            Seed::Any => self.deserialize_any(),
            Seed::Unit => self.deserialize_unit(),
            Seed::Identifier => self.deserialize_identifier(),
            Seed::Enum(variants) => self.deserialize_enum(variants),
        }
    }

    /// Reads one of `variants`: from an object of one entry, one level
    /// deeper, or from a bare scalar.
    pub fn deserialize_enum(&mut self, variants: &Vec<VariantDecl>) -> (result: Result<
        Decoded,
        Error,
    >)
        ensures
            (outcome(result), final(self)@) == old(self)@.decode_enum(declarations(variants@)),
            final(self)@.depth == old(self)@.depth,
            final(self)@.limit == old(self)@.limit,
        decreases old(self)@.limit - old(self)@.depth, 1int, 1int,
    {
        proof {
            lemma_decode_enum_keeps_depth(old(self)@, declarations(variants@));
        }
        match self.begin_enum() {
            Ok(Some(guard)) => {
                let access = VariantAccess::new(self, &guard);
                let result = access.resolve(variants);
                proof {
                    lemma_resolve_keyed_keeps_depth(
                        old(self)@.open_entry().enter(),
                        declarations(variants@),
                    );
                }
                self.release(guard);
                result
            },
            Ok(None) => {
                let access = UnitVariantAccess::new(self);
                access.resolve(variants)
            },
            Err(error) => Err(error),
        }
    }
}

} // verus!
