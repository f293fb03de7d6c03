//! What a decoder holds, and what each decode makes of it: the model that
//! the contracts of this crate are stated over.

use vstd::prelude::*;
use crate::error::{unit_variant_mismatch, Failure};
use crate::seed::{declared, Declared, Reading, Shape, Target};
use crate::wire::Wire;

verus! {

/// The state of a decoder.
pub struct Session {
    /// The wire values still to be read. The last one is read next.
    pub pending: Seq<Wire>,
    /// How many enums the decoder is inside of.
    pub depth: nat,
    /// How many enums it may be inside of at most.
    pub limit: nat,
}

/// A decode's result and the state it leaves, also where it fails.
pub type Step = (Result<Reading, Failure>, Session);

/// The payload of a variant that was written as a bare scalar: nothing for a
/// unit variant, a failure that names what was asked for any other.
pub open spec fn bare_payload(shape: Shape) -> Result<Reading, Failure> {
    match shape {
        Shape::Unit => Ok(Reading::Unit),
        Shape::Newtype(_) => Err(unit_variant_mismatch("newtype variant"@)),
        Shape::Tuple(_) => Err(unit_variant_mismatch("tuple variant"@)),
        Shape::Struct(_) => Err(unit_variant_mismatch("struct variant"@)),
    }
}

/// A payload under the name of its variant.
pub open spec fn named(name: Seq<char>, payload: Result<Reading, Failure>) -> Result<
    Reading,
    Failure,
> {
    match payload {
        Ok(value) => Ok(Reading::Variant(name, Box::new(value))),
        Err(failure) => Err(failure),
    }
}

impl Session {
    /// The wire value that is read next.
    pub open spec fn next(self) -> Option<Wire> {
        if self.pending.len() > 0 {
            Some(self.pending.last())
        } else {
            None
        }
    }

    /// The state once the next wire value has been read.
    pub open spec fn advance(self) -> Session {
        Session { pending: self.pending.drop_last(), ..self }
    }

    /// One more enum may be entered.
    pub open spec fn has_room(self) -> bool {
        self.depth < self.limit
    }

    /// The state inside one more enum.
    pub open spec fn enter(self) -> Session {
        Session { depth: self.depth + 1, ..self }
    }

    /// The state outside the innermost enum.
    pub open spec fn leave(self) -> Session {
        Session { depth: (self.depth - 1) as nat, ..self }
    }

    /// The state once the object that is next has been opened: its one entry
    /// takes its place, the key to be read first and the value after it.
    pub open spec fn open_entry(self) -> Session
        recommends
            self.next() is Some,
            self.next().unwrap().is_single_entry(),
    {
        let entry = self.pending.last()->Object_0[0];
        Session {
            pending: self.pending.drop_last().push(entry.1).push(Wire::String(entry.0)),
            ..self
        }
    }

    /// Reads the next wire value as it stands.
    pub open spec fn decode_any(self) -> Step {
        match self.next() {
            Some(value) => (Ok(Reading::Value(value)), self.advance()),
            None => (Err(Failure::InvalidWireShape), self),
        }
    }

    /// Reads a null. Anything else is refused and stays unread.
    pub open spec fn decode_unit(self) -> Step {
        match self.next() {
            Some(Wire::Null) => (Ok(Reading::Unit), self.advance()),
            _ => (Err(Failure::InvalidWireShape), self),
        }
    }

    /// Reads a string as a variant's name. Anything else is refused and
    /// stays unread.
    pub open spec fn decode_identifier(self) -> Step {
        match self.next() {
            Some(Wire::String(name)) => (Ok(Reading::Identifier(name)), self.advance()),
            _ => (Err(Failure::InvalidWireShape), self),
        }
    }

    /// Reads the next wire value as `target` asks.
    pub open spec fn decode(self, target: Target) -> Step
        decreases self.limit - self.depth, 2int,
    {
        match target {
            Target::Any => self.decode_any(),
            Target::Unit => self.decode_unit(),
            Target::Identifier => self.decode_identifier(),
            Target::Enum(variants) => self.decode_enum(variants),
        }
    }

    /// Reads one of `variants`. An object of one entry is a variant with its
    /// payload, and is read one level deeper; a scalar is a variant without
    /// one. The depth is the same after as before, whatever the result.
    pub open spec fn decode_enum(self, variants: Seq<Declared>) -> Step
        decreases self.limit - self.depth, 1int,
    {
        match self.next() {
            None => (Err(Failure::InvalidWireShape), self),
            Some(value) => if value.is_single_entry() {
                if self.has_room() {
                    let (result, after) = self.open_entry().enter().resolve_keyed(variants);
                    (result, after.leave())
                } else {
                    (Err(Failure::DepthExceeded), self)
                }
            } else if value.is_scalar() {
                self.resolve_bare(variants)
            } else {
                (Err(Failure::InvalidWireShape), self)
            },
        }
    }

    /// Reads a key as the name of one of `variants`, then the value after it
    /// as that variant's payload.
    pub open spec fn resolve_keyed(self, variants: Seq<Declared>) -> Step
        decreases self.limit - self.depth, 4int,
    {
        match self.decode_identifier() {
            (Ok(Reading::Identifier(name)), keyed) => match declared(variants, name) {
                Some(i) => {
                    let (payload, after) = keyed.keyed_payload(variants[i].shape);
                    (named(name, payload), after)
                },
                None => (Err(Failure::InvalidWireShape), keyed),
            },
            (Ok(_), after) => (Err(Failure::InvalidWireShape), after),
            (Err(failure), after) => (Err(failure), after),
        }
    }

    /// Reads the payload of a variant that came with a key. Only a unit and
    /// a newtype payload are held to what was declared; a tuple and a struct
    /// are read as whatever stands there.
    pub open spec fn keyed_payload(self, shape: Shape) -> Step
        decreases self.limit - self.depth, 3int,
    {
        match shape {
            Shape::Unit => self.decode_unit(),
            Shape::Newtype(target) => self.decode(target),
            Shape::Tuple(_) => self.decode_any(),
            Shape::Struct(_) => self.decode_any(),
        }
    }

    /// Reads a scalar as the name of one of `variants`. Nothing follows it,
    /// so only a unit variant can be had.
    pub open spec fn resolve_bare(self, variants: Seq<Declared>) -> Step {
        match self.decode_identifier() {
            (Ok(Reading::Identifier(name)), bare) => match declared(variants, name) {
                Some(i) => (named(name, bare_payload(variants[i].shape)), bare),
                None => (Err(Failure::InvalidWireShape), bare),
            },
            (Ok(_), after) => (Err(Failure::InvalidWireShape), after),
            (Err(failure), after) => (Err(failure), after),
        }
    }
}

} // verus!
