//! What holds of every decode, proved from the model.

use vstd::prelude::*;
use crate::error::Failure;
use crate::seed::{declared, Declared, Reading, Shape, Target};
use crate::session::{bare_payload, named, Session};
use crate::wire::Wire;

verus! {

/// A decode leaves the decoder as deep as it found it, and under the same
/// limit, whether it succeeds or fails: each enum that it enters it also
/// leaves.
pub proof fn lemma_decode_keeps_depth(s: Session, target: Target)
    ensures
        s.decode(target).1.depth == s.depth,
        s.decode(target).1.limit == s.limit,
    decreases s.limit - s.depth, 2int,
{
    match target {
        Target::Enum(variants) => lemma_decode_enum_keeps_depth(s, variants),
        _ => {},
    }
}

/// Reading an enum leaves the decoder as deep as it found it, and under the
/// same limit.
pub proof fn lemma_decode_enum_keeps_depth(s: Session, variants: Seq<Declared>)
    ensures
        s.decode_enum(variants).1.depth == s.depth,
        s.decode_enum(variants).1.limit == s.limit,
    decreases s.limit - s.depth, 1int,
{
    if s.next() is Some && s.next().unwrap().is_single_entry() && s.has_room() {
        lemma_resolve_keyed_keeps_depth(s.open_entry().enter(), variants);
    }
}

/// Reading a variant from a key and its value leaves the decoder as deep as
/// it found it, and under the same limit.
pub proof fn lemma_resolve_keyed_keeps_depth(s: Session, variants: Seq<Declared>)
    ensures
        s.resolve_keyed(variants).1.depth == s.depth,
        s.resolve_keyed(variants).1.limit == s.limit,
    decreases s.limit - s.depth, 4int,
{
    let keyed = s.decode_identifier().1;
    if variants.len() > 0 {
        assert forall|i: int| 0 <= i < variants.len() implies {
            &&& keyed.keyed_payload(#[trigger] variants[i].shape).1.depth == s.depth
            &&& keyed.keyed_payload(variants[i].shape).1.limit == s.limit
        } by {
            lemma_keyed_payload_keeps_depth(keyed, variants[i].shape);
        }
    }
}

/// Reading a payload leaves the decoder as deep as it found it, and under
/// the same limit.
pub proof fn lemma_keyed_payload_keeps_depth(s: Session, shape: Shape)
    ensures
        s.keyed_payload(shape).1.depth == s.depth,
        s.keyed_payload(shape).1.limit == s.limit,
    decreases s.limit - s.depth, 3int,
{
    match shape {
        Shape::Newtype(target) => lemma_decode_keeps_depth(s, target),
        _ => {},
    }
}

/// The state inside `n` more enums.
pub open spec fn entered(s: Session, n: nat) -> Session
    decreases n,
{
    if n == 0 {
        s
    } else {
        entered(s, (n - 1) as nat).enter()
    }
}

/// The state outside the `n` innermost enums.
pub open spec fn left(s: Session, n: nat) -> Session
    decreases n,
{
    if n == 0 {
        s
    } else {
        left(s.leave(), (n - 1) as nat)
    }
}

/// Entering `n` enums adds `n` to the depth and changes nothing else.
pub proof fn lemma_entered(s: Session, n: nat)
    ensures
        entered(s, n) == (Session { depth: s.depth + n, ..s }),
    decreases n,
{
    if n > 0 {
        lemma_entered(s, (n - 1) as nat);
    }
}

/// Where `n` more enums fit under the limit, each of `n` nested entries
/// finds room, and leaving `n` times gives back the state before the first.
/// Where they fit exactly, there is no room for one more.
pub proof fn lemma_guards_nest(s: Session, n: nat)
    requires
        s.depth + n <= s.limit,
    ensures
        forall|k: nat| k < n ==> (#[trigger] entered(s, k)).has_room(),
        left(entered(s, n), n) == s,
        s.depth + n == s.limit ==> !entered(s, n).has_room(),
    decreases n,
{
    lemma_entered(s, n);
    assert forall|k: nat| k < n implies (#[trigger] entered(s, k)).has_room() by {
        lemma_entered(s, k);
    }
    if n > 0 {
        lemma_guards_nest(s, (n - 1) as nat);
        lemma_entered(s, (n - 1) as nat);
        assert(entered(s, n).leave() == entered(s, (n - 1) as nat));
    }
}

/// Of an object of one entry, once it is entered, the name that a keyed
/// access reads is the entry's key, and what it reads after the name is the
/// entry's value. What stood behind the object stands behind the value.
pub proof fn lemma_keyed_name_then_payload(s: Session)
    requires
        s.next() is Some,
        s.next().unwrap().is_single_entry(),
    ensures
        ({
            let entry = s.next().unwrap()->Object_0[0];
            let (name, keyed) = s.open_entry().enter().decode(Target::Identifier);
            &&& name == Ok::<Reading, Failure>(Reading::Identifier(entry.0))
            &&& keyed.next() == Some(entry.1)
            &&& keyed.advance() == s.advance().enter()
        }),
{
    let entry = s.next().unwrap()->Object_0[0];
    let keyed = s.open_entry().enter().advance();
    assert(keyed.pending =~= s.pending.drop_last().push(entry.1));
    assert(keyed.advance().pending =~= s.advance().pending);
}

/// Of a bare string that names a declared variant, an enum decode reads the
/// string and nothing else. It succeeds where the variant was declared a
/// unit, and fails where it was declared with a payload.
pub proof fn lemma_bare_name_only(s: Session, variants: Seq<Declared>, i: int)
    requires
        s.next() is Some,
        s.next().unwrap() is String,
        declared(variants, s.next().unwrap()->String_0) == Some(i),
    ensures
        s.decode_enum(variants) == (
            named(s.next().unwrap()->String_0, bare_payload(variants[i].shape)),
            s.advance(),
        ),
        s.decode_enum(variants).0 is Ok <==> variants[i].shape is Unit,
{
}

/// The one entry of an object of one entry.
pub open spec fn entry_of(value: Wire) -> (Seq<char>, Wire) {
    value->Object_0[0]
}

/// `value` is, `levels` deep, an object of one entry keyed `name` whose
/// value is the next level.
pub open spec fn wraps(value: Wire, name: Seq<char>, levels: nat) -> bool
    decreases levels,
{
    levels > 0 ==> {
        &&& value.is_single_entry()
        &&& entry_of(value).0 == name
        &&& wraps(entry_of(value).1, name, (levels - 1) as nat)
    }
}

/// What stands `levels` deep inside `value`.
pub open spec fn unwrapped(value: Wire, levels: nat) -> Wire
    decreases levels,
{
    if levels == 0 {
        value
    } else {
        unwrapped(entry_of(value).1, (levels - 1) as nat)
    }
}

/// What the variant `name` that `target` declares asks of its payload.
pub open spec fn payload_target(target: Target, name: Seq<char>) -> Target {
    let variants = target->Enum_0;
    variants[declared(variants, name).unwrap()].shape->Newtype_0
}

/// `target` is, `levels` deep, an enum that declares `name` as a newtype of
/// the next level.
pub open spec fn declares_wraps(target: Target, name: Seq<char>, levels: nat) -> bool
    decreases levels,
{
    levels > 0 ==> {
        &&& target is Enum
        &&& declared(target->Enum_0, name) is Some
        &&& target->Enum_0[declared(target->Enum_0, name).unwrap()].shape is Newtype
        &&& declares_wraps(payload_target(target, name), name, (levels - 1) as nat)
    }
}

/// The target that stands `levels` deep inside `target`.
pub open spec fn target_within(target: Target, name: Seq<char>, levels: nat) -> Target
    decreases levels,
{
    if levels == 0 {
        target
    } else {
        target_within(payload_target(target, name), name, (levels - 1) as nat)
    }
}

/// `innermost` under the keys of the `levels` outer levels of `value`.
pub open spec fn wrapped(value: Wire, levels: nat, innermost: Result<Reading, Failure>) -> Result<
    Reading,
    Failure,
>
    decreases levels,
{
    if levels == 0 {
        innermost
    } else {
        named(
            entry_of(value).0,
            wrapped(entry_of(value).1, (levels - 1) as nat, innermost),
        )
    }
}

/// The state `levels` deep inside the value that is read next.
pub open spec fn nested(s: Session, levels: nat) -> Session {
    Session {
        pending: s.pending.drop_last().push(unwrapped(s.pending.last(), levels)),
        depth: s.depth + levels,
        limit: s.limit,
    }
}

/// Nesting within the limit: where the value read next is `levels` enums
/// deep and these fit under the limit, every level is entered and the
/// innermost value is decoded `levels` deeper. The result is what that
/// decode gives, under the keys of the levels around it; the depth is back
/// at what it was.
pub proof fn lemma_nesting_within_limit(s: Session, target: Target, name: Seq<char>, levels: nat)
    requires
        s.next() is Some,
        wraps(s.next().unwrap(), name, levels),
        declares_wraps(target, name, levels),
        s.depth + levels <= s.limit,
    ensures
        ({
            let innermost = nested(s, levels).decode(target_within(target, name, levels));
            s.decode(target) == (
                wrapped(s.next().unwrap(), levels, innermost.0),
                Session { depth: s.depth, ..innermost.1 },
            )
        }),
    decreases levels,
{
    let value = s.pending.last();
    if levels == 0 {
        assert(nested(s, 0).pending =~= s.pending);
        assert(nested(s, 0) == s);
        lemma_decode_keeps_depth(s, target);
    } else {
        let entry = entry_of(value);
        let keyed = s.open_entry().enter().advance();
        let inner = payload_target(target, name);
        let below = (levels - 1) as nat;
        assert(keyed.pending =~= s.pending.drop_last().push(entry.1));
        lemma_nesting_within_limit(keyed, inner, name, below);
        assert(nested(keyed, below).pending =~= nested(s, levels).pending);
        assert(nested(keyed, below) == nested(s, levels));
        assert(s.open_entry().enter().decode_identifier() == (
            Ok::<Reading, Failure>(Reading::Identifier(entry.0)),
            keyed,
        ));
        assert(keyed.keyed_payload(target->Enum_0[declared(target->Enum_0, name).unwrap()].shape)
            == keyed.decode(inner));
    }
}

/// Nesting past the limit: where the value read next is `levels` enums deep
/// and these do not fit under the limit, the decode fails with
/// `DepthExceeded`. It fails at the first level that does not fit, not
/// before and not after: what is left to read is the value of that level,
/// unopened, and the depth is back at what it was.
pub proof fn lemma_nesting_past_limit(s: Session, target: Target, name: Seq<char>, levels: nat)
    requires
        s.next() is Some,
        wraps(s.next().unwrap(), name, levels),
        declares_wraps(target, name, levels),
        s.depth <= s.limit,
        s.depth + levels > s.limit,
    ensures
        s.decode(target) == (
            Err::<Reading, Failure>(Failure::DepthExceeded),
            Session { depth: s.depth, ..nested(s, (s.limit - s.depth) as nat) },
        ),
    decreases levels,
{
    let value = s.pending.last();
    if s.depth == s.limit {
        assert(nested(s, 0).pending =~= s.pending);
    } else {
        let entry = entry_of(value);
        let keyed = s.open_entry().enter().advance();
        let inner = payload_target(target, name);
        let below = (levels - 1) as nat;
        let room = (s.limit - s.depth) as nat;
        assert(keyed.pending =~= s.pending.drop_last().push(entry.1));
        lemma_nesting_past_limit(keyed, inner, name, below);
        assert(unwrapped(value, room) == unwrapped(entry.1, (room - 1) as nat));
        assert(nested(keyed, (room - 1) as nat).pending =~= nested(s, room).pending);
        assert(s.open_entry().enter().decode_identifier() == (
            Ok::<Reading, Failure>(Reading::Identifier(entry.0)),
            keyed,
        ));
        assert(keyed.keyed_payload(target->Enum_0[declared(target->Enum_0, name).unwrap()].shape)
            == keyed.decode(inner));
    }
}

} // verus!
