use bser_variant::{
    Decoded, Deserializer, Error, Seed, VariantDecl, VariantShape, WireValue,
    DEFAULT_RECURSION_LIMIT,
};

fn text(s: &str) -> WireValue {
    WireValue::String(s.to_string())
}

fn keyed(name: &str, payload: WireValue) -> WireValue {
    WireValue::Object(vec![(name.to_string(), payload)])
}

fn declare(name: &str, shape: VariantShape) -> VariantDecl {
    VariantDecl { name: name.to_string(), shape }
}

fn variant(name: &str, payload: Decoded) -> Decoded {
    Decoded::Variant(name.to_string(), Box::new(payload))
}

/// `levels` objects keyed "Wrap" around a null.
fn wrap_value(levels: usize) -> WireValue {
    let mut value = WireValue::Null;
    for _ in 0..levels {
        value = keyed("Wrap", value);
    }
    value
}

/// `levels` enums that declare "Wrap" as a newtype of the next, around a
/// unit seed.
fn wrap_seed(levels: usize) -> Seed {
    let mut seed = Seed::Unit;
    for _ in 0..levels {
        seed = Seed::Enum(vec![declare("Wrap", VariantShape::Newtype(seed))]);
    }
    seed
}

/// Counts the levels of `value` and takes it apart level by level.
fn levels_of(mut value: WireValue) -> usize {
    let mut levels = 0;
    loop {
        match value {
            WireValue::Object(mut entries) if entries.len() == 1 => {
                value = entries.pop().unwrap().1;
                levels += 1;
            }
            _ => return levels,
        }
    }
}

/// Takes `seed` apart level by level.
fn take_apart(mut seed: Seed) {
    loop {
        match seed {
            Seed::Enum(mut variants) if variants.len() == 1 => {
                match variants.pop().unwrap().shape {
                    VariantShape::Newtype(inner) => seed = inner,
                    _ => return,
                }
            }
            _ => return,
        }
    }
}

#[test]
fn keyed_null_is_a_unit_variant() {
    let mut de = Deserializer::new(keyed("Stopped", WireValue::Null));
    let variants = vec![declare("Stopped", VariantShape::Unit)];
    let result = de.deserialize_enum(&variants);
    assert_eq!(result, Ok(variant("Stopped", Decoded::Unit)));
    assert_eq!(de.remaining(), 0);
    assert_eq!(de.depth(), 0);
}

#[test]
fn bare_string_is_a_unit_variant() {
    let mut de = Deserializer::new(text("Stopped"));
    let variants = vec![declare("Stopped", VariantShape::Unit)];
    let result = de.deserialize_enum(&variants);
    assert_eq!(result, Ok(variant("Stopped", Decoded::Unit)));
    assert_eq!(de.remaining(), 0);
    assert_eq!(de.depth(), 0);
}

#[test]
fn bare_string_is_no_newtype_variant() {
    let mut de = Deserializer::new(text("Stopped"));
    let variants = vec![declare("Stopped", VariantShape::Newtype(Seed::Any))];
    let result = de.deserialize_enum(&variants);
    assert_eq!(
        result,
        Err(Error::InvalidType {
            expected: "newtype variant".to_string(),
            message: "invalid type: unit variant, expected newtype variant".to_string(),
        })
    );
    assert_eq!(de.depth(), 0);
}

#[test]
fn keyed_array_is_a_tuple_variant() {
    let payload = WireValue::Array(vec![WireValue::Int(1), WireValue::Int(2)]);
    let mut de = Deserializer::new(keyed("Move", payload));
    let variants = vec![
        declare("Stopped", VariantShape::Unit),
        declare("Move", VariantShape::Tuple(2)),
    ];
    let result = de.deserialize_enum(&variants);
    let expected = Decoded::Value(WireValue::Array(vec![WireValue::Int(1), WireValue::Int(2)]));
    assert_eq!(result, Ok(variant("Move", expected)));
    assert_eq!(de.remaining(), 0);
    assert_eq!(de.depth(), 0);
}

#[test]
fn ten_thousand_levels_fail_at_the_limit() {
    let mut de = Deserializer::new(wrap_value(10_000));
    let seed = wrap_seed(10_000);
    let result = de.deserialize(&seed);
    assert_eq!(result, Err(Error::DepthExceeded));
    assert_eq!(de.depth(), 0);
    assert_eq!(de.remaining(), 1);
    // The levels that fit were entered and no other: what is left is the
    // value of the first level that did not fit.
    match de.deserialize_any() {
        Ok(Decoded::Value(rest)) => {
            assert_eq!(levels_of(rest), 10_000 - DEFAULT_RECURSION_LIMIT)
        }
        other => panic!("unexpected {:?}", other.is_ok()),
    }
    take_apart(seed);
}

#[test]
fn nesting_up_to_the_limit_succeeds() {
    let mut de = Deserializer::new(wrap_value(DEFAULT_RECURSION_LIMIT));
    let seed = wrap_seed(DEFAULT_RECURSION_LIMIT);
    let mut expected = Decoded::Unit;
    for _ in 0..DEFAULT_RECURSION_LIMIT {
        expected = variant("Wrap", expected);
    }
    assert_eq!(de.deserialize(&seed), Ok(expected));
    assert_eq!(de.depth(), 0);
    assert_eq!(de.remaining(), 0);
}

#[test]
fn one_level_past_the_limit_fails() {
    let mut de = Deserializer::new(wrap_value(DEFAULT_RECURSION_LIMIT + 1));
    let seed = wrap_seed(DEFAULT_RECURSION_LIMIT + 1);
    assert_eq!(de.deserialize(&seed), Err(Error::DepthExceeded));
    assert_eq!(de.depth(), 0);
    assert_eq!(de.remaining(), 1);
    assert_eq!(de.deserialize_any(), Ok(Decoded::Value(wrap_value(1))));
}

#[test]
fn a_limit_of_three_admits_three_levels() {
    let mut de = Deserializer::with_limit(wrap_value(3), 3);
    let expected = variant("Wrap", variant("Wrap", variant("Wrap", Decoded::Unit)));
    assert_eq!(de.deserialize(&wrap_seed(3)), Ok(expected));
    assert_eq!(de.depth(), 0);

    let mut de = Deserializer::with_limit(wrap_value(4), 3);
    assert_eq!(de.deserialize(&wrap_seed(4)), Err(Error::DepthExceeded));
    assert_eq!(de.depth(), 0);
    assert_eq!(de.deserialize_any(), Ok(Decoded::Value(wrap_value(1))));
}

#[test]
fn a_limit_of_nought_admits_bare_variants_only() {
    let variants = vec![declare("Stopped", VariantShape::Unit)];
    let mut de = Deserializer::with_limit(text("Stopped"), 0);
    assert_eq!(de.deserialize_enum(&variants), Ok(variant("Stopped", Decoded::Unit)));

    let mut de = Deserializer::with_limit(keyed("Stopped", WireValue::Null), 0);
    assert_eq!(de.deserialize_enum(&variants), Err(Error::DepthExceeded));
    assert_eq!(de.remaining(), 1);
    assert_eq!(
        de.deserialize_any(),
        Ok(Decoded::Value(keyed("Stopped", WireValue::Null)))
    );
}
