use bser_variant::{
    Decoded, Deserializer, Error, Seed, UnitVariantAccess, VariantAccess, WireValue,
};

fn entry(name: &str, payload: WireValue) -> WireValue {
    WireValue::Object(vec![(name.to_string(), payload)])
}

fn invalid_type(kind: &str) -> Error {
    Error::InvalidType {
        expected: kind.to_string(),
        message: format!("invalid type: unit variant, expected {}", kind),
    }
}

#[test]
fn keyed_access_reads_the_key_then_the_value() {
    let mut de = Deserializer::new(entry("Move", WireValue::Int(7)));
    let guard = de.begin_enum().unwrap().unwrap();
    assert_eq!(de.remaining(), 2);
    let access = VariantAccess::new(&mut de, &guard);
    let (name, access) = access.variant_seed(&Seed::Identifier).unwrap();
    assert_eq!(name, Decoded::Identifier("Move".to_string()));
    assert_eq!(access.de.remaining(), 1);
    let payload = access.newtype_variant_seed(&Seed::Any);
    assert_eq!(payload, Ok(Decoded::Value(WireValue::Int(7))));
    assert_eq!(de.remaining(), 0);
    assert_eq!(guard.depth(), de.depth());
    de.release(guard);
    assert_eq!(de.depth(), 0);
}

#[test]
fn keyed_access_reads_a_null_as_unit() {
    let mut de = Deserializer::new(entry("Stopped", WireValue::Null));
    let guard = de.begin_enum().unwrap().unwrap();
    let access = VariantAccess::new(&mut de, &guard);
    let (_, access) = access.variant_seed(&Seed::Identifier).unwrap();
    assert_eq!(access.unit_variant(), Ok(()));
    assert_eq!(de.remaining(), 0);
    de.release(guard);
}

#[test]
fn keyed_access_refuses_a_unit_that_is_not_null() {
    let mut de = Deserializer::new(entry("Stopped", WireValue::Bool(true)));
    let guard = de.begin_enum().unwrap().unwrap();
    let access = VariantAccess::new(&mut de, &guard);
    let (_, access) = access.variant_seed(&Seed::Identifier).unwrap();
    assert_eq!(access.unit_variant(), Err(Error::InvalidWireShape));
    assert_eq!(de.remaining(), 1);
    de.release(guard);
    assert_eq!(de.depth(), 0);
}

#[test]
fn keyed_access_holds_no_tuple_to_its_length() {
    let payload = WireValue::Array(vec![WireValue::Int(1)]);
    let mut de = Deserializer::new(entry("Move", payload));
    let guard = de.begin_enum().unwrap().unwrap();
    let access = VariantAccess::new(&mut de, &guard);
    let (_, access) = access.variant_seed(&Seed::Identifier).unwrap();
    assert_eq!(
        access.tuple_variant(2),
        Ok(Decoded::Value(WireValue::Array(vec![WireValue::Int(1)])))
    );
    de.release(guard);
}

#[test]
fn keyed_access_holds_no_struct_to_its_fields() {
    let payload = WireValue::Object(vec![
        ("x".to_string(), WireValue::Int(1)),
        ("y".to_string(), WireValue::Double(0x3ff0_0000_0000_0000)),
    ]);
    let mut de = Deserializer::new(entry("At", payload));
    let guard = de.begin_enum().unwrap().unwrap();
    let access = VariantAccess::new(&mut de, &guard);
    let (name, access) = access.variant_seed(&Seed::Identifier).unwrap();
    assert_eq!(name, Decoded::Identifier("At".to_string()));
    let fields = vec!["a".to_string(), "b".to_string(), "c".to_string()];
    let expected = WireValue::Object(vec![
        ("x".to_string(), WireValue::Int(1)),
        ("y".to_string(), WireValue::Double(0x3ff0_0000_0000_0000)),
    ]);
    assert_eq!(access.struct_variant(&fields), Ok(Decoded::Value(expected)));
    de.release(guard);
}

#[test]
fn keyed_access_refuses_a_key_that_is_no_string() {
    let mut de = Deserializer::new(WireValue::Int(3));
    let guard = de.acquire().unwrap();
    let access = VariantAccess::new(&mut de, &guard);
    assert!(matches!(
        access.variant_seed(&Seed::Identifier),
        Err(Error::InvalidWireShape)
    ));
    assert_eq!(de.remaining(), 1);
    de.release(guard);
}

#[test]
fn bare_access_reads_the_scalar_as_the_name() {
    let mut de = Deserializer::new(WireValue::String("Stopped".to_string()));
    assert!(matches!(de.begin_enum(), Ok(None)));
    let access = UnitVariantAccess::new(&mut de);
    let (name, access) = access.variant_seed(&Seed::Identifier).unwrap();
    assert_eq!(name, Decoded::Identifier("Stopped".to_string()));
    assert_eq!(access.unit_variant(), Ok(()));
    assert_eq!(de.remaining(), 0);
}

#[test]
fn bare_access_refuses_a_scalar_that_is_no_string() {
    let mut de = Deserializer::new(WireValue::Int(3));
    let access = UnitVariantAccess::new(&mut de);
    assert!(matches!(
        access.variant_seed(&Seed::Identifier),
        Err(Error::InvalidWireShape)
    ));
    assert_eq!(de.remaining(), 1);
}

#[test]
fn bare_access_has_a_unit_payload_for_every_scalar() {
    let scalars = vec![
        WireValue::Null,
        WireValue::Bool(false),
        WireValue::Int(-4),
        WireValue::Double(0),
        WireValue::String("Stopped".to_string()),
    ];
    for scalar in scalars {
        assert!(scalar.scalar());
        let mut de = Deserializer::new(scalar);
        assert_eq!(UnitVariantAccess::new(&mut de).unit_variant(), Ok(()));
        assert_eq!(de.remaining(), 1);
    }
}

#[test]
fn bare_access_has_no_newtype_payload() {
    let mut de = Deserializer::new(WireValue::String("Stopped".to_string()));
    let access = UnitVariantAccess::new(&mut de);
    assert_eq!(
        access.newtype_variant_seed(&Seed::Any),
        Err(invalid_type("newtype variant"))
    );
    assert_eq!(de.remaining(), 1);
    assert_eq!(de.depth(), 0);
}

#[test]
fn bare_access_has_no_tuple_payload() {
    let mut de = Deserializer::new(WireValue::String("Stopped".to_string()));
    let access = UnitVariantAccess::new(&mut de);
    assert_eq!(access.tuple_variant(2), Err(invalid_type("tuple variant")));
    assert_eq!(de.remaining(), 1);
    assert_eq!(de.depth(), 0);
}

#[test]
fn bare_access_has_no_struct_payload() {
    let mut de = Deserializer::new(WireValue::String("Stopped".to_string()));
    let access = UnitVariantAccess::new(&mut de);
    let fields = vec!["x".to_string()];
    assert_eq!(
        access.struct_variant(&fields),
        Err(invalid_type("struct variant"))
    );
    assert_eq!(de.remaining(), 1);
    assert_eq!(de.depth(), 0);
}

#[test]
fn a_failed_payload_leaves_the_value_to_be_read() {
    let mut de = Deserializer::new(WireValue::String("Stopped".to_string()));
    let access = UnitVariantAccess::new(&mut de);
    assert!(access.newtype_variant_seed(&Seed::Unit).is_err());
    assert_eq!(
        de.deserialize_any(),
        Ok(Decoded::Value(WireValue::String("Stopped".to_string())))
    );
}
