// Each case drives the serializer through the calls that serde's derived
// `Serialize` makes for the value named in the comment, and checks the error
// that the value's serialization ends in.

use bgp_serde::{Serializer, SerializerError};

fn expect_err(r: Result<(), SerializerError>) -> SerializerError {
    match r {
        Ok(_) => panic!("Expected Err, got Ok"),
        Err(e) => e,
    }
}

#[test]
fn test_err_enum_hash() {
    // EnumHashTest::NewTypeVariant(HashMap::new())
    let mut s = Serializer::new();
    s.serialize_newtype_variant("EnumHashTest", 0, "NewTypeVariant").unwrap();
    let e = expect_err(s.serialize_map(Some(0)));
    assert_eq!(e.to_string(), "Serialization of maps unsupported. Error info - Type: \"EnumHashTest\", Variant: \"NewTypeVariant\".");

    // EnumHashTest::StructVariant { field: HashMap::new() }
    let mut s = Serializer::new();
    s.serialize_struct_variant("EnumHashTest", 1, "StructVariant", 1).unwrap();
    s.serialize_field("field").unwrap();
    let e = expect_err(s.serialize_map(Some(0)));
    assert_eq!(e.to_string(), "Serialization of maps unsupported. Error info - Type: \"EnumHashTest\", Variant: \"StructVariant\", Field: \"field\".");

    // EnumHashTest::TupleVariant(42, HashMap::new())
    let mut s = Serializer::new();
    s.serialize_tuple_variant("EnumHashTest", 2, "TupleVariant", 2).unwrap();
    s.serialize_u8(42).unwrap();
    let e = expect_err(s.serialize_map(Some(0)));
    assert_eq!(e.to_string(), "Serialization of maps unsupported. Error info - Type: \"EnumHashTest\", Variant: \"TupleVariant\".");
}

#[test]
fn test_err_enum_float() {
    // EnumFloatTest::NewTypeVariant(0.0)
    let mut s = Serializer::new();
    s.serialize_newtype_variant("EnumFloatTest", 0, "NewTypeVariant").unwrap();
    let e = expect_err(s.serialize_f32());
    assert_eq!(e.to_string(), "Serialization of floats unsupported. Error info - Type: \"EnumFloatTest\", Variant: \"NewTypeVariant\".");

    // EnumFloatTest::StructVariant { field: 6.023e23 }
    let mut s = Serializer::new();
    s.serialize_struct_variant("EnumFloatTest", 1, "StructVariant", 1).unwrap();
    s.serialize_field("field").unwrap();
    let e = expect_err(s.serialize_f64());
    assert_eq!(e.to_string(), "Serialization of floats unsupported. Error info - Type: \"EnumFloatTest\", Variant: \"StructVariant\", Field: \"field\".");

    // EnumFloatTest::TupleVariant(42, 3.14)
    let mut s = Serializer::new();
    s.serialize_tuple_variant("EnumFloatTest", 2, "TupleVariant", 2).unwrap();
    s.serialize_u8(42).unwrap();
    let e = expect_err(s.serialize_f32());
    assert_eq!(e.to_string(), "Serialization of floats unsupported. Error info - Type: \"EnumFloatTest\", Variant: \"TupleVariant\".");
}

#[test]
fn test_err_enum_text() {
    // EnumTextTest::NewTypeVariant('F')
    let mut s = Serializer::new();
    s.serialize_newtype_variant("EnumTextTest", 0, "NewTypeVariant").unwrap();
    let e = expect_err(s.serialize_char('F'));
    assert_eq!(e.to_string(), "Serialization of text types unsupported. Error info - Type: \"EnumTextTest\", Variant: \"NewTypeVariant\".");

    // EnumTextTest::StructVariant { field: "In the chat".to_string() }
    let mut s = Serializer::new();
    s.serialize_struct_variant("EnumTextTest", 1, "StructVariant", 1).unwrap();
    s.serialize_field("field").unwrap();
    let e = expect_err(s.serialize_str(&"In the chat".to_string()));
    assert_eq!(e.to_string(), "Serialization of text types unsupported. Error info - Type: \"EnumTextTest\", Variant: \"StructVariant\", Field: \"field\".");

    // EnumTextTest::TupleVariant(42, "for Harambe")
    let mut s = Serializer::new();
    s.serialize_tuple_variant("EnumTextTest", 2, "TupleVariant", 2).unwrap();
    s.serialize_u8(42).unwrap();
    let e = expect_err(s.serialize_str("for Harambe"));
    assert_eq!(e.to_string(), "Serialization of text types unsupported. Error info - Type: \"EnumTextTest\", Variant: \"TupleVariant\".");
}

#[test]
fn test_err_enum_sint() {
    // EnumSignedIntTest::NewTypeVariant(42i8)
    let mut s = Serializer::new();
    s.serialize_newtype_variant("EnumSignedIntTest", 0, "NewTypeVariant").unwrap();
    let e = expect_err(s.serialize_i8(42i8));
    assert_eq!(e.to_string(), "Serialization of signed ints unsupported. Error info - Type: \"EnumSignedIntTest\", Variant: \"NewTypeVariant\".");

    // EnumSignedIntTest::StructVariant { field: 13i16 }
    let mut s = Serializer::new();
    s.serialize_struct_variant("EnumSignedIntTest", 1, "StructVariant", 1).unwrap();
    s.serialize_field("field").unwrap();
    let e = expect_err(s.serialize_i16(13i16));
    assert_eq!(e.to_string(), "Serialization of signed ints unsupported. Error info - Type: \"EnumSignedIntTest\", Variant: \"StructVariant\", Field: \"field\".");

    // EnumSignedIntTest::TupleVariant(42, 0i32)
    let mut s = Serializer::new();
    s.serialize_tuple_variant("EnumSignedIntTest", 2, "TupleVariant", 2).unwrap();
    s.serialize_u8(42).unwrap();
    let e = expect_err(s.serialize_i32(0i32));
    assert_eq!(e.to_string(), "Serialization of signed ints unsupported. Error info - Type: \"EnumSignedIntTest\", Variant: \"TupleVariant\".");
}

#[test]
fn test_err_struct_hash() {
    // NewTypeStructHash(HashMap::new())
    let mut s = Serializer::new();
    s.serialize_newtype_struct("NewTypeStructHash").unwrap();
    let e = expect_err(s.serialize_map(Some(0)));
    assert_eq!(e.to_string(), "Serialization of maps unsupported. Error info - Type: \"NewTypeStructHash\".");

    // StructHash { field: HashMap::new() }
    let mut s = Serializer::new();
    s.serialize_struct("StructHash", 1).unwrap();
    s.serialize_field("field").unwrap();
    let e = expect_err(s.serialize_map(Some(0)));
    assert_eq!(e.to_string(), "Serialization of maps unsupported. Error info - Type: \"StructHash\", Field: \"field\".");

    // TupleStructHash(42, HashMap::new())
    let mut s = Serializer::new();
    s.serialize_tuple_struct("TupleStructHash", 2).unwrap();
    s.serialize_u8(42).unwrap();
    let e = expect_err(s.serialize_map(Some(0)));
    assert_eq!(e.to_string(), "Serialization of maps unsupported. Error info - Type: \"TupleStructHash\".");
}

#[test]
fn test_err_struct_float() {
    // NewTypeStructFloat(3.14)
    let mut s = Serializer::new();
    s.serialize_newtype_struct("NewTypeStructFloat").unwrap();
    let e = expect_err(s.serialize_f32());
    assert_eq!(e.to_string(), "Serialization of floats unsupported. Error info - Type: \"NewTypeStructFloat\".");

    // StructFloat { field: 6.022e23 }
    let mut s = Serializer::new();
    s.serialize_struct("StructFloat", 1).unwrap();
    s.serialize_field("field").unwrap();
    let e = expect_err(s.serialize_f32());
    assert_eq!(e.to_string(), "Serialization of floats unsupported. Error info - Type: \"StructFloat\", Field: \"field\".");

    // TupleStructFloat(42, 9.0)
    let mut s = Serializer::new();
    s.serialize_tuple_struct("TupleStructFloat", 2).unwrap();
    s.serialize_u8(42).unwrap();
    let e = expect_err(s.serialize_f64());
    assert_eq!(e.to_string(), "Serialization of floats unsupported. Error info - Type: \"TupleStructFloat\".");
}

#[test]
fn test_err_struct_sint() {
    // NewTypeStructSignedInt(-9)
    let mut s = Serializer::new();
    s.serialize_newtype_struct("NewTypeStructSignedInt").unwrap();
    let e = expect_err(s.serialize_i8(-9));
    assert_eq!(e.to_string(), "Serialization of signed ints unsupported. Error info - Type: \"NewTypeStructSignedInt\".");

    // StructSignedInt { field: -6 }
    let mut s = Serializer::new();
    s.serialize_struct("StructSignedInt", 1).unwrap();
    s.serialize_field("field").unwrap();
    let e = expect_err(s.serialize_i64(-6));
    assert_eq!(e.to_string(), "Serialization of signed ints unsupported. Error info - Type: \"StructSignedInt\", Field: \"field\".");

    // TupleStructSignedInt(42, -9)
    let mut s = Serializer::new();
    s.serialize_tuple_struct("TupleStructSignedInt", 2).unwrap();
    s.serialize_u8(42).unwrap();
    let e = expect_err(s.serialize_i32(-9));
    assert_eq!(e.to_string(), "Serialization of signed ints unsupported. Error info - Type: \"TupleStructSignedInt\".");
}

#[test]
fn test_err_struct_text() {
    // NewTypeStructText('F')
    let mut s = Serializer::new();
    s.serialize_newtype_struct("NewTypeStructText").unwrap();
    let e = expect_err(s.serialize_char('F'));
    assert_eq!(e.to_string(), "Serialization of text types unsupported. Error info - Type: \"NewTypeStructText\".");

    // StructText { field: "oopsie" }
    let mut s = Serializer::new();
    s.serialize_struct("StructText", 1).unwrap();
    s.serialize_field("field").unwrap();
    let e = expect_err(s.serialize_str("oopsie"));
    assert_eq!(e.to_string(), "Serialization of text types unsupported. Error info - Type: \"StructText\", Field: \"field\".");

    // TupleStructText(42, "my bad".to_string())
    let mut s = Serializer::new();
    s.serialize_tuple_struct("TupleStructText", 2).unwrap();
    s.serialize_u8(42).unwrap();
    let e = expect_err(s.serialize_str(&"my bad".to_string()));
    assert_eq!(e.to_string(), "Serialization of text types unsupported. Error info - Type: \"TupleStructText\".");
}
