use quickbooks_sheets_sync::safe_variant::{
    create_bstr_variant, create_dispatch_variant, create_variant_i4, variant_to_dispatch,
    variant_to_f64, variant_to_i32, variant_to_string, HandleError, SafeVariant, TypeMismatch,
    VariantTag, WinVariant, VT_BSTR, VT_DISPATCH, VT_EMPTY, VT_I4, VT_R8,
};

fn round_trip(value: &SafeVariant) -> Option<SafeVariant> {
    SafeVariant::from_winvariant(&value.to_winvariant())
}

#[test]
fn int32_round_trips() {
    for v in [0, 1, -1, 42, -18745, i32::MIN, i32::MAX] {
        let encoded = SafeVariant::from_i32(v);
        assert_eq!(encoded.to_i32(), Some(v));
        assert_eq!(encoded.decode_i32(), Ok(v));
        assert_eq!(round_trip(&encoded), Some(SafeVariant::Int32(v)));
    }
}

#[test]
fn float64_round_trips() {
    for f in [0.0f64, -0.0, 250.0, -18745.32, f64::MAX, f64::MIN_POSITIVE, f64::INFINITY] {
        let encoded = SafeVariant::from_f64(f.to_bits());
        let bits = encoded.to_f64().unwrap();
        assert_eq!(f64::from_bits(bits).to_bits(), f.to_bits());
        assert_eq!(encoded.decode_f64(), Ok(f.to_bits()));
        assert_eq!(round_trip(&encoded), Some(SafeVariant::Float64 { bits: f.to_bits() }));
    }
    let nan = f64::NAN.to_bits();
    assert_eq!(SafeVariant::from_f64(nan).to_f64(), Some(nan));
}

#[test]
fn string_round_trips() {
    for s in ["", "ticket-1", "1000:Sub", "C:\\Files\\Company.qbw", "Zürich \u{1F4B0}", " a b "] {
        let encoded = SafeVariant::from_string(s);
        assert_eq!(encoded.to_string(), Some(s.to_string()));
        assert_eq!(encoded.decode_string(), Ok(s.to_string()));
        assert_eq!(round_trip(&encoded), Some(SafeVariant::String(s.to_string())));
    }
}

#[test]
fn empty_and_object_round_trip() {
    assert_eq!(round_trip(&SafeVariant::new()), Some(SafeVariant::Empty));
    assert_eq!(round_trip(&SafeVariant::from_dispatch(Some(77))), Some(SafeVariant::ObjectHandle(77)));
    assert_eq!(SafeVariant::from_dispatch(None), SafeVariant::Empty);
    assert_eq!(SafeVariant::default(), SafeVariant::Empty);
}

#[test]
fn encoding_uses_the_slot_of_the_tag() {
    let record = SafeVariant::from_i32(-5).to_winvariant();
    assert_eq!(
        record,
        WinVariant { vt: VT_I4, int_value: -5, float_bits: 0, text: None, object: 0 }
    );
    let record = SafeVariant::from_string("abc").to_winvariant();
    assert_eq!(
        record,
        WinVariant { vt: VT_BSTR, int_value: 0, float_bits: 0, text: Some("abc".to_string()), object: 0 }
    );
    let record = SafeVariant::from_f64(1.5f64.to_bits()).to_winvariant();
    assert_eq!(record.vt, VT_R8);
    assert_eq!(record.float_bits, 1.5f64.to_bits());
    assert_eq!(SafeVariant::new().to_winvariant().vt, VT_EMPTY);
    assert_eq!(SafeVariant::from_dispatch(Some(9)).to_winvariant().vt, VT_DISPATCH);
    assert_eq!(SafeVariant::from_dispatch(Some(9)).to_winvariant().object, 9);
}

#[test]
fn decode_reads_only_the_slot_of_the_type_code() {
    let record = WinVariant {
        vt: VT_I4,
        int_value: 12,
        float_bits: 99,
        text: Some("stray".to_string()),
        object: 5,
    };
    assert_eq!(SafeVariant::from_winvariant(&record), Some(SafeVariant::Int32(12)));
    let record = WinVariant { vt: VT_EMPTY, int_value: 12, float_bits: 99, text: None, object: 5 };
    assert_eq!(SafeVariant::from_winvariant(&record), Some(SafeVariant::Empty));
}

#[test]
fn null_string_decodes_to_the_empty_string() {
    let record = WinVariant { vt: VT_BSTR, int_value: 0, float_bits: 0, text: None, object: 0 };
    assert_eq!(SafeVariant::from_winvariant(&record), Some(SafeVariant::String(String::new())));
}

#[test]
fn unknown_type_code_is_not_decoded() {
    for vt in [1u16, 2, 4, 6, 7, 10, 11, 12, 0x2008, 0xffff] {
        let record = WinVariant { vt, int_value: 1, float_bits: 2, text: None, object: 3 };
        assert_eq!(SafeVariant::from_winvariant(&record), None);
        assert_eq!(VariantTag::from_type_code(vt), None);
    }
}

#[test]
fn type_codes_and_tags_match() {
    for tag in [
        VariantTag::Empty,
        VariantTag::Int32,
        VariantTag::Float64,
        VariantTag::String,
        VariantTag::ObjectHandle,
    ] {
        assert_eq!(VariantTag::from_type_code(tag.type_code()), Some(tag));
    }
    assert_eq!(VariantTag::Int32.type_code(), 3);
    assert_eq!(VariantTag::Float64.type_code(), 5);
    assert_eq!(VariantTag::String.type_code(), 8);
    assert_eq!(VariantTag::ObjectHandle.type_code(), 9);
    assert_eq!(VariantTag::Empty.type_code(), 0);
}

#[test]
fn decode_under_another_tag_is_a_mismatch() {
    let text = SafeVariant::from_string("12");
    assert_eq!(text.to_i32(), None);
    assert_eq!(
        text.decode_i32(),
        Err(TypeMismatch { expected: VariantTag::Int32, found: VariantTag::String })
    );
    assert_eq!(
        text.decode_f64(),
        Err(TypeMismatch { expected: VariantTag::Float64, found: VariantTag::String })
    );
    let number = SafeVariant::from_i32(12);
    assert_eq!(number.to_string(), None);
    assert_eq!(number.to_f64(), None);
    assert_eq!(
        number.decode_string(),
        Err(TypeMismatch { expected: VariantTag::String, found: VariantTag::Int32 })
    );
    assert_eq!(
        SafeVariant::new().decode_string(),
        Err(TypeMismatch { expected: VariantTag::String, found: VariantTag::Empty })
    );
    assert_eq!(SafeVariant::from_f64(0).to_i32(), None);
    assert_eq!(SafeVariant::from_f64(0).tag(), VariantTag::Float64);
}

#[test]
fn object_handles() {
    assert_eq!(SafeVariant::from_dispatch(Some(5)).to_dispatch(), Some(5));
    assert_eq!(SafeVariant::from_dispatch(Some(5)).as_dispatch(), Ok(5));
    assert_eq!(SafeVariant::ObjectHandle(0).to_dispatch(), None);
    assert_eq!(SafeVariant::ObjectHandle(0).as_dispatch(), Err(HandleError::NullObject));
    assert_eq!(
        SafeVariant::from_i32(5).as_dispatch(),
        Err(HandleError::NotAnObject { found: VariantTag::Int32 })
    );
    assert_eq!(SafeVariant::from_string("x").to_dispatch(), None);
}

#[test]
fn clone_is_a_copy_of_its_own() {
    let first = SafeVariant::from_string("payload");
    let copy = first.clone();
    drop(first);
    assert_eq!(copy, SafeVariant::String("payload".to_string()));
}

#[test]
fn helper_conversions() {
    assert_eq!(variant_to_string(&create_bstr_variant("abc")), "abc");
    assert_eq!(variant_to_string(&create_variant_i4(3)), "");
    assert_eq!(variant_to_i32(&create_variant_i4(-3)), -3);
    assert_eq!(variant_to_i32(&create_bstr_variant("3")), 0);
    assert_eq!(variant_to_f64(&SafeVariant::from_f64(2.5f64.to_bits())), 2.5f64.to_bits());
    assert_eq!(variant_to_f64(&create_variant_i4(3)), 0);
    assert_eq!(variant_to_dispatch(&create_dispatch_variant(11)), Some(11));
    assert_eq!(variant_to_dispatch(&create_variant_i4(11)), None);
}
