use static_reflect::layout::{
    build_structure, build_union, simulate_structure, simulate_union, verify_layout,
    ConfigurationError, ConfigurationErrorKind, DeclaredType, FieldInput, FieldOptions,
    LayoutError, LayoutMismatchError,
};
use static_reflect::discriminant::{
    build_enum, resolve_discriminant_type, resolve_discriminants, EnumLayoutError,
    EnumVariantInput, Repr, UnsupportedShapeError,
};
use static_reflect::types::{
    FloatSize, IntSize, IntType, InvalidSizeErr, TaggedUnionStyle, TypeInfo,
};

fn prop_field(name: &str, t: TypeInfo) -> FieldInput {
    FieldInput {
        name: Some(name.to_string()),
        declared: DeclaredType::Plain(t),
        options: FieldOptions { opaque_array: false, assume_repr: None },
    }
}

fn prop_fields() -> Vec<FieldInput> {
    vec![
        prop_field("a", TypeInfo::Bool),
        prop_field("b", TypeInfo::Integer(IntType { size: IntSize::Int, signed: false })),
        prop_field("c", TypeInfo::Integer(IntType { size: IntSize::Short, signed: true })),
    ]
}

#[test]
fn structure_padding_accounts_for_total_size() {
    // offsets: a at 0 (1 byte), b padded to 4 (4 bytes), c at 8
    // (2 bytes); the total is a multiple of the alignment 4
    let def = simulate_structure("Props".to_string(), prop_fields()).unwrap();
    let offsets: Vec<usize> = def.fields.iter().map(|f| f.offset).collect();
    assert_eq!(offsets, vec![0, 4, 8]);
    assert_eq!(def.alignment, 4);
    assert_eq!(def.size, 12);
    // padding + size per field, plus trailing padding, equals the total
    let sizes = [1usize, 4, 2];
    let mut accounted = 0;
    for (field, size) in def.fields.iter().zip(sizes.iter()) {
        let padding = field.offset - accounted;
        accounted += padding + size;
    }
    let trailing = def.size - accounted;
    assert_eq!(accounted + trailing, def.size);
    assert_eq!(def.size % def.alignment, 0);
}

#[test]
fn union_size_covers_every_member() {
    let def = simulate_union("Props".to_string(), prop_fields()).unwrap();
    assert_eq!(def.alignment, 4);
    assert_eq!(def.size, 4);
    for (field, size) in def.fields.iter().zip([1usize, 4, 2].iter()) {
        assert!(*size <= def.size);
        assert_eq!(field.offset(), 0);
    }
    assert_eq!(def.size % def.alignment, 0);
}

#[test]
fn layout_is_deterministic() {
    let first = simulate_structure("Props".to_string(), prop_fields()).unwrap();
    let second = simulate_structure("Props".to_string(), prop_fields()).unwrap();
    assert_eq!(first, second);
    let third = simulate_union("Props".to_string(), prop_fields()).unwrap();
    let fourth = simulate_union("Props".to_string(), prop_fields()).unwrap();
    assert_eq!(third, fourth);
}

#[test]
fn empty_layouts_default_to_unit() {
    let structure = simulate_structure("Empty".to_string(), vec![]).unwrap();
    assert_eq!(structure.size, 0);
    assert_eq!(structure.alignment, 1);
    assert_eq!(structure.fields.len(), 0);
    let union_def = simulate_union("Empty".to_string(), vec![]).unwrap();
    assert_eq!(union_def.size, 0);
    assert_eq!(union_def.alignment, 1);
    assert_eq!(union_def.fields.len(), 0);
}

fn opaque_pointer_array(length: usize) -> FieldInput {
    FieldInput {
        name: Some("array".to_string()),
        declared: DeclaredType::Array { element: TypeInfo::Pointer, length },
        options: FieldOptions { opaque_array: true, assume_repr: None },
    }
}

#[test]
fn opaque_array_must_be_last() {
    let err = simulate_structure(
        "Bad".to_string(),
        vec![opaque_pointer_array(42), prop_field("after", TypeInfo::Bool)],
    )
    .unwrap_err();
    assert_eq!(
        err,
        ConfigurationError { field_index: 0, kind: ConfigurationErrorKind::OpaqueArrayNotLast }
    );
}

#[test]
fn opaque_array_needs_an_array() {
    let err = simulate_structure(
        "Bad".to_string(),
        vec![FieldInput {
            name: Some("scalar".to_string()),
            declared: DeclaredType::Plain(TypeInfo::Bool),
            options: FieldOptions { opaque_array: true, assume_repr: None },
        }],
    )
    .unwrap_err();
    assert_eq!(
        err,
        ConfigurationError { field_index: 0, kind: ConfigurationErrorKind::OpaqueArrayNotArray }
    );
}

#[test]
fn opaque_array_conflicts_with_assume_repr() {
    let err = simulate_structure(
        "Bad".to_string(),
        vec![FieldInput {
            name: Some("array".to_string()),
            declared: DeclaredType::Array { element: TypeInfo::Pointer, length: 42 },
            options: FieldOptions { opaque_array: true, assume_repr: Some(TypeInfo::Pointer) },
        }],
    )
    .unwrap_err();
    assert_eq!(
        err,
        ConfigurationError { field_index: 0, kind: ConfigurationErrorKind::OptionConflict }
    );
}

#[test]
fn opaque_array_is_rejected_on_unions() {
    let err = simulate_union("Bad".to_string(), vec![opaque_pointer_array(42)]).unwrap_err();
    assert_eq!(
        err,
        ConfigurationError { field_index: 0, kind: ConfigurationErrorKind::OpaqueArrayOnUnion }
    );
}

#[test]
fn oversized_ground_truth_is_a_fatal_mismatch() {
    // the simulated size is 12: a ground truth one byte larger must
    // surface as a size mismatch, never pass silently
    let err = build_structure("Props".to_string(), prop_fields(), 13, 4).unwrap_err();
    assert_eq!(err, LayoutError::Mismatch(LayoutMismatchError::Size));
    assert_eq!(LayoutMismatchError::Size.message(), "Mismatched size");
    let err = build_union("Props".to_string(), prop_fields(), 5, 4).unwrap_err();
    assert_eq!(err, LayoutError::Mismatch(LayoutMismatchError::Size));
}

#[test]
fn alignment_mismatch_is_fatal() {
    let err = build_structure("Props".to_string(), prop_fields(), 12, 8).unwrap_err();
    assert_eq!(err, LayoutError::Mismatch(LayoutMismatchError::Alignment));
    assert_eq!(LayoutMismatchError::Alignment.message(), "Mismatched alignments");
    let err = build_union("Props".to_string(), prop_fields(), 4, 8).unwrap_err();
    assert_eq!(err, LayoutError::Mismatch(LayoutMismatchError::Alignment));
}

#[test]
fn matching_ground_truth_passes() {
    let def = build_structure("Props".to_string(), prop_fields(), 12, 4).unwrap();
    assert_eq!(def.size, 12);
    assert_eq!(def.alignment, 4);
    let def = build_union("Props".to_string(), prop_fields(), 4, 4).unwrap();
    assert_eq!(def.size, 4);
    assert_eq!(def.alignment, 4);
    assert_eq!(verify_layout(12, 4, 12, 4), Ok(()));
    assert_eq!(verify_layout(12, 4, 13, 4), Err(LayoutMismatchError::Size));
    assert_eq!(verify_layout(12, 4, 12, 8), Err(LayoutMismatchError::Alignment));
}

#[test]
fn payload_variants_are_unsupported() {
    let err = resolve_discriminants(vec![
        EnumVariantInput { name: "Empty".to_string(), has_payload: false, explicit_value: None },
        EnumVariantInput { name: "Holds".to_string(), has_payload: true, explicit_value: None },
    ])
    .unwrap_err();
    assert_eq!(err, UnsupportedShapeError::PayloadVariant { variant_index: 1 });
}

#[test]
fn discriminant_type_follows_the_repr() {
    assert_eq!(
        resolve_discriminant_type(Repr::Integer { signed: true, bits: 16 }, 99),
        Ok(IntType { size: IntSize::Short, signed: true })
    );
    assert_eq!(
        resolve_discriminant_type(Repr::C, 8),
        Ok(IntType { size: IntSize::Long, signed: false })
    );
    assert_eq!(
        resolve_discriminant_type(Repr::C, 3),
        Err(EnumLayoutError::InvalidSize(InvalidSizeErr { bytes: 3 }))
    );
    assert_eq!(
        resolve_discriminant_type(Repr::Integer { signed: false, bits: 24 }, 0),
        Err(EnumLayoutError::InvalidSize(InvalidSizeErr { bytes: 3 }))
    );
    assert_eq!(
        resolve_discriminant_type(Repr::Transparent, 4),
        Err(EnumLayoutError::Unsupported(UnsupportedShapeError::NonIntegerRepr))
    );
}

#[test]
fn enum_with_payload_variant_is_rejected() {
    let err = build_enum(
        "Bad".to_string(),
        Repr::C,
        4,
        vec![EnumVariantInput {
            name: "Holds".to_string(),
            has_payload: true,
            explicit_value: None,
        }],
    )
    .unwrap_err();
    assert_eq!(err, EnumLayoutError::Unsupported(UnsupportedShapeError::PayloadVariant {
        variant_index: 0,
    }));
}

#[test]
fn tagged_union_styles_differ_by_tag_padding() {
    // a 1-byte tag aligned to 2: the traditional style pads the tag
    // before the variant data, the primitive style does not
    let variants = vec![(2usize, 1usize)];
    let traditional = TaggedUnionStyle::Traditional.compute_layout(1, 2, &variants);
    assert_eq!(traditional, (4, 2));
    let primitive = TaggedUnionStyle::Primitive.compute_layout(1, 2, &variants);
    assert_eq!(primitive, (3, 2));
    // the most aligned variant drives the whole union's alignment
    let wide = vec![(4usize, 2usize), (3usize, 8usize)];
    let layout = TaggedUnionStyle::Traditional.compute_layout(4, 4, &wide);
    assert_eq!(layout, (11, 8));
    assert_eq!(TaggedUnionStyle::default(), TaggedUnionStyle::Traditional);
}

#[test]
fn assume_repr_reports_the_substitute() {
    // the field is laid out as a 4-byte integer but reported as a float
    let def = simulate_structure(
        "Assumed".to_string(),
        vec![FieldInput {
            name: Some("value".to_string()),
            declared: DeclaredType::Plain(TypeInfo::Integer(IntType {
                size: IntSize::Int,
                signed: false,
            })),
            options: FieldOptions {
                opaque_array: false,
                assume_repr: Some(TypeInfo::Float { size: FloatSize::Single }),
            },
        }],
    )
    .unwrap();
    assert_eq!(def.fields[0].value_type.value, TypeInfo::Float { size: FloatSize::Single });
    assert_eq!(def.size, 4);
    assert_eq!(def.alignment, 4);
}

#[test]
fn field_options_default_to_unset() {
    let options = FieldOptions::default();
    assert!(!options.opaque_array);
    assert_eq!(options.assume_repr, None);
}

#[test]
fn implicit_discriminants_continue_sequentially() {
    let variants = resolve_discriminants(vec![
        EnumVariantInput { name: "Five".to_string(), has_payload: false, explicit_value: Some(5) },
        EnumVariantInput { name: "Six".to_string(), has_payload: false, explicit_value: None },
        EnumVariantInput { name: "Seven".to_string(), has_payload: false, explicit_value: None },
    ])
    .unwrap();
    assert_eq!(variants[1].discriminant.bits(), 6);
    assert_eq!(variants[2].discriminant.bits(), 7);
    assert!(!variants[1].discriminant.is_explicit());
}

#[test]
fn implicit_discriminants_wrap_at_the_64_bit_boundary() {
    let variants = resolve_discriminants(vec![
        EnumVariantInput {
            name: "Top".to_string(),
            has_payload: false,
            explicit_value: Some(u64::MAX),
        },
        EnumVariantInput { name: "Wrapped".to_string(), has_payload: false, explicit_value: None },
    ])
    .unwrap();
    assert_eq!(variants[0].discriminant.bits(), u64::MAX);
    assert_eq!(variants[1].discriminant.bits(), 0);
}

#[test]
fn end_to_end_structure_layout() {
    // a pointer, a double, a 4-byte integer, a bool, a unit, and a
    // nested 8-aligned structure: the bool sits right after the
    // integer, the unit adds nothing, and the nested structure is
    // pushed to the next multiple of 8
    let nested = simulate_structure(
        "Nested".to_string(),
        vec![
            prop_field("float", TypeInfo::Float { size: FloatSize::Double }),
            prop_field("number", TypeInfo::Integer(IntType { size: IntSize::Long, signed: true })),
        ],
    )
    .unwrap();
    assert_eq!((nested.size, nested.alignment), (16, 8));
    let def = simulate_structure(
        "EndToEnd".to_string(),
        vec![
            prop_field("p", TypeInfo::Pointer),
            prop_field("f", TypeInfo::Float { size: FloatSize::Double }),
            prop_field("n", TypeInfo::Integer(IntType { size: IntSize::Int, signed: true })),
            prop_field("b", TypeInfo::Bool),
            prop_field("u", TypeInfo::Unit),
            prop_field("inner", TypeInfo::Structure(Box::new(nested))),
        ],
    )
    .unwrap();
    let offsets: Vec<usize> = def.fields.iter().map(|f| f.offset).collect();
    assert_eq!(offsets, vec![0, 8, 16, 20, 21, 24]);
    assert_eq!(def.size, 40);
    assert_eq!(def.size % 8, 0);
    assert_eq!(def.alignment, 8);
}
