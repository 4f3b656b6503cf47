use static_reflect::layout::{
    simulate_structure, DeclaredType, FieldInput, FieldOptions,
};
use static_reflect::discriminant::{build_enum, EnumVariantInput, Repr};
use static_reflect::types::{
    CStyleEnumVariant, DiscriminantValue, FloatSize, IntSize, IntType, TypeId, TypeInfo,
};

fn named_field(name: &str, t: TypeInfo) -> FieldInput {
    FieldInput {
        name: Some(name.to_string()),
        declared: DeclaredType::Plain(t),
        options: FieldOptions { opaque_array: false, assume_repr: None },
    }
}

fn tuple_field(t: TypeInfo) -> FieldInput {
    FieldInput {
        name: None,
        declared: DeclaredType::Plain(t),
        options: FieldOptions { opaque_array: false, assume_repr: None },
    }
}

fn u32_type() -> TypeInfo {
    TypeInfo::Integer(IntType { size: IntSize::Int, signed: false })
}

fn u64_type() -> TypeInfo {
    TypeInfo::Integer(IntType { size: IntSize::Long, signed: false })
}

fn f64_type() -> TypeInfo {
    TypeInfo::Float { size: FloatSize::Double }
}

fn nested_fields() -> Vec<FieldInput> {
    vec![
        named_field("cycle", TypeInfo::Pointer),
        named_field("float", f64_type()),
        named_field("number", u64_type()),
    ]
}

#[test]
fn test_struct_types() {
    let nested = simulate_structure("Nested".to_string(), nested_fields()).unwrap();
    assert_eq!(nested.name, "Nested");
    assert_eq!(nested.size, 24);
    assert_eq!(nested.alignment, 8);
    assert_eq!(nested.fields.len(), 3);
    assert_eq!(nested.fields[0].name.as_deref(), Some("cycle"));
    assert_eq!(nested.fields[0].value_type, TypeId { value: TypeInfo::Pointer });
    assert_eq!(nested.fields[0].offset, 0);
    assert_eq!(nested.fields[0].index, 0);
    assert_eq!(nested.fields[1].name.as_deref(), Some("float"));
    assert_eq!(nested.fields[1].value_type, TypeId { value: f64_type() });
    assert_eq!(nested.fields[1].offset, 8);
    assert_eq!(nested.fields[1].index, 1);
    assert_eq!(nested.fields[2].name.as_deref(), Some("number"));
    assert_eq!(nested.fields[2].value_type, TypeId { value: u64_type() });
    assert_eq!(nested.fields[2].offset, 16);
    assert_eq!(nested.fields[2].index, 2);

    let simple = simulate_structure(
        "SimpleStruct".to_string(),
        vec![
            named_field("text", TypeInfo::Pointer),
            named_field("number", u32_type()),
            named_field("float", f64_type()),
            named_field("b", TypeInfo::Bool),
            named_field("unit", TypeInfo::Unit),
            named_field("nested_struct", TypeInfo::Structure(Box::new(nested))),
        ],
    )
    .unwrap();
    assert_eq!(simple.name, "SimpleStruct");
    let offsets: Vec<usize> = simple.fields.iter().map(|f| f.offset).collect();
    assert_eq!(offsets, vec![0, 8, 16, 24, 25, 32]);
    let indices: Vec<usize> = simple.fields.iter().map(|f| f.index).collect();
    assert_eq!(indices, vec![0, 1, 2, 3, 4, 5]);
    assert_eq!(simple.size, 56);
    assert_eq!(simple.alignment, 8);
}

#[test]
fn test_tuple_struct() {
    let nested = simulate_structure("Nested".to_string(), nested_fields()).unwrap();
    let tuple = simulate_structure(
        "SimpleTupleStruct".to_string(),
        vec![
            tuple_field(TypeInfo::Pointer),
            tuple_field(TypeInfo::Float { size: FloatSize::Single }),
            tuple_field(TypeInfo::Structure(Box::new(nested))),
        ],
    )
    .unwrap();
    assert_eq!(tuple.name, "SimpleTupleStruct");
    for (i, field) in tuple.fields.iter().enumerate() {
        assert_eq!(field.name, None);
        assert_eq!(field.index, i);
    }
    let offsets: Vec<usize> = tuple.fields.iter().map(|f| f.offset).collect();
    assert_eq!(offsets, vec![0, 8, 16]);
    assert_eq!(tuple.size, 40);
    assert_eq!(tuple.alignment, 8);
}

fn enum_variant(name: &str, explicit_value: Option<u64>) -> EnumVariantInput {
    EnumVariantInput { name: name.to_string(), has_payload: false, explicit_value }
}

#[test]
fn test_simple_enum() {
    // a payload-free enumeration the host lays out as a 4-byte C enum
    let def = build_enum(
        "SimpleEnum".to_string(),
        Repr::C,
        4,
        vec![
            enum_variant("Zero", None),
            enum_variant("Two", Some(2)),
            enum_variant("Eight", Some(8)),
            enum_variant("Four", Some(4)),
            enum_variant("Implicit", None),
        ],
    )
    .unwrap();
    assert_eq!(def.name, "SimpleEnum");
    assert_eq!(def.discriminant, IntType { size: IntSize::Int, signed: false });
    let expected = vec![
        CStyleEnumVariant {
            index: 0,
            name: "Zero".to_string(),
            discriminant: DiscriminantValue::Default { declaration_index: 0 },
        },
        CStyleEnumVariant {
            index: 1,
            name: "Two".to_string(),
            discriminant: DiscriminantValue::ExplicitInteger { bits: 2 },
        },
        CStyleEnumVariant {
            index: 2,
            name: "Eight".to_string(),
            discriminant: DiscriminantValue::ExplicitInteger { bits: 8 },
        },
        CStyleEnumVariant {
            index: 3,
            name: "Four".to_string(),
            discriminant: DiscriminantValue::ExplicitInteger { bits: 4 },
        },
        CStyleEnumVariant {
            index: 4,
            name: "Implicit".to_string(),
            discriminant: DiscriminantValue::ImplicitlyOffset { bits: 5 },
        },
    ];
    assert_eq!(def.variants, expected);
}

#[test]
fn test_options() {
    // first is actually a 'u8', but assume_repr reports it as 'i8';
    // the trailing array is opaque: consumers see its element type
    let def = simulate_structure(
        "OpaqueArray".to_string(),
        vec![
            FieldInput {
                name: Some("first".to_string()),
                declared: DeclaredType::Plain(TypeInfo::Integer(IntType {
                    size: IntSize::Byte,
                    signed: false,
                })),
                options: FieldOptions {
                    opaque_array: false,
                    assume_repr: Some(TypeInfo::Integer(IntType {
                        size: IntSize::Byte,
                        signed: true,
                    })),
                },
            },
            FieldInput {
                name: Some("array".to_string()),
                declared: DeclaredType::Array { element: TypeInfo::Pointer, length: 42 },
                options: FieldOptions { opaque_array: true, assume_repr: None },
            },
        ],
    )
    .unwrap();
    assert_eq!(def.name, "OpaqueArray");
    assert_eq!(def.fields[0].name.as_deref(), Some("first"));
    assert_eq!(
        def.fields[0].value_type,
        TypeId { value: TypeInfo::Integer(IntType { size: IntSize::Byte, signed: true }) }
    );
    assert_eq!(def.fields[0].offset, 0);
    assert_eq!(def.fields[0].index, 0);
    assert_eq!(def.fields[1].name.as_deref(), Some("array"));
    assert_eq!(def.fields[1].value_type, TypeId { value: TypeInfo::Pointer });
    assert_eq!(def.fields[1].offset, 8);
    assert_eq!(def.fields[1].index, 1);
    // the opaque array consumes all 42 pointer-sized elements
    assert_eq!(def.size, 8 + 42 * 8);
    assert_eq!(def.alignment, 8);
}
