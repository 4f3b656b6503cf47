use static_reflect::layout::{
    simulate_structure, simulate_union, DeclaredType, FieldInput, FieldOptions,
};
use static_reflect::types::{FloatSize, IntSize, IntType, TypeId, TypeInfo};

fn plain_named(name: &str, t: TypeInfo) -> FieldInput {
    FieldInput {
        name: Some(name.to_string()),
        declared: DeclaredType::Plain(t),
        options: FieldOptions { opaque_array: false, assume_repr: None },
    }
}

fn long_uint() -> TypeInfo {
    TypeInfo::Integer(IntType { size: IntSize::Long, signed: false })
}

fn simple_nested() -> Vec<FieldInput> {
    vec![
        plain_named("cycle", TypeInfo::Pointer),
        plain_named("float", TypeInfo::Float { size: FloatSize::Double }),
        plain_named("number", long_uint()),
    ]
}

#[test]
fn simple_test_struct_types() {
    let nested = simulate_structure("Nested".to_string(), simple_nested()).unwrap();
    assert_eq!(nested.name, "Nested");
    assert_eq!(nested.size, 24);
    assert_eq!(nested.alignment, 8);
    let nested_offsets: Vec<usize> = nested.fields.iter().map(|f| f.offset).collect();
    assert_eq!(nested_offsets, vec![0, 8, 16]);

    let simple = simulate_structure(
        "SimpleStruct".to_string(),
        vec![
            plain_named("text", TypeInfo::Pointer),
            plain_named("number", TypeInfo::Integer(IntType { size: IntSize::Int, signed: false })),
            plain_named("float", TypeInfo::Float { size: FloatSize::Double }),
            plain_named("b", TypeInfo::Bool),
            plain_named("unit", TypeInfo::Unit),
            plain_named("nested_struct", TypeInfo::Structure(Box::new(nested))),
        ],
    )
    .unwrap();
    assert_eq!(simple.name, "SimpleStruct");
    let names: Vec<Option<&str>> = simple.fields.iter().map(|f| f.name.as_deref()).collect();
    assert_eq!(
        names,
        vec![
            Some("text"),
            Some("number"),
            Some("float"),
            Some("b"),
            Some("unit"),
            Some("nested_struct"),
        ]
    );
    let offsets: Vec<usize> = simple.fields.iter().map(|f| f.offset).collect();
    assert_eq!(offsets, vec![0, 8, 16, 24, 25, 32]);
    assert_eq!(simple.size, 56);
    assert_eq!(simple.alignment, 8);
}

#[test]
fn simple_test_union_types() {
    let nested = simulate_structure("Nested".to_string(), simple_nested()).unwrap();
    let def = simulate_union(
        "SimpleUnion".to_string(),
        vec![
            plain_named("text", TypeInfo::Pointer),
            plain_named("b", TypeInfo::Bool),
            plain_named("f", TypeInfo::Float { size: FloatSize::Single }),
            plain_named("nested", TypeInfo::Structure(Box::new(nested))),
        ],
    )
    .unwrap();
    assert_eq!(def.name, "SimpleUnion");
    // the 24-byte nested structure is the largest member here
    assert_eq!(def.size, 24);
    assert_eq!(def.alignment, 8);
    let names: Vec<&str> = def.fields.iter().map(|f| f.name.as_str()).collect();
    assert_eq!(names, vec!["text", "b", "f", "nested"]);
    let indices: Vec<usize> = def.fields.iter().map(|f| f.index).collect();
    assert_eq!(indices, vec![0, 1, 2, 3]);
}

#[test]
fn simple_test_options() {
    let def = simulate_structure(
        "OpaqueArray".to_string(),
        vec![
            FieldInput {
                name: Some("first".to_string()),
                declared: DeclaredType::Plain(TypeInfo::Integer(IntType {
                    size: IntSize::Byte,
                    signed: false,
                })),
                options: FieldOptions {
                    opaque_array: false,
                    assume_repr: Some(TypeInfo::Integer(IntType {
                        size: IntSize::Byte,
                        signed: true,
                    })),
                },
            },
            FieldInput {
                name: Some("array".to_string()),
                declared: DeclaredType::Array { element: TypeInfo::Pointer, length: 42 },
                options: FieldOptions { opaque_array: true, assume_repr: None },
            },
        ],
    )
    .unwrap();
    assert_eq!(def.name, "OpaqueArray");
    assert_eq!(
        def.fields[0].value_type,
        TypeId { value: TypeInfo::Integer(IntType { size: IntSize::Byte, signed: true }) }
    );
    assert_eq!(def.fields[0].offset, 0);
    assert_eq!(def.fields[1].value_type, TypeId { value: TypeInfo::Pointer });
    assert_eq!(def.fields[1].offset, 8);
    assert_eq!(def.size, 344);
}
