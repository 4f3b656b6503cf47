use static_reflect::funcs::{
    CallingConvention, FunctionDeclaration, FunctionLocation, SignatureDef,
};
use static_reflect::types::{FloatSize, IntSize, IntType, TypeInfo};

/// Declarations for functions defined in Rust code and exported with
/// the C ABI: one with its own link name, one renamed, and one reached
/// through an absolute address.
#[test]
fn rust_funcs() {
    let dynamically_linked = FunctionDeclaration {
        name: "dynamically_linked".to_string(),
        is_unsafe: true,
        location: Some(FunctionLocation::DynamicallyLinked { link_name: None }),
        signature: SignatureDef {
            argument_types: vec![
                TypeInfo::Integer(IntType { size: IntSize::Int, signed: false }),
                TypeInfo::Pointer,
            ],
            return_type: TypeInfo::Float { size: FloatSize::Single },
            calling_convention: CallingConvention::default(),
        },
    };
    assert!(dynamically_linked.has_known_location());
    assert_eq!(dynamically_linked.name, "dynamically_linked");
    assert!(dynamically_linked.is_unsafe);
    assert_eq!(
        dynamically_linked.location,
        Some(FunctionLocation::DynamicallyLinked { link_name: None })
    );
    assert_eq!(dynamically_linked.signature.calling_convention, CallingConvention::StandardC);

    let stupid_name = FunctionDeclaration {
        name: "stupid_name".to_string(),
        is_unsafe: false,
        location: Some(FunctionLocation::DynamicallyLinked {
            link_name: Some("better_name".to_string()),
        }),
        signature: SignatureDef {
            argument_types: vec![
                TypeInfo::Float { size: FloatSize::Single },
                TypeInfo::Float { size: FloatSize::Single },
            ],
            return_type: TypeInfo::Unit,
            calling_convention: CallingConvention::default(),
        },
    };
    assert!(stupid_name.has_known_location());
    assert!(!stupid_name.is_unsafe);
    assert_eq!(
        stupid_name.location,
        Some(FunctionLocation::DynamicallyLinked { link_name: Some("better_name".to_string()) })
    );

    let absolute_address_example = FunctionDeclaration {
        name: "absolute_address_example".to_string(),
        is_unsafe: false,
        location: Some(FunctionLocation::AbsoluteAddress { addr: 0x1000 }),
        signature: SignatureDef {
            argument_types: vec![
                TypeInfo::Float { size: FloatSize::Double },
                TypeInfo::Float { size: FloatSize::Double },
            ],
            return_type: TypeInfo::Float { size: FloatSize::Double },
            calling_convention: CallingConvention::default(),
        },
    };
    assert!(absolute_address_example.has_known_location());
    assert_eq!(
        absolute_address_example.location,
        Some(FunctionLocation::AbsoluteAddress { addr: 0x1000 })
    );

    let unlocated = FunctionDeclaration {
        name: "unlocated".to_string(),
        is_unsafe: false,
        location: None,
        signature: SignatureDef {
            argument_types: vec![],
            return_type: TypeInfo::Unit,
            calling_convention: CallingConvention::default(),
        },
    };
    assert!(!unlocated.has_known_location());
}
