//! Build-time layout metadata for C-ABI-compatible composite types.
//!
//! The crate simulates `repr(C)`-style layout for structures and unions
//! (sizes, alignments, per-field byte offsets), resolves discriminant
//! values for payload-free enumerations, and cross-checks every simulated
//! layout against a ground-truth measurement before a descriptor is
//! handed to consumers such as FFI boundary checkers or JIT compilers.
//!
//! All computation is a pure, deterministic function of its field-list
//! input; descriptors are immutable once constructed.
use vstd::prelude::*;

pub mod builtins;
pub mod discriminant;
pub mod funcs;
pub mod layout;
pub mod types;

verus! {

use crate::types::{IntSize, IntType, TypeInfo};

/// Marker trait for the primitive types the reflection system covers.
pub trait Sealed {}

/// A type whose representation is known to the reflection system.
///
/// Each implementation reports the descriptor of the type it stands for;
/// `spec_type_info` names that descriptor in contracts.
pub trait StaticReflect {
    /// The descriptor this type reports, as a specification-level value.
    spec fn spec_type_info() -> TypeInfo;

    /// The descriptor this type reports.
    fn type_info() -> (r: TypeInfo)
        ensures
            r == Self::spec_type_info(),
    ;
}

/// A primitive integer type.
pub trait PrimInt: StaticReflect + Sealed {
    /// The integer type this primitive corresponds to, as a
    /// specification-level value.
    spec fn spec_int_type() -> IntType;

    /// The integer type this primitive corresponds to.
    fn int_type() -> (r: IntType)
        ensures
            r == Self::spec_int_type(),
    ;
}

impl Sealed for u8 {}

impl StaticReflect for u8 {
    open spec fn spec_type_info() -> TypeInfo {
        TypeInfo::Integer(IntType { size: IntSize::Byte, signed: false })
    }

    fn type_info() -> (r: TypeInfo) {
        TypeInfo::Integer(IntType { size: IntSize::Byte, signed: false })
    }
}

impl PrimInt for u8 {
    open spec fn spec_int_type() -> IntType {
        IntType { size: IntSize::Byte, signed: false }
    }

    fn int_type() -> (r: IntType) {
        IntType { size: IntSize::Byte, signed: false }
    }
}

impl Sealed for u16 {}

impl StaticReflect for u16 {
    open spec fn spec_type_info() -> TypeInfo {
        TypeInfo::Integer(IntType { size: IntSize::Short, signed: false })
    }

    fn type_info() -> (r: TypeInfo) {
        TypeInfo::Integer(IntType { size: IntSize::Short, signed: false })
    }
}

impl PrimInt for u16 {
    open spec fn spec_int_type() -> IntType {
        IntType { size: IntSize::Short, signed: false }
    }

    fn int_type() -> (r: IntType) {
        IntType { size: IntSize::Short, signed: false }
    }
}

impl Sealed for u32 {}

impl StaticReflect for u32 {
    open spec fn spec_type_info() -> TypeInfo {
        TypeInfo::Integer(IntType { size: IntSize::Int, signed: false })
    }

    fn type_info() -> (r: TypeInfo) {
        TypeInfo::Integer(IntType { size: IntSize::Int, signed: false })
    }
}

impl PrimInt for u32 {
    open spec fn spec_int_type() -> IntType {
        IntType { size: IntSize::Int, signed: false }
    }

    fn int_type() -> (r: IntType) {
        IntType { size: IntSize::Int, signed: false }
    }
}

impl Sealed for u64 {}

impl StaticReflect for u64 {
    open spec fn spec_type_info() -> TypeInfo {
        TypeInfo::Integer(IntType { size: IntSize::Long, signed: false })
    }

    fn type_info() -> (r: TypeInfo) {
        TypeInfo::Integer(IntType { size: IntSize::Long, signed: false })
    }
}

impl PrimInt for u64 {
    open spec fn spec_int_type() -> IntType {
        IntType { size: IntSize::Long, signed: false }
    }

    fn int_type() -> (r: IntType) {
        IntType { size: IntSize::Long, signed: false }
    }
}

impl Sealed for usize {}

impl StaticReflect for usize {
    open spec fn spec_type_info() -> TypeInfo {
        TypeInfo::Integer(IntType { size: IntSize::Long, signed: false })
    }

    // pointer-sized integers are 8 bytes on the modeled target
    fn type_info() -> (r: TypeInfo) {
        TypeInfo::Integer(IntType { size: IntSize::Long, signed: false })
    }
}

impl PrimInt for usize {
    open spec fn spec_int_type() -> IntType {
        IntType { size: IntSize::Long, signed: false }
    }

    fn int_type() -> (r: IntType) {
        IntType { size: IntSize::Long, signed: false }
    }
}

impl Sealed for i8 {}

impl StaticReflect for i8 {
    open spec fn spec_type_info() -> TypeInfo {
        TypeInfo::Integer(IntType { size: IntSize::Byte, signed: true })
    }

    fn type_info() -> (r: TypeInfo) {
        TypeInfo::Integer(IntType { size: IntSize::Byte, signed: true })
    }
}

impl PrimInt for i8 {
    open spec fn spec_int_type() -> IntType {
        IntType { size: IntSize::Byte, signed: true }
    }

    fn int_type() -> (r: IntType) {
        IntType { size: IntSize::Byte, signed: true }
    }
}

impl Sealed for i16 {}

impl StaticReflect for i16 {
    open spec fn spec_type_info() -> TypeInfo {
        TypeInfo::Integer(IntType { size: IntSize::Short, signed: true })
    }

    fn type_info() -> (r: TypeInfo) {
        TypeInfo::Integer(IntType { size: IntSize::Short, signed: true })
    }
}

impl PrimInt for i16 {
    open spec fn spec_int_type() -> IntType {
        IntType { size: IntSize::Short, signed: true }
    }

    fn int_type() -> (r: IntType) {
        IntType { size: IntSize::Short, signed: true }
    }
}

impl Sealed for i32 {}

impl StaticReflect for i32 {
    open spec fn spec_type_info() -> TypeInfo {
        TypeInfo::Integer(IntType { size: IntSize::Int, signed: true })
    }

    fn type_info() -> (r: TypeInfo) {
        TypeInfo::Integer(IntType { size: IntSize::Int, signed: true })
    }
}

impl PrimInt for i32 {
    open spec fn spec_int_type() -> IntType {
        IntType { size: IntSize::Int, signed: true }
    }

    fn int_type() -> (r: IntType) {
        IntType { size: IntSize::Int, signed: true }
    }
}

impl Sealed for i64 {}

impl StaticReflect for i64 {
    open spec fn spec_type_info() -> TypeInfo {
        TypeInfo::Integer(IntType { size: IntSize::Long, signed: true })
    }

    fn type_info() -> (r: TypeInfo) {
        TypeInfo::Integer(IntType { size: IntSize::Long, signed: true })
    }
}

impl PrimInt for i64 {
    open spec fn spec_int_type() -> IntType {
        IntType { size: IntSize::Long, signed: true }
    }

    fn int_type() -> (r: IntType) {
        IntType { size: IntSize::Long, signed: true }
    }
}

impl Sealed for isize {}

impl StaticReflect for isize {
    open spec fn spec_type_info() -> TypeInfo {
        TypeInfo::Integer(IntType { size: IntSize::Long, signed: true })
    }

    // pointer-sized integers are 8 bytes on the modeled target
    fn type_info() -> (r: TypeInfo) {
        TypeInfo::Integer(IntType { size: IntSize::Long, signed: true })
    }
}

impl PrimInt for isize {
    open spec fn spec_int_type() -> IntType {
        IntType { size: IntSize::Long, signed: true }
    }

    fn int_type() -> (r: IntType) {
        IntType { size: IntSize::Long, signed: true }
    }
}

/// A type which is never zero, where an `Option` of it is guaranteed to
/// use the null-pointer representation: the option shares the type's own
/// size and representation.
pub trait SimpleNonZeroRepr: StaticReflect {}

/// An `Option` of a never-zero type has the representation of its
/// content: the missing value is encoded as zero.
impl<T: SimpleNonZeroRepr> StaticReflect for Option<T> {
    open spec fn spec_type_info() -> TypeInfo {
        T::spec_type_info()
    }

    fn type_info() -> (r: TypeInfo) {
        T::type_info()
    }
}

impl StaticReflect for bool {
    open spec fn spec_type_info() -> TypeInfo {
        TypeInfo::Bool
    }

    fn type_info() -> (r: TypeInfo) {
        TypeInfo::Bool
    }
}

impl StaticReflect for () {
    open spec fn spec_type_info() -> TypeInfo {
        TypeInfo::Unit
    }

    fn type_info() -> (r: TypeInfo) {
        TypeInfo::Unit
    }
}

} // verus!
