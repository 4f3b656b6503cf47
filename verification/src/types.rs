//! The descriptor model: the closed set of representable type shapes and
//! their metadata records.
//!
//! Descriptors are plain data. A `Pointer` descriptor never references its
//! pointee's descriptor, so the model is free of reference cycles even for
//! self-referential structures. Sizes and alignments are those of a target
//! with 8-byte pointers, as reported by the structure and union builders.
use vstd::prelude::*;

verus! {

/// An integer size, named in the style of C/Java.
///
/// Although named after their C equivalents, they are not necessarily
/// compatible; the names only fix the byte widths 1, 2, 4 and 8.
#[derive(Copy, Clone, Debug, PartialEq, Eq, Structural, Hash)]
pub enum IntSize {
    /// A single byte (`u8`).
    Byte,
    /// A two byte short (`u16`).
    Short,
    /// A four byte integer (`u32`); the conventional default.
    Int,
    /// An eight byte integer (`u64`).
    Long,
}

/// The number of bytes an [`IntSize`] covers.
pub open spec fn spec_int_size_bytes(s: IntSize) -> int {
    match s {
        IntSize::Byte => 1,
        IntSize::Short => 2,
        IntSize::Int => 4,
        IntSize::Long => 8,
    }
}

/// An error indicating that a byte count names no integer size.
#[derive(Copy, Clone, Debug, PartialEq, Eq, Structural, Hash)]
pub struct InvalidSizeErr {
    /// The size in bytes that is considered invalid.
    pub bytes: usize,
}

impl IntSize {
    /// The size of the integer in bytes.
    pub fn bytes(self) -> (r: usize)
        ensures
            r == spec_int_size_bytes(self),
    {
        match self {
            IntSize::Byte => 1,
            IntSize::Short => 2,
            IntSize::Int => 4,
            IntSize::Long => 8,
        }
    }

    /// Get an integer size corresponding to the specified number of bytes.
    ///
    /// Succeeds exactly on the four byte counts 1, 2, 4 and 8.
    pub fn from_bytes(bytes: usize) -> (r: Result<IntSize, InvalidSizeErr>)
        ensures
            r is Ok <==> (bytes == 1 || bytes == 2 || bytes == 4 || bytes == 8),
            r matches Ok(s) ==> spec_int_size_bytes(s) == bytes,
            r matches Err(e) ==> e == (InvalidSizeErr { bytes }),
    {
        match bytes {
            1 => Ok(IntSize::Byte),
            2 => Ok(IntSize::Short),
            4 => Ok(IntSize::Int),
            8 => Ok(IntSize::Long),
            _ => Err(InvalidSizeErr { bytes }),
        }
    }

    /// Create a new integer size with the specified number of bytes;
    /// the byte count must name one.
    pub fn unwrap_from_bytes(bytes: usize) -> (r: IntSize)
        requires
            bytes == 1 || bytes == 2 || bytes == 4 || bytes == 8,
        ensures
            spec_int_size_bytes(r) == bytes,
    {
        match IntSize::from_bytes(bytes) {
            Ok(r) => r,
            Err(_) => IntSize::Byte,  // unreachable under the precondition
        }
    }

    /// Create an unsigned [`IntType`] with this size.
    pub fn unsigned(self) -> (r: IntType)
        ensures
            r == (IntType { size: self, signed: false }),
    {
        IntType { size: self, signed: false }
    }

    /// Create a signed [`IntType`] with this size.
    pub fn signed(self) -> (r: IntType)
        ensures
            r == (IntType { size: self, signed: true }),
    {
        IntType { size: self, signed: true }
    }

    /// The size of the specified primitive integer.
    pub fn of<T: crate::PrimInt>() -> (r: IntSize)
        ensures
            r == T::spec_int_type().size,
    {
        T::int_type().size
    }
}

impl Default for IntSize {
    /// `int` is the conventional default.
    fn default() -> (r: IntSize)
        ensures
            r == IntSize::Int,
    {
        IntSize::Int
    }
}

/// The size of a floating point number, either single-precision or
/// double-precision.
#[derive(Copy, Clone, Debug, PartialEq, Eq, Structural, Hash)]
pub enum FloatSize {
    /// A single-precision, four byte floating point number.
    Single,
    /// A double-precision, eight byte floating point number;
    /// the conventional default.
    Double,
}

/// The number of bytes a [`FloatSize`] covers.
pub open spec fn spec_float_size_bytes(s: FloatSize) -> int {
    match s {
        FloatSize::Single => 4,
        FloatSize::Double => 8,
    }
}

impl FloatSize {
    /// The number of bytes for a float of this size.
    pub fn bytes(self) -> (r: usize)
        ensures
            r == spec_float_size_bytes(self),
    {
        match self {
            FloatSize::Single => 4,
            FloatSize::Double => 8,
        }
    }

    /// Get a [`FloatSize`] corresponding to the specified number of bytes.
    ///
    /// Succeeds exactly on the byte counts 4 and 8.
    pub fn from_bytes(bytes: usize) -> (r: Result<FloatSize, InvalidSizeErr>)
        ensures
            r is Ok <==> (bytes == 4 || bytes == 8),
            r matches Ok(s) ==> spec_float_size_bytes(s) == bytes,
            r matches Err(e) ==> e == (InvalidSizeErr { bytes }),
    {
        match bytes {
            4 => Ok(FloatSize::Single),
            8 => Ok(FloatSize::Double),
            _ => Err(InvalidSizeErr { bytes }),
        }
    }
}

impl Default for FloatSize {
    /// Double precision is the conventional default.
    fn default() -> (r: FloatSize)
        ensures
            r == FloatSize::Double,
    {
        FloatSize::Double
    }
}

/// An integer type: a size together with a signedness.
#[derive(Copy, Clone, Debug, PartialEq, Eq, Structural, Hash)]
pub struct IntType {
    /// The size of this integer.
    pub size: IntSize,
    /// If this integer is signed.
    pub signed: bool,
}

impl IntType {
    /// The alignment of this integer: on the modeled target every
    /// integer is aligned to its own width.
    pub fn align(&self) -> (r: usize)
        ensures
            r == spec_int_size_bytes(self.size),
    {
        self.size.bytes()
    }

    /// The type of the specified primitive integer.
    pub fn of<T: crate::PrimInt>() -> (r: IntType)
        ensures
            r == T::spec_int_type(),
    {
        T::int_type()
    }
}

/// A type whose representation is known to the reflection system.
///
/// Untyped pointers simplify the model significantly: they avoid cycles
/// when a structure contains a pointer to itself, because a `Pointer`
/// descriptor never records its pointee.
#[derive(Debug, PartialEq, Eq, Hash)]
#[verifier::ext_equal]
pub enum TypeInfo {
    /// The zero-length unit type `()`.
    Unit,
    /// A boolean; values must be either zero or one.
    Bool,
    /// An integer.
    Integer(IntType),
    /// A floating point number.
    Float {
        /// The size/precision of the float.
        size: FloatSize,
    },
    /// A slice of memory, represented as pointer plus length.
    ///
    /// The element type is needed, since array indexing implicitly
    /// multiplies by the size of the element.
    Slice {
        /// The type of the inner element.
        element_type: Box<TypeInfo>,
    },
    /// A pointer to UTF8 encoded bytes plus a length, like Rust's `str`.
    Str,
    /// A very simple optional: a boolean flag followed by the value,
    /// never using the null-pointer representation.
    Optional(Box<TypeInfo>),
    /// An untyped pointer, which may be null.
    Pointer,
    /// A structure.
    Structure(Box<StructureDef>),
    /// An untagged union.
    UntaggedUnion(Box<UntaggedUnionDef>),
    /// A tagged union: an enumeration whose variants carry data.
    TaggedUnion(Box<TaggedUnionDef>),
    /// A C-style enumeration, without any variant data.
    CStyleEnum(Box<CStyleEnumDef>),
    /// A named, opaque, externally defined type.
    Extern {
        /// The name of the type; since this is all that is recorded,
        /// it is what disambiguates between such types.
        name: String,
    },
    /// A 'magic' type with a user-defined meaning, as an extension point.
    Magic {
        /// The id of the magic type, giving more information about how it
        /// is implemented and what it actually means.
        id: String,
        /// Extra information, if any.
        extra: Option<Box<TypeInfo>>,
    },
}

/// A placeholder size reported for types whose true extent the model
/// cannot know (opaque external and magic types).
pub open spec fn spec_dummy_size() -> int {
    0xFFFF_FFFF
}

/// The size in bytes of a descriptor's type.
///
/// The size of an `Optional` is not modeled; [`spec_size_known`] fences
/// it off.
pub open spec fn spec_type_size(t: TypeInfo) -> int {
    match t {
        TypeInfo::Unit => 0,
        TypeInfo::Bool => 1,
        TypeInfo::Integer(tp) => spec_int_size_bytes(tp.size),
        TypeInfo::Float { size } => spec_float_size_bytes(size),
        TypeInfo::Slice { .. } => 16,
        TypeInfo::Str => 16,
        TypeInfo::Optional(_) => 0,
        TypeInfo::Pointer => 8,
        TypeInfo::Structure(def) => def.size as int,
        TypeInfo::UntaggedUnion(def) => def.size as int,
        TypeInfo::TaggedUnion(def) => def.size as int,
        TypeInfo::CStyleEnum(def) => spec_int_size_bytes(def.discriminant.size),
        TypeInfo::Extern { .. } => spec_dummy_size(),
        TypeInfo::Magic { .. } => spec_dummy_size(),
    }
}

/// Whether [`spec_type_size`] speaks for this descriptor.
pub open spec fn spec_size_known(t: TypeInfo) -> bool {
    !(t is Optional)
}

/// The required alignment in bytes of a descriptor's type.
///
/// Opaque external and magic types report 0: no alignment is known for
/// them and they cannot anchor a field. The alignments of `Slice` and
/// `Optional` are not modeled; [`spec_alignment_known`] fences them off.
pub open spec fn spec_type_alignment(t: TypeInfo) -> int {
    match t {
        TypeInfo::Unit => 1,
        TypeInfo::Bool => 1,
        TypeInfo::Integer(tp) => spec_int_size_bytes(tp.size),
        TypeInfo::Float { size } => spec_float_size_bytes(size),
        TypeInfo::Slice { .. } => 0,
        TypeInfo::Str => 8,
        TypeInfo::Optional(_) => 0,
        TypeInfo::Pointer => 8,
        TypeInfo::Structure(def) => def.alignment as int,
        TypeInfo::UntaggedUnion(def) => def.alignment as int,
        TypeInfo::TaggedUnion(def) => def.alignment as int,
        TypeInfo::CStyleEnum(def) => spec_int_size_bytes(def.discriminant.size),
        TypeInfo::Extern { .. } => 0,
        TypeInfo::Magic { .. } => 0,
    }
}

/// Whether [`spec_type_alignment`] speaks for this descriptor.
pub open spec fn spec_alignment_known(t: TypeInfo) -> bool {
    !(t is Optional) && !(t is Slice)
}

impl TypeInfo {
    /// The size of the type, in bytes.
    ///
    /// Opaque external and magic types report a placeholder value.
    pub fn size(&self) -> (r: usize)
        requires
            spec_size_known(*self),
        ensures
            r == spec_type_size(*self),
    {
        match self {
            TypeInfo::Unit => 0,
            TypeInfo::Bool => 1,
            TypeInfo::Integer(tp) => tp.size.bytes(),
            TypeInfo::Float { size } => size.bytes(),
            TypeInfo::Slice { .. } => 16,
            TypeInfo::Str => 16,
            TypeInfo::Optional(_) => 0,  // unreachable under the precondition
            TypeInfo::Pointer => 8,
            TypeInfo::Structure(def) => def.size,
            TypeInfo::UntaggedUnion(def) => def.size,
            TypeInfo::TaggedUnion(def) => def.size,
            TypeInfo::CStyleEnum(def) => def.discriminant.size.bytes(),
            TypeInfo::Extern { .. } => 0xFFFF_FFFF,
            TypeInfo::Magic { .. } => 0xFFFF_FFFF,
        }
    }

    /// The required alignment of the type, in bytes.
    ///
    /// Opaque external and magic types report 0.
    pub fn alignment(&self) -> (r: usize)
        requires
            spec_alignment_known(*self),
        ensures
            r == spec_type_alignment(*self),
    {
        match self {
            TypeInfo::Unit => 1,
            TypeInfo::Bool => 1,
            TypeInfo::Integer(tp) => tp.align(),
            TypeInfo::Float { size } => size.bytes(),
            TypeInfo::Slice { .. } => 0,  // unreachable under the precondition
            TypeInfo::Str => 8,
            TypeInfo::Optional(_) => 0,  // unreachable under the precondition
            TypeInfo::Pointer => 8,
            TypeInfo::Structure(def) => def.alignment,
            TypeInfo::UntaggedUnion(def) => def.alignment,
            TypeInfo::TaggedUnion(def) => def.alignment,
            TypeInfo::CStyleEnum(def) => def.discriminant.align(),
            TypeInfo::Extern { .. } => 0,
            TypeInfo::Magic { .. } => 0,
        }
    }
}

/// Static information on the definition of a structure.
#[derive(Debug, PartialEq, Eq, Hash)]
#[verifier::ext_equal]
pub struct StructureDef {
    /// The name of the structure.
    pub name: String,
    /// All of the fields defined in the structure, in declaration order.
    pub fields: Vec<FieldDef>,
    /// The total size of the structure, including padding.
    pub size: usize,
    /// The required alignment of the structure.
    pub alignment: usize,
}

/// The definition of a structure field.
#[derive(Debug, PartialEq, Eq, Hash)]
#[verifier::ext_equal]
pub struct FieldDef {
    /// The name of the field, or `None` if this is a tuple struct.
    pub name: Option<String>,
    /// The type of the field, as reported to consumers.
    pub value_type: TypeId,
    /// The offset of the field in bytes.
    pub offset: usize,
    /// The numeric index of the field, corresponding to the order of
    /// declaration.
    pub index: usize,
}

impl FieldDef {
    /// The field definition with any statically known typing dropped;
    /// in this model all definitions are already erased, so the field is
    /// returned unchanged.
    pub fn erase(self) -> (r: FieldDef)
        ensures
            r == self,
    {
        self
    }

    /// The offset of the field, in bytes.
    pub fn offset(&self) -> (r: usize)
        ensures
            r == self.offset,
    {
        self.offset
    }
}

/// The definition of a C-style enumeration, whose variants carry no data.
#[derive(Clone, Debug, PartialEq, Eq, Hash)]
#[verifier::ext_equal]
pub struct CStyleEnumDef {
    /// The name of the enumeration.
    pub name: String,
    /// The integer type of the discriminant; this is what determines the
    /// enumeration's runtime size and alignment.
    pub discriminant: IntType,
    /// The valid variants of this enumeration, in declaration order.
    pub variants: Vec<CStyleEnumVariant>,
}

impl CStyleEnumDef {
    /// Determines whether this enumeration has any explicit discriminant
    /// values overriding the defaults.
    ///
    /// If this is `false`, the value of each variant's discriminant is
    /// implicitly equal to its index.
    pub fn has_explicit_discriminants(&self) -> (r: bool)
        ensures
            r == exists|i: int|
                0 <= i < self.variants@.len() && self.variants@[i].discriminant is ExplicitInteger,
    {
        let mut i: usize = 0;
        while i < self.variants.len()
            invariant
                i <= self.variants@.len(),
                forall|j: int| 0 <= j < i ==> !(self.variants@[j].discriminant is ExplicitInteger),
            decreases self.variants@.len() - i,
        {
            if self.variants[i].discriminant.is_explicit() {
                return true;
            }
            i = i + 1;
        }
        false
    }
}

/// A variant in a C-style enumeration.
#[derive(Clone, Debug, PartialEq, Eq, Hash)]
#[verifier::ext_equal]
pub struct CStyleEnumVariant {
    /// The index of this variant, specifying the declaration order.
    pub index: usize,
    /// The name of this variant.
    pub name: String,
    /// The value of the variant's discriminant.
    pub discriminant: DiscriminantValue,
}

/// The value of a variant's discriminant.
#[derive(Copy, Clone, Debug, PartialEq, Eq, Structural, Hash)]
pub enum DiscriminantValue {
    /// The discriminant has the default value, implicitly equal to the
    /// variant's declaration order.
    Default {
        /// The declaration index.
        declaration_index: usize,
    },
    /// This discriminant has not been specified explicitly, but a previous
    /// one has, and implicitly offsets the values that follow it.
    ImplicitlyOffset {
        /// The raw bits of the discriminant, offset past the last
        /// effective value.
        bits: u64,
    },
    /// The discriminant has been specified explicitly.
    ExplicitInteger {
        /// The raw bits of the explicit value; depending on the
        /// discriminant's [`IntType`] this may encode a negative value.
        bits: u64,
    },
}

/// The bits a discriminant resolves to.
pub open spec fn spec_discriminant_bits(d: DiscriminantValue) -> u64 {
    match d {
        DiscriminantValue::Default { declaration_index } => declaration_index as u64,
        DiscriminantValue::ImplicitlyOffset { bits } => bits,
        DiscriminantValue::ExplicitInteger { bits } => bits,
    }
}

impl DiscriminantValue {
    /// Whether this discriminant has been specified explicitly.
    pub fn is_explicit(&self) -> (r: bool)
        ensures
            r == (*self is ExplicitInteger),
    {
        match self {
            DiscriminantValue::ExplicitInteger { .. } => true,
            _ => false,
        }
    }

    /// The bits of the discriminant. Depending on the discriminant's
    /// [`IntType`] it is possible that this encodes a negative value,
    /// even though the static type is `u64`.
    pub fn bits(&self) -> (r: u64)
        ensures
            r == spec_discriminant_bits(*self),
    {
        match self {
            DiscriminantValue::Default { declaration_index } => *declaration_index as u64,
            DiscriminantValue::ImplicitlyOffset { bits } => *bits,
            DiscriminantValue::ExplicitInteger { bits } => *bits,
        }
    }
}

/// The definition of an FFI-compatible enumeration with data: a tagged
/// union.
#[derive(Debug, PartialEq, Eq, Hash)]
#[verifier::ext_equal]
pub struct TaggedUnionDef {
    /// The name of the enumeration.
    pub name: String,
    /// The style of the tagged union; see [`TaggedUnionStyle`].
    pub style: TaggedUnionStyle,
    /// The type of the enumeration's discriminant.
    pub discriminant_type: IntType,
    /// The variants of this tagged union, in declaration order.
    pub variants: Vec<TaggedUnionVariant>,
    /// The size of the type.
    pub size: usize,
    /// The alignment of the type.
    pub alignment: usize,
}

/// A variant in a tagged union.
///
/// This mostly functions as a wrapper around a [`StructureDef`] holding
/// the variant's fields.
#[derive(Debug, PartialEq, Eq, Hash)]
#[verifier::ext_equal]
pub struct TaggedUnionVariant {
    /// The index of this variant, determining the declaration order.
    pub index: usize,
    /// The structure this variant is equivalent to; it has a matching
    /// name, fields, and size.
    pub equivalent_structure: StructureDef,
    /// The value of the variant's discriminant.
    pub discriminant: DiscriminantValue,
}

impl TaggedUnionVariant {
    /// The name of the variant.
    pub fn name(&self) -> (r: &String)
        ensures
            r == &self.equivalent_structure.name,
    {
        &self.equivalent_structure.name
    }
}

/// The definition of an untagged union.
#[derive(Debug, PartialEq, Eq, Hash)]
#[verifier::ext_equal]
pub struct UntaggedUnionDef {
    /// The name of the union.
    pub name: String,
    /// The fields of the union, in declaration order.
    pub fields: Vec<UnionFieldDef>,
    /// The size of the union in bytes: the size of its largest member,
    /// rounded up to the union's alignment.
    pub size: usize,
    /// The required alignment of the union in bytes: the maximum of the
    /// alignments required by its members.
    pub alignment: usize,
}

/// A field of an untagged union.
#[derive(Debug, PartialEq, Eq, Hash)]
#[verifier::ext_equal]
pub struct UnionFieldDef {
    /// The name of the field.
    pub name: String,
    /// The type of the field, as reported to consumers.
    pub value_type: TypeId,
    /// The numeric index of the field; it has no effect on layout but
    /// corresponds to the order of declaration.
    pub index: usize,
}

impl UnionFieldDef {
    /// The field definition with any statically known typing dropped;
    /// in this model all definitions are already erased, so the field is
    /// returned unchanged.
    pub fn erase(self) -> (r: UnionFieldDef)
        ensures
            r == self,
    {
        self
    }

    /// The offset of the field in the union. The fields of a union all
    /// overlap at its start, so this is always zero.
    pub fn offset(&self) -> (r: usize)
        ensures
            r == 0,
    {
        0
    }
}

/// The two FFI-compatible representations of a tagged union.
///
/// The traditional representation stores the tag, padding up to the
/// alignment of the data, and then a union of the variants' data. The
/// primitive representation stores a union of variant structures, each of
/// which begins with the tag, so no padding stands before a variant's
/// data.
#[derive(Copy, Clone, Debug, PartialEq, Eq, Structural, Hash)]
pub enum TaggedUnionStyle {
    /// The traditional representation: a tag followed by a union of the
    /// variants' data, with padding before the start of each variant.
    Traditional,
    /// The primitive representation: a union of variant structures that
    /// each start with the tag, with no padding before the variant data.
    Primitive,
}

impl Default for TaggedUnionStyle {
    /// The traditional representation is the default.
    fn default() -> (r: TaggedUnionStyle)
        ensures
            r == TaggedUnionStyle::Traditional,
    {
        TaggedUnionStyle::Traditional
    }
}

/// A primitive type: the most basic shapes from which all others are
/// constructed.
#[derive(Copy, Clone, Debug, PartialEq, Eq, Structural, Hash)]
pub enum PrimitiveType {
    /// The zero-length type `()`.
    Unit,
    /// A boolean, corresponding to Rust's `bool`.
    Bool,
    /// An untyped pointer, which is possibly null.
    Pointer,
    /// An integer.
    Integer(IntType),
    /// A float.
    Float {
        /// The size/precision of the float.
        size: FloatSize,
    },
}

/// The number of bytes a primitive occupies.
pub open spec fn spec_primitive_bytes(p: PrimitiveType) -> int {
    match p {
        PrimitiveType::Unit => 0,
        PrimitiveType::Bool => 1,
        PrimitiveType::Pointer => 8,
        PrimitiveType::Integer(tp) => spec_int_size_bytes(tp.size),
        PrimitiveType::Float { size } => spec_float_size_bytes(size),
    }
}

/// The descriptor a primitive corresponds to.
pub open spec fn spec_primitive_type_info(p: PrimitiveType) -> TypeInfo {
    match p {
        PrimitiveType::Unit => TypeInfo::Unit,
        PrimitiveType::Bool => TypeInfo::Bool,
        PrimitiveType::Pointer => TypeInfo::Pointer,
        PrimitiveType::Integer(tp) => TypeInfo::Integer(tp),
        PrimitiveType::Float { size } => TypeInfo::Float { size },
    }
}

impl PrimitiveType {
    /// The descriptor for this primitive type.
    pub fn type_info(&self) -> (r: TypeInfo)
        ensures
            r == spec_primitive_type_info(*self),
    {
        match self {
            PrimitiveType::Unit => TypeInfo::Unit,
            PrimitiveType::Bool => TypeInfo::Bool,
            PrimitiveType::Pointer => TypeInfo::Pointer,
            PrimitiveType::Integer(tp) => TypeInfo::Integer(*tp),
            PrimitiveType::Float { size } => TypeInfo::Float { size: *size },
        }
    }

    /// The number of bytes this type takes up.
    pub fn bytes(&self) -> (r: usize)
        ensures
            r == spec_primitive_bytes(*self),
    {
        match self {
            PrimitiveType::Unit => 0,
            PrimitiveType::Bool => 1,
            PrimitiveType::Pointer => 8,
            PrimitiveType::Integer(tp) => tp.size.bytes(),
            PrimitiveType::Float { size } => size.bytes(),
        }
    }

    /// The size of this type, in bytes.
    pub fn size(self) -> (r: usize)
        ensures
            r == spec_primitive_bytes(self),
    {
        self.bytes()
    }
}

/// The ordering of two integer byte counts.
pub open spec fn spec_cmp_int(a: int, b: int) -> core::cmp::Ordering {
    if a < b {
        core::cmp::Ordering::Less
    } else if a == b {
        core::cmp::Ordering::Equal
    } else {
        core::cmp::Ordering::Greater
    }
}

/// How two primitive types compare by size: two integers by width and
/// then by signedness (unsigned first), two floats by precision, equal
/// primitives as equal, and anything else as incomparable.
pub open spec fn spec_primitive_cmp(a: PrimitiveType, b: PrimitiveType) -> Option<
    core::cmp::Ordering,
> {
    match (a, b) {
        (PrimitiveType::Integer(x), PrimitiveType::Integer(y)) => Some(
            if spec_int_size_bytes(x.size) != spec_int_size_bytes(y.size) {
                spec_cmp_int(spec_int_size_bytes(x.size), spec_int_size_bytes(y.size))
            } else if x.signed == y.signed {
                core::cmp::Ordering::Equal
            } else if !x.signed {
                core::cmp::Ordering::Less
            } else {
                core::cmp::Ordering::Greater
            },
        ),
        (PrimitiveType::Float { size: x }, PrimitiveType::Float { size: y }) => Some(
            spec_cmp_int(spec_float_size_bytes(x), spec_float_size_bytes(y)),
        ),
        _ => if a == b {
            Some(core::cmp::Ordering::Equal)
        } else {
            None
        },
    }
}

/// Compare two primitive types based on their sizes.
impl PartialOrd for PrimitiveType {
    fn partial_cmp(&self, other: &Self) -> (r: Option<core::cmp::Ordering>) {
        match (self, other) {
            (PrimitiveType::Integer(x), PrimitiveType::Integer(y)) => {
                let xb = x.size.bytes();
                let yb = y.size.bytes();
                Some(
                    if xb < yb {
                        core::cmp::Ordering::Less
                    } else if xb > yb {
                        core::cmp::Ordering::Greater
                    } else if x.signed == y.signed {
                        core::cmp::Ordering::Equal
                    } else if !x.signed {
                        core::cmp::Ordering::Less
                    } else {
                        core::cmp::Ordering::Greater
                    },
                )
            }
            (PrimitiveType::Float { size: x }, PrimitiveType::Float { size: y }) => {
                let xb = x.bytes();
                let yb = y.bytes();
                Some(
                    if xb < yb {
                        core::cmp::Ordering::Less
                    } else if xb == yb {
                        core::cmp::Ordering::Equal
                    } else {
                        core::cmp::Ordering::Greater
                    },
                )
            }
            _ => {
                if self == other {
                    Some(core::cmp::Ordering::Equal)
                } else {
                    None
                }
            }
        }
    }
}

impl vstd::std_specs::cmp::PartialOrdSpecImpl for PrimitiveType {
    open spec fn obeys_partial_cmp_spec() -> bool {
        true
    }

    open spec fn partial_cmp_spec(&self, other: &Self) -> Option<core::cmp::Ordering> {
        spec_primitive_cmp(*self, *other)
    }
}

/// A reference to a type's descriptor.
#[derive(Debug, PartialEq, Eq, Hash)]
#[verifier::ext_equal]
pub struct TypeId {
    /// The descriptor referred to.
    pub value: TypeInfo,
}

/// The primitive a descriptor corresponds to, or `None` if it is not a
/// primitive.
pub open spec fn spec_type_primitive(t: TypeInfo) -> Option<PrimitiveType> {
    match t {
        TypeInfo::Unit => Some(PrimitiveType::Unit),
        TypeInfo::Bool => Some(PrimitiveType::Bool),
        TypeInfo::Pointer => Some(PrimitiveType::Pointer),
        TypeInfo::Integer(tp) => Some(PrimitiveType::Integer(tp)),
        TypeInfo::Float { size } => Some(PrimitiveType::Float { size }),
        _ => None,
    }
}

impl TypeId {
    /// Get the erased type reference of the specified type `T`.
    pub fn erased<T: crate::StaticReflect>() -> (r: TypeId)
        ensures
            r.value == T::spec_type_info(),
    {
        TypeId::get::<T>().erase()
    }

    /// Get the type reference of the specified type `T`.
    pub fn get<T: crate::StaticReflect>() -> (r: TypeId)
        ensures
            r.value == T::spec_type_info(),
    {
        TypeId { value: T::type_info() }
    }

    /// Wrap the given descriptor in a type reference.
    pub fn from_static(s: TypeInfo) -> (r: TypeId)
        ensures
            r.value == s,
    {
        TypeId { value: s }
    }

    /// Drop any statically known typing from this reference; in this
    /// model references carry none, so the value is returned unchanged.
    pub fn erase(self) -> (r: TypeId)
        ensures
            r == self,
    {
        self
    }

    /// If this type is a boolean.
    pub fn is_bool(&self) -> (r: bool)
        ensures
            r == (spec_type_primitive(self.value) == Some(PrimitiveType::Bool)),
    {
        match &self.value {
            TypeInfo::Bool => true,
            _ => false,
        }
    }

    /// If this type is an integer, of any size.
    pub fn is_int(&self) -> (r: bool)
        ensures
            r == (spec_type_primitive(self.value) matches Some(p) && p is Integer),
    {
        match &self.value {
            TypeInfo::Integer(_) => true,
            _ => false,
        }
    }

    /// If this type is a pointer.
    pub fn is_ptr(&self) -> (r: bool)
        ensures
            r == (spec_type_primitive(self.value) == Some(PrimitiveType::Pointer)),
    {
        match &self.value {
            TypeInfo::Pointer => true,
            _ => false,
        }
    }

    /// If this type is a floating point number, of any size.
    pub fn is_float(&self) -> (r: bool)
        ensures
            r == (spec_type_primitive(self.value) matches Some(p) && p is Float),
    {
        match &self.value {
            TypeInfo::Float { .. } => true,
            _ => false,
        }
    }

    /// If this type is a primitive.
    pub fn is_primitive(&self) -> (r: bool)
        ensures
            r == (spec_type_primitive(self.value) is Some),
    {
        match &self.value {
            TypeInfo::Unit => true,
            TypeInfo::Bool => true,
            TypeInfo::Pointer => true,
            TypeInfo::Integer(_) => true,
            TypeInfo::Float { .. } => true,
            _ => false,
        }
    }

    /// Convert this type into its corresponding [`PrimitiveType`], or
    /// `None` if it is not a primitive.
    pub fn primitive(&self) -> (r: Option<PrimitiveType>)
        ensures
            r == spec_type_primitive(self.value),
    {
        match &self.value {
            TypeInfo::Unit => Some(PrimitiveType::Unit),
            TypeInfo::Bool => Some(PrimitiveType::Bool),
            TypeInfo::Pointer => Some(PrimitiveType::Pointer),
            TypeInfo::Integer(tp) => Some(PrimitiveType::Integer(*tp)),
            TypeInfo::Float { size } => Some(PrimitiveType::Float { size: *size }),
            _ => None,
        }
    }

    /// A reference to the underlying descriptor.
    pub fn type_ref(&self) -> (r: &TypeInfo)
        ensures
            r == &self.value,
    {
        &self.value
    }

    /// Create a type reference from the specified descriptor.
    pub fn from_ref(tp: TypeInfo) -> (r: TypeId)
        ensures
            r.value == tp,
    {
        TypeId { value: tp }
    }
}

/// An indexed identifier of a field.
#[derive(Debug, PartialEq, Eq, Hash)]
#[verifier::ext_equal]
pub struct FieldId {
    /// The owner of the field.
    pub owner: TypeId,
    /// The index of the field.
    pub index: usize,
}

} // verus!


