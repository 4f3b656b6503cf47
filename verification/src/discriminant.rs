//! The discriminant resolver: assigns effective discriminant values to
//! the variants of a payload-free (C-style) enumeration, and determines
//! the integer type that represents the discriminant.
//!
//! Variants are processed left to right while tracking the last
//! effective value: an explicit literal is taken verbatim and becomes
//! the new anchor; a variant before any explicit literal keeps its
//! declaration index as the default; a variant after one continues the
//! sequence one past the last effective value.
use vstd::prelude::*;

use crate::types::{
    spec_int_size_bytes, CStyleEnumDef, CStyleEnumVariant, DiscriminantValue, IntSize, IntType,
    InvalidSizeErr,
};

verus! {

/// The representation attribute of a type, as the extraction step hands
/// it over.
#[derive(Copy, Clone, Debug, PartialEq, Eq, Structural, Hash)]
pub enum Repr {
    /// `repr(C)`: C-compatible, with no explicit integer width.
    C,
    /// `repr(transparent)`: the representation of the single field.
    Transparent,
    /// A fixed-width integer representation such as `repr(u8)`.
    Integer {
        /// Whether the integer is signed.
        signed: bool,
        /// The width of the integer in bits.
        bits: u32,
    },
}

/// One enumeration variant, as handed to the discriminant resolver.
#[derive(Debug, PartialEq, Eq, Hash)]
#[verifier::ext_equal]
pub struct EnumVariantInput {
    /// The name of the variant.
    pub name: String,
    /// Whether the variant carries payload data. Payload-carrying
    /// variants are not supported and are rejected.
    pub has_payload: bool,
    /// The variant's explicit integer literal, if one was declared.
    pub explicit_value: Option<u64>,
}

/// A structurally valid but currently unhandled input. Distinct from a
/// configuration error: it signals "not yet supported", not "malformed".
#[derive(Copy, Clone, Debug, PartialEq, Eq, Structural, Hash)]
pub enum UnsupportedShapeError {
    /// A variant carries payload data; only payload-free enumerations
    /// are handled.
    PayloadVariant {
        /// The index of the first payload-carrying variant.
        variant_index: usize,
    },
    /// The representation is neither C-compatible nor a fixed-width
    /// integer, so no discriminant type can be derived from it.
    NonIntegerRepr,
}

/// Everything that can abort the construction of an enumeration
/// descriptor.
#[derive(Copy, Clone, Debug, PartialEq, Eq, Structural, Hash)]
pub enum EnumLayoutError {
    /// The enumeration has a currently unhandled shape.
    Unsupported(UnsupportedShapeError),
    /// The representation width names no integer size.
    InvalidSize(InvalidSizeErr),
}

/// The successor of a discriminant value in 64-bit wrapping arithmetic.
pub open spec fn spec_wrapping_inc(v: u64) -> u64 {
    if v == 0xFFFF_FFFF_FFFF_FFFFu64 {
        0u64
    } else {
        (v + 1) as u64
    }
}

/// The last effective discriminant value after the first `n` variants,
/// or `None` while no explicit literal has been seen: an explicit
/// literal becomes the anchor, and each implicit variant after one
/// advances it by one.
pub open spec fn spec_discriminant_state(vs: Seq<EnumVariantInput>, n: int) -> Option<u64>
    decreases n,
{
    if n <= 0 {
        None
    } else {
        let prev = spec_discriminant_state(vs, n - 1);
        match vs[n - 1].explicit_value {
            Some(v) => Some(v),
            None => match prev {
                None => None,
                Some(last) => Some(spec_wrapping_inc(last)),
            },
        }
    }
}

/// The discriminant assigned to variant `i`.
pub open spec fn spec_discriminant(vs: Seq<EnumVariantInput>, i: int) -> DiscriminantValue {
    match vs[i].explicit_value {
        Some(v) => DiscriminantValue::ExplicitInteger { bits: v },
        None => match spec_discriminant_state(vs, i) {
            None => DiscriminantValue::Default { declaration_index: i as usize },
            Some(last) => DiscriminantValue::ImplicitlyOffset { bits: spec_wrapping_inc(last) },
        },
    }
}

/// The variant record emitted for variant `i`.
pub open spec fn spec_enum_variant(vs: Seq<EnumVariantInput>, i: int) -> CStyleEnumVariant {
    CStyleEnumVariant {
        index: i as usize,
        name: vs[i].name,
        discriminant: spec_discriminant(vs, i),
    }
}

/// Whether every variant is payload-free.
pub open spec fn spec_variants_payload_free(vs: Seq<EnumVariantInput>) -> bool {
    forall|i: int| 0 <= i < vs.len() ==> !vs[i].has_payload
}

/// Assign effective discriminant values to the variants of a
/// payload-free enumeration.
///
/// Succeeds exactly when no variant carries payload data; otherwise the
/// first payload-carrying variant is reported. On success every variant
/// is emitted in order with its resolved discriminant: explicit
/// literals verbatim, declaration indices before any explicit literal,
/// and one past the last effective value after one.
pub fn resolve_discriminants(variants: Vec<EnumVariantInput>) -> (r: Result<
    Vec<CStyleEnumVariant>,
    UnsupportedShapeError,
>)
    ensures
        r is Ok <==> spec_variants_payload_free(variants@),
        r matches Ok(out) ==> {
            &&& out@.len() == variants@.len()
            &&& forall|i: int| 0 <= i < variants@.len() ==> out@[i] == spec_enum_variant(
                variants@,
                i,
            )
        },
        r matches Err(e) ==> {
            &&& e matches UnsupportedShapeError::PayloadVariant { variant_index }
            &&& variant_index < variants@.len()
            &&& variants@[e->variant_index as int].has_payload
            &&& forall|j: int| 0 <= j < e->variant_index ==> !variants@[j].has_payload
        },
{
    let n = variants.len();
    let mut i: usize = 0;
    while i < n
        invariant
            n == variants@.len(),
            i <= n,
            forall|j: int| 0 <= j < i ==> !variants@[j].has_payload,
        decreases n - i,
    {
        if variants[i].has_payload {
            return Err(UnsupportedShapeError::PayloadVariant { variant_index: i });
        }
        i = i + 1;
    }
    let ghost all = variants@;
    let mut rest = variants;
    let mut out: Vec<CStyleEnumVariant> = Vec::new();
    let mut last_effective: Option<u64> = None;
    let mut idx: usize = 0;
    while rest.len() > 0
        invariant
            all.len() == n,
            idx + rest@.len() == all.len(),
            rest@ == all.skip(idx as int),
            out@.len() == idx,
            forall|j: int| 0 <= j < idx ==> out@[j] == spec_enum_variant(all, j),
            last_effective == spec_discriminant_state(all, idx as int),
        decreases rest@.len(),
    {
        let ghost i = idx as int;
        proof {
            assert(all.skip(i)[0] == all[i]);
        }
        let v = rest.remove(0);
        proof {
            assert(rest@ =~= all.skip(i + 1));
        }
        let discriminant: DiscriminantValue;
        match v.explicit_value {
            Some(value) => {
                discriminant = DiscriminantValue::ExplicitInteger { bits: value };
                last_effective = Some(value);
            }
            None => {
                match last_effective {
                    None => {
                        discriminant = DiscriminantValue::Default { declaration_index: idx };
                    }
                    Some(last) => {
                        let next = if last == 0xFFFF_FFFF_FFFF_FFFFu64 {
                            0u64
                        } else {
                            last + 1
                        };
                        discriminant = DiscriminantValue::ImplicitlyOffset { bits: next };
                        last_effective = Some(next);
                    }
                }
            }
        }
        out.push(CStyleEnumVariant { index: idx, name: v.name, discriminant });
        idx = idx + 1;
    }
    Ok(out)
}

/// Determine the integer type that represents an enumeration's
/// discriminant.
///
/// A fixed-width integer representation is used verbatim. A merely
/// C-compatible representation takes the ground-truth measured size of
/// the enumeration, treated as unsigned by convention. Any other
/// representation is unsupported, and a width that names no integer
/// size is invalid.
pub fn resolve_discriminant_type(repr: Repr, measured_size: usize) -> (r: Result<
    IntType,
    EnumLayoutError,
>)
    ensures
        repr matches Repr::Integer { signed, bits } ==> {
            &&& r matches Ok(t) ==> t.signed == signed && spec_int_size_bytes(t.size) * 8 == bits
            &&& (r is Ok <==> (bits == 8 || bits == 16 || bits == 32 || bits == 64))
            &&& r matches Err(e) ==> e == EnumLayoutError::InvalidSize(
                InvalidSizeErr { bytes: (bits / 8) as usize },
            )
        },
        repr is C ==> {
            &&& r matches Ok(t) ==> !t.signed && spec_int_size_bytes(t.size) == measured_size
            &&& (r is Ok <==> (measured_size == 1 || measured_size == 2 || measured_size == 4
                || measured_size == 8))
            &&& r matches Err(e) ==> e == EnumLayoutError::InvalidSize(
                InvalidSizeErr { bytes: measured_size },
            )
        },
        repr is Transparent ==> r == Result::<IntType, EnumLayoutError>::Err(
            EnumLayoutError::Unsupported(UnsupportedShapeError::NonIntegerRepr),
        ),
{
    match repr {
        Repr::Integer { signed, bits } => {
            let bytes = (bits / 8) as usize;
            proof {
                assert((bits == 8 || bits == 16 || bits == 32 || bits == 64) <==> (bytes == 1
                    || bytes == 2 || bytes == 4 || bytes == 8) && bits == bytes * 8) by (
                bit_vector)
                    requires
                        bytes == (bits / 8) as usize,
                ;
            }
            match IntSize::from_bytes(bytes) {
                Ok(size) => {
                    if bits == 8 || bits == 16 || bits == 32 || bits == 64 {
                        Ok(IntType { size, signed })
                    } else {
                        Err(EnumLayoutError::InvalidSize(InvalidSizeErr { bytes }))
                    }
                }
                Err(e) => Err(EnumLayoutError::InvalidSize(e)),
            }
        }
        Repr::C => {
            match IntSize::from_bytes(measured_size) {
                Ok(size) => Ok(IntType { size, signed: false }),
                Err(e) => Err(EnumLayoutError::InvalidSize(e)),
            }
        }
        Repr::Transparent => Err(
            EnumLayoutError::Unsupported(UnsupportedShapeError::NonIntegerRepr),
        ),
    }
}

/// Build the descriptor of a payload-free enumeration: determine the
/// discriminant's integer type from the representation and the measured
/// size, then resolve every variant's discriminant.
///
/// Succeeds exactly when the representation yields a discriminant type
/// and no variant carries payload data; a representation problem is
/// reported before a payload problem.
pub fn build_enum(name: String, repr: Repr, measured_size: usize, variants: Vec<
    EnumVariantInput,
>) -> (r: Result<CStyleEnumDef, EnumLayoutError>)
    ensures
        r is Ok <==> ({
            &&& repr matches Repr::Integer { bits, .. } ==> (bits == 8 || bits == 16 || bits == 32
                || bits == 64)
            &&& repr is C ==> (measured_size == 1 || measured_size == 2 || measured_size == 4
                || measured_size == 8)
            &&& !(repr is Transparent)
            &&& spec_variants_payload_free(variants@)
        }),
        r matches Ok(def) ==> {
            &&& def.name == name
            &&& repr matches Repr::Integer { signed, bits } ==> def.discriminant.signed == signed
                && spec_int_size_bytes(def.discriminant.size) * 8 == bits
            &&& repr is C ==> !def.discriminant.signed && spec_int_size_bytes(
                def.discriminant.size,
            ) == measured_size
            &&& def.variants@.len() == variants@.len()
            &&& forall|i: int| 0 <= i < variants@.len() ==> def.variants@[i] == spec_enum_variant(
                variants@,
                i,
            )
        },
{
    let discriminant = match resolve_discriminant_type(repr, measured_size) {
        Ok(t) => t,
        Err(e) => {
            return Err(e);
        }
    };
    let resolved = match resolve_discriminants(variants) {
        Ok(vs) => vs,
        Err(e) => {
            return Err(EnumLayoutError::Unsupported(e));
        }
    };
    Ok(CStyleEnumDef { name, discriminant, variants: resolved })
}

} // verus!
