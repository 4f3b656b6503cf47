//! FFI-safe counterparts of standard library types.
//!
//! These mirror the wire representation the reflection system describes:
//! a slice is a pointer plus a length, a string is a byte slice, and an
//! optional is a presence flag followed by the value. Addresses are held
//! as plain integers; none of these types enforce invariants on the
//! memory they describe.
use vstd::prelude::*;

use crate::types::{spec_alignment_known, spec_type_alignment, TypeInfo};

verus! {

/// An FFI-safe slice (`&[T]`): a start address and a length, with a
/// well-defined C representation.
#[derive(Debug, PartialEq, Eq, Hash)]
pub struct AsmSlice<T> {
    /// The address of the start of the memory.
    pub ptr: usize,
    /// The length of the slice.
    pub len: usize,
    /// The element type the memory holds.
    pub marker: core::marker::PhantomData<T>,
}

impl<T> AsmSlice<T> {
    /// A slice descriptor from a start address and a length.
    pub fn from_raw_parts(ptr: usize, len: usize) -> (r: AsmSlice<T>)
        ensures
            r.ptr == ptr,
            r.len == len,
    {
        AsmSlice { ptr, len, marker: core::marker::PhantomData }
    }
}

/// An FFI-safe UTF8 string: a byte slice with a well-defined C
/// representation. The bytes are expected to be UTF8, but like its
/// slice counterpart the type maintains no invariant on them.
#[derive(Debug, PartialEq, Eq, Hash)]
pub struct AsmStr {
    /// The underlying memory of the string.
    pub bytes: AsmSlice<u8>,
}

impl AsmStr {
    /// The address of the bytes of the string.
    pub fn bytes_ptr(&self) -> (r: usize)
        ensures
            r == self.bytes.ptr,
    {
        self.bytes.ptr
    }

    /// The length of the string in bytes.
    pub fn len(&self) -> (r: usize)
        ensures
            r == self.bytes.len,
    {
        self.bytes.len
    }

    /// Check if the string is empty.
    pub fn is_empty(&self) -> (r: bool)
        ensures
            r == (self.bytes.len == 0),
    {
        self.bytes.len == 0
    }
}

/// An FFI-safe alternative to `Option`: a presence flag followed by the
/// value, never using the null-pointer optimization.
#[derive(Debug)]
pub struct AsmOption<T> {
    /// Whether a value is present.
    pub present: bool,
    /// The value, meaningful only when `present` holds.
    pub value: Option<T>,
}

impl<T> AsmOption<T> {
    /// An option with no value.
    pub fn none() -> (r: AsmOption<T>)
        ensures
            !r.present,
            r.value is None,
    {
        AsmOption { present: false, value: None }
    }

    /// Create an option with a value.
    pub fn some(value: T) -> (r: AsmOption<T>)
        ensures
            r.present,
            r.value == Some(value),
    {
        AsmOption { present: true, value: Some(value) }
    }

    /// If the value of the option is present.
    pub fn is_present(&self) -> (r: bool)
        ensures
            r == self.present,
    {
        self.present
    }

    /// The offset of the presence flag: zero, regardless of the inner
    /// type, since the flag is the first field of a C-representation
    /// structure.
    pub fn present_field_offset() -> (r: usize)
        ensures
            r == 0,
    {
        0
    }

    /// The offset of the value field: the inner type's alignment, since
    /// the value follows the one-byte presence flag padded up to it.
    pub fn value_field_offset(element_type: &TypeInfo) -> (r: usize)
        requires
            spec_alignment_known(*element_type),
        ensures
            r == spec_type_alignment(*element_type),
    {
        element_type.alignment()
    }
}

} // verus!
