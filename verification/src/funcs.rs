//! Reflection information on function declarations.
//!
//! This is pure data assembly from already-resolved descriptors: a name,
//! a safety flag, an optional location, and a signature. It carries no
//! layout algorithm of its own.
use vstd::prelude::*;

use crate::types::TypeInfo;

verus! {

/// The declaration of a function known to the reflection system.
#[derive(Debug, PartialEq, Eq, Hash)]
#[verifier::ext_equal]
pub struct FunctionDeclaration {
    /// The name of the function, as declared in the source code.
    pub name: String,
    /// If the function is unsafe.
    pub is_unsafe: bool,
    /// The location of the function, if known. A declaration without a
    /// location cannot actually be invoked later.
    pub location: Option<FunctionLocation>,
    /// The signature of the function, including its argument and return
    /// types.
    pub signature: SignatureDef,
}

impl FunctionDeclaration {
    /// If the function has a known location at runtime; only then can
    /// it be called later.
    pub fn has_known_location(&self) -> (r: bool)
        ensures
            r == (self.location is Some),
    {
        self.location.is_some()
    }
}

/// The definition of a function's signature: its argument types, return
/// type, and calling convention.
#[derive(Debug, PartialEq, Eq, Hash)]
#[verifier::ext_equal]
pub struct SignatureDef {
    /// The argument types of the function, in order.
    pub argument_types: Vec<TypeInfo>,
    /// The return type of the function.
    pub return_type: TypeInfo,
    /// The calling convention.
    pub calling_convention: CallingConvention,
}

/// The convention used to call code. Currently only the C calling
/// convention is supported.
#[derive(Copy, Clone, Debug, PartialEq, Eq, Structural, Hash)]
pub enum CallingConvention {
    /// The target's C calling convention (`extern "C"`): the default,
    /// with a stable ABI, used to call foreign functions.
    StandardC,
}

impl Default for CallingConvention {
    /// The C calling convention is the default.
    fn default() -> (r: CallingConvention)
        ensures
            r == CallingConvention::StandardC,
    {
        CallingConvention::StandardC
    }
}

/// The location of a function: which code a call should reach.
#[derive(Debug, PartialEq, Eq, Hash)]
#[verifier::ext_equal]
pub enum FunctionLocation {
    /// The function is in a dynamically linked library and will be
    /// resolved by the linker.
    DynamicallyLinked {
        /// The name to be linked against, or `None` if it is the same
        /// as the function's own name.
        link_name: Option<String>,
    },
    /// The function is referred to by an absolute, hardcoded address.
    AbsoluteAddress {
        /// The address, held as a plain integer. A value here can be
        /// forged by entirely safe code and should not by itself be
        /// trusted for memory safety.
        addr: usize,
    },
}

} // verus!
