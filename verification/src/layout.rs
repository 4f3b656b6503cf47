//! The layout engine: field-by-field padding/offset simulation for
//! structures and unions, and the verifier that reconciles a simulated
//! layout against a ground-truth measurement.
//!
//! The engine is a plain data-driven function over declared field types
//! and per-field options. Layout is simulated with `repr(C)` rules:
//! each structure field is placed at the next offset aligned for its
//! anchor type, and the total size is the running offset rounded up to
//! the structural alignment. Union fields all start at offset zero and
//! the size is the largest member rounded up to the union's alignment.
//! A candidate layout is only handed out after the verifier has compared
//! it against the size and alignment the host environment actually
//! assigns the type; any disagreement aborts construction.
use vstd::prelude::*;

use vstd::arithmetic::div_mod::{
    lemma_fundamental_div_mod, lemma_mod_bound, lemma_mod_multiples_basic,
};
use vstd::arithmetic::mul::lemma_mul_nonnegative;

use crate::types::{
    spec_alignment_known, spec_size_known, spec_type_alignment, spec_type_size, FieldDef,
    StructureDef, TaggedUnionStyle, TypeId, TypeInfo, UnionFieldDef, UntaggedUnionDef,
};

verus! {

// ------------------------------------------------------------------
// Engine input
// ------------------------------------------------------------------

/// The declared type of a field, as the extraction step hands it over.
///
/// A fixed-length array is only meaningful together with the
/// `opaque_array` option, which exposes the element while the full array
/// keeps driving the offset arithmetic.
#[derive(Debug, PartialEq, Eq, Hash)]
#[verifier::ext_equal]
pub enum DeclaredType {
    /// An ordinary field whose declared type is a descriptor.
    Plain(TypeInfo),
    /// A fixed-length array field.
    Array {
        /// The descriptor of the array's element type.
        element: TypeInfo,
        /// The number of elements in the array.
        length: usize,
    },
}

/// Validated per-field options.
///
/// The two options are mutually exclusive on one field; specifying both
/// is a configuration error.
#[derive(Debug, PartialEq, Eq, Hash)]
#[verifier::ext_equal]
pub struct FieldOptions {
    /// Treat this trailing array field as opaque and unsized: the
    /// reported field type becomes the array's element type, while the
    /// full array still drives offset arithmetic and the total size.
    pub opaque_array: bool,
    /// Assume the field has the same underlying representation as the
    /// given substitute type. The substitute is what consumers see; the
    /// declared type keeps driving offset arithmetic. It is trusted, not
    /// verified, to share the declared type's ABI representation.
    pub assume_repr: Option<TypeInfo>,
}

impl Default for FieldOptions {
    /// By default neither option is set: most fields are not trailing
    /// arrays, and assuming another representation is opt-in.
    fn default() -> (r: FieldOptions)
        ensures
            !r.opaque_array,
            r.assume_repr is None,
    {
        FieldOptions { opaque_array: false, assume_repr: None }
    }
}

/// One field of a structure or union, as handed to the layout engine.
#[derive(Debug, PartialEq, Eq, Hash)]
#[verifier::ext_equal]
pub struct FieldInput {
    /// The name of the field, or `None` for a positional (tuple) field.
    pub name: Option<String>,
    /// The field's declared type.
    pub declared: DeclaredType,
    /// The field's validated options.
    pub options: FieldOptions,
}

// ------------------------------------------------------------------
// Errors
// ------------------------------------------------------------------

/// The ways a field's options can be misapplied.
#[derive(Copy, Clone, Debug, PartialEq, Eq, Structural, Hash)]
pub enum ConfigurationErrorKind {
    /// `opaque_array` and `assume_repr` were both given on one field.
    OptionConflict,
    /// `opaque_array` was given on a field that is not the last.
    OpaqueArrayNotLast,
    /// `opaque_array` was given on a field whose declared type is not a
    /// fixed-length array.
    OpaqueArrayNotArray,
    /// `opaque_array` was given on a union field.
    OpaqueArrayOnUnion,
}

/// Conflicting or misapplied field options, detected before layout
/// simulation begins.
#[derive(Copy, Clone, Debug, PartialEq, Eq, Structural, Hash)]
pub struct ConfigurationError {
    /// The index of the offending field.
    pub field_index: usize,
    /// What was wrong with the field's options.
    pub kind: ConfigurationErrorKind,
}

/// A simulated size or alignment disagrees with the ground truth the
/// host environment assigns the type. Always fatal, never auto-corrected:
/// silent divergence would propagate wrong offsets into FFI/JIT code.
#[derive(Copy, Clone, Debug, PartialEq, Eq, Structural, Hash)]
pub enum LayoutMismatchError {
    /// The sizes disagree.
    Size,
    /// The alignments disagree.
    Alignment,
}

impl LayoutMismatchError {
    /// A human-readable description of the mismatch.
    pub fn message(&self) -> (r: &'static str)
        ensures
            *self is Size ==> r@ == "Mismatched size"@,
            *self is Alignment ==> r@ == "Mismatched alignments"@,
    {
        match self {
            LayoutMismatchError::Size => "Mismatched size",
            LayoutMismatchError::Alignment => "Mismatched alignments",
        }
    }
}

/// Everything that can abort the construction of a structure or union
/// descriptor.
#[derive(Copy, Clone, Debug, PartialEq, Eq, Structural, Hash)]
pub enum LayoutError {
    /// The field options were conflicting or misapplied.
    Configuration(ConfigurationError),
    /// The simulated layout disagrees with the ground truth.
    Mismatch(LayoutMismatchError),
}

// ------------------------------------------------------------------
// Configuration validity
// ------------------------------------------------------------------

/// What is wrong with a structure field's options, if anything.
///
/// The checks apply in the order the engine reports them: a conflict of
/// the two options first, then a misplaced `opaque_array`, then an
/// `opaque_array` on a non-array field.
pub open spec fn spec_field_issue(f: FieldInput, is_last: bool) -> Option<ConfigurationErrorKind> {
    if f.options.opaque_array && f.options.assume_repr is Some {
        Some(ConfigurationErrorKind::OptionConflict)
    } else if f.options.opaque_array && !is_last {
        Some(ConfigurationErrorKind::OpaqueArrayNotLast)
    } else if f.options.opaque_array && !(f.declared is Array) {
        Some(ConfigurationErrorKind::OpaqueArrayNotArray)
    } else {
        None
    }
}

/// Whether a structure field list is free of configuration errors.
pub open spec fn spec_struct_config_ok(fs: Seq<FieldInput>) -> bool {
    forall|i: int|
        0 <= i < fs.len() ==> spec_field_issue(fs[i], i == fs.len() - 1) is None
}

/// What is wrong with a union field's options, if anything:
/// `opaque_array` is disallowed on unions altogether.
pub open spec fn spec_union_field_issue(f: FieldInput) -> Option<ConfigurationErrorKind> {
    if f.options.opaque_array && f.options.assume_repr is Some {
        Some(ConfigurationErrorKind::OptionConflict)
    } else if f.options.opaque_array {
        Some(ConfigurationErrorKind::OpaqueArrayOnUnion)
    } else {
        None
    }
}

/// Whether a union field list is free of configuration errors.
pub open spec fn spec_union_config_ok(fs: Seq<FieldInput>) -> bool {
    forall|i: int| 0 <= i < fs.len() ==> spec_union_field_issue(fs[i]) is None
}

// ------------------------------------------------------------------
// Anchor and exposed types
// ------------------------------------------------------------------

/// The size of the field's anchor type: the type whose true extent
/// drives offset arithmetic. For an array field that is the whole array.
pub open spec fn spec_anchor_size(f: FieldInput) -> int {
    match f.declared {
        DeclaredType::Plain(t) => spec_type_size(t),
        DeclaredType::Array { element, length } => length * spec_type_size(element),
    }
}

/// The alignment of the field's anchor type. An array is aligned as its
/// element is.
pub open spec fn spec_anchor_alignment(f: FieldInput) -> int {
    match f.declared {
        DeclaredType::Plain(t) => spec_type_alignment(t),
        DeclaredType::Array { element, .. } => spec_type_alignment(element),
    }
}

/// Whether the field's anchor type can take part in layout arithmetic:
/// its size and alignment are modeled and the alignment is positive.
pub open spec fn spec_anchor_layoutable(f: FieldInput) -> bool {
    match f.declared {
        DeclaredType::Plain(t) => spec_size_known(t) && spec_alignment_known(t)
            && spec_type_alignment(t) >= 1,
        DeclaredType::Array { element, .. } => spec_size_known(element)
            && spec_alignment_known(element) && spec_type_alignment(element) >= 1,
    }
}

/// Whether every field of the list can take part in layout arithmetic.
pub open spec fn spec_fields_layoutable(fs: Seq<FieldInput>) -> bool {
    forall|i: int| 0 <= i < fs.len() ==> spec_anchor_layoutable(fs[i])
}

/// Whether every array-typed field carries the `opaque_array` option.
/// A plain array field has no descriptor in the model, so the engine
/// only accepts arrays in opaque position.
pub open spec fn spec_arrays_opaque(fs: Seq<FieldInput>) -> bool {
    forall|i: int| 0 <= i < fs.len() ==> (fs[i].declared is Array ==> fs[i].options.opaque_array)
}

/// The type reported to consumers for a field: the `assume_repr`
/// substitute if one was given, the element type of an opaque array, or
/// the declared type itself.
pub open spec fn spec_exposed_type(f: FieldInput) -> TypeInfo {
    match f.options.assume_repr {
        Some(substitute) => substitute,
        None => match f.declared {
            DeclaredType::Plain(t) => t,
            DeclaredType::Array { element, .. } => element,
        },
    }
}

// ------------------------------------------------------------------
// Padding and offsets
// ------------------------------------------------------------------

/// The padding needed to advance `offset` to the next multiple of
/// `align`.
pub open spec fn spec_pad(offset: int, align: int) -> int
    recommends
        align >= 1,
{
    let rem = offset % align;
    if rem == 0 {
        0
    } else {
        align - rem
    }
}

/// `n` rounded up to the next multiple of `align`.
pub open spec fn spec_round_up(n: int, align: int) -> int
    recommends
        align >= 1,
{
    n + spec_pad(n, align)
}

/// The running offset after the first `n` fields of a structure have
/// been placed: each field is padded to its anchor alignment and then
/// consumes its anchor size.
pub open spec fn spec_running_offset(fs: Seq<FieldInput>, n: int) -> int
    decreases n,
{
    if n <= 0 {
        0
    } else {
        spec_round_up(spec_running_offset(fs, n - 1), spec_anchor_alignment(fs[n - 1]))
            + spec_anchor_size(fs[n - 1])
    }
}

/// The byte offset of field `i` of a structure.
pub open spec fn spec_field_offset(fs: Seq<FieldInput>, i: int) -> int {
    spec_round_up(spec_running_offset(fs, i), spec_anchor_alignment(fs[i]))
}

/// The structural alignment: the maximum anchor alignment over all
/// fields, defaulting to the unit alignment 1 when there are none.
pub open spec fn spec_struct_alignment(fs: Seq<FieldInput>) -> int
    decreases fs.len(),
{
    if fs.len() == 0 {
        1
    } else {
        let rest = spec_struct_alignment(fs.drop_last());
        let a = spec_anchor_alignment(fs.last());
        if a > rest {
            a
        } else {
            rest
        }
    }
}

/// The simulated total size of a structure: the final running offset
/// rounded up to the structural alignment.
pub open spec fn spec_struct_size(fs: Seq<FieldInput>) -> int {
    spec_round_up(spec_running_offset(fs, fs.len() as int), spec_struct_alignment(fs))
}

/// The descriptor emitted for field `i` of a structure.
pub open spec fn spec_field_def(fs: Seq<FieldInput>, i: int) -> FieldDef {
    FieldDef {
        name: fs[i].name,
        value_type: TypeId { value: spec_exposed_type(fs[i]) },
        offset: spec_field_offset(fs, i) as usize,
        index: i as usize,
    }
}

/// The size of the largest union member, 0 when there are none.
pub open spec fn spec_union_max_size(fs: Seq<FieldInput>) -> int
    decreases fs.len(),
{
    if fs.len() == 0 {
        0
    } else {
        let rest = spec_union_max_size(fs.drop_last());
        let s = spec_anchor_size(fs.last());
        if s > rest {
            s
        } else {
            rest
        }
    }
}

/// The union's alignment: the maximum anchor alignment over all fields,
/// defaulting to the unit alignment 1 when there are none.
pub open spec fn spec_union_alignment(fs: Seq<FieldInput>) -> int
    decreases fs.len(),
{
    if fs.len() == 0 {
        1
    } else {
        let rest = spec_union_alignment(fs.drop_last());
        let a = spec_anchor_alignment(fs.last());
        if a > rest {
            a
        } else {
            rest
        }
    }
}

/// The simulated total size of a union: the largest member rounded up to
/// the union's alignment.
pub open spec fn spec_union_size(fs: Seq<FieldInput>) -> int {
    spec_round_up(spec_union_max_size(fs), spec_union_alignment(fs))
}

/// The descriptor emitted for field `i` of a union.
pub open spec fn spec_union_field_def(fs: Seq<FieldInput>, i: int) -> UnionFieldDef {
    UnionFieldDef {
        name: fs[i].name->0,
        value_type: TypeId { value: spec_exposed_type(fs[i]) },
        index: i as usize,
    }
}

// ------------------------------------------------------------------
// Arithmetic facts
// ------------------------------------------------------------------

/// Padding advances an offset by less than one alignment unit and lands
/// on a multiple of the alignment.
pub proof fn lemma_pad_bounds(offset: int, align: int)
    requires
        offset >= 0,
        align >= 1,
    ensures
        0 <= spec_pad(offset, align) < align,
        spec_round_up(offset, align) % align == 0,
{
    lemma_mod_bound(offset, align);
    let rem = offset % align;
    if rem == 0 {
        assert(spec_round_up(offset, align) == offset);
    } else {
        lemma_fundamental_div_mod(offset, align);
        let q = offset / align;
        assert(align * (q + 1) == align * q + align) by (nonlinear_arith);
        assert(spec_round_up(offset, align) == align * (q + 1)) by {
            assert(offset == align * q + rem);
        }
        lemma_mod_multiples_basic(q + 1, align);
        assert(align * (q + 1) == (q + 1) * align);
    }
}

/// Anchor sizes are never negative.
pub proof fn lemma_anchor_size_nonneg(f: FieldInput)
    ensures
        spec_anchor_size(f) >= 0,
{
    match f.declared {
        DeclaredType::Plain(_) => {}
        DeclaredType::Array { element, length } => {
            lemma_mul_nonnegative(length as int, spec_type_size(element));
        }
    }
}

/// Running offsets are non-negative and non-decreasing.
pub proof fn lemma_running_offset_bounds(fs: Seq<FieldInput>, n: int)
    requires
        spec_fields_layoutable(fs),
        0 <= n <= fs.len(),
    ensures
        0 <= spec_running_offset(fs, n),
        forall|m: int| 0 <= m <= n ==> spec_running_offset(fs, m) <= spec_running_offset(fs, n),
    decreases n,
{
    if n > 0 {
        lemma_running_offset_bounds(fs, n - 1);
        lemma_anchor_size_nonneg(fs[n - 1]);
        lemma_pad_bounds(spec_running_offset(fs, n - 1), spec_anchor_alignment(fs[n - 1]));
    }
}

/// The structural alignment is positive and bounds every field's anchor
/// alignment.
pub proof fn lemma_struct_alignment_bounds(fs: Seq<FieldInput>)
    ensures
        spec_struct_alignment(fs) >= 1,
        forall|i: int|
            0 <= i < fs.len() ==> spec_anchor_alignment(fs[i]) <= spec_struct_alignment(fs),
    decreases fs.len(),
{
    if fs.len() > 0 {
        lemma_struct_alignment_bounds(fs.drop_last());
        assert forall|i: int|
            0 <= i < fs.len() implies spec_anchor_alignment(fs[i]) <= spec_struct_alignment(fs) by {
            if i < fs.len() - 1 {
                assert(fs.drop_last()[i] == fs[i]);
            }
        }
    }
}

/// The union alignment is positive and bounds every field's anchor
/// alignment; the union's maximal member size bounds every field's size.
pub proof fn lemma_union_alignment_bounds(fs: Seq<FieldInput>)
    ensures
        spec_union_alignment(fs) >= 1,
        spec_union_max_size(fs) >= 0,
        forall|i: int|
            0 <= i < fs.len() ==> spec_anchor_alignment(fs[i]) <= spec_union_alignment(fs),
        forall|i: int| 0 <= i < fs.len() ==> spec_anchor_size(fs[i]) <= spec_union_max_size(fs),
    decreases fs.len(),
{
    if fs.len() > 0 {
        lemma_union_alignment_bounds(fs.drop_last());
        lemma_anchor_size_nonneg(fs.last());
        assert forall|i: int|
            0 <= i < fs.len() implies spec_anchor_alignment(fs[i]) <= spec_union_alignment(fs)
            && spec_anchor_size(fs[i]) <= spec_union_max_size(fs) by {
            if i < fs.len() - 1 {
                assert(fs.drop_last()[i] == fs[i]);
            }
        }
    }
}

/// Every field of a structure ends at or before the simulated total
/// size, which in turn starts at or after the final running offset.
pub proof fn lemma_struct_size_bounds(fs: Seq<FieldInput>)
    requires
        spec_fields_layoutable(fs),
    ensures
        spec_running_offset(fs, fs.len() as int) <= spec_struct_size(fs),
        0 <= spec_struct_size(fs),
        forall|i: int|
            0 <= i < fs.len() ==> spec_field_offset(fs, i) + spec_anchor_size(fs[i])
                <= spec_struct_size(fs),
{
    let n = fs.len() as int;
    lemma_running_offset_bounds(fs, n);
    lemma_struct_alignment_bounds(fs);
    lemma_pad_bounds(spec_running_offset(fs, n), spec_struct_alignment(fs));
    assert forall|i: int|
        0 <= i < fs.len() implies spec_field_offset(fs, i) + spec_anchor_size(fs[i])
        <= spec_struct_size(fs) by {
        assert(spec_running_offset(fs, i + 1) == spec_field_offset(fs, i) + spec_anchor_size(
            fs[i],
        ));
    }
}

// ------------------------------------------------------------------
// The structure engine
// ------------------------------------------------------------------

/// The padding needed to advance `offset` to the next multiple of
/// `align`.
fn padding_for(offset: usize, align: usize) -> (r: usize)
    requires
        align >= 1,
    ensures
        r == spec_pad(offset as int, align as int),
        offset + r == spec_round_up(offset as int, align as int),
{
    let rem = offset % align;
    if rem == 0 {
        0
    } else {
        align - rem
    }
}

/// Scan a structure field list for misapplied options, returning the
/// first offending field.
fn check_structure_fields(fields: &Vec<FieldInput>) -> (r: Option<ConfigurationError>)
    ensures
        r is None <==> spec_struct_config_ok(fields@),
        r matches Some(e) ==> {
            &&& e.field_index < fields@.len()
            &&& spec_field_issue(
                fields@[e.field_index as int],
                e.field_index == fields@.len() - 1,
            ) == Some(e.kind)
            &&& forall|j: int|
                0 <= j < e.field_index ==> spec_field_issue(
                    fields@[j],
                    j == fields@.len() - 1,
                ) is None
        },
{
    let n = fields.len();
    let mut i: usize = 0;
    while i < n
        invariant
            n == fields@.len(),
            i <= n,
            forall|j: int| 0 <= j < i ==> spec_field_issue(fields@[j], j == n - 1) is None,
        decreases n - i,
    {
        let f = &fields[i];
        if f.options.opaque_array {
            if f.options.assume_repr.is_some() {
                return Some(
                    ConfigurationError {
                        field_index: i,
                        kind: ConfigurationErrorKind::OptionConflict,
                    },
                );
            }
            if i + 1 != n {
                return Some(
                    ConfigurationError {
                        field_index: i,
                        kind: ConfigurationErrorKind::OpaqueArrayNotLast,
                    },
                );
            }
            match &f.declared {
                DeclaredType::Array { .. } => {}
                DeclaredType::Plain(_) => {
                    return Some(
                        ConfigurationError {
                            field_index: i,
                            kind: ConfigurationErrorKind::OpaqueArrayNotArray,
                        },
                    );
                }
            }
        }
        i = i + 1;
    }
    None
}

/// Simulate the `repr(C)` layout of a structure from its ordered field
/// list.
///
/// On success the returned descriptor carries one field per input, in
/// order, each with its exposed type and computed byte offset, and the
/// simulated total size and alignment. Misapplied options are reported
/// as the configuration error of the first offending field.
pub fn simulate_structure(name: String, fields: Vec<FieldInput>) -> (r: Result<
    StructureDef,
    ConfigurationError,
>)
    requires
        spec_arrays_opaque(fields@),
        spec_struct_config_ok(fields@) ==> spec_fields_layoutable(fields@) && spec_struct_size(
            fields@,
        ) <= usize::MAX,
    ensures
        r is Ok <==> spec_struct_config_ok(fields@),
        r matches Ok(def) ==> {
            &&& def.name == name
            &&& def.fields@.len() == fields@.len()
            &&& forall|i: int| 0 <= i < fields@.len() ==> def.fields@[i] == spec_field_def(
                fields@,
                i,
            )
            &&& def.size == spec_struct_size(fields@)
            &&& def.alignment == spec_struct_alignment(fields@)
        },
        r matches Err(e) ==> {
            &&& e.field_index < fields@.len()
            &&& spec_field_issue(
                fields@[e.field_index as int],
                e.field_index == fields@.len() - 1,
            ) == Some(e.kind)
            &&& forall|j: int|
                0 <= j < e.field_index ==> spec_field_issue(
                    fields@[j],
                    j == fields@.len() - 1,
                ) is None
        },
{
    if let Some(e) = check_structure_fields(&fields) {
        return Err(e);
    }
    let ghost all = fields@;
    let total = fields.len();
    proof {
        lemma_running_offset_bounds(all, all.len() as int);
        lemma_struct_alignment_bounds(all);
        lemma_struct_size_bounds(all);
    }
    let mut rest = fields;
    let mut defs: Vec<FieldDef> = Vec::new();
    let mut running: usize = 0;
    let mut max_align: usize = 1;
    let mut idx: usize = 0;
    while rest.len() > 0
        invariant
            all.len() == total,
            idx + rest@.len() == all.len(),
            rest@ == all.skip(idx as int),
            defs@.len() == idx,
            forall|j: int| 0 <= j < idx ==> defs@[j] == spec_field_def(all, j),
            running == spec_running_offset(all, idx as int),
            max_align == spec_struct_alignment(all.take(idx as int)),
            spec_arrays_opaque(all),
            spec_struct_config_ok(all),
            spec_fields_layoutable(all),
            spec_struct_size(all) <= usize::MAX,
        decreases rest@.len(),
    {
        let ghost i = idx as int;
        proof {
            assert(all.skip(i)[0] == all[i]);
        }
        let f = rest.remove(0);
        proof {
            assert(rest@ =~= all.skip(i + 1));
            assert(spec_anchor_layoutable(all[i]));
            lemma_running_offset_bounds(all, all.len() as int);
            lemma_struct_size_bounds(all);
            assert(spec_running_offset(all, i + 1) <= spec_running_offset(
                all,
                all.len() as int,
            ));
            assert(spec_field_offset(all, i) + spec_anchor_size(all[i]) == spec_running_offset(
                all,
                i + 1,
            ));
            lemma_anchor_size_nonneg(all[i]);
            lemma_pad_bounds(spec_running_offset(all, i), spec_anchor_alignment(all[i]));
        }
        let FieldInput { name: field_name, declared, options } = f;
        let a_size: usize;
        let a_align: usize;
        let exposed: TypeInfo;
        match declared {
            DeclaredType::Plain(t) => {
                a_size = t.size();
                a_align = t.alignment();
                exposed = match options.assume_repr {
                    Some(substitute) => substitute,
                    None => t,
                };
            }
            DeclaredType::Array { element, length } => {
                // arrays only occur in opaque position, where no
                // substitute type can be present
                let element_size = element.size();
                a_align = element.alignment();
                a_size = length * element_size;
                exposed = element;
            }
        }
        let pad = padding_for(running, a_align);
        let offset = running + pad;
        defs.push(
            FieldDef { name: field_name, value_type: TypeId { value: exposed }, offset, index: idx },
        );
        running = offset + a_size;
        if a_align > max_align {
            max_align = a_align;
        }
        proof {
            assert(all.take(i + 1).drop_last() =~= all.take(i));
            assert(all.take(i + 1).last() == all[i]);
            assert(defs@[i] == spec_field_def(all, i));
        }
        idx = idx + 1;
    }
    proof {
        assert(all.take(all.len() as int) =~= all);
        lemma_struct_alignment_bounds(all);
        lemma_struct_size_bounds(all);
    }
    let trailing = padding_for(running, max_align);
    let size = running + trailing;
    Ok(StructureDef { name, fields: defs, size, alignment: max_align })
}

// ------------------------------------------------------------------
// The verifier
// ------------------------------------------------------------------

/// Reconcile a simulated size and alignment against the ground truth
/// the host environment assigns the type.
///
/// Succeeds exactly when both values agree; a size mismatch is reported
/// before an alignment mismatch. The check is mandatory and
/// unconditional: field-by-field simulation can silently diverge from
/// the real layout, and such divergence must abort construction.
pub fn verify_layout(
    expected_size: usize,
    expected_alignment: usize,
    measured_size: usize,
    measured_alignment: usize,
) -> (r: Result<(), LayoutMismatchError>)
    ensures
        r is Ok <==> (expected_size == measured_size && expected_alignment
            == measured_alignment),
        r matches Err(e) ==> e == (if expected_size != measured_size {
            LayoutMismatchError::Size
        } else {
            LayoutMismatchError::Alignment
        }),
{
    if expected_size != measured_size {
        Err(LayoutMismatchError::Size)
    } else if expected_alignment != measured_alignment {
        Err(LayoutMismatchError::Alignment)
    } else {
        Ok(())
    }
}

/// Build a verified structure descriptor: simulate the layout from the
/// field list, then require the simulation to agree with the measured
/// ground truth.
///
/// Succeeds exactly when the options are well-formed and the simulation
/// matches the measurement; a configuration error takes precedence over
/// a mismatch, and a size mismatch over an alignment mismatch.
pub fn build_structure(
    name: String,
    fields: Vec<FieldInput>,
    measured_size: usize,
    measured_alignment: usize,
) -> (r: Result<StructureDef, LayoutError>)
    requires
        spec_arrays_opaque(fields@),
        spec_struct_config_ok(fields@) ==> spec_fields_layoutable(fields@) && spec_struct_size(
            fields@,
        ) <= usize::MAX,
    ensures
        r is Ok <==> (spec_struct_config_ok(fields@) && measured_size == spec_struct_size(
            fields@,
        ) && measured_alignment == spec_struct_alignment(fields@)),
        r matches Ok(def) ==> {
            &&& def.name == name
            &&& def.fields@.len() == fields@.len()
            &&& forall|i: int| 0 <= i < fields@.len() ==> def.fields@[i] == spec_field_def(
                fields@,
                i,
            )
            &&& def.size == measured_size
            &&& def.alignment == measured_alignment
        },
        r matches Err(LayoutError::Configuration(e)) ==> {
            &&& !spec_struct_config_ok(fields@)
            &&& e.field_index < fields@.len()
            &&& spec_field_issue(
                fields@[e.field_index as int],
                e.field_index == fields@.len() - 1,
            ) == Some(e.kind)
            &&& forall|j: int|
                0 <= j < e.field_index ==> spec_field_issue(
                    fields@[j],
                    j == fields@.len() - 1,
                ) is None
        },
        r matches Err(LayoutError::Mismatch(e)) ==> {
            &&& spec_struct_config_ok(fields@)
            &&& e == (if measured_size != spec_struct_size(fields@) {
                LayoutMismatchError::Size
            } else {
                LayoutMismatchError::Alignment
            })
        },
{
    match simulate_structure(name, fields) {
        Err(e) => Err(LayoutError::Configuration(e)),
        Ok(def) => match verify_layout(def.size, def.alignment, measured_size,
            measured_alignment) {
            Ok(()) => Ok(def),
            Err(m) => Err(LayoutError::Mismatch(m)),
        },
    }
}

// ------------------------------------------------------------------
// The union engine
// ------------------------------------------------------------------

/// Scan a union field list for misapplied options, returning the first
/// offending field.
fn check_union_fields(fields: &Vec<FieldInput>) -> (r: Option<ConfigurationError>)
    ensures
        r is None <==> spec_union_config_ok(fields@),
        r matches Some(e) ==> {
            &&& e.field_index < fields@.len()
            &&& spec_union_field_issue(fields@[e.field_index as int]) == Some(e.kind)
            &&& forall|j: int|
                0 <= j < e.field_index ==> spec_union_field_issue(fields@[j]) is None
        },
{
    let n = fields.len();
    let mut i: usize = 0;
    while i < n
        invariant
            n == fields@.len(),
            i <= n,
            forall|j: int| 0 <= j < i ==> spec_union_field_issue(fields@[j]) is None,
        decreases n - i,
    {
        let f = &fields[i];
        if f.options.opaque_array {
            if f.options.assume_repr.is_some() {
                return Some(
                    ConfigurationError {
                        field_index: i,
                        kind: ConfigurationErrorKind::OptionConflict,
                    },
                );
            }
            return Some(
                ConfigurationError {
                    field_index: i,
                    kind: ConfigurationErrorKind::OpaqueArrayOnUnion,
                },
            );
        }
        i = i + 1;
    }
    None
}

/// Simulate the `repr(C)` layout of an untagged union from its field
/// list: every member starts at offset zero, the alignment is the
/// largest member alignment, and the size is the largest member size
/// rounded up to that alignment.
///
/// Union fields must be named; `opaque_array` is disallowed and is
/// reported as the configuration error of the first offending field.
pub fn simulate_union(name: String, fields: Vec<FieldInput>) -> (r: Result<
    UntaggedUnionDef,
    ConfigurationError,
>)
    requires
        spec_arrays_opaque(fields@),
        forall|i: int| 0 <= i < fields@.len() ==> fields@[i].name is Some,
        spec_union_config_ok(fields@) ==> spec_fields_layoutable(fields@) && spec_union_size(
            fields@,
        ) <= usize::MAX,
    ensures
        r is Ok <==> spec_union_config_ok(fields@),
        r matches Ok(def) ==> {
            &&& def.name == name
            &&& def.fields@.len() == fields@.len()
            &&& forall|i: int| 0 <= i < fields@.len() ==> def.fields@[i] == spec_union_field_def(
                fields@,
                i,
            )
            &&& def.size == spec_union_size(fields@)
            &&& def.alignment == spec_union_alignment(fields@)
        },
        r matches Err(e) ==> {
            &&& e.field_index < fields@.len()
            &&& spec_union_field_issue(fields@[e.field_index as int]) == Some(e.kind)
            &&& forall|j: int|
                0 <= j < e.field_index ==> spec_union_field_issue(fields@[j]) is None
        },
{
    if let Some(e) = check_union_fields(&fields) {
        return Err(e);
    }
    let ghost all = fields@;
    let total = fields.len();
    proof {
        lemma_union_alignment_bounds(all);
        lemma_pad_bounds(spec_union_max_size(all), spec_union_alignment(all));
    }
    let mut rest = fields;
    let mut defs: Vec<UnionFieldDef> = Vec::new();
    let mut max_size: usize = 0;
    let mut max_align: usize = 1;
    let mut idx: usize = 0;
    while rest.len() > 0
        invariant
            all.len() == total,
            idx + rest@.len() == all.len(),
            rest@ == all.skip(idx as int),
            defs@.len() == idx,
            forall|j: int| 0 <= j < idx ==> defs@[j] == spec_union_field_def(all, j),
            max_size == spec_union_max_size(all.take(idx as int)),
            max_align == spec_union_alignment(all.take(idx as int)),
            forall|i: int| 0 <= i < all.len() ==> all[i].name is Some,
            spec_arrays_opaque(all),
            spec_union_config_ok(all),
            spec_fields_layoutable(all),
            spec_union_size(all) <= usize::MAX,
        decreases rest@.len(),
    {
        let ghost i = idx as int;
        proof {
            assert(all.skip(i)[0] == all[i]);
        }
        let f = rest.remove(0);
        proof {
            assert(rest@ =~= all.skip(i + 1));
            assert(spec_anchor_layoutable(all[i]));
            assert(spec_union_field_issue(all[i]) is None);
            lemma_union_alignment_bounds(all);
            lemma_pad_bounds(spec_union_max_size(all), spec_union_alignment(all));
            lemma_union_prefix_bounds(all, i + 1);
        }
        let FieldInput { name: field_name, declared, options } = f;
        let a_size: usize;
        let a_align: usize;
        let exposed: TypeInfo;
        match declared {
            DeclaredType::Plain(t) => {
                a_size = t.size();
                a_align = t.alignment();
                exposed = match options.assume_repr {
                    Some(substitute) => substitute,
                    None => t,
                };
            }
            DeclaredType::Array { element, .. } => {
                // an array field always fails the option checks above,
                // so this arm is unreachable on the success path
                proof {
                    assert(false);
                }
                a_size = 0;
                a_align = 1;
                exposed = element;
            }
        }
        defs.push(
            UnionFieldDef {
                name: field_name.unwrap(),
                value_type: TypeId { value: exposed },
                index: idx,
            },
        );
        if a_size > max_size {
            max_size = a_size;
        }
        if a_align > max_align {
            max_align = a_align;
        }
        proof {
            assert(all.take(i + 1).drop_last() =~= all.take(i));
            assert(all.take(i + 1).last() == all[i]);
            assert(defs@[i] == spec_union_field_def(all, i));
        }
        idx = idx + 1;
    }
    proof {
        assert(all.take(all.len() as int) =~= all);
        lemma_union_alignment_bounds(all);
        lemma_pad_bounds(spec_union_max_size(all), spec_union_alignment(all));
    }
    let trailing = padding_for(max_size, max_align);
    let size = max_size + trailing;
    Ok(UntaggedUnionDef { name, fields: defs, size, alignment: max_align })
}

/// A union prefix never has a larger member or stricter alignment than
/// the whole list.
proof fn lemma_union_prefix_bounds(fs: Seq<FieldInput>, n: int)
    requires
        0 <= n <= fs.len(),
    ensures
        spec_union_max_size(fs.take(n)) <= spec_union_max_size(fs),
        spec_union_alignment(fs.take(n)) <= spec_union_alignment(fs),
    decreases fs.len(),
{
    if n < fs.len() {
        assert(fs.drop_last().take(n) =~= fs.take(n));
        lemma_union_prefix_bounds(fs.drop_last(), n);
        lemma_union_alignment_bounds(fs);
        lemma_anchor_size_nonneg(fs.last());
    } else {
        assert(fs.take(n) =~= fs);
    }
}

/// Build a verified union descriptor: simulate the layout from the
/// field list, then require the simulation to agree with the measured
/// ground truth.
///
/// Succeeds exactly when the options are well-formed and the simulation
/// matches the measurement; a configuration error takes precedence over
/// a mismatch, and a size mismatch over an alignment mismatch.
pub fn build_union(
    name: String,
    fields: Vec<FieldInput>,
    measured_size: usize,
    measured_alignment: usize,
) -> (r: Result<UntaggedUnionDef, LayoutError>)
    requires
        spec_arrays_opaque(fields@),
        forall|i: int| 0 <= i < fields@.len() ==> fields@[i].name is Some,
        spec_union_config_ok(fields@) ==> spec_fields_layoutable(fields@) && spec_union_size(
            fields@,
        ) <= usize::MAX,
    ensures
        r is Ok <==> (spec_union_config_ok(fields@) && measured_size == spec_union_size(fields@)
            && measured_alignment == spec_union_alignment(fields@)),
        r matches Ok(def) ==> {
            &&& def.name == name
            &&& def.fields@.len() == fields@.len()
            &&& forall|i: int| 0 <= i < fields@.len() ==> def.fields@[i] == spec_union_field_def(
                fields@,
                i,
            )
            &&& def.size == measured_size
            &&& def.alignment == measured_alignment
        },
        r matches Err(LayoutError::Configuration(e)) ==> {
            &&& !spec_union_config_ok(fields@)
            &&& e.field_index < fields@.len()
            &&& spec_union_field_issue(fields@[e.field_index as int]) == Some(e.kind)
            &&& forall|j: int|
                0 <= j < e.field_index ==> spec_union_field_issue(fields@[j]) is None
        },
        r matches Err(LayoutError::Mismatch(e)) ==> {
            &&& spec_union_config_ok(fields@)
            &&& e == (if measured_size != spec_union_size(fields@) {
                LayoutMismatchError::Size
            } else {
                LayoutMismatchError::Alignment
            })
        },
{
    match simulate_union(name, fields) {
        Err(e) => Err(LayoutError::Configuration(e)),
        Ok(def) => match verify_layout(def.size, def.alignment, measured_size,
            measured_alignment) {
            Ok(()) => Ok(def),
            Err(m) => Err(LayoutError::Mismatch(m)),
        },
    }
}

// ------------------------------------------------------------------
// Laws
// ------------------------------------------------------------------

/// The padding and size each field of a structure contributes, summed
/// over the first `n` fields.
pub open spec fn spec_padded_field_sum(fs: Seq<FieldInput>, n: int) -> int
    decreases n,
{
    if n <= 0 {
        0
    } else {
        spec_padded_field_sum(fs, n - 1) + spec_pad(
            spec_running_offset(fs, n - 1),
            spec_anchor_alignment(fs[n - 1]),
        ) + spec_anchor_size(fs[n - 1])
    }
}

/// The running offset is exactly the sum of every field's padding and
/// size.
pub proof fn lemma_running_offset_is_padded_sum(fs: Seq<FieldInput>, n: int)
    requires
        0 <= n <= fs.len(),
    ensures
        spec_running_offset(fs, n) == spec_padded_field_sum(fs, n),
    decreases n,
{
    if n > 0 {
        lemma_running_offset_is_padded_sum(fs, n - 1);
    }
}

/// For any structure, the sum of each field's padding and size, plus
/// the trailing padding, equals the reported total size, and the total
/// size is a multiple of the alignment.
pub proof fn lemma_structure_size_accounting(fs: Seq<FieldInput>)
    requires
        spec_fields_layoutable(fs),
    ensures
        spec_struct_size(fs) == spec_padded_field_sum(fs, fs.len() as int) + spec_pad(
            spec_running_offset(fs, fs.len() as int),
            spec_struct_alignment(fs),
        ),
        spec_struct_size(fs) % spec_struct_alignment(fs) == 0,
{
    let n = fs.len() as int;
    lemma_running_offset_is_padded_sum(fs, n);
    lemma_running_offset_bounds(fs, n);
    lemma_struct_alignment_bounds(fs);
    lemma_pad_bounds(spec_running_offset(fs, n), spec_struct_alignment(fs));
}

/// For any union, the size is at least every member's size and is a
/// multiple of the alignment. (Union members all sit at offset zero;
/// see [`UnionFieldDef::offset`].)
pub proof fn lemma_union_size_bounds(fs: Seq<FieldInput>)
    requires
        spec_fields_layoutable(fs),
    ensures
        forall|i: int| 0 <= i < fs.len() ==> spec_anchor_size(fs[i]) <= spec_union_size(fs),
        spec_union_size(fs) % spec_union_alignment(fs) == 0,
{
    lemma_union_alignment_bounds(fs);
    lemma_pad_bounds(spec_union_max_size(fs), spec_union_alignment(fs));
}

/// Structure fields never overlap: each field ends at or before the
/// next one starts, so offsets are non-decreasing in declaration order.
pub proof fn lemma_structure_fields_disjoint(fs: Seq<FieldInput>, i: int, j: int)
    requires
        spec_fields_layoutable(fs),
        0 <= i < j < fs.len(),
    ensures
        spec_field_offset(fs, i) + spec_anchor_size(fs[i]) <= spec_field_offset(fs, j),
        spec_field_offset(fs, i) <= spec_field_offset(fs, j),
{
    lemma_running_offset_bounds(fs, j);
    lemma_anchor_size_nonneg(fs[i]);
    lemma_pad_bounds(spec_running_offset(fs, j), spec_anchor_alignment(fs[j]));
    assert(spec_running_offset(fs, i + 1) == spec_field_offset(fs, i) + spec_anchor_size(fs[i]));
}

/// Computing a layout twice from an identical field list yields
/// identical results: every simulated offset, size and alignment is a
/// function of the field list alone.
pub proof fn lemma_layout_deterministic(first: Seq<FieldInput>, second: Seq<FieldInput>)
    requires
        first == second,
    ensures
        spec_struct_size(first) == spec_struct_size(second),
        spec_struct_alignment(first) == spec_struct_alignment(second),
        forall|i: int| 0 <= i < first.len() ==> spec_field_def(first, i) == spec_field_def(
            second,
            i,
        ),
        spec_union_size(first) == spec_union_size(second),
        spec_union_alignment(first) == spec_union_alignment(second),
        forall|i: int| 0 <= i < first.len() ==> spec_union_field_def(first, i)
            == spec_union_field_def(second, i),
{
}

/// A zero-field structure or union defaults to the unit size 0 and the
/// unit alignment 1.
pub proof fn lemma_empty_layout_defaults(fs: Seq<FieldInput>)
    requires
        fs.len() == 0,
    ensures
        spec_struct_size(fs) == 0,
        spec_struct_alignment(fs) == 1,
        spec_union_size(fs) == 0,
        spec_union_alignment(fs) == 1,
{
    lemma_pad_bounds(0, 1);
}

// ------------------------------------------------------------------
// Tagged union layout
// ------------------------------------------------------------------

/// The size of the prefix every variant of a tagged union starts after:
/// the discriminant, padded up to its own alignment in the traditional
/// style, unpadded in the primitive style.
pub open spec fn spec_tagged_start_size(
    style: TaggedUnionStyle,
    discriminant_size: int,
    discriminant_align: int,
) -> int {
    match style {
        TaggedUnionStyle::Traditional => spec_round_up(discriminant_size, discriminant_align),
        TaggedUnionStyle::Primitive => discriminant_size,
    }
}

/// The size of the prefix extended by one variant layout: the variant
/// starts at the prefix rounded up to the variant's alignment.
pub open spec fn spec_tagged_combined_size(start_size: int, variant: (usize, usize)) -> int {
    spec_round_up(start_size, variant.1 as int) + variant.0
}

/// The largest extended size over all variant layouts, 0 when there are
/// none.
pub open spec fn spec_tagged_max_size(start_size: int, vs: Seq<(usize, usize)>) -> int
    decreases vs.len(),
{
    if vs.len() == 0 {
        0
    } else {
        let rest = spec_tagged_max_size(start_size, vs.drop_last());
        let s = spec_tagged_combined_size(start_size, vs.last());
        if s > rest {
            s
        } else {
            rest
        }
    }
}

/// The alignment of the whole tagged union: the discriminant's
/// alignment joined with every variant's alignment.
pub open spec fn spec_tagged_max_align(discriminant_align: int, vs: Seq<(usize, usize)>) -> int
    decreases vs.len(),
{
    if vs.len() == 0 {
        discriminant_align
    } else {
        let rest = spec_tagged_max_align(discriminant_align, vs.drop_last());
        let a = if vs.last().1 as int > discriminant_align {
            vs.last().1 as int
        } else {
            discriminant_align
        };
        if a > rest {
            a
        } else {
            rest
        }
    }
}

/// Every extended size is bounded by the maximum, the maximum of a
/// non-empty list dominates the prefix itself, and the joined alignment
/// dominates the discriminant's.
proof fn lemma_tagged_bounds(start_size: int, discriminant_align: int, vs: Seq<(usize, usize)>)
    requires
        start_size >= 0,
        discriminant_align >= 1,
        forall|i: int| 0 <= i < vs.len() ==> #[trigger] vs[i].1 >= 1,
    ensures
        spec_tagged_max_align(discriminant_align, vs) >= discriminant_align,
        forall|i: int|
            0 <= i < vs.len() ==> spec_tagged_combined_size(start_size, vs[i])
                <= spec_tagged_max_size(start_size, vs),
        vs.len() > 0 ==> start_size <= spec_tagged_max_size(start_size, vs),
    decreases vs.len(),
{
    if vs.len() > 0 {
        lemma_tagged_bounds(start_size, discriminant_align, vs.drop_last());
        lemma_pad_bounds(start_size, vs.last().1 as int);
        assert forall|i: int|
            0 <= i < vs.len() implies spec_tagged_combined_size(start_size, vs[i])
            <= spec_tagged_max_size(start_size, vs) by {
            if i < vs.len() - 1 {
                assert(vs.drop_last()[i] == vs[i]);
            }
        }
    }
}

impl TaggedUnionStyle {
    /// Compute the layout of a tagged union with this style from the
    /// discriminant's layout and the layout of each variant's data, all
    /// given and returned as (size, alignment) pairs.
    ///
    /// In the traditional style the discriminant is padded to its own
    /// alignment before any variant data; in the primitive style the
    /// variant data follows the discriminant immediately. Each variant
    /// is placed at the prefix rounded up to the variant's alignment;
    /// the union is as large as its largest variant requires and as
    /// aligned as its most aligned part. The enumeration must be
    /// inhabited.
    pub fn compute_layout(
        &self,
        discriminant_size: usize,
        discriminant_align: usize,
        variant_layouts: &Vec<(usize, usize)>,
    ) -> (r: (usize, usize))
        requires
            discriminant_align >= 1,
            variant_layouts@.len() > 0,
            forall|i: int|
                0 <= i < variant_layouts@.len() ==> #[trigger] variant_layouts@[i].1 >= 1,
            spec_tagged_max_size(
                spec_tagged_start_size(*self, discriminant_size as int, discriminant_align as int),
                variant_layouts@,
            ) <= usize::MAX,
        ensures
            r.0 == spec_tagged_max_size(
                spec_tagged_start_size(*self, discriminant_size as int, discriminant_align as int),
                variant_layouts@,
            ),
            r.1 == spec_tagged_max_align(discriminant_align as int, variant_layouts@),
    {
        let ghost vs = variant_layouts@;
        let ghost start = spec_tagged_start_size(
            *self,
            discriminant_size as int,
            discriminant_align as int,
        );
        proof {
            lemma_pad_bounds(discriminant_size as int, discriminant_align as int);
            lemma_tagged_bounds(start, discriminant_align as int, vs);
            assert(vs[0].1 >= 1);
            lemma_pad_bounds(start, vs[0].1 as int);
            assert(start <= spec_tagged_combined_size(start, vs[0]));
        }
        let start_size: usize = match self {
            TaggedUnionStyle::Traditional => {
                // padding before the start of each variant is what makes
                // this style differ from the primitive representation
                discriminant_size + padding_for(discriminant_size, discriminant_align)
            }
            TaggedUnionStyle::Primitive => discriminant_size,
        };
        let n = variant_layouts.len();
        let mut max_size: usize = 0;
        let mut max_align: usize = discriminant_align;
        let mut i: usize = 0;
        while i < n
            invariant
                vs == variant_layouts@,
                n == vs.len(),
                i <= n,
                start == start_size,
                start_size <= usize::MAX,
                max_size == spec_tagged_max_size(start, vs.take(i as int)),
                max_align == spec_tagged_max_align(discriminant_align as int, vs.take(i as int)),
                discriminant_align >= 1,
                forall|j: int| 0 <= j < vs.len() ==> #[trigger] vs[j].1 >= 1,
                spec_tagged_max_size(start, vs) <= usize::MAX,
            decreases n - i,
        {
            let (variant_size, variant_align) = variant_layouts[i];
            proof {
                lemma_tagged_bounds(start, discriminant_align as int, vs);
                lemma_pad_bounds(start, variant_align as int);
                assert(spec_tagged_combined_size(start, vs[i as int]) <= spec_tagged_max_size(
                    start,
                    vs,
                ));
            }
            let pad = padding_for(start_size, variant_align);
            let combined_size = start_size + pad + variant_size;
            if combined_size > max_size {
                max_size = combined_size;
            }
            if variant_align > max_align {
                max_align = variant_align;
            }
            proof {
                assert(vs.take(i + 1).drop_last() =~= vs.take(i as int));
                assert(vs.take(i + 1).last() == vs[i as int]);
            }
            i = i + 1;
        }
        proof {
            assert(vs.take(n as int) =~= vs);
        }
        (max_size, max_align)
    }
}

} // verus!
