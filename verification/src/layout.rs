//! The C layout of the ABI-mirrored structs.
//!
//! A binding that mirrors a C struct owes its callers the exact byte
//! layout the native compiler produces: each field at the smallest
//! offset past its predecessor that its alignment allows, and the total
//! size rounded up to the greatest field alignment. This module states
//! those rules once, proves them sound (fields in order, aligned, never
//! overlapping, inside the total size), and then pins down the layout
//! of every mirrored struct on the 64-bit targets the native library
//! ships for: 8-byte pointers and 4-byte wide characters.

use vstd::prelude::*;

verus! {

/// Byte size and alignment of one C struct field.
#[derive(Copy, Clone, Debug, Eq, PartialEq, Hash, Structural)]
pub struct CField {
    /// Size of the field in bytes.
    pub size: usize,
    /// Alignment of the field in bytes; always positive.
    pub align: usize,
}

/// The smallest multiple of `align` at or above `off`.
pub open spec fn spec_align_up(off: int, align: int) -> int {
    ((off + align - 1) / align) * align
}

/// A field list is well formed when every alignment is positive.
pub open spec fn fields_wf(fields: Seq<CField>) -> bool {
    forall|i: int| 0 <= i < fields.len() ==> (#[trigger] fields[i].align) >= 1
}

/// Byte offset just past the last of the first `n` fields, with fields
/// packed in order at the smallest offsets their alignments allow;
/// zero when no field has been placed.
pub open spec fn spec_end_of_prefix(fields: Seq<CField>, n: int) -> int
    decreases n,
{
    if n <= 0 {
        0
    } else {
        spec_align_up(spec_end_of_prefix(fields, n - 1), fields[n - 1].align as int)
            + fields[n - 1].size
    }
}

/// Byte offset of field `i`: the end of its predecessors rounded up to
/// its own alignment.
pub open spec fn spec_field_offset(fields: Seq<CField>, i: int) -> int {
    spec_align_up(spec_end_of_prefix(fields, i), fields[i].align as int)
}

/// The greatest alignment among the first `n` fields; one when no field
/// is considered.
pub open spec fn spec_align_of_prefix(fields: Seq<CField>, n: int) -> int
    decreases n,
{
    if n <= 0 {
        1
    } else {
        let a = fields[n - 1].align as int;
        let rest = spec_align_of_prefix(fields, n - 1);
        if a > rest {
            a
        } else {
            rest
        }
    }
}

/// Alignment of the whole struct: the greatest field alignment.
pub open spec fn spec_struct_align(fields: Seq<CField>) -> int {
    spec_align_of_prefix(fields, fields.len() as int)
}

/// Total size of the struct: the end of its last field rounded up to
/// the struct alignment.
pub open spec fn spec_struct_size(fields: Seq<CField>) -> int {
    spec_align_up(spec_end_of_prefix(fields, fields.len() as int), spec_struct_align(fields))
}

/// Rounding up to an alignment lands on a multiple of it, moves by less
/// than one alignment, and never moves backwards.
pub proof fn lemma_align_up(off: int, align: int)
    requires
        0 <= off,
        1 <= align,
    ensures
        off <= spec_align_up(off, align) < off + align,
        spec_align_up(off, align) % align == 0,
{
    let x = off + align - 1;
    let q = x / align;
    vstd::arithmetic::div_mod::lemma_fundamental_div_mod(x, align);
    vstd::arithmetic::div_mod::lemma_mod_multiples_basic(q, align);
    assert(align * q == q * align) by (nonlinear_arith);
}

/// The struct alignment is positive, and no smaller than any prefix
/// alignment.
pub proof fn lemma_align_of_prefix_monotonic(fields: Seq<CField>, m: int, n: int)
    requires
        fields_wf(fields),
        0 <= m <= n <= fields.len(),
    ensures
        1 <= spec_align_of_prefix(fields, m) <= spec_align_of_prefix(fields, n),
    decreases n,
{
    if n > 0 {
        if m == n {
            lemma_align_of_prefix_monotonic(fields, n - 1, n - 1);
        } else {
            lemma_align_of_prefix_monotonic(fields, m, n - 1);
        }
    }
}

/// Ends of prefixes never move backwards as fields are placed, and
/// never fall below zero.
pub proof fn lemma_end_of_prefix_monotonic(fields: Seq<CField>, m: int, n: int)
    requires
        fields_wf(fields),
        0 <= m <= n <= fields.len(),
    ensures
        0 <= spec_end_of_prefix(fields, m) <= spec_end_of_prefix(fields, n),
    decreases n,
{
    if n > 0 {
        if m == n {
            lemma_end_of_prefix_monotonic(fields, n - 1, n - 1);
        } else {
            lemma_end_of_prefix_monotonic(fields, m, n - 1);
        }
        lemma_align_up(spec_end_of_prefix(fields, n - 1), fields[n - 1].align as int);
    }
}

/// Soundness of the layout rules, for every well-formed field list:
/// each field sits at an offset aligned to its own alignment, at or
/// past the end of its predecessors; its extent is exactly the end of
/// the prefix through it, so fields laid out earlier never overlap
/// later ones; and every field lies inside the total struct size.
pub proof fn lemma_layout_sound(fields: Seq<CField>)
    requires
        fields_wf(fields),
    ensures
        forall|i: int| 0 <= i < fields.len()
            ==> #[trigger] spec_field_offset(fields, i) % (fields[i].align as int) == 0,
        forall|i: int| 0 <= i < fields.len()
            ==> spec_end_of_prefix(fields, i) <= #[trigger] spec_field_offset(fields, i),
        forall|i: int| 0 <= i < fields.len()
            ==> #[trigger] spec_field_offset(fields, i) + fields[i].size
                == spec_end_of_prefix(fields, i + 1),
        forall|i: int, j: int| 0 <= i < j < fields.len()
            ==> #[trigger] spec_field_offset(fields, i) + fields[i].size
                <= #[trigger] spec_field_offset(fields, j),
        spec_end_of_prefix(fields, fields.len() as int) <= spec_struct_size(fields),
{
    assert forall|i: int| 0 <= i < fields.len() implies {
        &&& #[trigger] spec_field_offset(fields, i) % (fields[i].align as int) == 0
        &&& spec_end_of_prefix(fields, i) <= spec_field_offset(fields, i)
        &&& spec_field_offset(fields, i) + fields[i].size == spec_end_of_prefix(fields, i + 1)
    } by {
        lemma_end_of_prefix_monotonic(fields, i, i);
        lemma_align_up(spec_end_of_prefix(fields, i), fields[i].align as int);
    }
    assert forall|i: int, j: int| 0 <= i < j < fields.len()
        implies #[trigger] spec_field_offset(fields, i) + fields[i].size
            <= #[trigger] spec_field_offset(fields, j) by {
        lemma_end_of_prefix_monotonic(fields, i, i);
        lemma_end_of_prefix_monotonic(fields, i + 1, j);
        lemma_end_of_prefix_monotonic(fields, j, j);
        lemma_align_up(spec_end_of_prefix(fields, i), fields[i].align as int);
        lemma_align_up(spec_end_of_prefix(fields, j), fields[j].align as int);
    }
    let n = fields.len() as int;
    lemma_end_of_prefix_monotonic(fields, n, n);
    lemma_align_of_prefix_monotonic(fields, n, n);
    lemma_align_up(spec_end_of_prefix(fields, n), spec_struct_align(fields));
}

/// The total size is a multiple of the struct alignment, as the C rules
/// demand so that array elements stay aligned.
pub proof fn lemma_struct_size_aligned(fields: Seq<CField>)
    requires
        fields_wf(fields),
    ensures
        spec_struct_size(fields) % spec_struct_align(fields) == 0,
{
    let n = fields.len() as int;
    lemma_end_of_prefix_monotonic(fields, n, n);
    lemma_align_of_prefix_monotonic(fields, n, n);
    lemma_align_up(spec_end_of_prefix(fields, n), spec_struct_align(fields));
}

/// Greatest field size the executable calculator accepts.
pub const MAX_FIELD_SIZE: usize = 0x100000;
/// Greatest field alignment the executable calculator accepts.
pub const MAX_FIELD_ALIGN: usize = 4096;
/// Greatest number of fields the executable calculator accepts.
pub const MAX_FIELD_COUNT: usize = 64;

/// Every prefix end is bounded by the number of fields placed times the
/// greatest step one field can contribute.
proof fn lemma_end_of_prefix_bounded(fields: Seq<CField>, n: int)
    requires
        fields_wf(fields),
        0 <= n <= fields.len(),
        forall|i: int| 0 <= i < fields.len() ==> (#[trigger] fields[i].size) <= MAX_FIELD_SIZE,
        forall|i: int| 0 <= i < fields.len() ==> (#[trigger] fields[i].align) <= MAX_FIELD_ALIGN,
    ensures
        spec_end_of_prefix(fields, n) <= n * (MAX_FIELD_SIZE + MAX_FIELD_ALIGN),
    decreases n,
{
    if n > 0 {
        lemma_end_of_prefix_bounded(fields, n - 1);
        lemma_end_of_prefix_monotonic(fields, n - 1, n - 1);
        lemma_align_up(spec_end_of_prefix(fields, n - 1), fields[n - 1].align as int);
        assert((n - 1) * (MAX_FIELD_SIZE + MAX_FIELD_ALIGN) + (MAX_FIELD_SIZE + MAX_FIELD_ALIGN)
            == n * (MAX_FIELD_SIZE + MAX_FIELD_ALIGN)) by (nonlinear_arith);
    }
}

/// Rounds `off` up to the next multiple of `align`.
fn align_up(off: usize, align: usize) -> (r: usize)
    requires
        1 <= align,
        off + align <= usize::MAX,
    ensures
        r == spec_align_up(off as int, align as int),
{
    proof {
        lemma_align_up(off as int, align as int);
    }
    (off + align - 1) / align * align
}

/// Computes the byte offset of every field and the total byte size of a
/// C struct with the given fields, under the layout rules stated above.
pub fn compute_layout(fields: &Vec<CField>) -> (r: (Vec<usize>, usize))
    requires
        fields@.len() <= MAX_FIELD_COUNT,
        forall|i: int| 0 <= i < fields@.len() ==> 1 <= (#[trigger] fields@[i].align),
        forall|i: int| 0 <= i < fields@.len() ==> (#[trigger] fields@[i].size) <= MAX_FIELD_SIZE,
        forall|i: int| 0 <= i < fields@.len() ==> (#[trigger] fields@[i].align) <= MAX_FIELD_ALIGN,
    ensures
        r.0@.len() == fields@.len(),
        forall|i: int| 0 <= i < fields@.len()
            ==> r.0@[i] == spec_field_offset(fields@, i),
        r.1 == spec_struct_size(fields@),
{
    let n = fields.len();
    let mut offsets: Vec<usize> = Vec::new();
    let mut end: usize = 0;
    let mut max_align: usize = 1;
    let mut k: usize = 0;
    while k < n
        invariant
            fields@.len() == n <= MAX_FIELD_COUNT,
            forall|i: int| 0 <= i < fields@.len() ==> 1 <= (#[trigger] fields@[i].align),
            forall|i: int| 0 <= i < fields@.len()
                ==> (#[trigger] fields@[i].size) <= MAX_FIELD_SIZE,
            forall|i: int| 0 <= i < fields@.len()
                ==> (#[trigger] fields@[i].align) <= MAX_FIELD_ALIGN,
            0 <= k <= n,
            offsets@.len() == k,
            forall|i: int| 0 <= i < k ==> offsets@[i] == spec_field_offset(fields@, i),
            end == spec_end_of_prefix(fields@, k as int),
            end <= k * (MAX_FIELD_SIZE + MAX_FIELD_ALIGN),
            max_align == spec_align_of_prefix(fields@, k as int),
            1 <= max_align <= MAX_FIELD_ALIGN,
        decreases n - k,
    {
        let f = fields[k];
        proof {
            lemma_end_of_prefix_bounded(fields@, k as int);
            lemma_end_of_prefix_monotonic(fields@, k as int, k as int);
            lemma_align_up(end as int, f.align as int);
            assert(k * (MAX_FIELD_SIZE + MAX_FIELD_ALIGN)
                <= MAX_FIELD_COUNT * (MAX_FIELD_SIZE + MAX_FIELD_ALIGN)) by (nonlinear_arith)
                requires k <= MAX_FIELD_COUNT as int;
        }
        let off = align_up(end, f.align);
        offsets.push(off);
        end = off + f.size;
        if f.align > max_align {
            max_align = f.align;
        }
        k = k + 1;
        proof {
            lemma_end_of_prefix_bounded(fields@, k as int);
        }
    }
    proof {
        lemma_end_of_prefix_bounded(fields@, n as int);
        lemma_end_of_prefix_monotonic(fields@, n as int, n as int);
        assert(n * (MAX_FIELD_SIZE + MAX_FIELD_ALIGN)
            <= MAX_FIELD_COUNT * (MAX_FIELD_SIZE + MAX_FIELD_ALIGN)) by (nonlinear_arith)
            requires n <= MAX_FIELD_COUNT as int;
    }
    let size = align_up(end, max_align);
    (offsets, size)
}

/// Fields of `FfxDimensions2D`: two 32-bit words.
pub open spec fn spec_dimensions2d_fields() -> Seq<CField> {
    seq![CField { size: 4, align: 4 }, CField { size: 4, align: 4 }]
}

/// Returns the field table of `FfxDimensions2D`.
pub fn dimensions2d_fields() -> (r: Vec<CField>)
    ensures
        r@ == spec_dimensions2d_fields(),
{
    let mut v: Vec<CField> = Vec::new();
    v.push(CField { size: 4, align: 4 });
    v.push(CField { size: 4, align: 4 });
    proof {
        assert(v@ =~= spec_dimensions2d_fields());
    }
    v
}

/// `FfxDimensions2D` in the native layout: fields at offsets 0 and 4,
/// total size 8.
pub proof fn lemma_dimensions2d_layout()
    ensures
        spec_field_offset(spec_dimensions2d_fields(), 0) == 0,
        spec_field_offset(spec_dimensions2d_fields(), 1) == 4,
        spec_struct_size(spec_dimensions2d_fields()) == 8,
{
    let s = spec_dimensions2d_fields();
    assert(spec_end_of_prefix(s, 0) == 0);
    assert(spec_end_of_prefix(s, 1) == 4);
    assert(spec_end_of_prefix(s, 2) == 8);
    assert(spec_align_of_prefix(s, 0) == 1);
    assert(spec_align_of_prefix(s, 1) == 4);
    assert(spec_align_of_prefix(s, 2) == 4);
}

/// Fields of `FfxIntCoords2D`: two 32-bit coordinates.
pub open spec fn spec_int_coords2d_fields() -> Seq<CField> {
    seq![
        CField { size: 4, align: 4 },
        CField { size: 4, align: 4 },
    ]
}

/// Returns the field table of `FfxIntCoords2D`.
pub fn int_coords2d_fields() -> (r: Vec<CField>)
    ensures
        r@ == spec_int_coords2d_fields(),
{
    let mut v: Vec<CField> = Vec::new();
    v.push(CField { size: 4, align: 4 });
    v.push(CField { size: 4, align: 4 });
    proof {
        assert(v@ =~= spec_int_coords2d_fields());
    }
    v
}

/// `FfxIntCoords2D` in the native layout: field offsets 0, 4; total size 8.
pub proof fn lemma_int_coords2d_layout()
    ensures
        spec_field_offset(spec_int_coords2d_fields(), 0) == 0,
        spec_field_offset(spec_int_coords2d_fields(), 1) == 4,
        spec_struct_size(spec_int_coords2d_fields()) == 8,
{
    let s = spec_int_coords2d_fields();
    assert(s.len() == 2);
    assert(s[0] == CField { size: 4, align: 4 });
    assert(s[1] == CField { size: 4, align: 4 });
    assert(spec_end_of_prefix(s, 0) == 0);
    assert(spec_end_of_prefix(s, 1) == 4);
    assert(spec_end_of_prefix(s, 2) == 8);
    assert(spec_align_of_prefix(s, 0) == 1);
    assert(spec_align_of_prefix(s, 1) == 4);
    assert(spec_align_of_prefix(s, 2) == 4);
}

/// Fields of `FfxFloatCoords2D`: two 32-bit floating-point coordinates.
pub open spec fn spec_float_coords2d_fields() -> Seq<CField> {
    seq![
        CField { size: 4, align: 4 },
        CField { size: 4, align: 4 },
    ]
}

/// Returns the field table of `FfxFloatCoords2D`.
pub fn float_coords2d_fields() -> (r: Vec<CField>)
    ensures
        r@ == spec_float_coords2d_fields(),
{
    let mut v: Vec<CField> = Vec::new();
    v.push(CField { size: 4, align: 4 });
    v.push(CField { size: 4, align: 4 });
    proof {
        assert(v@ =~= spec_float_coords2d_fields());
    }
    v
}

/// `FfxFloatCoords2D` in the native layout: field offsets 0, 4; total size 8.
pub proof fn lemma_float_coords2d_layout()
    ensures
        spec_field_offset(spec_float_coords2d_fields(), 0) == 0,
        spec_field_offset(spec_float_coords2d_fields(), 1) == 4,
        spec_struct_size(spec_float_coords2d_fields()) == 8,
{
    let s = spec_float_coords2d_fields();
    assert(s.len() == 2);
    assert(s[0] == CField { size: 4, align: 4 });
    assert(s[1] == CField { size: 4, align: 4 });
    assert(spec_end_of_prefix(s, 0) == 0);
    assert(spec_end_of_prefix(s, 1) == 4);
    assert(spec_end_of_prefix(s, 2) == 8);
    assert(spec_align_of_prefix(s, 0) == 1);
    assert(spec_align_of_prefix(s, 1) == 4);
    assert(spec_align_of_prefix(s, 2) == 4);
}

/// Fields of `FfxResourceDescription`: seven 32-bit words.
pub open spec fn spec_resource_description_fields() -> Seq<CField> {
    seq![
        CField { size: 4, align: 4 },
        CField { size: 4, align: 4 },
        CField { size: 4, align: 4 },
        CField { size: 4, align: 4 },
        CField { size: 4, align: 4 },
        CField { size: 4, align: 4 },
        CField { size: 4, align: 4 },
    ]
}

/// Returns the field table of `FfxResourceDescription`.
pub fn resource_description_fields() -> (r: Vec<CField>)
    ensures
        r@ == spec_resource_description_fields(),
{
    let mut v: Vec<CField> = Vec::new();
    v.push(CField { size: 4, align: 4 });
    v.push(CField { size: 4, align: 4 });
    v.push(CField { size: 4, align: 4 });
    v.push(CField { size: 4, align: 4 });
    v.push(CField { size: 4, align: 4 });
    v.push(CField { size: 4, align: 4 });
    v.push(CField { size: 4, align: 4 });
    proof {
        assert(v@ =~= spec_resource_description_fields());
    }
    v
}

/// `FfxResourceDescription` in the native layout: field offsets 0, 4, 8, 12, 16, 20, 24; total size 28.
pub proof fn lemma_resource_description_layout()
    ensures
        spec_field_offset(spec_resource_description_fields(), 0) == 0,
        spec_field_offset(spec_resource_description_fields(), 1) == 4,
        spec_field_offset(spec_resource_description_fields(), 2) == 8,
        spec_field_offset(spec_resource_description_fields(), 3) == 12,
        spec_field_offset(spec_resource_description_fields(), 4) == 16,
        spec_field_offset(spec_resource_description_fields(), 5) == 20,
        spec_field_offset(spec_resource_description_fields(), 6) == 24,
        spec_struct_size(spec_resource_description_fields()) == 28,
{
    let s = spec_resource_description_fields();
    assert(s.len() == 7);
    assert(s[0] == CField { size: 4, align: 4 });
    assert(s[1] == CField { size: 4, align: 4 });
    assert(s[2] == CField { size: 4, align: 4 });
    assert(s[3] == CField { size: 4, align: 4 });
    assert(s[4] == CField { size: 4, align: 4 });
    assert(s[5] == CField { size: 4, align: 4 });
    assert(s[6] == CField { size: 4, align: 4 });
    assert(spec_end_of_prefix(s, 0) == 0);
    assert(spec_end_of_prefix(s, 1) == 4);
    assert(spec_end_of_prefix(s, 2) == 8);
    assert(spec_end_of_prefix(s, 3) == 12);
    assert(spec_end_of_prefix(s, 4) == 16);
    assert(spec_end_of_prefix(s, 5) == 20);
    assert(spec_end_of_prefix(s, 6) == 24);
    assert(spec_end_of_prefix(s, 7) == 28);
    assert(spec_align_of_prefix(s, 0) == 1);
    assert(spec_align_of_prefix(s, 1) == 4);
    assert(spec_align_of_prefix(s, 2) == 4);
    assert(spec_align_of_prefix(s, 3) == 4);
    assert(spec_align_of_prefix(s, 4) == 4);
    assert(spec_align_of_prefix(s, 5) == 4);
    assert(spec_align_of_prefix(s, 6) == 4);
    assert(spec_align_of_prefix(s, 7) == 4);
}

/// Fields of `FfxResource`: a pointer, a 64-element wide-character name, the nested description, then state, depth flag and descriptor payload.
pub open spec fn spec_resource_fields() -> Seq<CField> {
    seq![
        CField { size: 8, align: 8 },
        CField { size: 256, align: 4 },
        CField { size: 28, align: 4 },
        CField { size: 4, align: 4 },
        CField { size: 1, align: 1 },
        CField { size: 8, align: 8 },
    ]
}

/// Returns the field table of `FfxResource`.
pub fn resource_fields() -> (r: Vec<CField>)
    ensures
        r@ == spec_resource_fields(),
{
    let mut v: Vec<CField> = Vec::new();
    v.push(CField { size: 8, align: 8 });
    v.push(CField { size: 256, align: 4 });
    v.push(CField { size: 28, align: 4 });
    v.push(CField { size: 4, align: 4 });
    v.push(CField { size: 1, align: 1 });
    v.push(CField { size: 8, align: 8 });
    proof {
        assert(v@ =~= spec_resource_fields());
    }
    v
}

/// `FfxResource` in the native layout: field offsets 0, 8, 264, 292, 296, 304; total size 312.
pub proof fn lemma_resource_layout()
    ensures
        spec_field_offset(spec_resource_fields(), 0) == 0,
        spec_field_offset(spec_resource_fields(), 1) == 8,
        spec_field_offset(spec_resource_fields(), 2) == 264,
        spec_field_offset(spec_resource_fields(), 3) == 292,
        spec_field_offset(spec_resource_fields(), 4) == 296,
        spec_field_offset(spec_resource_fields(), 5) == 304,
        spec_struct_size(spec_resource_fields()) == 312,
{
    let s = spec_resource_fields();
    assert(s.len() == 6);
    assert(s[0] == CField { size: 8, align: 8 });
    assert(s[1] == CField { size: 256, align: 4 });
    assert(s[2] == CField { size: 28, align: 4 });
    assert(s[3] == CField { size: 4, align: 4 });
    assert(s[4] == CField { size: 1, align: 1 });
    assert(s[5] == CField { size: 8, align: 8 });
    assert(spec_end_of_prefix(s, 0) == 0);
    assert(spec_end_of_prefix(s, 1) == 8);
    assert(spec_end_of_prefix(s, 2) == 264);
    assert(spec_end_of_prefix(s, 3) == 292);
    assert(spec_end_of_prefix(s, 4) == 296);
    assert(spec_end_of_prefix(s, 5) == 297);
    assert(spec_end_of_prefix(s, 6) == 312);
    assert(spec_align_of_prefix(s, 0) == 1);
    assert(spec_align_of_prefix(s, 1) == 8);
    assert(spec_align_of_prefix(s, 2) == 8);
    assert(spec_align_of_prefix(s, 3) == 8);
    assert(spec_align_of_prefix(s, 4) == 8);
    assert(spec_align_of_prefix(s, 5) == 8);
    assert(spec_align_of_prefix(s, 6) == 8);
}

/// Fields of `FfxResourceInternal`: one 32-bit index.
pub open spec fn spec_resource_internal_fields() -> Seq<CField> {
    seq![
        CField { size: 4, align: 4 },
    ]
}

/// Returns the field table of `FfxResourceInternal`.
pub fn resource_internal_fields() -> (r: Vec<CField>)
    ensures
        r@ == spec_resource_internal_fields(),
{
    let mut v: Vec<CField> = Vec::new();
    v.push(CField { size: 4, align: 4 });
    proof {
        assert(v@ =~= spec_resource_internal_fields());
    }
    v
}

/// `FfxResourceInternal` in the native layout: field offsets 0; total size 4.
pub proof fn lemma_resource_internal_layout()
    ensures
        spec_field_offset(spec_resource_internal_fields(), 0) == 0,
        spec_struct_size(spec_resource_internal_fields()) == 4,
{
    let s = spec_resource_internal_fields();
    assert(s.len() == 1);
    assert(s[0] == CField { size: 4, align: 4 });
    assert(spec_end_of_prefix(s, 0) == 0);
    assert(spec_end_of_prefix(s, 1) == 4);
    assert(spec_align_of_prefix(s, 0) == 1);
    assert(spec_align_of_prefix(s, 1) == 4);
}

/// Fields of `FfxResourceBinding`: two 32-bit words and a 64-element wide-character name.
pub open spec fn spec_resource_binding_fields() -> Seq<CField> {
    seq![
        CField { size: 4, align: 4 },
        CField { size: 4, align: 4 },
        CField { size: 256, align: 4 },
    ]
}

/// Returns the field table of `FfxResourceBinding`.
pub fn resource_binding_fields() -> (r: Vec<CField>)
    ensures
        r@ == spec_resource_binding_fields(),
{
    let mut v: Vec<CField> = Vec::new();
    v.push(CField { size: 4, align: 4 });
    v.push(CField { size: 4, align: 4 });
    v.push(CField { size: 256, align: 4 });
    proof {
        assert(v@ =~= spec_resource_binding_fields());
    }
    v
}

/// `FfxResourceBinding` in the native layout: field offsets 0, 4, 8; total size 264.
pub proof fn lemma_resource_binding_layout()
    ensures
        spec_field_offset(spec_resource_binding_fields(), 0) == 0,
        spec_field_offset(spec_resource_binding_fields(), 1) == 4,
        spec_field_offset(spec_resource_binding_fields(), 2) == 8,
        spec_struct_size(spec_resource_binding_fields()) == 264,
{
    let s = spec_resource_binding_fields();
    assert(s.len() == 3);
    assert(s[0] == CField { size: 4, align: 4 });
    assert(s[1] == CField { size: 4, align: 4 });
    assert(s[2] == CField { size: 256, align: 4 });
    assert(spec_end_of_prefix(s, 0) == 0);
    assert(spec_end_of_prefix(s, 1) == 4);
    assert(spec_end_of_prefix(s, 2) == 8);
    assert(spec_end_of_prefix(s, 3) == 264);
    assert(spec_align_of_prefix(s, 0) == 1);
    assert(spec_align_of_prefix(s, 1) == 4);
    assert(spec_align_of_prefix(s, 2) == 4);
    assert(spec_align_of_prefix(s, 3) == 4);
}

/// Fields of `FfxPipelineState`: two pointers, three 32-bit counts, and the three fixed binding tables.
pub open spec fn spec_pipeline_state_fields() -> Seq<CField> {
    seq![
        CField { size: 8, align: 8 },
        CField { size: 8, align: 8 },
        CField { size: 4, align: 4 },
        CField { size: 4, align: 4 },
        CField { size: 4, align: 4 },
        CField { size: 2112, align: 4 },
        CField { size: 4224, align: 4 },
        CField { size: 528, align: 4 },
    ]
}

/// Returns the field table of `FfxPipelineState`.
pub fn pipeline_state_fields() -> (r: Vec<CField>)
    ensures
        r@ == spec_pipeline_state_fields(),
{
    let mut v: Vec<CField> = Vec::new();
    v.push(CField { size: 8, align: 8 });
    v.push(CField { size: 8, align: 8 });
    v.push(CField { size: 4, align: 4 });
    v.push(CField { size: 4, align: 4 });
    v.push(CField { size: 4, align: 4 });
    v.push(CField { size: 2112, align: 4 });
    v.push(CField { size: 4224, align: 4 });
    v.push(CField { size: 528, align: 4 });
    proof {
        assert(v@ =~= spec_pipeline_state_fields());
    }
    v
}

/// `FfxPipelineState` in the native layout: field offsets 0, 8, 16, 20, 24, 28, 2140, 6364; total size 6896.
pub proof fn lemma_pipeline_state_layout()
    ensures
        spec_field_offset(spec_pipeline_state_fields(), 0) == 0,
        spec_field_offset(spec_pipeline_state_fields(), 1) == 8,
        spec_field_offset(spec_pipeline_state_fields(), 2) == 16,
        spec_field_offset(spec_pipeline_state_fields(), 3) == 20,
        spec_field_offset(spec_pipeline_state_fields(), 4) == 24,
        spec_field_offset(spec_pipeline_state_fields(), 5) == 28,
        spec_field_offset(spec_pipeline_state_fields(), 6) == 2140,
        spec_field_offset(spec_pipeline_state_fields(), 7) == 6364,
        spec_struct_size(spec_pipeline_state_fields()) == 6896,
{
    let s = spec_pipeline_state_fields();
    assert(s.len() == 8);
    assert(s[0] == CField { size: 8, align: 8 });
    assert(s[1] == CField { size: 8, align: 8 });
    assert(s[2] == CField { size: 4, align: 4 });
    assert(s[3] == CField { size: 4, align: 4 });
    assert(s[4] == CField { size: 4, align: 4 });
    assert(s[5] == CField { size: 2112, align: 4 });
    assert(s[6] == CField { size: 4224, align: 4 });
    assert(s[7] == CField { size: 528, align: 4 });
    assert(spec_end_of_prefix(s, 0) == 0);
    assert(spec_end_of_prefix(s, 1) == 8);
    assert(spec_end_of_prefix(s, 2) == 16);
    assert(spec_end_of_prefix(s, 3) == 20);
    assert(spec_end_of_prefix(s, 4) == 24);
    assert(spec_end_of_prefix(s, 5) == 28);
    assert(spec_end_of_prefix(s, 6) == 2140);
    assert(spec_end_of_prefix(s, 7) == 6364);
    assert(spec_end_of_prefix(s, 8) == 6892);
    assert(spec_align_of_prefix(s, 0) == 1);
    assert(spec_align_of_prefix(s, 1) == 8);
    assert(spec_align_of_prefix(s, 2) == 8);
    assert(spec_align_of_prefix(s, 3) == 8);
    assert(spec_align_of_prefix(s, 4) == 8);
    assert(spec_align_of_prefix(s, 5) == 8);
    assert(spec_align_of_prefix(s, 6) == 8);
    assert(spec_align_of_prefix(s, 7) == 8);
    assert(spec_align_of_prefix(s, 8) == 8);
}

/// Fields of `FfxCreateResourceDescription`: heap type, nested resource description, state, size, two pointers, usage and id.
pub open spec fn spec_create_resource_description_fields() -> Seq<CField> {
    seq![
        CField { size: 4, align: 4 },
        CField { size: 28, align: 4 },
        CField { size: 4, align: 4 },
        CField { size: 4, align: 4 },
        CField { size: 8, align: 8 },
        CField { size: 8, align: 8 },
        CField { size: 4, align: 4 },
        CField { size: 4, align: 4 },
    ]
}

/// Returns the field table of `FfxCreateResourceDescription`.
pub fn create_resource_description_fields() -> (r: Vec<CField>)
    ensures
        r@ == spec_create_resource_description_fields(),
{
    let mut v: Vec<CField> = Vec::new();
    v.push(CField { size: 4, align: 4 });
    v.push(CField { size: 28, align: 4 });
    v.push(CField { size: 4, align: 4 });
    v.push(CField { size: 4, align: 4 });
    v.push(CField { size: 8, align: 8 });
    v.push(CField { size: 8, align: 8 });
    v.push(CField { size: 4, align: 4 });
    v.push(CField { size: 4, align: 4 });
    proof {
        assert(v@ =~= spec_create_resource_description_fields());
    }
    v
}

/// `FfxCreateResourceDescription` in the native layout: field offsets 0, 4, 32, 36, 40, 48, 56, 60; total size 64.
pub proof fn lemma_create_resource_description_layout()
    ensures
        spec_field_offset(spec_create_resource_description_fields(), 0) == 0,
        spec_field_offset(spec_create_resource_description_fields(), 1) == 4,
        spec_field_offset(spec_create_resource_description_fields(), 2) == 32,
        spec_field_offset(spec_create_resource_description_fields(), 3) == 36,
        spec_field_offset(spec_create_resource_description_fields(), 4) == 40,
        spec_field_offset(spec_create_resource_description_fields(), 5) == 48,
        spec_field_offset(spec_create_resource_description_fields(), 6) == 56,
        spec_field_offset(spec_create_resource_description_fields(), 7) == 60,
        spec_struct_size(spec_create_resource_description_fields()) == 64,
{
    let s = spec_create_resource_description_fields();
    assert(s.len() == 8);
    assert(s[0] == CField { size: 4, align: 4 });
    assert(s[1] == CField { size: 28, align: 4 });
    assert(s[2] == CField { size: 4, align: 4 });
    assert(s[3] == CField { size: 4, align: 4 });
    assert(s[4] == CField { size: 8, align: 8 });
    assert(s[5] == CField { size: 8, align: 8 });
    assert(s[6] == CField { size: 4, align: 4 });
    assert(s[7] == CField { size: 4, align: 4 });
    assert(spec_end_of_prefix(s, 0) == 0);
    assert(spec_end_of_prefix(s, 1) == 4);
    assert(spec_end_of_prefix(s, 2) == 32);
    assert(spec_end_of_prefix(s, 3) == 36);
    assert(spec_end_of_prefix(s, 4) == 40);
    assert(spec_end_of_prefix(s, 5) == 48);
    assert(spec_end_of_prefix(s, 6) == 56);
    assert(spec_end_of_prefix(s, 7) == 60);
    assert(spec_end_of_prefix(s, 8) == 64);
    assert(spec_align_of_prefix(s, 0) == 1);
    assert(spec_align_of_prefix(s, 1) == 4);
    assert(spec_align_of_prefix(s, 2) == 4);
    assert(spec_align_of_prefix(s, 3) == 4);
    assert(spec_align_of_prefix(s, 4) == 4);
    assert(spec_align_of_prefix(s, 5) == 8);
    assert(spec_align_of_prefix(s, 6) == 8);
    assert(spec_align_of_prefix(s, 7) == 8);
    assert(spec_align_of_prefix(s, 8) == 8);
}

/// Fields of `FfxPipelineDescription`: a 32-bit word, three pointer-sized words and a 32-bit count.
pub open spec fn spec_pipeline_description_fields() -> Seq<CField> {
    seq![
        CField { size: 4, align: 4 },
        CField { size: 8, align: 8 },
        CField { size: 8, align: 8 },
        CField { size: 8, align: 8 },
        CField { size: 4, align: 4 },
    ]
}

/// Returns the field table of `FfxPipelineDescription`.
pub fn pipeline_description_fields() -> (r: Vec<CField>)
    ensures
        r@ == spec_pipeline_description_fields(),
{
    let mut v: Vec<CField> = Vec::new();
    v.push(CField { size: 4, align: 4 });
    v.push(CField { size: 8, align: 8 });
    v.push(CField { size: 8, align: 8 });
    v.push(CField { size: 8, align: 8 });
    v.push(CField { size: 4, align: 4 });
    proof {
        assert(v@ =~= spec_pipeline_description_fields());
    }
    v
}

/// `FfxPipelineDescription` in the native layout: field offsets 0, 8, 16, 24, 32; total size 40.
pub proof fn lemma_pipeline_description_layout()
    ensures
        spec_field_offset(spec_pipeline_description_fields(), 0) == 0,
        spec_field_offset(spec_pipeline_description_fields(), 1) == 8,
        spec_field_offset(spec_pipeline_description_fields(), 2) == 16,
        spec_field_offset(spec_pipeline_description_fields(), 3) == 24,
        spec_field_offset(spec_pipeline_description_fields(), 4) == 32,
        spec_struct_size(spec_pipeline_description_fields()) == 40,
{
    let s = spec_pipeline_description_fields();
    assert(s.len() == 5);
    assert(s[0] == CField { size: 4, align: 4 });
    assert(s[1] == CField { size: 8, align: 8 });
    assert(s[2] == CField { size: 8, align: 8 });
    assert(s[3] == CField { size: 8, align: 8 });
    assert(s[4] == CField { size: 4, align: 4 });
    assert(spec_end_of_prefix(s, 0) == 0);
    assert(spec_end_of_prefix(s, 1) == 4);
    assert(spec_end_of_prefix(s, 2) == 16);
    assert(spec_end_of_prefix(s, 3) == 24);
    assert(spec_end_of_prefix(s, 4) == 32);
    assert(spec_end_of_prefix(s, 5) == 36);
    assert(spec_align_of_prefix(s, 0) == 1);
    assert(spec_align_of_prefix(s, 1) == 4);
    assert(spec_align_of_prefix(s, 2) == 8);
    assert(spec_align_of_prefix(s, 3) == 8);
    assert(spec_align_of_prefix(s, 4) == 8);
    assert(spec_align_of_prefix(s, 5) == 8);
}

/// Fields of `FfxConstantBuffer`: a 32-bit count and 64 inline 32-bit words.
pub open spec fn spec_constant_buffer_fields() -> Seq<CField> {
    seq![
        CField { size: 4, align: 4 },
        CField { size: 256, align: 4 },
    ]
}

/// Returns the field table of `FfxConstantBuffer`.
pub fn constant_buffer_fields() -> (r: Vec<CField>)
    ensures
        r@ == spec_constant_buffer_fields(),
{
    let mut v: Vec<CField> = Vec::new();
    v.push(CField { size: 4, align: 4 });
    v.push(CField { size: 256, align: 4 });
    proof {
        assert(v@ =~= spec_constant_buffer_fields());
    }
    v
}

/// `FfxConstantBuffer` in the native layout: field offsets 0, 4; total size 260.
pub proof fn lemma_constant_buffer_layout()
    ensures
        spec_field_offset(spec_constant_buffer_fields(), 0) == 0,
        spec_field_offset(spec_constant_buffer_fields(), 1) == 4,
        spec_struct_size(spec_constant_buffer_fields()) == 260,
{
    let s = spec_constant_buffer_fields();
    assert(s.len() == 2);
    assert(s[0] == CField { size: 4, align: 4 });
    assert(s[1] == CField { size: 256, align: 4 });
    assert(spec_end_of_prefix(s, 0) == 0);
    assert(spec_end_of_prefix(s, 1) == 4);
    assert(spec_end_of_prefix(s, 2) == 260);
    assert(spec_align_of_prefix(s, 0) == 1);
    assert(spec_align_of_prefix(s, 1) == 4);
    assert(spec_align_of_prefix(s, 2) == 4);
}

/// Fields of `FfxClearFloatJobDescription`: four 32-bit color words and the target index.
pub open spec fn spec_clear_float_job_fields() -> Seq<CField> {
    seq![
        CField { size: 16, align: 4 },
        CField { size: 4, align: 4 },
    ]
}

/// Returns the field table of `FfxClearFloatJobDescription`.
pub fn clear_float_job_fields() -> (r: Vec<CField>)
    ensures
        r@ == spec_clear_float_job_fields(),
{
    let mut v: Vec<CField> = Vec::new();
    v.push(CField { size: 16, align: 4 });
    v.push(CField { size: 4, align: 4 });
    proof {
        assert(v@ =~= spec_clear_float_job_fields());
    }
    v
}

/// `FfxClearFloatJobDescription` in the native layout: field offsets 0, 16; total size 20.
pub proof fn lemma_clear_float_job_layout()
    ensures
        spec_field_offset(spec_clear_float_job_fields(), 0) == 0,
        spec_field_offset(spec_clear_float_job_fields(), 1) == 16,
        spec_struct_size(spec_clear_float_job_fields()) == 20,
{
    let s = spec_clear_float_job_fields();
    assert(s.len() == 2);
    assert(s[0] == CField { size: 16, align: 4 });
    assert(s[1] == CField { size: 4, align: 4 });
    assert(spec_end_of_prefix(s, 0) == 0);
    assert(spec_end_of_prefix(s, 1) == 16);
    assert(spec_end_of_prefix(s, 2) == 20);
    assert(spec_align_of_prefix(s, 0) == 1);
    assert(spec_align_of_prefix(s, 1) == 4);
    assert(spec_align_of_prefix(s, 2) == 4);
}

/// Fields of `FfxComputeJobDescription`: a pipeline pointer, dispatch dimensions, and the fixed view, name and constant-buffer tables.
pub open spec fn spec_compute_job_fields() -> Seq<CField> {
    seq![
        CField { size: 8, align: 8 },
        CField { size: 12, align: 4 },
        CField { size: 64, align: 4 },
        CField { size: 4096, align: 4 },
        CField { size: 32, align: 4 },
        CField { size: 32, align: 4 },
        CField { size: 2048, align: 4 },
        CField { size: 520, align: 4 },
        CField { size: 512, align: 4 },
        CField { size: 8, align: 4 },
    ]
}

/// Returns the field table of `FfxComputeJobDescription`.
pub fn compute_job_fields() -> (r: Vec<CField>)
    ensures
        r@ == spec_compute_job_fields(),
{
    let mut v: Vec<CField> = Vec::new();
    v.push(CField { size: 8, align: 8 });
    v.push(CField { size: 12, align: 4 });
    v.push(CField { size: 64, align: 4 });
    v.push(CField { size: 4096, align: 4 });
    v.push(CField { size: 32, align: 4 });
    v.push(CField { size: 32, align: 4 });
    v.push(CField { size: 2048, align: 4 });
    v.push(CField { size: 520, align: 4 });
    v.push(CField { size: 512, align: 4 });
    v.push(CField { size: 8, align: 4 });
    proof {
        assert(v@ =~= spec_compute_job_fields());
    }
    v
}

/// `FfxComputeJobDescription` in the native layout: field offsets 0, 8, 20, 84, 4180, 4212, 4244, 6292, 6812, 7324; total size 7336.
pub proof fn lemma_compute_job_layout()
    ensures
        spec_field_offset(spec_compute_job_fields(), 0) == 0,
        spec_field_offset(spec_compute_job_fields(), 1) == 8,
        spec_field_offset(spec_compute_job_fields(), 2) == 20,
        spec_field_offset(spec_compute_job_fields(), 3) == 84,
        spec_field_offset(spec_compute_job_fields(), 4) == 4180,
        spec_field_offset(spec_compute_job_fields(), 5) == 4212,
        spec_field_offset(spec_compute_job_fields(), 6) == 4244,
        spec_field_offset(spec_compute_job_fields(), 7) == 6292,
        spec_field_offset(spec_compute_job_fields(), 8) == 6812,
        spec_field_offset(spec_compute_job_fields(), 9) == 7324,
        spec_struct_size(spec_compute_job_fields()) == 7336,
{
    let s = spec_compute_job_fields();
    assert(s.len() == 10);
    assert(s[0] == CField { size: 8, align: 8 });
    assert(s[1] == CField { size: 12, align: 4 });
    assert(s[2] == CField { size: 64, align: 4 });
    assert(s[3] == CField { size: 4096, align: 4 });
    assert(s[4] == CField { size: 32, align: 4 });
    assert(s[5] == CField { size: 32, align: 4 });
    assert(s[6] == CField { size: 2048, align: 4 });
    assert(s[7] == CField { size: 520, align: 4 });
    assert(s[8] == CField { size: 512, align: 4 });
    assert(s[9] == CField { size: 8, align: 4 });
    assert(spec_end_of_prefix(s, 0) == 0);
    assert(spec_end_of_prefix(s, 1) == 8);
    assert(spec_end_of_prefix(s, 2) == 20);
    assert(spec_end_of_prefix(s, 3) == 84);
    assert(spec_end_of_prefix(s, 4) == 4180);
    assert(spec_end_of_prefix(s, 5) == 4212);
    assert(spec_end_of_prefix(s, 6) == 4244);
    assert(spec_end_of_prefix(s, 7) == 6292);
    assert(spec_end_of_prefix(s, 8) == 6812);
    assert(spec_end_of_prefix(s, 9) == 7324);
    assert(spec_end_of_prefix(s, 10) == 7332);
    assert(spec_align_of_prefix(s, 0) == 1);
    assert(spec_align_of_prefix(s, 1) == 8);
    assert(spec_align_of_prefix(s, 2) == 8);
    assert(spec_align_of_prefix(s, 3) == 8);
    assert(spec_align_of_prefix(s, 4) == 8);
    assert(spec_align_of_prefix(s, 5) == 8);
    assert(spec_align_of_prefix(s, 6) == 8);
    assert(spec_align_of_prefix(s, 7) == 8);
    assert(spec_align_of_prefix(s, 8) == 8);
    assert(spec_align_of_prefix(s, 9) == 8);
    assert(spec_align_of_prefix(s, 10) == 8);
}

/// Fields of `FfxCopyJobDescription`: two 32-bit indices.
pub open spec fn spec_copy_job_fields() -> Seq<CField> {
    seq![
        CField { size: 4, align: 4 },
        CField { size: 4, align: 4 },
    ]
}

/// Returns the field table of `FfxCopyJobDescription`.
pub fn copy_job_fields() -> (r: Vec<CField>)
    ensures
        r@ == spec_copy_job_fields(),
{
    let mut v: Vec<CField> = Vec::new();
    v.push(CField { size: 4, align: 4 });
    v.push(CField { size: 4, align: 4 });
    proof {
        assert(v@ =~= spec_copy_job_fields());
    }
    v
}

/// `FfxCopyJobDescription` in the native layout: field offsets 0, 4; total size 8.
pub proof fn lemma_copy_job_layout()
    ensures
        spec_field_offset(spec_copy_job_fields(), 0) == 0,
        spec_field_offset(spec_copy_job_fields(), 1) == 4,
        spec_struct_size(spec_copy_job_fields()) == 8,
{
    let s = spec_copy_job_fields();
    assert(s.len() == 2);
    assert(s[0] == CField { size: 4, align: 4 });
    assert(s[1] == CField { size: 4, align: 4 });
    assert(spec_end_of_prefix(s, 0) == 0);
    assert(spec_end_of_prefix(s, 1) == 4);
    assert(spec_end_of_prefix(s, 2) == 8);
    assert(spec_align_of_prefix(s, 0) == 1);
    assert(spec_align_of_prefix(s, 1) == 4);
    assert(spec_align_of_prefix(s, 2) == 4);
}

/// Fields of `FfxGpuJobDescription`: a 32-bit job tag and the union of the three job payloads, sized by the largest.
pub open spec fn spec_gpu_job_fields() -> Seq<CField> {
    seq![
        CField { size: 4, align: 4 },
        CField { size: 7336, align: 8 },
    ]
}

/// Returns the field table of `FfxGpuJobDescription`.
pub fn gpu_job_fields() -> (r: Vec<CField>)
    ensures
        r@ == spec_gpu_job_fields(),
{
    let mut v: Vec<CField> = Vec::new();
    v.push(CField { size: 4, align: 4 });
    v.push(CField { size: 7336, align: 8 });
    proof {
        assert(v@ =~= spec_gpu_job_fields());
    }
    v
}

/// `FfxGpuJobDescription` in the native layout: field offsets 0, 8; total size 7344.
pub proof fn lemma_gpu_job_layout()
    ensures
        spec_field_offset(spec_gpu_job_fields(), 0) == 0,
        spec_field_offset(spec_gpu_job_fields(), 1) == 8,
        spec_struct_size(spec_gpu_job_fields()) == 7344,
{
    let s = spec_gpu_job_fields();
    assert(s.len() == 2);
    assert(s[0] == CField { size: 4, align: 4 });
    assert(s[1] == CField { size: 7336, align: 8 });
    assert(spec_end_of_prefix(s, 0) == 0);
    assert(spec_end_of_prefix(s, 1) == 4);
    assert(spec_end_of_prefix(s, 2) == 7344);
    assert(spec_align_of_prefix(s, 0) == 1);
    assert(spec_align_of_prefix(s, 1) == 4);
    assert(spec_align_of_prefix(s, 2) == 8);
}

/// Fields of `FfxDeviceCapabilities`: three 32-bit words and two booleans.
pub open spec fn spec_device_capabilities_fields() -> Seq<CField> {
    seq![
        CField { size: 4, align: 4 },
        CField { size: 4, align: 4 },
        CField { size: 4, align: 4 },
        CField { size: 1, align: 1 },
        CField { size: 1, align: 1 },
    ]
}

/// Returns the field table of `FfxDeviceCapabilities`.
pub fn device_capabilities_fields() -> (r: Vec<CField>)
    ensures
        r@ == spec_device_capabilities_fields(),
{
    let mut v: Vec<CField> = Vec::new();
    v.push(CField { size: 4, align: 4 });
    v.push(CField { size: 4, align: 4 });
    v.push(CField { size: 4, align: 4 });
    v.push(CField { size: 1, align: 1 });
    v.push(CField { size: 1, align: 1 });
    proof {
        assert(v@ =~= spec_device_capabilities_fields());
    }
    v
}

/// `FfxDeviceCapabilities` in the native layout: field offsets 0, 4, 8, 12, 13; total size 16.
pub proof fn lemma_device_capabilities_layout()
    ensures
        spec_field_offset(spec_device_capabilities_fields(), 0) == 0,
        spec_field_offset(spec_device_capabilities_fields(), 1) == 4,
        spec_field_offset(spec_device_capabilities_fields(), 2) == 8,
        spec_field_offset(spec_device_capabilities_fields(), 3) == 12,
        spec_field_offset(spec_device_capabilities_fields(), 4) == 13,
        spec_struct_size(spec_device_capabilities_fields()) == 16,
{
    let s = spec_device_capabilities_fields();
    assert(s.len() == 5);
    assert(s[0] == CField { size: 4, align: 4 });
    assert(s[1] == CField { size: 4, align: 4 });
    assert(s[2] == CField { size: 4, align: 4 });
    assert(s[3] == CField { size: 1, align: 1 });
    assert(s[4] == CField { size: 1, align: 1 });
    assert(spec_end_of_prefix(s, 0) == 0);
    assert(spec_end_of_prefix(s, 1) == 4);
    assert(spec_end_of_prefix(s, 2) == 8);
    assert(spec_end_of_prefix(s, 3) == 12);
    assert(spec_end_of_prefix(s, 4) == 13);
    assert(spec_end_of_prefix(s, 5) == 14);
    assert(spec_align_of_prefix(s, 0) == 1);
    assert(spec_align_of_prefix(s, 1) == 4);
    assert(spec_align_of_prefix(s, 2) == 4);
    assert(spec_align_of_prefix(s, 3) == 4);
    assert(spec_align_of_prefix(s, 4) == 4);
    assert(spec_align_of_prefix(s, 5) == 4);
}

/// Fields of `FfxFsr2Context`: one inline array of 16536 32-bit words.
pub open spec fn spec_fsr2_context_fields() -> Seq<CField> {
    seq![
        CField { size: 66144, align: 4 },
    ]
}

/// Returns the field table of `FfxFsr2Context`.
pub fn fsr2_context_fields() -> (r: Vec<CField>)
    ensures
        r@ == spec_fsr2_context_fields(),
{
    let mut v: Vec<CField> = Vec::new();
    v.push(CField { size: 66144, align: 4 });
    proof {
        assert(v@ =~= spec_fsr2_context_fields());
    }
    v
}

/// `FfxFsr2Context` in the native layout: field offsets 0; total size 66144.
pub proof fn lemma_fsr2_context_layout()
    ensures
        spec_field_offset(spec_fsr2_context_fields(), 0) == 0,
        spec_struct_size(spec_fsr2_context_fields()) == 66144,
{
    let s = spec_fsr2_context_fields();
    assert(s.len() == 1);
    assert(s[0] == CField { size: 66144, align: 4 });
    assert(spec_end_of_prefix(s, 0) == 0);
    assert(spec_end_of_prefix(s, 1) == 66144);
    assert(spec_align_of_prefix(s, 0) == 1);
    assert(spec_align_of_prefix(s, 1) == 4);
}

/// Fields of `VkMemoryType`: two 32-bit words.
pub open spec fn spec_vk_memory_type_fields() -> Seq<CField> {
    seq![
        CField { size: 4, align: 4 },
        CField { size: 4, align: 4 },
    ]
}

/// Returns the field table of `VkMemoryType`.
pub fn vk_memory_type_fields() -> (r: Vec<CField>)
    ensures
        r@ == spec_vk_memory_type_fields(),
{
    let mut v: Vec<CField> = Vec::new();
    v.push(CField { size: 4, align: 4 });
    v.push(CField { size: 4, align: 4 });
    proof {
        assert(v@ =~= spec_vk_memory_type_fields());
    }
    v
}

/// `VkMemoryType` in the native layout: field offsets 0, 4; total size 8.
pub proof fn lemma_vk_memory_type_layout()
    ensures
        spec_field_offset(spec_vk_memory_type_fields(), 0) == 0,
        spec_field_offset(spec_vk_memory_type_fields(), 1) == 4,
        spec_struct_size(spec_vk_memory_type_fields()) == 8,
{
    let s = spec_vk_memory_type_fields();
    assert(s.len() == 2);
    assert(s[0] == CField { size: 4, align: 4 });
    assert(s[1] == CField { size: 4, align: 4 });
    assert(spec_end_of_prefix(s, 0) == 0);
    assert(spec_end_of_prefix(s, 1) == 4);
    assert(spec_end_of_prefix(s, 2) == 8);
    assert(spec_align_of_prefix(s, 0) == 1);
    assert(spec_align_of_prefix(s, 1) == 4);
    assert(spec_align_of_prefix(s, 2) == 4);
}

/// Fields of `VkMemoryHeap`: a 64-bit size and a 32-bit flag word.
pub open spec fn spec_vk_memory_heap_fields() -> Seq<CField> {
    seq![
        CField { size: 8, align: 8 },
        CField { size: 4, align: 4 },
    ]
}

/// Returns the field table of `VkMemoryHeap`.
pub fn vk_memory_heap_fields() -> (r: Vec<CField>)
    ensures
        r@ == spec_vk_memory_heap_fields(),
{
    let mut v: Vec<CField> = Vec::new();
    v.push(CField { size: 8, align: 8 });
    v.push(CField { size: 4, align: 4 });
    proof {
        assert(v@ =~= spec_vk_memory_heap_fields());
    }
    v
}

/// `VkMemoryHeap` in the native layout: field offsets 0, 8; total size 16.
pub proof fn lemma_vk_memory_heap_layout()
    ensures
        spec_field_offset(spec_vk_memory_heap_fields(), 0) == 0,
        spec_field_offset(spec_vk_memory_heap_fields(), 1) == 8,
        spec_struct_size(spec_vk_memory_heap_fields()) == 16,
{
    let s = spec_vk_memory_heap_fields();
    assert(s.len() == 2);
    assert(s[0] == CField { size: 8, align: 8 });
    assert(s[1] == CField { size: 4, align: 4 });
    assert(spec_end_of_prefix(s, 0) == 0);
    assert(spec_end_of_prefix(s, 1) == 8);
    assert(spec_end_of_prefix(s, 2) == 12);
    assert(spec_align_of_prefix(s, 0) == 1);
    assert(spec_align_of_prefix(s, 1) == 8);
    assert(spec_align_of_prefix(s, 2) == 8);
}

/// Fields of `VkPhysicalDeviceMemoryProperties`: two 32-bit counts and the two fixed 32-entry tables.
pub open spec fn spec_vk_physical_device_memory_properties_fields() -> Seq<CField> {
    seq![
        CField { size: 4, align: 4 },
        CField { size: 256, align: 4 },
        CField { size: 4, align: 4 },
        CField { size: 512, align: 8 },
    ]
}

/// Returns the field table of `VkPhysicalDeviceMemoryProperties`.
pub fn vk_physical_device_memory_properties_fields() -> (r: Vec<CField>)
    ensures
        r@ == spec_vk_physical_device_memory_properties_fields(),
{
    let mut v: Vec<CField> = Vec::new();
    v.push(CField { size: 4, align: 4 });
    v.push(CField { size: 256, align: 4 });
    v.push(CField { size: 4, align: 4 });
    v.push(CField { size: 512, align: 8 });
    proof {
        assert(v@ =~= spec_vk_physical_device_memory_properties_fields());
    }
    v
}

/// `VkPhysicalDeviceMemoryProperties` in the native layout: field offsets 0, 4, 260, 264; total size 776.
pub proof fn lemma_vk_physical_device_memory_properties_layout()
    ensures
        spec_field_offset(spec_vk_physical_device_memory_properties_fields(), 0) == 0,
        spec_field_offset(spec_vk_physical_device_memory_properties_fields(), 1) == 4,
        spec_field_offset(spec_vk_physical_device_memory_properties_fields(), 2) == 260,
        spec_field_offset(spec_vk_physical_device_memory_properties_fields(), 3) == 264,
        spec_struct_size(spec_vk_physical_device_memory_properties_fields()) == 776,
{
    let s = spec_vk_physical_device_memory_properties_fields();
    assert(s.len() == 4);
    assert(s[0] == CField { size: 4, align: 4 });
    assert(s[1] == CField { size: 256, align: 4 });
    assert(s[2] == CField { size: 4, align: 4 });
    assert(s[3] == CField { size: 512, align: 8 });
    assert(spec_end_of_prefix(s, 0) == 0);
    assert(spec_end_of_prefix(s, 1) == 4);
    assert(spec_end_of_prefix(s, 2) == 260);
    assert(spec_end_of_prefix(s, 3) == 264);
    assert(spec_end_of_prefix(s, 4) == 776);
    assert(spec_align_of_prefix(s, 0) == 1);
    assert(spec_align_of_prefix(s, 1) == 4);
    assert(spec_align_of_prefix(s, 2) == 4);
    assert(spec_align_of_prefix(s, 3) == 4);
    assert(spec_align_of_prefix(s, 4) == 8);
}


} // verus!
