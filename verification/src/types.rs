//! The data model: declared types of sequence columns, materialized columns,
//! and their well-formedness.

use vstd::prelude::*;

verus! {

/// The declared type of a column.
///
/// A sequence type wraps the declared type of its elements; the wrapper
/// records which boundary-integer width the column uses (narrow or wide), or
/// that every row has the same fixed element count. `Base` stands for any
/// non-sequence type, told apart by an opaque tag; `NoData` is the degenerate
/// type of columns that carry no values at all.
#[derive(Debug, PartialEq, Eq)]
pub enum ElemType {
    /// The degenerate "no data" type.
    NoData,
    /// A non-sequence (leaf) type, identified by an opaque tag.
    Base(u64),
    /// A sequence type with narrow boundary integers.
    Narrow(Box<ElemType>),
    /// A sequence type with wide boundary integers.
    Wide(Box<ElemType>),
    /// A sequence type where every row has exactly the given element count.
    Fixed(Box<ElemType>, usize),
}

/// A materialized sequence column with narrow boundary integers.
///
/// Row `i` occupies positions `[offsets[i], offsets[i + 1])` of the values
/// storage; the buffer has one more entry than the column has rows.
#[derive(Debug, PartialEq)]
pub struct NarrowColumn {
    /// Declared type of one element (the type of the values storage).
    pub elem: ElemType,
    /// The boundary buffer: `rows + 1` non-decreasing entries.
    pub offsets: Vec<i32>,
    /// The values storage holding all rows' elements contiguously.
    pub values: Box<Column>,
}

/// A materialized sequence column with wide boundary integers.
#[derive(Debug, PartialEq)]
pub struct WideColumn {
    /// Declared type of one element (the type of the values storage).
    pub elem: ElemType,
    /// The boundary buffer: `rows + 1` non-decreasing entries.
    pub offsets: Vec<i64>,
    /// The values storage holding all rows' elements contiguously.
    pub values: Box<Column>,
}

/// A materialized fixed-length sequence column: every row spans exactly
/// `size` consecutive elements of the values storage, so no boundary buffer
/// is stored.
#[derive(Debug, PartialEq)]
pub struct FixedColumn {
    /// Declared type of one element (the type of the values storage).
    pub elem: ElemType,
    /// The element count shared by every row.
    pub size: usize,
    /// The number of rows.
    pub rows: usize,
    /// The values storage holding all rows' elements contiguously.
    pub values: Box<Column>,
}

/// A materialized leaf column: a flat storage of non-sequence values.
#[derive(Debug, PartialEq)]
pub struct BaseColumn {
    /// The opaque tag of the leaf type.
    pub tag: u64,
    /// One value per row.
    pub data: Vec<i64>,
}

/// A materialized column of any supported shape.
#[derive(Debug, PartialEq)]
pub enum Column {
    /// A column of the "no data" type: only a row count.
    NoData { rows: usize },
    /// A leaf column of non-sequence values.
    Base(BaseColumn),
    /// A sequence column with narrow boundaries.
    Narrow(NarrowColumn),
    /// A sequence column with wide boundaries.
    Wide(WideColumn),
    /// A fixed-length sequence column.
    Fixed(FixedColumn),
}

/// The errors the transform can signal.
#[derive(Debug, PartialEq, Eq)]
pub enum FlattenError {
    /// The call was built with this many arguments instead of exactly one.
    WrongArity(usize),
    /// The argument's type (carried here) is none of narrow sequence, wide
    /// sequence, or "no data".
    UnsupportedType(ElemType),
    /// A nested level's values storage does not match the boundary width the
    /// walk assumed.
    CastFailure,
}

/// The declared type of a materialized column, read off its outermost level.
pub open spec fn col_type(c: Column) -> ElemType {
    match c {
        Column::NoData { .. } => ElemType::NoData,
        Column::Base(b) => ElemType::Base(b.tag),
        Column::Narrow(n) => ElemType::Narrow(Box::new(n.elem)),
        Column::Wide(w) => ElemType::Wide(Box::new(w.elem)),
        Column::Fixed(f) => ElemType::Fixed(Box::new(f.elem), f.size),
    }
}

/// The number of rows of a materialized column.
pub open spec fn col_rows(c: Column) -> int {
    match c {
        Column::NoData { rows } => rows as int,
        Column::Base(b) => b.data@.len() as int,
        Column::Narrow(n) => n.offsets@.len() - 1,
        Column::Wide(w) => w.offsets@.len() - 1,
        Column::Fixed(f) => f.rows as int,
    }
}

/// A valid narrow boundary or selector buffer: at least one entry,
/// non-decreasing, every entry in `[0, bound)`.
pub open spec fn bounded_mono_narrow(s: Seq<i32>, bound: int) -> bool {
    &&& s.len() >= 1
    &&& forall|i: int, j: int| 0 <= i <= j < s.len() ==> s[i] <= s[j]
    &&& forall|i: int| 0 <= i < s.len() ==> 0 <= #[trigger] s[i] < bound
}

/// A valid wide boundary or selector buffer: at least one entry,
/// non-decreasing, every entry in `[0, bound)`.
pub open spec fn bounded_mono_wide(s: Seq<i64>, bound: int) -> bool {
    &&& s.len() >= 1
    &&& forall|i: int, j: int| 0 <= i <= j < s.len() ==> s[i] <= s[j]
    &&& forall|i: int| 0 <= i < s.len() ==> 0 <= #[trigger] s[i] < bound
}

/// Well-formedness of a narrow column at its outermost level: the boundary
/// buffer is a valid buffer whose entries address the values storage, the
/// declared element type agrees with the values storage's own type, and the
/// values storage is itself well-formed.
pub open spec fn narrow_col_wf(c: NarrowColumn) -> bool
    decreases c,
{
    &&& bounded_mono_narrow(c.offsets@, col_rows(*c.values) + 1)
    &&& col_type(*c.values) == c.elem
    &&& col_wf(*c.values)
}

/// Well-formedness of a wide column at its outermost level.
pub open spec fn wide_col_wf(c: WideColumn) -> bool
    decreases c,
{
    &&& bounded_mono_wide(c.offsets@, col_rows(*c.values) + 1)
    &&& col_type(*c.values) == c.elem
    &&& col_wf(*c.values)
}

/// Well-formedness of a fixed-length column: the values storage holds exactly
/// `size` elements for each row and agrees with the declared element type.
pub open spec fn fixed_col_wf(c: FixedColumn) -> bool
    decreases c,
{
    &&& col_rows(*c.values) == c.rows * c.size
    &&& col_type(*c.values) == c.elem
    &&& col_wf(*c.values)
}

/// Well-formedness of a materialized column, all levels included.
pub open spec fn col_wf(c: Column) -> bool
    decreases c,
{
    match c {
        Column::NoData { .. } => true,
        Column::Base(_) => true,
        Column::Narrow(n) => narrow_col_wf(n),
        Column::Wide(w) => wide_col_wf(w),
        Column::Fixed(f) => fixed_col_wf(f),
    }
}

} // verus!
