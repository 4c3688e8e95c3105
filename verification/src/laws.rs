//! The general laws of the transform, proved once and for all over the spec
//! model: depth collapse, idempotence beyond the first collapse, and the
//! agreement of the runtime result's type with the planning-time resolution.

use vstd::prelude::*;

use crate::flatten::{
    compose_narrow, compose_wide, flat_elem_narrow, flat_elem_wide, flat_offsets_narrow,
    flat_offsets_wide, flat_values_narrow, flat_values_wide, narrow_ok, wide_ok,
};
use crate::resolve::resolved_type;
use crate::types::{
    col_type, col_wf, narrow_col_wf, wide_col_wf, Column, ElemType, NarrowColumn, WideColumn,
};

verus! {

/// The position in the leaf values storage that boundary position `p` of the
/// outermost level addresses once every deeper narrow level is composed in.
pub open spec fn deep_pos_narrow(c: NarrowColumn, p: int) -> int
    decreases c,
{
    match c.elem {
        ElemType::Narrow(_) => match *c.values {
            Column::Narrow(sub) => deep_pos_narrow(sub, c.offsets@[p] as int),
            _ => c.offsets@[p] as int,
        },
        _ => c.offsets@[p] as int,
    }
}

/// The number of leaf elements reachable under row `i` of the column: the
/// row's own span at the innermost level, and the sum over the row's children
/// further out.
pub open spec fn row_leaf_count_narrow(c: NarrowColumn, i: int) -> int
    decreases c, 0int, 0int,
{
    match c.elem {
        ElemType::Narrow(_) => match *c.values {
            Column::Narrow(sub) => range_leaf_count_narrow(
                sub,
                c.offsets@[i] as int,
                c.offsets@[i + 1] as int,
            ),
            _ => c.offsets@[i + 1] - c.offsets@[i],
        },
        _ => c.offsets@[i + 1] - c.offsets@[i],
    }
}

/// The number of leaf elements reachable under rows `lo..hi` of the column.
pub open spec fn range_leaf_count_narrow(c: NarrowColumn, lo: int, hi: int) -> int
    decreases c, 1int, hi - lo,
{
    if lo >= hi {
        0
    } else {
        range_leaf_count_narrow(c, lo, hi - 1) + row_leaf_count_narrow(c, hi - 1)
    }
}

/// Telescoping: the distance between two composed leaf positions is the
/// number of leaf elements reachable under the rows between them.
pub proof fn lemma_deep_pos_range_narrow(c: NarrowColumn, lo: int, hi: int)
    requires
        narrow_col_wf(c),
        narrow_ok(c),
        0 <= lo <= hi,
        hi < c.offsets@.len(),
    ensures
        deep_pos_narrow(c, hi) - deep_pos_narrow(c, lo) == range_leaf_count_narrow(c, lo, hi),
    decreases c, hi - lo,
{
    if lo < hi {
        lemma_deep_pos_range_narrow(c, lo, hi - 1);
        match c.elem {
            ElemType::Narrow(_) => match *c.values {
                Column::Narrow(sub) => {
                    assert(0 <= c.offsets@[hi - 1] <= c.offsets@[hi]);
                    assert((c.offsets@[hi] as int) < sub.offsets@.len());
                    lemma_deep_pos_range_narrow(
                        sub,
                        c.offsets@[hi - 1] as int,
                        c.offsets@[hi] as int,
                    );
                    assert(deep_pos_narrow(c, hi) == deep_pos_narrow(
                        sub,
                        c.offsets@[hi] as int,
                    ));
                    assert(deep_pos_narrow(c, hi - 1) == deep_pos_narrow(
                        sub,
                        c.offsets@[hi - 1] as int,
                    ));
                    assert(row_leaf_count_narrow(c, hi - 1) == range_leaf_count_narrow(
                        sub,
                        c.offsets@[hi - 1] as int,
                        c.offsets@[hi] as int,
                    ));
                }
                _ => {}
            },
            _ => {}
        }
        assert(deep_pos_narrow(c, hi) - deep_pos_narrow(c, hi - 1) == row_leaf_count_narrow(
            c,
            hi - 1,
        ));
        assert(range_leaf_count_narrow(c, lo, hi) == range_leaf_count_narrow(c, lo, hi - 1)
            + row_leaf_count_narrow(c, hi - 1));
    }
}

/// Every entry of the composed buffer built from selector `a` is the deep
/// position of the corresponding selected boundary position.
pub proof fn lemma_flat_offsets_some_narrow(c: NarrowColumn, a: Seq<i32>)
    requires
        narrow_col_wf(c),
        narrow_ok(c),
        forall|i: int| 0 <= i < a.len() ==> 0 <= #[trigger] a[i] < c.offsets@.len(),
    ensures
        flat_offsets_narrow(c, Option::Some(a)).len() == a.len(),
        forall|j: int| 0 <= j < a.len() ==> #[trigger] flat_offsets_narrow(
            c,
            Option::Some(a),
        )[j] as int == deep_pos_narrow(c, a[j] as int),
    decreases c,
{
    match c.elem {
        ElemType::Narrow(_) => match *c.values {
            Column::Narrow(sub) => {
                let comp = compose_narrow(c.offsets@, a);
                assert(forall|i: int|
                    0 <= i < comp.len() ==> 0 <= #[trigger] comp[i] < sub.offsets@.len());
                lemma_flat_offsets_some_narrow(sub, comp);
            }
            _ => {}
        },
        _ => {}
    }
}

/// Starting with nothing accumulated, entry `j` of the fully composed buffer
/// is the deep position of boundary position `j` of the outermost level.
pub proof fn lemma_flat_offsets_none_narrow(c: NarrowColumn)
    requires
        narrow_col_wf(c),
        narrow_ok(c),
    ensures
        flat_offsets_narrow(c, Option::None).len() == c.offsets@.len(),
        forall|j: int| 0 <= j < c.offsets@.len() ==> #[trigger] flat_offsets_narrow(
            c,
            Option::None,
        )[j] as int == deep_pos_narrow(c, j),
{
    match c.elem {
        ElemType::Narrow(_) => match *c.values {
            Column::Narrow(sub) => {
                lemma_flat_offsets_some_narrow(sub, c.offsets@);
            }
            _ => {}
        },
        _ => {}
    }
}

/// Depth collapse, narrow walk: the flattened buffer has as many entries as
/// the input's outermost buffer, and each output row spans exactly as many
/// leaf elements as are reachable under that input row — the per-level spans
/// are consecutive and in original left-to-right order, so the composed span
/// is their sum.
pub proof fn lemma_depth_collapse_narrow(c: NarrowColumn, i: int)
    requires
        narrow_col_wf(c),
        narrow_ok(c),
        0 <= i,
        i < c.offsets@.len() - 1,
    ensures
        flat_offsets_narrow(c, Option::None).len() == c.offsets@.len(),
        flat_offsets_narrow(c, Option::None)[i + 1] - flat_offsets_narrow(c, Option::None)[i]
            == row_leaf_count_narrow(c, i),
{
    lemma_flat_offsets_none_narrow(c);
    lemma_deep_pos_range_narrow(c, i, i + 1);
    assert(range_leaf_count_narrow(c, i, i) == 0);
    assert(range_leaf_count_narrow(c, i, i + 1) == range_leaf_count_narrow(c, i, i)
        + row_leaf_count_narrow(c, i));
}

/// The element type where the narrow walk's base case fires is never itself a
/// sequence type of either width (the walk only stops below them).
pub proof fn lemma_flat_elem_not_nested_narrow(c: NarrowColumn)
    requires
        narrow_ok(c),
    ensures
        !(flat_elem_narrow(c) is Narrow),
        !(flat_elem_narrow(c) is Wide),
    decreases c,
{
    match c.elem {
        ElemType::Narrow(_) => match *c.values {
            Column::Narrow(sub) => {
                lemma_flat_elem_not_nested_narrow(sub);
            }
            _ => {}
        },
        _ => {}
    }
}

/// Fixed point, narrow walk: a column assembled from the flattener's output
/// components is already single level, so flattening it again walks straight
/// to the base case and returns it unchanged.
pub proof fn lemma_fixed_point_narrow(c: NarrowColumn, out: NarrowColumn)
    requires
        narrow_ok(c),
        out.elem == flat_elem_narrow(c),
    ensures
        narrow_ok(out),
        flat_elem_narrow(out) == out.elem,
        flat_offsets_narrow(out, Option::None) == out.offsets@,
        flat_values_narrow(out) == *out.values,
{
    lemma_flat_elem_not_nested_narrow(c);
}

/// The runtime result of the narrow walk has the type the planning-time
/// resolver promised, provided the walk's base element type is not a
/// fixed-length sequence (the resolver peels fixed-length wrappers inside the
/// narrow class, the runtime walk does not — the known gap).
pub proof fn lemma_resolved_type_narrow(c: NarrowColumn, o: NarrowColumn)
    requires
        narrow_col_wf(c),
        narrow_ok(c),
        !(flat_elem_narrow(c) is Fixed),
        o.elem == flat_elem_narrow(c),
    ensures
        resolved_type(col_type(Column::Narrow(c))) == Option::Some(col_type(Column::Narrow(o))),
    decreases c,
{
    match c.elem {
        ElemType::Narrow(_) => match *c.values {
            Column::Narrow(sub) => {
                lemma_resolved_type_narrow(sub, o);
            }
            _ => {}
        },
        _ => {}
    }
}

/// The position in the leaf values storage that boundary position `p` of the
/// outermost level addresses once every deeper wide level is composed in.
pub open spec fn deep_pos_wide(c: WideColumn, p: int) -> int
    decreases c,
{
    match c.elem {
        ElemType::Wide(_) => match *c.values {
            Column::Wide(sub) => deep_pos_wide(sub, c.offsets@[p] as int),
            _ => c.offsets@[p] as int,
        },
        _ => c.offsets@[p] as int,
    }
}

/// The number of leaf elements reachable under row `i` of a wide column.
pub open spec fn row_leaf_count_wide(c: WideColumn, i: int) -> int
    decreases c, 0int, 0int,
{
    match c.elem {
        ElemType::Wide(_) => match *c.values {
            Column::Wide(sub) => range_leaf_count_wide(
                sub,
                c.offsets@[i] as int,
                c.offsets@[i + 1] as int,
            ),
            _ => c.offsets@[i + 1] - c.offsets@[i],
        },
        _ => c.offsets@[i + 1] - c.offsets@[i],
    }
}

/// The number of leaf elements reachable under rows `lo..hi` of a wide column.
pub open spec fn range_leaf_count_wide(c: WideColumn, lo: int, hi: int) -> int
    decreases c, 1int, hi - lo,
{
    if lo >= hi {
        0
    } else {
        range_leaf_count_wide(c, lo, hi - 1) + row_leaf_count_wide(c, hi - 1)
    }
}

/// Telescoping for the wide walk.
pub proof fn lemma_deep_pos_range_wide(c: WideColumn, lo: int, hi: int)
    requires
        wide_col_wf(c),
        wide_ok(c),
        0 <= lo <= hi,
        hi < c.offsets@.len(),
    ensures
        deep_pos_wide(c, hi) - deep_pos_wide(c, lo) == range_leaf_count_wide(c, lo, hi),
    decreases c, hi - lo,
{
    if lo < hi {
        lemma_deep_pos_range_wide(c, lo, hi - 1);
        match c.elem {
            ElemType::Wide(_) => match *c.values {
                Column::Wide(sub) => {
                    assert(0 <= c.offsets@[hi - 1] <= c.offsets@[hi]);
                    assert((c.offsets@[hi] as int) < sub.offsets@.len());
                    lemma_deep_pos_range_wide(
                        sub,
                        c.offsets@[hi - 1] as int,
                        c.offsets@[hi] as int,
                    );
                    assert(deep_pos_wide(c, hi) == deep_pos_wide(sub, c.offsets@[hi] as int));
                    assert(deep_pos_wide(c, hi - 1) == deep_pos_wide(
                        sub,
                        c.offsets@[hi - 1] as int,
                    ));
                    assert(row_leaf_count_wide(c, hi - 1) == range_leaf_count_wide(
                        sub,
                        c.offsets@[hi - 1] as int,
                        c.offsets@[hi] as int,
                    ));
                }
                _ => {}
            },
            _ => {}
        }
        assert(deep_pos_wide(c, hi) - deep_pos_wide(c, hi - 1) == row_leaf_count_wide(c, hi - 1));
        assert(range_leaf_count_wide(c, lo, hi) == range_leaf_count_wide(c, lo, hi - 1)
            + row_leaf_count_wide(c, hi - 1));
    }
}

/// Every entry of the composed wide buffer built from selector `a` is the
/// deep position of the corresponding selected boundary position.
pub proof fn lemma_flat_offsets_some_wide(c: WideColumn, a: Seq<i64>)
    requires
        wide_col_wf(c),
        wide_ok(c),
        forall|i: int| 0 <= i < a.len() ==> 0 <= #[trigger] a[i] < c.offsets@.len(),
    ensures
        flat_offsets_wide(c, Option::Some(a)).len() == a.len(),
        forall|j: int| 0 <= j < a.len() ==> #[trigger] flat_offsets_wide(
            c,
            Option::Some(a),
        )[j] as int == deep_pos_wide(c, a[j] as int),
    decreases c,
{
    match c.elem {
        ElemType::Wide(_) => match *c.values {
            Column::Wide(sub) => {
                let comp = compose_wide(c.offsets@, a);
                assert(forall|i: int|
                    0 <= i < comp.len() ==> 0 <= #[trigger] comp[i] < sub.offsets@.len());
                lemma_flat_offsets_some_wide(sub, comp);
            }
            _ => {}
        },
        _ => {}
    }
}

/// Starting with nothing accumulated, entry `j` of the fully composed wide
/// buffer is the deep position of boundary position `j` of the outermost
/// level.
pub proof fn lemma_flat_offsets_none_wide(c: WideColumn)
    requires
        wide_col_wf(c),
        wide_ok(c),
    ensures
        flat_offsets_wide(c, Option::None).len() == c.offsets@.len(),
        forall|j: int| 0 <= j < c.offsets@.len() ==> #[trigger] flat_offsets_wide(
            c,
            Option::None,
        )[j] as int == deep_pos_wide(c, j),
{
    match c.elem {
        ElemType::Wide(_) => match *c.values {
            Column::Wide(sub) => {
                lemma_flat_offsets_some_wide(sub, c.offsets@);
            }
            _ => {}
        },
        _ => {}
    }
}

/// Depth collapse, wide walk: the mirror of the narrow statement.
pub proof fn lemma_depth_collapse_wide(c: WideColumn, i: int)
    requires
        wide_col_wf(c),
        wide_ok(c),
        0 <= i,
        i < c.offsets@.len() - 1,
    ensures
        flat_offsets_wide(c, Option::None).len() == c.offsets@.len(),
        flat_offsets_wide(c, Option::None)[i + 1] - flat_offsets_wide(c, Option::None)[i]
            == row_leaf_count_wide(c, i),
{
    lemma_flat_offsets_none_wide(c);
    lemma_deep_pos_range_wide(c, i, i + 1);
    assert(range_leaf_count_wide(c, i, i) == 0);
    assert(range_leaf_count_wide(c, i, i + 1) == range_leaf_count_wide(c, i, i)
        + row_leaf_count_wide(c, i));
}

/// The element type where the wide walk's base case fires is never itself a
/// sequence type of either width.
pub proof fn lemma_flat_elem_not_nested_wide(c: WideColumn)
    requires
        wide_ok(c),
    ensures
        !(flat_elem_wide(c) is Narrow),
        !(flat_elem_wide(c) is Wide),
    decreases c,
{
    match c.elem {
        ElemType::Wide(_) => match *c.values {
            Column::Wide(sub) => {
                lemma_flat_elem_not_nested_wide(sub);
            }
            _ => {}
        },
        _ => {}
    }
}

/// Fixed point, wide walk: a column assembled from the flattener's output
/// components is already single level, so flattening it again returns it
/// unchanged.
pub proof fn lemma_fixed_point_wide(c: WideColumn, out: WideColumn)
    requires
        wide_ok(c),
        out.elem == flat_elem_wide(c),
    ensures
        wide_ok(out),
        flat_elem_wide(out) == out.elem,
        flat_offsets_wide(out, Option::None) == out.offsets@,
        flat_values_wide(out) == *out.values,
{
    lemma_flat_elem_not_nested_wide(c);
}

/// The runtime result of the wide walk always has the type the planning-time
/// resolver promised: the resolver peels only wide-in-wide nesting, exactly
/// what the wide walk flattens, so no extra condition is needed here.
pub proof fn lemma_resolved_type_wide(c: WideColumn, o: WideColumn)
    requires
        wide_col_wf(c),
        wide_ok(c),
        o.elem == flat_elem_wide(c),
    ensures
        resolved_type(col_type(Column::Wide(c))) == Option::Some(col_type(Column::Wide(o))),
    decreases c,
{
    match c.elem {
        ElemType::Wide(_) => match *c.values {
            Column::Wide(sub) => {
                lemma_resolved_type_wide(sub, o);
            }
            _ => {}
        },
        _ => {}
    }
}

} // verus!
