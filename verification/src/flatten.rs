//! The recursive flattener and its boundary composer, in two monomorphic
//! code paths (narrow and wide boundary integers), and the execution-time
//! dispatcher over a materialized column.

use vstd::prelude::*;

use crate::types::{
    bounded_mono_narrow, bounded_mono_wide, col_rows, col_type, col_wf, narrow_col_wf,
    wide_col_wf, Column, ElemType, FlattenError, NarrowColumn, WideColumn,
};

verus! {

/// Boundary composition: entry `i` of the result is `base[sel[i]]`. Each
/// entry of `sel` is a position meaningful as an index into `base`, so one
/// application collapses one level of nesting.
pub open spec fn compose_narrow(base: Seq<i32>, sel: Seq<i32>) -> Seq<i32> {
    Seq::new(sel.len(), |i: int| base[sel[i] as int])
}

/// Boundary composition for wide boundary buffers.
pub open spec fn compose_wide(base: Seq<i64>, sel: Seq<i64>) -> Seq<i64> {
    Seq::new(sel.len(), |i: int| base[sel[i] as int])
}

/// The accumulated buffer after visiting a level whose boundary buffer is
/// `offsets`: the buffer itself when nothing was accumulated yet, otherwise
/// the composition of the two.
pub open spec fn next_acc_narrow(offsets: Seq<i32>, acc: Option<Seq<i32>>) -> Seq<i32> {
    match acc {
        Option::None => offsets,
        Option::Some(a) => compose_narrow(offsets, a),
    }
}

/// The accumulated buffer after visiting a level of a wide column.
pub open spec fn next_acc_wide(offsets: Seq<i64>, acc: Option<Seq<i64>>) -> Seq<i64> {
    match acc {
        Option::None => offsets,
        Option::Some(a) => compose_wide(offsets, a),
    }
}

/// The narrow walk succeeds on this column: no level declares a wide element
/// type (which would make the values storage fail the narrow reinterpretation).
pub open spec fn narrow_ok(c: NarrowColumn) -> bool
    decreases c,
{
    match c.elem {
        ElemType::Wide(_) => false,
        ElemType::Narrow(_) => match *c.values {
            Column::Narrow(sub) => narrow_ok(sub),
            _ => false,
        },
        _ => true,
    }
}

/// The wide walk succeeds on this column: no level declares a narrow element
/// type.
pub open spec fn wide_ok(c: WideColumn) -> bool
    decreases c,
{
    match c.elem {
        ElemType::Narrow(_) => false,
        ElemType::Wide(_) => match *c.values {
            Column::Wide(sub) => wide_ok(sub),
            _ => false,
        },
        _ => true,
    }
}

/// The element type of the flattened result: the element type of the
/// innermost narrow level, where the narrow walk's base case fires.
pub open spec fn flat_elem_narrow(c: NarrowColumn) -> ElemType
    decreases c,
{
    match c.elem {
        ElemType::Narrow(_) => match *c.values {
            Column::Narrow(sub) => flat_elem_narrow(sub),
            _ => c.elem,
        },
        _ => c.elem,
    }
}

/// The element type of the flattened result of the wide walk.
pub open spec fn flat_elem_wide(c: WideColumn) -> ElemType
    decreases c,
{
    match c.elem {
        ElemType::Wide(_) => match *c.values {
            Column::Wide(sub) => flat_elem_wide(sub),
            _ => c.elem,
        },
        _ => c.elem,
    }
}

/// The leaf values storage the flattened result shares with the input: the
/// values storage of the innermost narrow level.
pub open spec fn flat_values_narrow(c: NarrowColumn) -> Column
    decreases c,
{
    match c.elem {
        ElemType::Narrow(_) => match *c.values {
            Column::Narrow(sub) => flat_values_narrow(sub),
            _ => *c.values,
        },
        _ => *c.values,
    }
}

/// The leaf values storage of the flattened result of the wide walk.
pub open spec fn flat_values_wide(c: WideColumn) -> Column
    decreases c,
{
    match c.elem {
        ElemType::Wide(_) => match *c.values {
            Column::Wide(sub) => flat_values_wide(sub),
            _ => *c.values,
        },
        _ => *c.values,
    }
}

/// The composed boundary buffer of the flattened result, given what was
/// accumulated before this level: every level's buffer is folded in from the
/// outermost inwards, so each entry ends up a direct position into the leaf
/// values storage.
pub open spec fn flat_offsets_narrow(c: NarrowColumn, acc: Option<Seq<i32>>) -> Seq<i32>
    decreases c,
{
    let cur = next_acc_narrow(c.offsets@, acc);
    match c.elem {
        ElemType::Narrow(_) => match *c.values {
            Column::Narrow(sub) => flat_offsets_narrow(sub, Option::Some(cur)),
            _ => cur,
        },
        _ => cur,
    }
}

/// The composed boundary buffer of the flattened result of the wide walk.
pub open spec fn flat_offsets_wide(c: WideColumn, acc: Option<Seq<i64>>) -> Seq<i64>
    decreases c,
{
    let cur = next_acc_wide(c.offsets@, acc);
    match c.elem {
        ElemType::Wide(_) => match *c.values {
            Column::Wide(sub) => flat_offsets_wide(sub, Option::Some(cur)),
            _ => cur,
        },
        _ => cur,
    }
}

/// The view of an optional accumulated buffer.
pub open spec fn acc_view_narrow(acc: Option<Vec<i32>>) -> Option<Seq<i32>> {
    match acc {
        Option::None => Option::None,
        Option::Some(a) => Option::Some(a@),
    }
}

/// The view of an optional accumulated wide buffer.
pub open spec fn acc_view_wide(acc: Option<Vec<i64>>) -> Option<Seq<i64>> {
    match acc {
        Option::None => Option::None,
        Option::Some(a) => Option::Some(a@),
    }
}

/// Builds the boundary buffer equivalent to flattening one level: selects
/// from `base` at each position `sel` holds.
fn compose_offsets_narrow(base: &Vec<i32>, sel: &Vec<i32>) -> (r: Vec<i32>)
    requires
        forall|i: int| 0 <= i < sel@.len() ==> 0 <= #[trigger] sel@[i] < base@.len(),
    ensures
        r@ == compose_narrow(base@, sel@),
{
    let mut out: Vec<i32> = Vec::new();
    let mut k: usize = 0;
    while k < sel.len()
        invariant
            k <= sel@.len(),
            out@.len() == k as int,
            forall|j: int| 0 <= j < k as int ==> out@[j] == base@[#[trigger] sel@[j] as int],
            forall|i: int| 0 <= i < sel@.len() ==> 0 <= #[trigger] sel@[i] < base@.len(),
        decreases sel@.len() - k,
    {
        let idx: i32 = sel[k];
        out.push(base[idx as usize]);
        k = k + 1;
    }
    proof {
        assert(out@ =~= compose_narrow(base@, sel@));
    }
    out
}

/// Builds the boundary buffer equivalent to flattening one level of a wide
/// column.
fn compose_offsets_wide(base: &Vec<i64>, sel: &Vec<i64>) -> (r: Vec<i64>)
    requires
        forall|i: int| 0 <= i < sel@.len() ==> 0 <= #[trigger] sel@[i] < base@.len(),
    ensures
        r@ == compose_wide(base@, sel@),
{
    let mut out: Vec<i64> = Vec::new();
    let mut k: usize = 0;
    while k < sel.len()
        invariant
            k <= sel@.len(),
            out@.len() == k as int,
            forall|j: int| 0 <= j < k as int ==> out@[j] == base@[#[trigger] sel@[j] as int],
            forall|i: int| 0 <= i < sel@.len() ==> 0 <= #[trigger] sel@[i] < base@.len(),
        decreases sel@.len() - k,
    {
        let idx: i64 = sel[k];
        let n: usize = base.len();
        proof {
            assert(0 <= idx as int && (idx as int) < n as int);
        }
        out.push(base[idx as usize]);
        k = k + 1;
    }
    proof {
        assert(out@ =~= compose_wide(base@, sel@));
    }
    out
}

/// Descends through the narrow nesting levels of `col`, folding each level's
/// boundary buffer into the accumulated buffer `acc`, and returns the
/// single-level column addressing the innermost values storage. A column that
/// is already single level (base case with nothing accumulated) is returned
/// unchanged. A wide level nested at any depth surfaces as `CastFailure`.
pub fn flatten_narrow(col: NarrowColumn, acc: Option<Vec<i32>>) -> (r: Result<
    NarrowColumn,
    FlattenError,
>)
    requires
        narrow_col_wf(col),
        acc matches Option::Some(a) ==> bounded_mono_narrow(a@, col.offsets@.len() as int),
    ensures
        r is Ok <==> narrow_ok(col),
        !narrow_ok(col) ==> r == Err::<NarrowColumn, FlattenError>(FlattenError::CastFailure),
        r matches Ok(f) ==> {
            &&& f.elem == flat_elem_narrow(col)
            &&& f.offsets@ == flat_offsets_narrow(col, acc_view_narrow(acc))
            &&& *f.values == flat_values_narrow(col)
            &&& narrow_col_wf(f)
            &&& f.offsets@.len() == next_acc_narrow(col.offsets@, acc_view_narrow(acc)).len()
        },
        (acc is None && !(col.elem is Narrow) && !(col.elem is Wide)) ==> r == Ok::<
            NarrowColumn,
            FlattenError,
        >(col),
    decreases col,
{
    if matches!(col.elem, ElemType::Narrow(_) | ElemType::Wide(_)) {
        let NarrowColumn { elem, offsets, values } = col;
        match *values {
            Column::Narrow(sub) => {
                let new_acc: Vec<i32> = match acc {
                    Option::None => offsets,
                    Option::Some(a) => compose_offsets_narrow(&offsets, &a),
                };
                flatten_narrow(sub, Option::Some(new_acc))
            }
            _ => Err(FlattenError::CastFailure),
        }
    } else {
        match acc {
            Option::None => Ok(col),
            Option::Some(a) => {
                let new_offsets = compose_offsets_narrow(&col.offsets, &a);
                Ok(NarrowColumn { elem: col.elem, offsets: new_offsets, values: col.values })
            }
        }
    }
}

/// Descends through the wide nesting levels of `col`, the mirror of
/// `flatten_narrow` for wide boundary integers. A narrow level nested at any
/// depth surfaces as `CastFailure`.
pub fn flatten_wide(col: WideColumn, acc: Option<Vec<i64>>) -> (r: Result<
    WideColumn,
    FlattenError,
>)
    requires
        wide_col_wf(col),
        acc matches Option::Some(a) ==> bounded_mono_wide(a@, col.offsets@.len() as int),
    ensures
        r is Ok <==> wide_ok(col),
        !wide_ok(col) ==> r == Err::<WideColumn, FlattenError>(FlattenError::CastFailure),
        r matches Ok(f) ==> {
            &&& f.elem == flat_elem_wide(col)
            &&& f.offsets@ == flat_offsets_wide(col, acc_view_wide(acc))
            &&& *f.values == flat_values_wide(col)
            &&& wide_col_wf(f)
            &&& f.offsets@.len() == next_acc_wide(col.offsets@, acc_view_wide(acc)).len()
        },
        (acc is None && !(col.elem is Narrow) && !(col.elem is Wide)) ==> r == Ok::<
            WideColumn,
            FlattenError,
        >(col),
    decreases col,
{
    if matches!(col.elem, ElemType::Narrow(_) | ElemType::Wide(_)) {
        let WideColumn { elem, offsets, values } = col;
        match *values {
            Column::Wide(sub) => {
                let new_acc: Vec<i64> = match acc {
                    Option::None => offsets,
                    Option::Some(a) => compose_offsets_wide(&offsets, &a),
                };
                flatten_wide(sub, Option::Some(new_acc))
            }
            _ => Err(FlattenError::CastFailure),
        }
    } else {
        match acc {
            Option::None => Ok(col),
            Option::Some(a) => {
                let new_offsets = compose_offsets_wide(&col.offsets, &a);
                Ok(WideColumn { elem: col.elem, offsets: new_offsets, values: col.values })
            }
        }
    }
}

/// The execution-time hook: checks that exactly one materialized column was
/// handed in, then dispatches on its runtime type. Narrow and wide sequence
/// columns are flattened by the walk of the matching width; a "no data"
/// column is returned unchanged; anything else, the fixed-length
/// representation included, is unsupported.
pub fn flatten_inner(args: Vec<Column>) -> (r: Result<Column, FlattenError>)
    requires
        args@.len() == 1 ==> col_wf(args@[0]),
    ensures
        args@.len() != 1 ==> r == Err::<Column, FlattenError>(
            FlattenError::WrongArity(args@.len() as usize),
        ),
        args@.len() == 1 ==> match args@[0] {
            Column::NoData { .. } => r == Ok::<Column, FlattenError>(args@[0]),
            Column::Narrow(n) => {
                &&& (r is Ok <==> narrow_ok(n))
                &&& !narrow_ok(n) ==> r == Err::<Column, FlattenError>(FlattenError::CastFailure)
                &&& r matches Ok(out) ==> out matches Column::Narrow(f) && {
                    &&& f.elem == flat_elem_narrow(n)
                    &&& f.offsets@ == flat_offsets_narrow(n, Option::None)
                    &&& *f.values == flat_values_narrow(n)
                    &&& col_wf(out)
                }
                &&& (!(n.elem is Narrow) && !(n.elem is Wide)) ==> r == Ok::<
                    Column,
                    FlattenError,
                >(args@[0])
            },
            Column::Wide(w) => {
                &&& (r is Ok <==> wide_ok(w))
                &&& !wide_ok(w) ==> r == Err::<Column, FlattenError>(FlattenError::CastFailure)
                &&& r matches Ok(out) ==> out matches Column::Wide(f) && {
                    &&& f.elem == flat_elem_wide(w)
                    &&& f.offsets@ == flat_offsets_wide(w, Option::None)
                    &&& *f.values == flat_values_wide(w)
                    &&& col_wf(out)
                }
                &&& (!(w.elem is Narrow) && !(w.elem is Wide)) ==> r == Ok::<
                    Column,
                    FlattenError,
                >(args@[0])
            },
            _ => r == Err::<Column, FlattenError>(
                FlattenError::UnsupportedType(col_type(args@[0])),
            ),
        },
        args@.len() == 1 ==> (r matches Ok(out) ==> col_rows(out) == col_rows(args@[0])),
{
    let mut args = args;
    if args.len() != 1 {
        return Err(FlattenError::WrongArity(args.len()));
    }
    let col = args.remove(0);
    match col {
        Column::NoData { rows } => Ok(Column::NoData { rows }),
        Column::Narrow(n) => match flatten_narrow(n, Option::None) {
            Ok(f) => Ok(Column::Narrow(f)),
            Err(e) => Err(e),
        },
        Column::Wide(w) => match flatten_wide(w, Option::None) {
            Ok(f) => Ok(Column::Wide(f)),
            Err(e) => Err(e),
        },
        Column::Base(b) => Err(FlattenError::UnsupportedType(ElemType::Base(b.tag))),
        Column::Fixed(f) => Err(
            FlattenError::UnsupportedType(ElemType::Fixed(Box::new(f.elem), f.size)),
        ),
    }
}

} // verus!
