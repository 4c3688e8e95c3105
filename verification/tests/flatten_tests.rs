use nested_flatten::flatten::{flatten_inner, flatten_narrow, flatten_wide};
use nested_flatten::types::{BaseColumn, Column, ElemType, FlattenError, NarrowColumn, WideColumn};

const TAG: u64 = 7;

fn leaf(data: Vec<i64>) -> Column {
    Column::Base(BaseColumn { tag: TAG, data })
}

fn narrow(elem: ElemType, offsets: Vec<i32>, values: Column) -> NarrowColumn {
    NarrowColumn { elem, offsets, values: Box::new(values) }
}

fn wide(elem: ElemType, offsets: Vec<i64>, values: Column) -> WideColumn {
    WideColumn { elem, offsets, values: Box::new(values) }
}

fn narrow_of_base(offsets: Vec<i32>, data: Vec<i64>) -> NarrowColumn {
    narrow(ElemType::Base(TAG), offsets, leaf(data))
}

fn wide_of_base(offsets: Vec<i64>, data: Vec<i64>) -> WideColumn {
    wide(ElemType::Base(TAG), offsets, leaf(data))
}

#[test]
fn two_level_narrow_collapses() {
    // One row holding [[1, 2], [3, 4]].
    let inner = narrow_of_base(vec![0, 2, 4], vec![1, 2, 3, 4]);
    let outer = narrow(
        ElemType::Narrow(Box::new(ElemType::Base(TAG))),
        vec![0, 2],
        Column::Narrow(inner),
    );
    let expected = Column::Narrow(narrow_of_base(vec![0, 4], vec![1, 2, 3, 4]));
    assert_eq!(flatten_inner(vec![Column::Narrow(outer)]), Ok(expected));
}

#[test]
fn three_level_narrow_collapses() {
    // One row holding [[[1], [2, 3]], [[4]]].
    let level3 = narrow_of_base(vec![0, 1, 3, 4], vec![1, 2, 3, 4]);
    let level2 = narrow(
        ElemType::Narrow(Box::new(ElemType::Base(TAG))),
        vec![0, 2, 3],
        Column::Narrow(level3),
    );
    let level1 = narrow(
        ElemType::Narrow(Box::new(ElemType::Narrow(Box::new(ElemType::Base(TAG))))),
        vec![0, 2],
        Column::Narrow(level2),
    );
    let expected = Column::Narrow(narrow_of_base(vec![0, 4], vec![1, 2, 3, 4]));
    assert_eq!(flatten_inner(vec![Column::Narrow(level1)]), Ok(expected));
}

#[test]
fn two_level_wide_collapses() {
    // Two rows holding [[1], [2, 3]] and [[4, 5]].
    let inner = wide_of_base(vec![0, 1, 3, 5], vec![1, 2, 3, 4, 5]);
    let outer = wide(
        ElemType::Wide(Box::new(ElemType::Base(TAG))),
        vec![0, 2, 3],
        Column::Wide(inner),
    );
    let expected = Column::Wide(wide_of_base(vec![0, 3, 5], vec![1, 2, 3, 4, 5]));
    assert_eq!(flatten_inner(vec![Column::Wide(outer)]), Ok(expected));
}

#[test]
fn wrong_arity_zero_arguments() {
    assert_eq!(flatten_inner(vec![]), Err(FlattenError::WrongArity(0)));
}

#[test]
fn wrong_arity_two_arguments() {
    let a = Column::NoData { rows: 1 };
    let b = Column::NoData { rows: 1 };
    assert_eq!(flatten_inner(vec![a, b]), Err(FlattenError::WrongArity(2)));
}

#[test]
fn plain_integer_column_is_unsupported() {
    let col = leaf(vec![1, 2, 3]);
    assert_eq!(
        flatten_inner(vec![col]),
        Err(FlattenError::UnsupportedType(ElemType::Base(TAG)))
    );
}

#[test]
fn identity_on_flat_narrow() {
    let col = Column::Narrow(narrow_of_base(vec![0, 2, 4], vec![1, 2, 3, 4]));
    let same = Column::Narrow(narrow_of_base(vec![0, 2, 4], vec![1, 2, 3, 4]));
    assert_eq!(flatten_inner(vec![col]), Ok(same));
}

#[test]
fn identity_on_flat_wide() {
    let col = Column::Wide(wide_of_base(vec![0, 1, 4], vec![1, 2, 3, 4]));
    let same = Column::Wide(wide_of_base(vec![0, 1, 4], vec![1, 2, 3, 4]));
    assert_eq!(flatten_inner(vec![col]), Ok(same));
}

#[test]
fn identity_on_no_data() {
    let col = Column::NoData { rows: 5 };
    assert_eq!(flatten_inner(vec![col]), Ok(Column::NoData { rows: 5 }));
}

#[test]
fn row_count_is_preserved() {
    // Three rows: [[1], [2]], [], [[3, 4]].
    let inner = narrow_of_base(vec![0, 1, 2, 4], vec![1, 2, 3, 4]);
    let outer = narrow(
        ElemType::Narrow(Box::new(ElemType::Base(TAG))),
        vec![0, 2, 2, 3],
        Column::Narrow(inner),
    );
    let result = flatten_inner(vec![Column::Narrow(outer)]).unwrap();
    match result {
        Column::Narrow(f) => {
            assert_eq!(f.offsets.len(), 4);
            assert_eq!(f.offsets, vec![0, 2, 2, 4]);
        }
        other => panic!("expected a narrow column, got {:?}", other),
    }
}

#[test]
fn empty_input_stays_empty() {
    // Zero rows of a two-level narrow type.
    let inner = narrow_of_base(vec![0], vec![]);
    let outer = narrow(
        ElemType::Narrow(Box::new(ElemType::Base(TAG))),
        vec![0],
        Column::Narrow(inner),
    );
    let expected = Column::Narrow(narrow_of_base(vec![0], vec![]));
    assert_eq!(flatten_inner(vec![Column::Narrow(outer)]), Ok(expected));
}

#[test]
fn flatten_is_a_fixed_point() {
    let level3 = narrow_of_base(vec![0, 1, 3, 4], vec![1, 2, 3, 4]);
    let level2 = narrow(
        ElemType::Narrow(Box::new(ElemType::Base(TAG))),
        vec![0, 2, 3],
        Column::Narrow(level3),
    );
    let level1 = narrow(
        ElemType::Narrow(Box::new(ElemType::Narrow(Box::new(ElemType::Base(TAG))))),
        vec![0, 2],
        Column::Narrow(level2),
    );
    let once = flatten_inner(vec![Column::Narrow(level1)]).unwrap();
    let again = flatten_inner(vec![once]).unwrap();
    let expected = Column::Narrow(narrow_of_base(vec![0, 4], vec![1, 2, 3, 4]));
    assert_eq!(again, expected);
}

#[test]
fn wide_nested_in_narrow_fails_the_cast() {
    let inner = wide_of_base(vec![0, 2], vec![1, 2]);
    let outer = narrow(
        ElemType::Wide(Box::new(ElemType::Base(TAG))),
        vec![0, 1],
        Column::Wide(inner),
    );
    assert_eq!(
        flatten_inner(vec![Column::Narrow(outer)]),
        Err(FlattenError::CastFailure)
    );
}

#[test]
fn narrow_nested_in_wide_fails_the_cast() {
    let inner = narrow_of_base(vec![0, 2], vec![1, 2]);
    let outer = wide(
        ElemType::Narrow(Box::new(ElemType::Base(TAG))),
        vec![0, 1],
        Column::Narrow(inner),
    );
    assert_eq!(
        flatten_inner(vec![Column::Wide(outer)]),
        Err(FlattenError::CastFailure)
    );
}

#[test]
fn deep_cast_failure_surfaces_from_inner_levels() {
    // Narrow at the top, wide two levels down.
    let innermost = wide_of_base(vec![0, 1], vec![1]);
    let middle = narrow(
        ElemType::Wide(Box::new(ElemType::Base(TAG))),
        vec![0, 1],
        Column::Wide(innermost),
    );
    let top = narrow(
        ElemType::Narrow(Box::new(ElemType::Wide(Box::new(ElemType::Base(TAG))))),
        vec![0, 1],
        Column::Narrow(middle),
    );
    assert_eq!(
        flatten_inner(vec![Column::Narrow(top)]),
        Err(FlattenError::CastFailure)
    );
}

#[test]
fn boundary_need_not_start_at_zero() {
    // One row selecting the middle of a shared leaf storage.
    let inner = narrow_of_base(vec![0, 1, 3], vec![9, 1, 2]);
    let outer = narrow(
        ElemType::Narrow(Box::new(ElemType::Base(TAG))),
        vec![1, 2],
        Column::Narrow(inner),
    );
    let expected = Column::Narrow(narrow_of_base(vec![1, 3], vec![9, 1, 2]));
    assert_eq!(flatten_inner(vec![Column::Narrow(outer)]), Ok(expected));
}

#[test]
fn leaf_storage_is_reused_not_restructured() {
    // The output's values storage is the input's innermost storage, with the
    // unreferenced entries still in place.
    let inner = narrow_of_base(vec![2, 4], vec![8, 9, 1, 2]);
    let outer = narrow(
        ElemType::Narrow(Box::new(ElemType::Base(TAG))),
        vec![0, 1],
        Column::Narrow(inner),
    );
    let result = flatten_inner(vec![Column::Narrow(outer)]).unwrap();
    match result {
        Column::Narrow(f) => {
            assert_eq!(*f.values, leaf(vec![8, 9, 1, 2]));
            assert_eq!(f.offsets, vec![2, 4]);
        }
        other => panic!("expected a narrow column, got {:?}", other),
    }
}

#[test]
fn flatten_narrow_with_no_accumulator_keeps_fixed_elements() {
    // A fixed-length element type is treated as a base type by the walk.
    let fixed_values = nested_flatten::types::FixedColumn {
        elem: ElemType::Base(TAG),
        size: 2,
        rows: 2,
        values: Box::new(leaf(vec![1, 2, 3, 4])),
    };
    let col = narrow(
        ElemType::Fixed(Box::new(ElemType::Base(TAG)), 2),
        vec![0, 2],
        Column::Fixed(fixed_values),
    );
    let same = narrow(
        ElemType::Fixed(Box::new(ElemType::Base(TAG)), 2),
        vec![0, 2],
        Column::Fixed(nested_flatten::types::FixedColumn {
            elem: ElemType::Base(TAG),
            size: 2,
            rows: 2,
            values: Box::new(leaf(vec![1, 2, 3, 4])),
        }),
    );
    assert_eq!(flatten_narrow(col, None), Ok(same));
}

#[test]
fn flatten_wide_identity_without_accumulator() {
    let col = wide_of_base(vec![0, 2], vec![1, 2]);
    let same = wide_of_base(vec![0, 2], vec![1, 2]);
    assert_eq!(flatten_wide(col, None), Ok(same));
}

#[test]
fn empty_wide_input_stays_empty() {
    let inner = wide_of_base(vec![0], vec![]);
    let outer = wide(
        ElemType::Wide(Box::new(ElemType::Base(TAG))),
        vec![0],
        Column::Wide(inner),
    );
    let expected = Column::Wide(wide_of_base(vec![0], vec![]));
    assert_eq!(flatten_inner(vec![Column::Wide(outer)]), Ok(expected));
}
