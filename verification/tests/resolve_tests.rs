use nested_flatten::flatten::flatten_inner;
use nested_flatten::resolve::{get_base_type, return_type};
use nested_flatten::types::{BaseColumn, Column, ElemType, FixedColumn, FlattenError};

const TAG: u64 = 7;

fn base() -> ElemType {
    ElemType::Base(TAG)
}

fn narrow(inner: ElemType) -> ElemType {
    ElemType::Narrow(Box::new(inner))
}

fn wide(inner: ElemType) -> ElemType {
    ElemType::Wide(Box::new(inner))
}

fn fixed(inner: ElemType, size: usize) -> ElemType {
    ElemType::Fixed(Box::new(inner), size)
}

#[test]
fn plain_integer_type_is_unsupported_at_plan_time() {
    assert_eq!(
        return_type(vec![base()]),
        Err(FlattenError::UnsupportedType(base()))
    );
}

#[test]
fn single_level_types_resolve_to_themselves() {
    assert_eq!(return_type(vec![narrow(base())]), Ok(narrow(base())));
    assert_eq!(return_type(vec![wide(base())]), Ok(wide(base())));
    assert_eq!(return_type(vec![ElemType::NoData]), Ok(ElemType::NoData));
}

#[test]
fn narrow_nesting_resolves_to_one_level() {
    assert_eq!(
        return_type(vec![narrow(narrow(narrow(base())))]),
        Ok(narrow(base()))
    );
}

#[test]
fn wide_nesting_resolves_to_one_level() {
    assert_eq!(
        return_type(vec![wide(wide(wide(base())))]),
        Ok(wide(base()))
    );
}

#[test]
fn fixed_length_peels_within_the_narrow_class() {
    // A fixed-length wrapper nested in a narrow one is unwrapped, and a
    // terminal fixed-length wrapper becomes a narrow sequence.
    assert_eq!(return_type(vec![narrow(fixed(base(), 2))]), Ok(narrow(base())));
    assert_eq!(return_type(vec![fixed(fixed(base(), 2), 3)]), Ok(narrow(base())));
    assert_eq!(return_type(vec![fixed(base(), 4)]), Ok(narrow(base())));
}

#[test]
fn class_boundary_stops_the_peel() {
    // A wide sequence inside a narrow one, and the other way round, is kept
    // as the result's element type.
    assert_eq!(
        return_type(vec![narrow(wide(base()))]),
        Ok(narrow(wide(base())))
    );
    assert_eq!(
        return_type(vec![wide(narrow(base()))]),
        Ok(wide(narrow(base())))
    );
    assert_eq!(
        return_type(vec![wide(fixed(base(), 2))]),
        Ok(wide(fixed(base(), 2)))
    );
}

#[test]
fn only_the_first_argument_type_is_read() {
    assert_eq!(
        return_type(vec![narrow(base()), base()]),
        Ok(narrow(base()))
    );
}

#[test]
fn get_base_type_matches_return_type_on_deep_nesting() {
    assert_eq!(
        get_base_type(narrow(narrow(fixed(wide(base()), 2)))),
        Ok(narrow(wide(base())))
    );
}

#[test]
fn fixed_length_column_resolves_at_plan_time_but_fails_at_execution() {
    // The known gap: planning accepts the fixed-length type, execution does
    // not flatten its representation.
    assert_eq!(return_type(vec![fixed(base(), 2)]), Ok(narrow(base())));
    let col = Column::Fixed(FixedColumn {
        elem: base(),
        size: 2,
        rows: 1,
        values: Box::new(Column::Base(BaseColumn { tag: TAG, data: vec![1, 2] })),
    });
    assert_eq!(
        flatten_inner(vec![col]),
        Err(FlattenError::UnsupportedType(fixed(base(), 2)))
    );
}
