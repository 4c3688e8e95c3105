//! The type resolver: from the declared type of the one argument to the
//! declared type of the result, at planning time.

use vstd::prelude::*;

use crate::types::{ElemType, FlattenError};

verus! {

/// The declared result type of flattening a column of declared type `t`, or
/// `None` when `t` is not a sequence type.
///
/// One level of nesting is unwrapped as long as the immediately nested level
/// stays within the same width class: a narrow or fixed-length sequence is
/// peeled while its element type is again narrow or fixed-length, and a wide
/// sequence is peeled while its element type is again wide. The peel stops at
/// a class boundary, so a wide sequence nested in a narrow one (or the other
/// way round) is kept as the result's element type. A fixed-length sequence
/// that survives to the end becomes a narrow sequence, dropping its length.
pub open spec fn resolved_type(t: ElemType) -> Option<ElemType>
    decreases t,
{
    match t {
        ElemType::Narrow(f) => match *f {
            ElemType::Narrow(_) | ElemType::Fixed(_, _) => resolved_type(*f),
            _ => Option::Some(t),
        },
        ElemType::Fixed(f, _) => match *f {
            ElemType::Narrow(_) | ElemType::Fixed(_, _) => resolved_type(*f),
            _ => Option::Some(ElemType::Narrow(f)),
        },
        ElemType::Wide(f) => match *f {
            ElemType::Wide(_) => resolved_type(*f),
            _ => Option::Some(t),
        },
        ElemType::NoData => Option::Some(t),
        ElemType::Base(_) => Option::None,
    }
}

/// Resolution fails exactly on non-sequence types: every sequence type (and
/// the "no data" type) has a resolved result type.
pub proof fn lemma_resolved_type_some(t: ElemType)
    ensures
        resolved_type(t) is Some <==> !(t is Base),
    decreases t,
{
    match t {
        ElemType::Narrow(f) => {
            if *f is Narrow || *f is Fixed {
                lemma_resolved_type_some(*f);
            }
        }
        ElemType::Fixed(f, _) => {
            if *f is Narrow || *f is Fixed {
                lemma_resolved_type_some(*f);
            }
        }
        ElemType::Wide(f) => {
            if *f is Wide {
                lemma_resolved_type_some(*f);
            }
        }
        _ => {}
    }
}

/// Unwraps nested sequence wrappers of `t` down to the single level the
/// flattened result will have, or reports `UnsupportedType` when `t` is not a
/// sequence type.
pub fn get_base_type(t: ElemType) -> (r: Result<ElemType, FlattenError>)
    ensures
        match r {
            Ok(rt) => resolved_type(t) == Option::Some(rt),
            Err(e) => resolved_type(t) is None && e == FlattenError::UnsupportedType(t),
        },
    decreases t,
{
    match t {
        ElemType::Narrow(f) => {
            if matches!(*f, ElemType::Narrow(_) | ElemType::Fixed(_, _)) {
                proof {
                    lemma_resolved_type_some(*f);
                }
                get_base_type(*f)
            } else {
                Ok(ElemType::Narrow(f))
            }
        }
        ElemType::Fixed(f, _) => {
            if matches!(*f, ElemType::Narrow(_) | ElemType::Fixed(_, _)) {
                proof {
                    lemma_resolved_type_some(*f);
                }
                get_base_type(*f)
            } else {
                Ok(ElemType::Narrow(f))
            }
        }
        ElemType::Wide(f) => {
            if matches!(*f, ElemType::Wide(_)) {
                proof {
                    lemma_resolved_type_some(*f);
                }
                get_base_type(*f)
            } else {
                Ok(ElemType::Wide(f))
            }
        }
        ElemType::NoData => Ok(ElemType::NoData),
        ElemType::Base(tag) => Err(FlattenError::UnsupportedType(ElemType::Base(tag))),
    }
}

/// The planning-time hook: given the declared types of the call's arguments,
/// returns the declared type of the result, resolved from the first (and, by
/// the declared signature, only) argument's type.
pub fn return_type(arg_types: Vec<ElemType>) -> (r: Result<ElemType, FlattenError>)
    requires
        arg_types@.len() >= 1,
    ensures
        match r {
            Ok(rt) => resolved_type(arg_types@[0]) == Option::Some(rt),
            Err(e) => resolved_type(arg_types@[0]) is None && e == FlattenError::UnsupportedType(
                arg_types@[0],
            ),
        },
{
    let mut arg_types = arg_types;
    let t = arg_types.remove(0);
    get_base_type(t)
}

} // verus!
