//! Values that a message may or may not give, as the contracts see them.

use vstd::prelude::*;

use crate::decimal::Decimal;

verus! {

/// The view of a text that may be given.
pub open spec fn text_of(value: Option<String>) -> Option<Seq<char>> {
    match value {
        Some(text) => Some(text@),
        None => None,
    }
}

/// The view of a number that may be given.
pub open spec fn number_of(value: Option<u64>) -> Option<nat> {
    match value {
        Some(number) => Some(number as nat),
        None => None,
    }
}

/// The view of a fixed-point number that may be given.
pub open spec fn atomics_of(value: Option<Decimal>) -> Option<nat> {
    match value {
        Some(number) => Some(number@),
        None => None,
    }
}

/// The given value, or `fallback` where none is given.
pub open spec fn or_else<T>(value: Option<T>, fallback: T) -> T {
    match value {
        Some(given) => given,
        None => fallback,
    }
}

} // verus!
