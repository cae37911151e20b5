//! Argument lists: the tuples of argument types that a handler can declare.
//!
//! Every element of a list is derived from the same payload, independently of
//! the others.  The list as a whole is derived all or nothing: when one element
//! fails, no list is produced, and the error reported is that of the first
//! failing element in declaration order.

use vstd::prelude::*;
use crate::error::ExtractionError;
use crate::message_value::{extracts, MessageValueTrait};

verus! {

/// The list that two extraction outcomes make: both values, or the error of the
/// first that failed.
pub open spec fn all_or_nothing2<A, B>(
    first: Result<A, ExtractionError>,
    second: Result<B, ExtractionError>,
) -> Result<(A, B), ExtractionError> {
    match first {
        Err(e) => Err(e),
        Ok(a) => match second {
            Err(e) => Err(e),
            Ok(b) => Ok((a, b)),
        },
    }
}

/// The list that three extraction outcomes make: all three values, or the error
/// of the first that failed.
pub open spec fn all_or_nothing3<A, B, C>(
    first: Result<A, ExtractionError>,
    second: Result<B, ExtractionError>,
    third: Result<C, ExtractionError>,
) -> Result<(A, B, C), ExtractionError> {
    match all_or_nothing2(first, second) {
        Err(e) => Err(e),
        Ok(front) => match third {
            Err(e) => Err(e),
            Ok(c) => Ok((front.0, front.1, c)),
        },
    }
}

/// The list that four extraction outcomes make: all four values, or the error
/// of the first that failed.
pub open spec fn all_or_nothing4<A, B, C, D>(
    first: Result<A, ExtractionError>,
    second: Result<B, ExtractionError>,
    third: Result<C, ExtractionError>,
    fourth: Result<D, ExtractionError>,
) -> Result<(A, B, C, D), ExtractionError> {
    match all_or_nothing3(first, second, third) {
        Err(e) => Err(e),
        Ok(front) => match fourth {
            Err(e) => Err(e),
            Ok(d) => Ok((front.0, front.1, front.2, d)),
        },
    }
}

/// Joins two extraction outcomes into the outcome for the list of both.
pub fn join2<A, B>(
    first: Result<A, ExtractionError>,
    second: Result<B, ExtractionError>,
) -> (list: Result<(A, B), ExtractionError>)
    ensures
        list == all_or_nothing2(first, second),
{
    match first {
        Err(e) => Err(e),
        Ok(a) => match second {
            Err(e) => Err(e),
            Ok(b) => Ok((a, b)),
        },
    }
}

/// Joins three extraction outcomes into the outcome for the list of all three.
pub fn join3<A, B, C>(
    first: Result<A, ExtractionError>,
    second: Result<B, ExtractionError>,
    third: Result<C, ExtractionError>,
) -> (list: Result<(A, B, C), ExtractionError>)
    ensures
        list == all_or_nothing3(first, second, third),
{
    match join2(first, second) {
        Err(e) => Err(e),
        Ok(front) => match third {
            Err(e) => Err(e),
            Ok(c) => Ok((front.0, front.1, c)),
        },
    }
}

/// Joins four extraction outcomes into the outcome for the list of all four.
pub fn join4<A, B, C, D>(
    first: Result<A, ExtractionError>,
    second: Result<B, ExtractionError>,
    third: Result<C, ExtractionError>,
    fourth: Result<D, ExtractionError>,
) -> (list: Result<(A, B, C, D), ExtractionError>)
    ensures
        list == all_or_nothing4(first, second, third, fourth),
{
    match join3(first, second, third) {
        Err(e) => Err(e),
        Ok(front) => match fourth {
            Err(e) => Err(e),
            Ok(d) => Ok((front.0, front.1, front.2, d)),
        },
    }
}

/// A fixed-size, ordered list of argument types.
pub trait ArgumentList: Sized {
    /// `outcome` is what deriving this list from `value` gave, or could give.
    spec fn derives(value: serde_json::Value, outcome: Result<Self, ExtractionError>) -> bool;

    /// Derives every element of the list from `value`.
    fn derive(value: &serde_json::Value) -> (outcome: Result<Self, ExtractionError>)
        ensures
            Self::derives(*value, outcome),
    ;
}

/// The empty list is derived from every payload.
impl ArgumentList for () {
    open spec fn derives(value: serde_json::Value, outcome: Result<Self, ExtractionError>) -> bool {
        outcome == Ok::<(), ExtractionError>(())
    }

    fn derive(value: &serde_json::Value) -> (outcome: Result<Self, ExtractionError>) {
        Ok(())
    }
}

/// A list of one element is derived as its element is.
impl<A: MessageValueTrait> ArgumentList for (A,) {
    open spec fn derives(value: serde_json::Value, outcome: Result<Self, ExtractionError>) -> bool {
        match outcome {
            Ok(list) => extracts::<A>(value, Ok(list.0)),
            Err(e) => extracts::<A>(value, Err(e)),
        }
    }

    fn derive(value: &serde_json::Value) -> (outcome: Result<Self, ExtractionError>) {
        match A::get_value(value) {
            Ok(a) => Ok((a,)),
            Err(e) => Err(e),
        }
    }
}

/// A list of two elements is what the outcomes of its elements make.
impl<A: MessageValueTrait, B: MessageValueTrait> ArgumentList for (A, B) {
    open spec fn derives(value: serde_json::Value, outcome: Result<Self, ExtractionError>) -> bool {
        exists|first: Result<A, ExtractionError>, second: Result<B, ExtractionError>|
            #![trigger extracts::<A>(value, first), extracts::<B>(value, second)]
            {
                &&& extracts::<A>(value, first)
                &&& extracts::<B>(value, second)
                &&& outcome == all_or_nothing2(first, second)
            }
    }

    fn derive(value: &serde_json::Value) -> (outcome: Result<Self, ExtractionError>) {
        let first = A::get_value(value);
        let second = B::get_value(value);
        assert(extracts::<A>(*value, first) && extracts::<B>(*value, second));
        join2(first, second)
    }
}

/// A list of three elements is what the outcomes of its elements make.
impl<A: MessageValueTrait, B: MessageValueTrait, C: MessageValueTrait> ArgumentList for (A, B, C) {
    open spec fn derives(value: serde_json::Value, outcome: Result<Self, ExtractionError>) -> bool {
        exists|
            first: Result<A, ExtractionError>,
            second: Result<B, ExtractionError>,
            third: Result<C, ExtractionError>,
        |
            #![trigger
                extracts::<A>(value, first),
                extracts::<B>(value, second),
                extracts::<C>(value, third),
            ]
            {
                &&& extracts::<A>(value, first)
                &&& extracts::<B>(value, second)
                &&& extracts::<C>(value, third)
                &&& outcome == all_or_nothing3(first, second, third)
            }
    }

    fn derive(value: &serde_json::Value) -> (outcome: Result<Self, ExtractionError>) {
        let first = A::get_value(value);
        let second = B::get_value(value);
        let third = C::get_value(value);
        assert(extracts::<A>(*value, first) && extracts::<B>(*value, second) && extracts::<C>(
            *value,
            third,
        ));
        join3(first, second, third)
    }
}

/// A list of four elements is what the outcomes of its elements make.
impl<
    A: MessageValueTrait,
    B: MessageValueTrait,
    C: MessageValueTrait,
    D: MessageValueTrait,
> ArgumentList for (A, B, C, D) {
    open spec fn derives(value: serde_json::Value, outcome: Result<Self, ExtractionError>) -> bool {
        exists|
            first: Result<A, ExtractionError>,
            second: Result<B, ExtractionError>,
            third: Result<C, ExtractionError>,
            fourth: Result<D, ExtractionError>,
        |
            #![trigger
                extracts::<A>(value, first),
                extracts::<B>(value, second),
                extracts::<C>(value, third),
                extracts::<D>(value, fourth),
            ]
            {
                &&& extracts::<A>(value, first)
                &&& extracts::<B>(value, second)
                &&& extracts::<C>(value, third)
                &&& extracts::<D>(value, fourth)
                &&& outcome == all_or_nothing4(first, second, third, fourth)
            }
    }

    fn derive(value: &serde_json::Value) -> (outcome: Result<Self, ExtractionError>) {
        let first = A::get_value(value);
        let second = B::get_value(value);
        let third = C::get_value(value);
        let fourth = D::get_value(value);
        assert(extracts::<A>(*value, first) && extracts::<B>(*value, second) && extracts::<C>(
            *value,
            third,
        ) && extracts::<D>(*value, fourth));
        join4(first, second, third, fourth)
    }
}

/// What deriving a list of two gave is made of what extracting each of its
/// elements from the same payload gave: a derived list holds, in declaration
/// order, a value extracted for each element; a failure is the failure of an
/// element before which every element was extracted.
pub proof fn lemma_list_of_two<A: MessageValueTrait, B: MessageValueTrait>(
    value: serde_json::Value,
    outcome: Result<(A, B), ExtractionError>,
)
    requires
        <(A, B) as ArgumentList>::derives(value, outcome),
    ensures
        match outcome {
            Ok(list) => extracts::<A>(value, Ok(list.0)) && extracts::<B>(value, Ok(list.1)),
            Err(e) => {
                ||| extracts::<A>(value, Err(e))
                ||| (exists|a: A| extracts::<A>(value, Ok(a))) && extracts::<B>(value, Err(e))
            },
        },
{
    let (first, second) = choose|first: Result<A, ExtractionError>, second: Result<B, ExtractionError>|
        #![trigger extracts::<A>(value, first), extracts::<B>(value, second)]
        {
            &&& extracts::<A>(value, first)
            &&& extracts::<B>(value, second)
            &&& outcome == all_or_nothing2(first, second)
        };
    if let Ok(a) = first {
        assert(extracts::<A>(value, Ok(a)));
    }
}

/// What deriving a list of three gave is made of what extracting each of its
/// elements from the same payload gave: a derived list holds, in declaration
/// order, a value extracted for each element; a failure is the failure of an
/// element before which every element was extracted.
pub proof fn lemma_list_of_three<A: MessageValueTrait, B: MessageValueTrait, C: MessageValueTrait>(
    value: serde_json::Value,
    outcome: Result<(A, B, C), ExtractionError>,
)
    requires
        <(A, B, C) as ArgumentList>::derives(value, outcome),
    ensures
        match outcome {
            Ok(list) => {
                &&& extracts::<A>(value, Ok(list.0))
                &&& extracts::<B>(value, Ok(list.1))
                &&& extracts::<C>(value, Ok(list.2))
            },
            Err(e) => {
                ||| extracts::<A>(value, Err(e))
                ||| (exists|a: A| extracts::<A>(value, Ok(a))) && extracts::<B>(value, Err(e))
                ||| (exists|a: A| extracts::<A>(value, Ok(a))) && (exists|b: B|
                    extracts::<B>(value, Ok(b))) && extracts::<C>(value, Err(e))
            },
        },
{
    let (first, second, third) = choose|
        first: Result<A, ExtractionError>,
        second: Result<B, ExtractionError>,
        third: Result<C, ExtractionError>,
    |
        #![trigger
            extracts::<A>(value, first),
            extracts::<B>(value, second),
            extracts::<C>(value, third),
        ]
        {
            &&& extracts::<A>(value, first)
            &&& extracts::<B>(value, second)
            &&& extracts::<C>(value, third)
            &&& outcome == all_or_nothing3(first, second, third)
        };
    if let Ok(a) = first {
        assert(extracts::<A>(value, Ok(a)));
    }
    if let Ok(b) = second {
        assert(extracts::<B>(value, Ok(b)));
    }
}

/// What deriving a list of four gave is made of what extracting each of its
/// elements from the same payload gave: a derived list holds, in declaration
/// order, a value extracted for each element; a failure is the failure of an
/// element before which every element was extracted.
pub proof fn lemma_list_of_four<
    A: MessageValueTrait,
    B: MessageValueTrait,
    C: MessageValueTrait,
    D: MessageValueTrait,
>(value: serde_json::Value, outcome: Result<(A, B, C, D), ExtractionError>)
    requires
        <(A, B, C, D) as ArgumentList>::derives(value, outcome),
    ensures
        match outcome {
            Ok(list) => {
                &&& extracts::<A>(value, Ok(list.0))
                &&& extracts::<B>(value, Ok(list.1))
                &&& extracts::<C>(value, Ok(list.2))
                &&& extracts::<D>(value, Ok(list.3))
            },
            Err(e) => {
                ||| extracts::<A>(value, Err(e))
                ||| (exists|a: A| extracts::<A>(value, Ok(a))) && extracts::<B>(value, Err(e))
                ||| (exists|a: A| extracts::<A>(value, Ok(a))) && (exists|b: B|
                    extracts::<B>(value, Ok(b))) && extracts::<C>(value, Err(e))
                ||| (exists|a: A| extracts::<A>(value, Ok(a))) && (exists|b: B|
                    extracts::<B>(value, Ok(b))) && (exists|c: C| extracts::<C>(value, Ok(c)))
                    && extracts::<D>(value, Err(e))
            },
        },
{
    let (first, second, third, fourth) = choose|
        first: Result<A, ExtractionError>,
        second: Result<B, ExtractionError>,
        third: Result<C, ExtractionError>,
        fourth: Result<D, ExtractionError>,
    |
        #![trigger
            extracts::<A>(value, first),
            extracts::<B>(value, second),
            extracts::<C>(value, third),
            extracts::<D>(value, fourth),
        ]
        {
            &&& extracts::<A>(value, first)
            &&& extracts::<B>(value, second)
            &&& extracts::<C>(value, third)
            &&& extracts::<D>(value, fourth)
            &&& outcome == all_or_nothing4(first, second, third, fourth)
        };
    if let Ok(a) = first {
        assert(extracts::<A>(value, Ok(a)));
    }
    if let Ok(b) = second {
        assert(extracts::<B>(value, Ok(b)));
    }
    if let Ok(c) = third {
        assert(extracts::<C>(value, Ok(c)));
    }
}

} // verus!
