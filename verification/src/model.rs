//! Shared vocabulary of the contracts: values are compared by what they hold.

use vstd::prelude::*;

verus! {

/// What the elements of a sequence hold.
pub open spec fn deep<T: DeepView>(items: Seq<T>) -> Seq<T::V> {
    Seq::new(items.len(), |i: int| items[i].deep_view())
}

/// What the value or the error of a result holds.
pub open spec fn outcome<T: DeepView, E: DeepView>(result: Result<T, E>) -> Result<T::V, E::V> {
    match result {
        Ok(value) => Ok(value.deep_view()),
        Err(error) => Err(error.deep_view()),
    }
}

/// What the values of a result hold, or its error.
pub open spec fn outcomes<T: DeepView, E: DeepView>(result: Result<Vec<T>, E>) -> Result<
    Seq<T::V>,
    E::V,
> {
    match result {
        Ok(values) => Ok(deep(values@)),
        Err(error) => Err(error.deep_view()),
    }
}

/// What a check complains of, where it does.
pub open spec fn fault_of<E: DeepView>(result: Result<(), E>) -> Option<E::V> {
    match result {
        Ok(_) => None,
        Err(error) => Some(error.deep_view()),
    }
}

/// The first complaint of two checks made one after the other.
pub open spec fn first_fault<F>(fault: Option<F>, other: Option<F>) -> Option<F> {
    match fault {
        Some(_) => fault,
        None => other,
    }
}

/// Appending an element appends what it holds.
pub broadcast proof fn lemma_deep_push<T: DeepView>(items: Seq<T>, item: T)
    ensures
        #[trigger] deep(items.push(item)) == deep(items).push(item.deep_view()),
{
    assert(deep(items.push(item)) =~= deep(items).push(item.deep_view()));
}

/// An empty sequence holds nothing.
pub broadcast proof fn lemma_deep_empty<T: DeepView>()
    ensures
        #[trigger] deep(Seq::<T>::empty()) == Seq::<T::V>::empty(),
{
    assert(deep(Seq::<T>::empty()) =~= Seq::<T::V>::empty());
}

pub broadcast group group_deep {
    lemma_deep_push,
    lemma_deep_empty,
}

} // verus!
