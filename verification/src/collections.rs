//! Generic search and transformation helpers over slices and vectors.

use vstd::prelude::*;

verus! {

/// The first element the predicate accepts, searched front to back.
pub fn find_by_id<'a, T, F: Fn(&T) -> bool>(items: &'a [T], predicate: F) -> (found: Option<
    &'a T,
>)
    requires
        forall|i: int| 0 <= i < items@.len() ==> call_requires(predicate, (&items@[i],)),
    ensures
        match found {
            Some(item) => exists|i: int|
                0 <= i < items@.len() && *item == items@[i] && call_ensures(
                    predicate,
                    (&items@[i],),
                    true,
                ) && forall|j: int| 0 <= j < i ==> call_ensures(predicate, (&items@[j],), false),
            None => forall|i: int|
                0 <= i < items@.len() ==> call_ensures(predicate, (&items@[i],), false),
        },
{
    let count = items.len();
    let mut i: usize = 0;
    while i < count
        invariant
            i <= count,
            count == items@.len(),
            forall|k: int| 0 <= k < items@.len() ==> call_requires(predicate, (&items@[k],)),
            forall|j: int| 0 <= j < i ==> call_ensures(predicate, (&items@[j],), false),
        decreases count - i,
    {
        let item = &items[i];
        if predicate(item) {
            return Some(item);
        }
        i += 1;
    }
    None
}

/// Maps every element through the given function, keeping order and length.
pub fn map_collection<T, U, F>(items: Vec<T>, mapper: F) -> (mapped: Vec<U>) where F: Fn(T) -> U
    requires
        forall|i: int| 0 <= i < items@.len() ==> call_requires(mapper, (items@[i],)),
    ensures
        mapped@.len() == items@.len(),
        forall|i: int|
            0 <= i < items@.len() ==> call_ensures(mapper, (items@[i],), #[trigger] mapped@[i]),
{
    let ghost orig = items@;
    let mut items = items;
    let mut mapped: Vec<U> = Vec::new();
    while items.len() > 0
        invariant
            mapped@.len() + items@.len() == orig.len(),
            items@ =~= orig.subrange(mapped@.len() as int, orig.len() as int),
            forall|i: int| 0 <= i < orig.len() ==> call_requires(mapper, (orig[i],)),
            forall|i: int|
                0 <= i < mapped@.len() ==> call_ensures(mapper, (orig[i],), #[trigger] mapped@[i]),
        decreases items@.len(),
    {
        let item = items.remove(0);
        proof {
            assert(item == orig[mapped@.len() as int]);
        }
        let value = mapper(item);
        mapped.push(value);
    }
    mapped
}

} // verus!
