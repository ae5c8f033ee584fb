use vstd::prelude::*;

verus! {

/// A lookup that expects exactly one entity found `found` of them.
#[derive(Clone, Copy, Debug, PartialEq, Eq, Structural)]
pub struct MissingSingleton {
    pub found: usize,
}

/// Hands out the only item of `items`. With no item, or with more than one,
/// the lookup fails and reports how many there were.
pub fn single<T>(items: Vec<T>) -> (r: Result<T, MissingSingleton>)
    ensures
        items.len() == 1 ==> r == Ok::<T, MissingSingleton>(items[0]),
        items.len() != 1 ==> r == Err::<T, MissingSingleton>(
            MissingSingleton { found: items.len() },
        ),
{
    let mut items = items;
    let found = items.len();
    if found != 1 {
        return Err(MissingSingleton { found });
    }
    match items.pop() {
        Some(item) => Ok(item),
        None => Err(MissingSingleton { found: 0 }),
    }
}

} // verus!
