use vstd::prelude::*;

pub mod cfg;

verus! {

/// Returns the `Ok` value if present. Otherwise, returns the default.
pub fn ok_or_default<T: Default, E>(opt: Result<T, E>) -> (value: T)
    ensures
        opt matches Ok(v) ==> value == v,
        opt is Err ==> call_ensures(T::default, (), value),
{
    match opt {
        Ok(value) => value,
        Err(_) => T::default(),
    }
}

} // verus!
