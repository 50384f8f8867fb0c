use vstd::prelude::*;

verus! {

/// What a `Result` stands for: the model of whichever side it holds.
pub open spec fn result_view<T: DeepView, E: DeepView>(r: Result<T, E>) -> Result<T::V, E::V> {
    match r {
        Ok(value) => Ok(value.deep_view()),
        Err(error) => Err(error.deep_view()),
    }
}

} // verus!
