//! The state of a request made on behalf of the interface.
use vstd::prelude::*;

verus! {

/// Where an asynchronous request stands.
#[derive(Debug, Clone, PartialEq, Eq)]
pub enum RequestState<T, E> {
    Idle,
    Loading,
    Success(T),
    Error(E),
}

impl<T, E> RequestState<T, E> {
    /// Nothing has been asked yet.
    pub fn idle() -> (r: Self)
        ensures
            r is Idle,
    {
        RequestState::Idle
    }

    /// A request is under way.
    pub fn loading() -> (r: Self)
        ensures
            r is Loading,
    {
        RequestState::Loading
    }

    /// The request answered with `value`.
    pub fn success(value: T) -> (r: Self)
        ensures
            r == RequestState::<T, E>::Success(value),
    {
        RequestState::Success(value)
    }

    /// The request failed with `error`.
    pub fn error(error: E) -> (r: Self)
        ensures
            r == RequestState::<T, E>::Error(error),
    {
        RequestState::Error(error)
    }
}

} // verus!
