use vstd::prelude::*;

pub mod command;
pub mod config;
pub mod dispatch;
pub mod document;
pub mod error;
pub mod reader;

pub use command::Generate;
pub use dispatch::Language;

verus! {

/// Returns the default value of any type that has one.
pub fn default<T: Default>() -> (r: T)
    ensures
        call_ensures(T::default, (), r),
{
    T::default()
}

} // verus!
