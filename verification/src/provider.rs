//! Interfaces for contexts that other tools provide (such as a time tracker):
//! a context with a key, a name and a description, and the time spent on it.

use vstd::prelude::*;

verus! {

/// A context that work can be tracked against.
pub trait Context: Sized {
    fn get_pk(&self) -> String;

    fn get_name(&self) -> String;

    fn get_description(&self) -> String;

    fn get_last_accesed(&self) -> i64;

    fn set_last_accesed(&mut self, timestamp: i64);

    fn get_time_spent(&self) -> i64;

    fn set_time_spent(&mut self, duration: i64);
}

/// A source of contexts.
pub trait ContextProvider<T: Context>: Sized {
    fn get_contexts(&self) -> Vec<T>;

    fn clean_contexts(&self);

    fn get_active_context(&self) -> Option<T>;
}

} // verus!
