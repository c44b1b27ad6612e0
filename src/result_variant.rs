//! The three outcomes of every repository operation.
use vstd::prelude::*;

verus! {

/// Outcome of a repository operation: the row (or rows) it produced, or
/// the reason it produced none.
#[derive(Debug, PartialEq)]
pub enum DatabaseResult<T> {
    Succeful(T),
    AlreadyExists,
    NotFound,
}

impl<T: View> View for DatabaseResult<T> {
    type V = DatabaseResult<T::V>;

    open spec fn view(&self) -> DatabaseResult<T::V> {
        match self {
            DatabaseResult::Succeful(item) => DatabaseResult::Succeful(item@),
            DatabaseResult::AlreadyExists => DatabaseResult::AlreadyExists,
            DatabaseResult::NotFound => DatabaseResult::NotFound,
        }
    }
}

impl<T> DatabaseResult<T> {
    /// The payload, if the operation succeeded.
    pub open spec fn success(self) -> Option<T> {
        match self {
            DatabaseResult::Succeful(item) => Some(item),
            _ => None,
        }
    }

    /// Takes the payload out of a successful outcome.
    pub fn unwrap(self) -> (item: T)
        requires
            self is Succeful,
        ensures
            self == DatabaseResult::Succeful(item),
    {
        match self {
            DatabaseResult::Succeful(item) => item,
            _ => vstd::pervasive::unreached(),
        }
    }

    /// Turns the outcome into an `Option`, dropping the reason for failure.
    pub fn ok(self) -> (r: Option<T>)
        ensures
            r == self.success(),
    {
        match self {
            DatabaseResult::Succeful(item) => Some(item),
            _ => None,
        }
    }
}


/// The outcome of a lookup: the row found, or `NotFound`.
pub open spec fn found<T>(row: Option<T>) -> DatabaseResult<T> {
    match row {
        Some(item) => DatabaseResult::Succeful(item),
        None => DatabaseResult::NotFound,
    }
}


/// An optional value, seen through its view.
pub open spec fn opt_view<T: View>(o: Option<T>) -> Option<T::V> {
    match o {
        Some(item) => Some(item@),
        None => None,
    }
}

} // verus!
