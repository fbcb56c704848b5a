//! Plain-value models of the service's tables and of the queries it runs
//! against them.

pub mod domains;
pub mod shortlinks;

use vstd::prelude::*;

verus! {

/// The state of one column of a record that is about to be written: a new
/// value to store, a value loaded from the table and left as it was, or no
/// value at all (the column is left to the database).
#[derive(PartialEq, Eq, Clone, Debug)]
pub enum FieldValue<T> {
    Assign(T),
    Keep(T),
    Unset,
}

} // verus!
