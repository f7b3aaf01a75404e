use crate::log::Entry;
use vstd::prelude::*;

verus! {

/// A result together with the log lines written while producing it.
pub struct Output<'a, T> {
    pub result: T,
    pub log: Vec<Entry<'a>>,
}

} // verus!
