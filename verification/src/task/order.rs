//! Equality and order of tasks: both go by the identifier alone.

use super::Task;
use core::cmp::Ordering;
use vstd::prelude::*;
use vstd::std_specs::cmp::{PartialEqSpecImpl, PartialOrdSpecImpl};

verus! {

impl PartialEq for Task {
    fn eq(&self, other: &Task) -> (equal: bool) {
        self.task_id().as_u64() == other.task_id().as_u64()
    }
}

impl PartialEqSpecImpl for Task {
    open spec fn obeys_eq_spec() -> bool {
        true
    }

    /// Two tasks are equal exactly when their identifiers are.
    open spec fn eq_spec(&self, other: &Task) -> bool {
        self.id()@ == other.id()@
    }
}

impl Eq for Task {

}

impl PartialOrd for Task {
    fn partial_cmp(&self, other: &Task) -> (order: Option<Ordering>) {
        let mine: u64 = self.task_id().as_u64();
        let theirs: u64 = other.task_id().as_u64();
        if mine < theirs {
            Some(Ordering::Less)
        } else if mine == theirs {
            Some(Ordering::Equal)
        } else {
            Some(Ordering::Greater)
        }
    }
}

impl PartialOrdSpecImpl for Task {
    open spec fn obeys_partial_cmp_spec() -> bool {
        true
    }

    /// Tasks are ordered as the numbers of their identifiers are.
    open spec fn partial_cmp_spec(&self, other: &Task) -> Option<Ordering> {
        if self.id()@ < other.id()@ {
            Some(Ordering::Less)
        } else if self.id()@ == other.id()@ {
            Some(Ordering::Equal)
        } else {
            Some(Ordering::Greater)
        }
    }
}

} // verus!
