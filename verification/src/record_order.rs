//! `==` and `<` on records: both go by the cost alone, as numbers compare. A
//! record whose cost is no number equals nothing and orders against nothing.

use vstd::prelude::*;
use core::cmp::Ordering;
use vstd::std_specs::cmp::{PartialEqSpecImpl, PartialOrdSpecImpl};
use crate::number::{equal_to, less_than};
use crate::record::Record;

verus! {

impl PartialEq for Record {
    fn eq(&self, other: &Self) -> (r: bool) {
        equal_to(self.get_cost(), other.get_cost())
    }
}

impl PartialEqSpecImpl for Record {
    open spec fn obeys_eq_spec() -> bool {
        true
    }

    open spec fn eq_spec(&self, other: &Self) -> bool {
        self@.ties(other@)
    }
}

impl PartialOrd for Record {
    fn partial_cmp(&self, other: &Self) -> (r: Option<Ordering>) {
        let a: u64 = self.get_cost();
        let b: u64 = other.get_cost();
        if less_than(a, b) {
            Some(Ordering::Less)
        } else if less_than(b, a) {
            Some(Ordering::Greater)
        } else if equal_to(a, b) {
            Some(Ordering::Equal)
        } else {
            None
        }
    }
}

impl PartialOrdSpecImpl for Record {
    open spec fn obeys_partial_cmp_spec() -> bool {
        true
    }

    open spec fn partial_cmp_spec(&self, other: &Self) -> Option<Ordering> {
        if self@.precedes(other@) {
            Some(Ordering::Less)
        } else if other@.precedes(self@) {
            Some(Ordering::Greater)
        } else if self@.ties(other@) {
            Some(Ordering::Equal)
        } else {
            None
        }
    }
}

} // verus!
