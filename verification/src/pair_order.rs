//! Comparison of instruction pairs: two pairs compare by their execution
//! order alone.
use vstd::prelude::*;
use core::cmp::Ordering;
use vstd::std_specs::cmp::PartialEqSpecImpl;
use vstd::std_specs::cmp::PartialOrdSpecImpl;
use crate::instruction::InstructionPair;

verus! {

impl PartialEq for InstructionPair {
    fn eq(&self, other: &Self) -> (r: bool) {
        self.execution_order == other.execution_order
    }
}

impl PartialEqSpecImpl for InstructionPair {
    open spec fn obeys_eq_spec() -> bool {
        true
    }

    open spec fn eq_spec(&self, other: &Self) -> bool {
        self.execution_order == other.execution_order
    }
}

impl PartialOrd for InstructionPair {
    fn partial_cmp(&self, other: &Self) -> (r: Option<Ordering>) {
        if self.execution_order < other.execution_order {
            Some(Ordering::Less)
        } else if self.execution_order == other.execution_order {
            Some(Ordering::Equal)
        } else {
            Some(Ordering::Greater)
        }
    }
}

impl PartialOrdSpecImpl for InstructionPair {
    open spec fn obeys_partial_cmp_spec() -> bool {
        true
    }

    open spec fn partial_cmp_spec(&self, other: &Self) -> Option<Ordering> {
        if self.execution_order < other.execution_order {
            Some(Ordering::Less)
        } else if self.execution_order == other.execution_order {
            Some(Ordering::Equal)
        } else {
            Some(Ordering::Greater)
        }
    }
}

} // verus!
