//! The terminal registry: every terminal the scan engine keeps in step with
//! the hardware, in discovery order.

use vstd::prelude::*;
use crate::analog::AITerm;
use crate::digital::{DITerm, DOTerm};
use crate::kbus::KBusTerm;

verus! {

/// The live collection of terminals. The three `ebus` lists hold the terminals
/// that sit on the fieldbus itself; `kbus_terms` holds those behind the
/// coupler, ordered by position.
pub struct TermStates {
    pub ebus_di_terms: Vec<DITerm>,
    pub ebus_do_terms: Vec<DOTerm>,
    pub ebus_ai_terms: Vec<AITerm>,
    pub kbus_terms: Vec<KBusTerm>,
}

impl TermStates {
    /// Whether the terminals on the fieldbus itself are those of `other`.
    pub open spec fn same_ebus(&self, other: &TermStates) -> bool {
        &&& self.ebus_di_terms@ == other.ebus_di_terms@
        &&& self.ebus_do_terms@ == other.ebus_do_terms@
        &&& self.ebus_ai_terms@ == other.ebus_ai_terms@
    }
}

/// An empty registry.
pub fn init_term_states() -> (ts: TermStates)
    ensures
        ts.ebus_di_terms@.len() == 0,
        ts.ebus_do_terms@.len() == 0,
        ts.ebus_ai_terms@.len() == 0,
        ts.kbus_terms@.len() == 0,
{
    TermStates {
        ebus_di_terms: Vec::new(),
        ebus_do_terms: Vec::new(),
        ebus_ai_terms: Vec::new(),
        kbus_terms: Vec::new(),
    }
}

} // verus!
