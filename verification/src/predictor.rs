//! Per-address 2-bit saturating-counter branch predictor.
//!
//! Each conditional-branch address is mapped to a counter in `0..=3`. Values
//! `0` and `1` predict "not taken", `2` and `3` predict "taken". An address
//! that was never updated predicts "not taken". Two consecutive
//! mispredictions are needed to flip a saturated prediction, which damps
//! oscillation from alternating branches.

use std::collections::HashMap;
use vstd::prelude::*;

verus! {

broadcast use vstd::std_specs::hash::group_hash_axioms;

/// What `predict` returns over the model: taken iff the address has a counter
/// and that counter is at least 2.
pub open spec fn predict_spec(table: Map<u32, u8>, pc: u32) -> bool {
    table.contains_key(pc) && table[pc] >= 2
}

/// The counter an update starts from: the stored one, or 1 (neutral, leaning
/// not-taken) for an address seen for the first time.
pub open spec fn counter_for_update(table: Map<u32, u8>, pc: u32) -> u8 {
    if table.contains_key(pc) {
        table[pc]
    } else {
        1u8
    }
}

/// One saturating step of the 2-bit counter: increment toward 3 on a taken
/// branch, decrement toward 0 otherwise.
pub open spec fn next_counter(cur: u8, taken: bool) -> u8 {
    if taken {
        if cur < 3 {
            (cur + 1) as u8
        } else {
            3u8
        }
    } else {
        if cur > 0 {
            (cur - 1) as u8
        } else {
            0u8
        }
    }
}

/// The whole table after one `update(pc, taken)` call.
pub open spec fn update_spec(table: Map<u32, u8>, pc: u32, taken: bool) -> Map<u32, u8> {
    table.insert(pc, next_counter(counter_for_update(table, pc), taken))
}

/// Branch predictor state: one saturating counter per branch address,
/// created lazily on first update and never evicted.
pub struct BranchPredictor {
    /// Maps a branch address to its 2-bit counter.
    table: HashMap<u32, u8>,
}

impl View for BranchPredictor {
    type V = Map<u32, u8>;

    closed spec fn view(&self) -> Map<u32, u8> {
        self.table@
    }
}

impl BranchPredictor {
    /// All stored counters are 2-bit values.
    pub open spec fn wf(&self) -> bool {
        forall|pc: u32| self@.contains_key(pc) ==> self@[pc] <= 3
    }

    /// A fresh predictor with no history.
    pub fn new() -> (r: BranchPredictor)
        ensures
            r@ == Map::<u32, u8>::empty(),
            r.wf(),
    {
        BranchPredictor { table: HashMap::new() }
    }

    /// Predict whether the branch at `pc` will be taken. Pure; an address
    /// with no history predicts not-taken.
    pub fn predict(&self, pc: u32) -> (taken: bool)
        ensures
            taken == predict_spec(self@, pc),
    {
        match self.table.get(&pc) {
            Some(state) => *state >= 2,
            None => false,
        }
    }

    /// Record the real outcome of the branch at `pc`: saturating increment of
    /// its counter when taken, saturating decrement when not, starting from 1
    /// on the first reference.
    pub fn update(&mut self, pc: u32, taken: bool)
        requires
            old(self).wf(),
        ensures
            final(self).wf(),
            final(self)@ == update_spec(old(self)@, pc, taken),
    {
        let cur: u8 = match self.table.get(&pc) {
            Some(state) => *state,
            None => 1,
        };
        proof {
            if old(self)@.contains_key(pc) {
                assert(old(self)@[pc] <= 3);
            }
            assert(cur <= 3);
        }
        let next: u8 = if taken {
            if cur < 3 {
                cur + 1
            } else {
                3
            }
        } else {
            if cur > 0 {
                cur - 1
            } else {
                0
            }
        };
        self.table.insert(pc, next);
        proof {
            assert(next <= 3);
            assert forall|k: u32| self@.contains_key(k) implies self@[k] <= 3 by {
                if k != pc {
                    assert(old(self)@.contains_key(k));
                }
            }
        }
    }
}

/// An address that was never updated predicts not-taken.
pub proof fn lemma_predict_default(table: Map<u32, u8>, pc: u32)
    requires
        !table.contains_key(pc),
    ensures
        !predict_spec(table, pc),
{
}

/// Saturation of the 2-bit scheme, starting from an unseen address: three
/// taken outcomes saturate the counter at 3 and the prediction is taken; one
/// not-taken outcome then drops it to 2 with the prediction still taken; a
/// second consecutive not-taken outcome drops it to 1 and flips the
/// prediction to not-taken.
pub proof fn lemma_predictor_saturation(table: Map<u32, u8>, pc: u32)
    requires
        !table.contains_key(pc),
    ensures
        ({
            let t3 = update_spec(update_spec(update_spec(table, pc, true), pc, true), pc, true);
            let t4 = update_spec(t3, pc, false);
            let t5 = update_spec(t4, pc, false);
            &&& t3[pc] == 3
            &&& predict_spec(t3, pc)
            &&& t4[pc] == 2
            &&& predict_spec(t4, pc)
            &&& t5[pc] == 1
            &&& !predict_spec(t5, pc)
        }),
{
}

} // verus!
