//! The patch-cable routing system.
//!
//! A cable is a directed, gain-scaled edge from an output port range to an
//! input port range. Once per sample `run_cables` zeroes the whole input
//! array and then, for every live cable and every voice slot, accumulates
//! `gain * output` into the destination: un-cabled inputs are exactly zero,
//! and several cables into one destination sum. Cables are stored in a slot
//! allocator, so removal is O(1) and cable indices are stable only until the
//! next removal.

use vstd::prelude::*;

use crate::fixed::{fp_add, fp_add_s, fp_mul, fp_mul_s, fp_ok, FP_ONE};
use crate::ports::{
    input_jack_address, input_jack_offset, output_jack_address, output_jack_offset, InputJack,
    OutputJack, MAX_POLY_COUNT, TOTAL_INPUT_COUNT, TOTAL_OUTPUT_COUNT,
};
use crate::slot::{ComponentVec, SlotError};

verus! {

/// A directed, gain-scaled signal edge, held as resolved flat addresses.
#[derive(Clone, Copy, PartialEq, Eq, Structural, Debug)]
pub struct Cable {
    /// Base address of the source range in the output array.
    pub source: usize,
    /// Base address of the destination range in the input array.
    pub target: usize,
    /// Fixed-point gain applied to every routed sample.
    pub gain: i64,
}

impl Cable {
    /// A unit-gain cable from `source` to `target`.
    pub fn new(source: OutputJack, target: InputJack) -> (r: Cable)
        ensures
            r.source == output_jack_offset(source),
            r.target == input_jack_offset(target),
            r.gain == FP_ONE,
            cable_wf(r),
    {
        Cable {
            source: output_jack_address(source),
            target: input_jack_address(target),
            gain: FP_ONE,
        }
    }
}

/// A cable's ranges lie inside the arrays and its gain is representable.
pub open spec fn cable_wf(c: Cable) -> bool {
    &&& c.source + MAX_POLY_COUNT <= TOTAL_OUTPUT_COUNT
    &&& c.target + MAX_POLY_COUNT <= TOTAL_INPUT_COUNT
    &&& fp_ok(c.gain as int)
}

/// What one cable adds to input address `addr`: its gain times the matching
/// source sample if `addr` lies in its destination range, zero otherwise.
pub open spec fn cable_contribution(c: Cable, outputs: Seq<i64>, addr: int) -> int {
    if c.target <= addr < c.target + MAX_POLY_COUNT {
        fp_mul_s(c.gain as int, outputs[c.source + (addr - c.target)] as int)
    } else {
        0
    }
}

/// The saturating sum of every cable's contribution to input address
/// `addr`, accumulated in cable order.
pub open spec fn cable_sum(cables: Seq<Cable>, outputs: Seq<i64>, addr: int) -> int
    decreases cables.len(),
{
    if cables.len() == 0 {
        0
    } else {
        fp_add_s(
            cable_sum(cables.drop_last(), outputs, addr),
            cable_contribution(cables.last(), outputs, addr),
        )
    }
}

/// An input address in no cable's destination range reads exactly zero
/// after the cable pass: un-cabled inputs are silent, not stale.
pub proof fn lemma_uncabled_input_is_zero(cables: Seq<Cable>, outputs: Seq<i64>, addr: int)
    requires
        forall|k: int|
            0 <= k < cables.len() ==> !((#[trigger] cables[k]).target <= addr < cables[k].target
                + MAX_POLY_COUNT),
    ensures
        cable_sum(cables, outputs, addr) == 0,
    decreases cables.len(),
{
    if cables.len() > 0 {
        assert(forall|k: int|
            0 <= k < cables.drop_last().len() ==> #[trigger] cables.drop_last()[k] == cables[k]);
        lemma_uncabled_input_is_zero(cables.drop_last(), outputs, addr);
        assert(cables[cables.len() - 1] == cables.last());
        assert(cable_contribution(cables.last(), outputs, addr) == 0);
    }
}

/// The dynamically editable cable list.
pub struct Cables<const MAX_CABLES: usize>(ComponentVec<Cable, MAX_CABLES>);

impl<const MAX_CABLES: usize> View for Cables<MAX_CABLES> {
    type V = Seq<Cable>;

    closed spec fn view(&self) -> Seq<Cable> {
        self.0@
    }
}

impl<const MAX_CABLES: usize> Cables<MAX_CABLES> {
    /// Every stored cable addresses the arrays in bounds.
    pub open spec fn wf(&self) -> bool {
        &&& self@.len() <= MAX_CABLES
        &&& forall|k: int| 0 <= k < self@.len() ==> cable_wf(#[trigger] self@[k])
    }

    /// An empty patch.
    pub fn new() -> (r: Self)
        ensures
            r@ == Seq::<Cable>::empty(),
            r.wf(),
    {
        Cables(ComponentVec::new())
    }

    /// Number of live cables.
    pub fn len(&self) -> (r: usize)
        ensures
            r == self@.len(),
    {
        self.0.len()
    }

    /// Read the cable in slot `index`.
    pub fn get(&self, index: usize) -> (r: Cable)
        requires
            index < self@.len(),
        ensures
            r == self@[index as int],
    {
        *self.0.get(index)
    }

    /// Add a unit-gain cable; refused once the patch is at capacity.
    pub fn add_cable(&mut self, source: OutputJack, target: InputJack) -> (r: Result<
        (),
        SlotError,
    >)
        requires
            old(self).wf(),
        ensures
            final(self).wf(),
            old(self)@.len() < MAX_CABLES ==> r == Ok::<(), SlotError>(()) && final(self)@ == old(
                self,
            )@.push(
                Cable {
                    source: output_jack_offset(source) as usize,
                    target: input_jack_offset(target) as usize,
                    gain: FP_ONE,
                },
            ),
            old(self)@.len() >= MAX_CABLES ==> r == Err::<(), SlotError>(SlotError::CapacityExceeded)
                && final(self)@ == old(self)@,
    {
        self.0.push(Cable::new(source, target))
    }

    /// Remove the cable in slot `index` in O(1) by moving the last live
    /// cable into its slot; the index of that moved cable changes.
    pub fn remove_cable(&mut self, cable_index: usize) -> (r: Result<(), SlotError>)
        requires
            old(self).wf(),
        ensures
            final(self).wf(),
            cable_index < old(self)@.len() ==> r == Ok::<(), SlotError>(()) && final(self)@ == old(
                self,
            )@.update(cable_index as int, old(self)@.last()).drop_last(),
            cable_index >= old(self)@.len() ==> r == Err::<(), SlotError>(
                SlotError::IndexOutOfRange,
            ) && final(self)@ == old(self)@,
    {
        match self.0.remove(cable_index) {
            Ok(_) => Ok(()),
            Err(e) => Err(e),
        }
    }

    /// Set the gain of the cable in slot `index`; refused past the live
    /// count. The value is first brought onto the saturation rails.
    pub fn attenaute(&mut self, cable_index: usize, new_value: i64) -> (r: Result<(), SlotError>)
        requires
            old(self).wf(),
        ensures
            final(self).wf(),
            cable_index < old(self)@.len() ==> r == Ok::<(), SlotError>(()) && final(self)@ == old(
                self,
            )@.update(
                cable_index as int,
                Cable {
                    gain: crate::fixed::sat(new_value as int) as i64,
                    ..old(self)@[cable_index as int]
                },
            ),
            cable_index >= old(self)@.len() ==> r == Err::<(), SlotError>(
                SlotError::IndexOutOfRange,
            ) && final(self)@ == old(self)@,
    {
        if cable_index < self.0.len() {
            let c = *self.0.get(cable_index);
            let clipped = crate::fixed::fp_clip(new_value);
            let res = self.0.put(cable_index, Cable { gain: clipped, ..c });
            proof {
                assert(res == Ok::<(), SlotError>(()));
            }
            Ok(())
        } else {
            Err(SlotError::IndexOutOfRange)
        }
    }

    /// Zero the whole input array, then accumulate every cable's gain-scaled
    /// source samples into its destination range: after the pass each input
    /// address holds exactly the saturating sum of its cables'
    /// contributions, and un-cabled inputs are exactly zero.
    pub fn run_cables(&self, inputs: &mut Vec<i64>, outputs: &Vec<i64>)
        requires
            self.wf(),
            old(inputs)@.len() == TOTAL_INPUT_COUNT,
            outputs@.len() == TOTAL_OUTPUT_COUNT,
            forall|a: int| 0 <= a < TOTAL_OUTPUT_COUNT ==> fp_ok(#[trigger] outputs@[a] as int),
        ensures
            final(inputs)@.len() == TOTAL_INPUT_COUNT,
            forall|a: int|
                0 <= a < TOTAL_INPUT_COUNT ==> #[trigger] final(inputs)@[a] as int == cable_sum(
                    self@,
                    outputs@,
                    a,
                ),
            forall|a: int| 0 <= a < TOTAL_INPUT_COUNT ==> fp_ok(#[trigger] final(inputs)@[a] as int),
    {
        let n = inputs.len();
        for a in 0..n
            invariant
                n == TOTAL_INPUT_COUNT,
                inputs@.len() == TOTAL_INPUT_COUNT,
                forall|b: int| 0 <= b < a ==> #[trigger] inputs@[b] == 0i64,
        {
            inputs[a] = 0;
        }
        let count = self.0.len();
        for j in 0..count
            invariant
                self.wf(),
                count == self@.len(),
                inputs@.len() == TOTAL_INPUT_COUNT,
                outputs@.len() == TOTAL_OUTPUT_COUNT,
                forall|b: int| 0 <= b < TOTAL_OUTPUT_COUNT ==> fp_ok(#[trigger] outputs@[b] as int),
                forall|b: int|
                    0 <= b < TOTAL_INPUT_COUNT ==> #[trigger] inputs@[b] as int == cable_sum(
                        self@.take(j as int),
                        outputs@,
                        b,
                    ),
                forall|b: int| 0 <= b < TOTAL_INPUT_COUNT ==> fp_ok(#[trigger] inputs@[b] as int),
        {
            let cable = *self.0.get(j);
            let ghost prev = inputs@;
            proof {
                assert(self@.take(j + 1).drop_last() =~= self@.take(j as int));
                assert(self@.take(j + 1).last() == self@[j as int]);
            }
            for i in 0..MAX_POLY_COUNT
                invariant
                    self.wf(),
                    j < self@.len(),
                    cable == self@[j as int],
                    cable_wf(cable),
                    inputs@.len() == TOTAL_INPUT_COUNT,
                    prev.len() == TOTAL_INPUT_COUNT,
                    outputs@.len() == TOTAL_OUTPUT_COUNT,
                    forall|b: int|
                        0 <= b < TOTAL_OUTPUT_COUNT ==> fp_ok(#[trigger] outputs@[b] as int),
                    forall|b: int| 0 <= b < TOTAL_INPUT_COUNT ==> fp_ok(#[trigger] prev[b] as int),
                    forall|b: int|
                        0 <= b < TOTAL_INPUT_COUNT ==> #[trigger] prev[b] as int == cable_sum(
                            self@.take(j as int),
                            outputs@,
                            b,
                        ),
                    self@.take(j + 1).drop_last() == self@.take(j as int),
                    self@.take(j + 1).last() == cable,
                    forall|b: int|
                        0 <= b < TOTAL_INPUT_COUNT ==> #[trigger] inputs@[b] == (if cable.target
                            <= b < cable.target + i {
                            (fp_add_s(
                                prev[b] as int,
                                cable_contribution(cable, outputs@, b),
                            )) as i64
                        } else {
                            prev[b]
                        }),
                    forall|b: int| 0 <= b < TOTAL_INPUT_COUNT ==> fp_ok(#[trigger] inputs@[b] as int),
            {
                let addr = cable.target + i;
                let scaled = fp_mul(cable.gain, outputs[cable.source + i]);
                let summed = fp_add(inputs[addr], scaled);
                inputs[addr] = summed;
            }
            proof {
                assert forall|b: int| 0 <= b < TOTAL_INPUT_COUNT implies #[trigger] inputs@[b]
                    as int == cable_sum(self@.take(j + 1), outputs@, b) by {
                    assert(cable_sum(self@.take(j + 1), outputs@, b) == fp_add_s(
                        cable_sum(self@.take(j as int), outputs@, b),
                        cable_contribution(cable, outputs@, b),
                    ));
                    if cable.target <= b < cable.target + MAX_POLY_COUNT {
                    } else {
                        assert(cable_contribution(cable, outputs@, b) == 0);
                        assert(fp_add_s(prev[b] as int, 0) == prev[b] as int);
                    }
                }
            }
        }
        proof {
            assert(self@.take(count as int) =~= self@);
        }
    }
}

} // verus!
