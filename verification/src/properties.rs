use crate::order::forms_contiguous_window;
use crate::order::spec_order_tick_arrays;
use crate::tick::array_covers;
use crate::tick::tick_in_array;
use crate::tick::TickArrayFacade;
use crate::tick_array::TickArraySequence;
use vstd::arithmetic::div_mod::lemma_div_multiples_vanish;
use vstd::prelude::*;

verus! {

/// Order invariance: three mutually-contiguous, correctly spaced arrays sort
/// to the same ordered triple whichever way they are supplied, and they form
/// a contiguous window in every supply order. Together with the contract of
/// `TickArraySequence::new`, every permutation of such inputs therefore
/// yields a window with identical start index, end index and lookup results.
pub proof fn lemma_order_invariance(
    one: TickArrayFacade,
    two: TickArrayFacade,
    three: TickArrayFacade,
    tick_spacing: u16,
)
    requires
        tick_spacing >= 1,
        forms_contiguous_window(one, two, three, tick_spacing),
    ensures
        spec_order_tick_arrays(one, three, two) == spec_order_tick_arrays(one, two, three),
        spec_order_tick_arrays(two, one, three) == spec_order_tick_arrays(one, two, three),
        spec_order_tick_arrays(two, three, one) == spec_order_tick_arrays(one, two, three),
        spec_order_tick_arrays(three, one, two) == spec_order_tick_arrays(one, two, three),
        spec_order_tick_arrays(three, two, one) == spec_order_tick_arrays(one, two, three),
        forms_contiguous_window(one, three, two, tick_spacing),
        forms_contiguous_window(two, one, three, tick_spacing),
        forms_contiguous_window(two, three, one, tick_spacing),
        forms_contiguous_window(three, one, two, tick_spacing),
        forms_contiguous_window(three, two, one, tick_spacing),
{
}

/// Lookup bounds: in a well-formed window the start index itself is an
/// addressable grid point, while the index just below the start and the end
/// index are both outside the window. With the contract of
/// `TickArraySequence::tick`, lookup at the start succeeds and lookups at
/// `start - 1` and at the end fail with `IndexOutOfWindow`.
pub proof fn lemma_lookup_bounds(s: TickArraySequence)
    requires
        s.wf(),
    ensures
        s.in_window(s.start()) && s.aligned(s.start()),
        !s.in_window(s.start() - 1),
        !s.in_window(s.end()),
{
}

/// Round trip: every aligned index inside the window reads back exactly the
/// tick that the covering source array holds for it, whichever of the three
/// (reordered) arrays that is. With the contract of
/// `TickArraySequence::new`, identity is preserved from the supplied arrays
/// through reordering and addressing.
pub proof fn lemma_round_trip(s: TickArraySequence, a: TickArrayFacade, index: int)
    requires
        s.wf(),
        s.arrays().contains(a),
        array_covers(a, s.spacing(), index),
        s.aligned(index),
    ensures
        s.in_window(index),
        s.tick_at(index) == tick_in_array(a, s.spacing(), index),
{
    let g = s.gap();
    let sp = s.spacing();
    let st = s.start();
    let i = choose|i: int| 0 <= i < s.arrays().len() && s.arrays()[i] == a;
    assert(a.start_tick_index == st + i * g && s.in_window(index)) by {
        assert(0 * g == 0 && 1 * g == g) by (nonlinear_arith);
        if i == 0 {
        } else if i == 1 {
        } else {
            assert(i == 2);
        }
    }
    s.lemma_locate(index);
    let off = index - st;
    let slot = off / sp;
    let ai = off / g;
    assert(ai * g == i * g) by {
        assert(0 * g == 0 && 1 * g == g) by (nonlinear_arith);
        if ai != i {
            // two distinct array numbers put the index in disjoint ranges
            assert(false);
        }
    }
    assert(index - a.start_tick_index == sp * (slot % 88));
    lemma_div_multiples_vanish(slot % 88, sp);
}

} // verus!
