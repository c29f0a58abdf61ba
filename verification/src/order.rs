use crate::constants::TICK_ARRAY_SIZE;
use crate::tick::TickArrayFacade;
use vstd::prelude::*;

verus! {

/// The three arrays rearranged into ascending order of `start_tick_index`,
/// by explicit three-way comparison.
pub open spec fn spec_order_tick_arrays(
    one: TickArrayFacade,
    two: TickArrayFacade,
    three: TickArrayFacade,
) -> (TickArrayFacade, TickArrayFacade, TickArrayFacade) {
    if one.start_tick_index < two.start_tick_index {
        if two.start_tick_index < three.start_tick_index {
            (one, two, three)
        } else if one.start_tick_index < three.start_tick_index {
            (one, three, two)
        } else {
            (three, one, two)
        }
    } else if one.start_tick_index < three.start_tick_index {
        (two, one, three)
    } else if two.start_tick_index < three.start_tick_index {
        (two, three, one)
    } else {
        (three, two, one)
    }
}

/// Whether `r` is one of the six arrangements of `one`, `two`, `three`.
pub open spec fn is_arrangement_of(
    r: (TickArrayFacade, TickArrayFacade, TickArrayFacade),
    one: TickArrayFacade,
    two: TickArrayFacade,
    three: TickArrayFacade,
) -> bool {
    ||| r == (one, two, three)
    ||| r == (one, three, two)
    ||| r == (two, one, three)
    ||| r == (two, three, one)
    ||| r == (three, one, two)
    ||| r == (three, two, one)
}

/// Whether the three arrays, once ordered, tile one evenly-spaced, gapless,
/// non-overlapping window at the given tick spacing: consecutive start
/// indices differ by exactly `TICK_ARRAY_SIZE * tick_spacing`.
pub open spec fn forms_contiguous_window(
    one: TickArrayFacade,
    two: TickArrayFacade,
    three: TickArrayFacade,
    tick_spacing: u16,
) -> bool {
    let ordered = spec_order_tick_arrays(one, two, three);
    let gap = TICK_ARRAY_SIZE * tick_spacing;
    &&& ordered.1.start_tick_index == ordered.0.start_tick_index + gap
    &&& ordered.2.start_tick_index == ordered.1.start_tick_index + gap
}

/// The ordered triple is sorted and is an arrangement of its inputs.
pub proof fn lemma_order_tick_arrays(
    one: TickArrayFacade,
    two: TickArrayFacade,
    three: TickArrayFacade,
)
    ensures
        spec_order_tick_arrays(one, two, three).0.start_tick_index <= spec_order_tick_arrays(
            one,
            two,
            three,
        ).1.start_tick_index <= spec_order_tick_arrays(one, two, three).2.start_tick_index,
        is_arrangement_of(spec_order_tick_arrays(one, two, three), one, two, three),
{
}

/// Put three tick arrays into ascending order of `start_tick_index`.
pub fn order_tick_arrays(
    one: TickArrayFacade,
    two: TickArrayFacade,
    three: TickArrayFacade,
) -> (r: (TickArrayFacade, TickArrayFacade, TickArrayFacade))
    ensures
        r == spec_order_tick_arrays(one, two, three),
{
    let first_start_index = one.start_tick_index;
    let second_start_index = two.start_tick_index;
    let third_start_index = three.start_tick_index;

    if first_start_index < second_start_index {
        if second_start_index < third_start_index {
            (one, two, three)
        } else if first_start_index < third_start_index {
            (one, three, two)
        } else {
            (three, one, two)
        }
    } else if first_start_index < third_start_index {
        (two, one, three)
    } else if second_start_index < third_start_index {
        (two, three, one)
    } else {
        (three, two, one)
    }
}

} // verus!
