use tick_window::order_tick_arrays;
use tick_window::TickArrayError;
use tick_window::TickArrayFacade;
use tick_window::TickArraySequence;
use tick_window::TickFacade;
use tick_window::TICK_ARRAY_SIZE;

fn test_ticks() -> [TickFacade; TICK_ARRAY_SIZE] {
    let mut ticks: [TickFacade; TICK_ARRAY_SIZE] =
        [TickFacade { initialized: false, liquidity_net: 0 }; TICK_ARRAY_SIZE];
    let mut x: usize = 0;
    while x < TICK_ARRAY_SIZE {
        ticks[x] = TickFacade { initialized: x & 1 == 1, liquidity_net: x as i128 };
        x += 1;
    }
    ticks
}

fn test_arrays() -> (TickArrayFacade, TickArrayFacade, TickArrayFacade) {
    let ticks = test_ticks();
    let one = TickArrayFacade { start_tick_index: 0, ticks };
    let two = TickArrayFacade { start_tick_index: TICK_ARRAY_SIZE as i32 * 16, ticks };
    let three = TickArrayFacade { start_tick_index: TICK_ARRAY_SIZE as i32 * 16 * 2, ticks };
    (one, two, three)
}

fn test_sequence() -> TickArraySequence {
    let (one, two, three) = test_arrays();
    TickArraySequence::new(one, two, three, 16).unwrap()
}

#[test]
fn test_tick_array_start_index() {
    let sequence = test_sequence();
    assert_eq!(sequence.start_index(), 0);
}

#[test]
fn test_tick_array_end_index() {
    let sequence = test_sequence();
    assert_eq!(sequence.end_index(), 4224);
}

#[test]
fn test_get_tick() {
    let sequence = test_sequence();
    assert_eq!(sequence.tick(0).unwrap().liquidity_net, 0);
    assert_eq!(sequence.tick(16).unwrap().liquidity_net, 1);
    assert_eq!(sequence.tick(1408).unwrap().liquidity_net, 0);
    assert_eq!(sequence.tick(1424).unwrap().liquidity_net, 1);
}

#[test]
fn test_tick_out_of_bounds_below() {
    let sequence = test_sequence();
    assert_eq!(sequence.tick(-1), Err(TickArrayError::IndexOutOfWindow));
}

#[test]
fn test_tick_out_of_bounds_above() {
    let sequence = test_sequence();
    assert_eq!(sequence.tick(4225), Err(TickArrayError::IndexOutOfWindow));
}

#[test]
fn test_tick_invalid_index() {
    let sequence = test_sequence();
    assert_eq!(sequence.tick(1), Err(TickArrayError::MisalignedIndex));
}

#[test]
fn test_get_next_initializable_tick_index() {
    let sequence = test_sequence();
    let (tick, index) = sequence.next_initialized_tick(0).unwrap();
    assert_eq!(index, 16);
    assert_eq!(tick.liquidity_net, 1);
}

#[test]
fn test_get_next_initializable_tick_cross_array() {
    let sequence = test_sequence();
    let (tick, index) = sequence.next_initialized_tick(1392).unwrap();
    assert_eq!(index, 1424);
    assert_eq!(tick.liquidity_net, 1);
}

#[test]
fn test_get_prev_initializable_tick_index() {
    let sequence = test_sequence();
    let (tick, index) = sequence.prev_initialized_tick(32).unwrap();
    assert_eq!(index, 16);
    assert_eq!(tick.liquidity_net, 1);
}

#[test]
fn test_get_prev_initializable_tick_cross_array() {
    let sequence = test_sequence();
    let (tick, index) = sequence.prev_initialized_tick(1408).unwrap();
    assert_eq!(index, 1392);
    assert_eq!(tick.liquidity_net, 87);
}

#[test]
fn test_order_tick_arrays_sorts_by_start_index() {
    let (one, two, three) = test_arrays();
    let (first, second, third) = order_tick_arrays(three, one, two);
    assert_eq!(first.start_tick_index, 0);
    assert_eq!(second.start_tick_index, 1408);
    assert_eq!(third.start_tick_index, 2816);
}

#[test]
fn test_order_invariance_of_construction() {
    let (one, two, three) = test_arrays();
    let permutations = [
        (one, two, three),
        (one, three, two),
        (two, one, three),
        (two, three, one),
        (three, one, two),
        (three, two, one),
    ];
    for (a, b, c) in permutations {
        let sequence = TickArraySequence::new(a, b, c, 16).unwrap();
        assert_eq!(sequence.start_index(), 0);
        assert_eq!(sequence.end_index(), 4224);
        let mut index: i32 = 0;
        while index < 4224 {
            assert_eq!(sequence.tick(index), test_sequence().tick(index));
            index += 16;
        }
    }
}

#[test]
fn test_spacing_enforcement_too_close() {
    let (one, two, three) = test_arrays();
    let nudged = TickArrayFacade { start_tick_index: two.start_tick_index - 16, ..two };
    assert_eq!(
        TickArraySequence::new(one, nudged, three, 16).err(),
        Some(TickArrayError::NonContiguousWindow)
    );
}

#[test]
fn test_spacing_enforcement_too_far() {
    let (one, two, three) = test_arrays();
    let nudged = TickArrayFacade { start_tick_index: two.start_tick_index + 16, ..two };
    assert_eq!(
        TickArraySequence::new(one, nudged, three, 16).err(),
        Some(TickArrayError::NonContiguousWindow)
    );
}

#[test]
fn test_spacing_enforcement_duplicate_start() {
    let (one, _, three) = test_arrays();
    let duplicate = TickArrayFacade { start_tick_index: one.start_tick_index, ..one };
    assert_eq!(
        TickArraySequence::new(one, duplicate, three, 16).err(),
        Some(TickArrayError::NonContiguousWindow)
    );
}

#[test]
fn test_lookup_bounds_edges() {
    let sequence = test_sequence();
    assert!(sequence.tick(0).is_ok());
    assert_eq!(sequence.tick(-1), Err(TickArrayError::IndexOutOfWindow));
    assert_eq!(sequence.tick(4224), Err(TickArrayError::IndexOutOfWindow));
}

#[test]
fn test_lookup_alignment() {
    let sequence = test_sequence();
    assert_eq!(sequence.tick(17), Err(TickArrayError::MisalignedIndex));
    assert_eq!(sequence.tick(4223), Err(TickArrayError::MisalignedIndex));
    assert_eq!(sequence.tick(1409), Err(TickArrayError::MisalignedIndex));
}

#[test]
fn test_round_trip_all_aligned_indices() {
    let (one, two, three) = test_arrays();
    let sequence = TickArraySequence::new(three, one, two, 16).unwrap();
    let mut index: i32 = 0;
    while index < 4224 {
        let source = if index < 1408 {
            &one
        } else if index < 2816 {
            &two
        } else {
            &three
        };
        let slot = ((index - source.start_tick_index) / 16) as usize;
        let tick = sequence.tick(index).unwrap();
        assert_eq!(tick, source.ticks[slot]);
        index += 16;
    }
}

#[test]
fn test_next_initialized_from_just_below_window() {
    let sequence = test_sequence();
    let (tick, index) = sequence.next_initialized_tick(-16).unwrap();
    assert_eq!(index, 16);
    assert_eq!(tick.liquidity_net, 1);
    assert_eq!(
        sequence.next_initialized_tick(-17),
        Err(TickArrayError::IndexOutOfWindow)
    );
}

#[test]
fn test_next_initialized_near_window_end() {
    let sequence = test_sequence();
    let (tick, index) = sequence.next_initialized_tick(4207).unwrap();
    assert_eq!(index, 4208);
    assert_eq!(tick.liquidity_net, 87);
    assert_eq!(
        sequence.next_initialized_tick(4208),
        Err(TickArrayError::IndexOutOfWindow)
    );
}

#[test]
fn test_prev_initialized_at_window_edges() {
    let sequence = test_sequence();
    let (tick, index) = sequence.prev_initialized_tick(4224).unwrap();
    assert_eq!(index, 4208);
    assert_eq!(tick.liquidity_net, 87);
    assert_eq!(
        sequence.prev_initialized_tick(4225),
        Err(TickArrayError::IndexOutOfWindow)
    );
    assert_eq!(
        sequence.prev_initialized_tick(0),
        Err(TickArrayError::IndexOutOfWindow)
    );
}

#[test]
fn test_search_skips_uninitialized_run() {
    let mut ticks = test_ticks();
    let mut x: usize = 0;
    while x < TICK_ARRAY_SIZE {
        ticks[x].initialized = x == 87;
        x += 1;
    }
    let one = TickArrayFacade { start_tick_index: 0, ticks };
    let two = TickArrayFacade { start_tick_index: 1408, ticks };
    let three = TickArrayFacade { start_tick_index: 2816, ticks };
    let sequence = TickArraySequence::new(one, two, three, 16).unwrap();
    let (tick, index) = sequence.next_initialized_tick(0).unwrap();
    assert_eq!(index, 1392);
    assert_eq!(tick.liquidity_net, 87);
}

#[test]
fn test_search_with_no_initialized_ticks() {
    let blank = [TickFacade { initialized: false, liquidity_net: 0 }; TICK_ARRAY_SIZE];
    let one = TickArrayFacade { start_tick_index: 0, ticks: blank };
    let two = TickArrayFacade { start_tick_index: 1408, ticks: blank };
    let three = TickArrayFacade { start_tick_index: 2816, ticks: blank };
    let sequence = TickArraySequence::new(one, two, three, 16).unwrap();
    assert_eq!(
        sequence.next_initialized_tick(0),
        Err(TickArrayError::IndexOutOfWindow)
    );
    assert_eq!(
        sequence.prev_initialized_tick(4000),
        Err(TickArrayError::IndexOutOfWindow)
    );
}

#[test]
fn test_window_with_negative_start_indices() {
    let ticks = test_ticks();
    let one = TickArrayFacade { start_tick_index: -4224, ticks };
    let two = TickArrayFacade { start_tick_index: -2816, ticks };
    let three = TickArrayFacade { start_tick_index: -1408, ticks };
    let sequence = TickArraySequence::new(two, three, one, 16).unwrap();
    assert_eq!(sequence.start_index(), -4224);
    assert_eq!(sequence.end_index(), 0);
    assert_eq!(sequence.tick(-4224).unwrap().liquidity_net, 0);
    assert_eq!(sequence.tick(-4208).unwrap().liquidity_net, 1);
    assert_eq!(sequence.tick(-4209), Err(TickArrayError::MisalignedIndex));
    let (tick, index) = sequence.next_initialized_tick(-21).unwrap();
    assert_eq!(index, -16);
    assert_eq!(tick.liquidity_net, 87);
    let (tick, index) = sequence.prev_initialized_tick(-4176).unwrap();
    assert_eq!(index, -4208);
    assert_eq!(tick.liquidity_net, 1);
    // walking down from the first initialized tick leaves the window
    assert_eq!(
        sequence.prev_initialized_tick(-4208),
        Err(TickArrayError::IndexOutOfWindow)
    );
    assert_eq!(
        sequence.prev_initialized_tick(-4224),
        Err(TickArrayError::IndexOutOfWindow)
    );
}

#[test]
fn test_window_with_spacing_one() {
    let ticks = test_ticks();
    let one = TickArrayFacade { start_tick_index: 0, ticks };
    let two = TickArrayFacade { start_tick_index: 88, ticks };
    let three = TickArrayFacade { start_tick_index: 176, ticks };
    let sequence = TickArraySequence::new(three, two, one, 1).unwrap();
    assert_eq!(sequence.start_index(), 0);
    assert_eq!(sequence.end_index(), 264);
    assert_eq!(sequence.tick(89).unwrap().liquidity_net, 1);
    let (tick, index) = sequence.next_initialized_tick(2).unwrap();
    assert_eq!(index, 3);
    assert_eq!(tick.liquidity_net, 3);
    let (tick, index) = sequence.prev_initialized_tick(88).unwrap();
    assert_eq!(index, 87);
    assert_eq!(tick.liquidity_net, 87);
}
