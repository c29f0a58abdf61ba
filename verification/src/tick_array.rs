use crate::constants::TICK_ARRAY_SIZE;
use crate::order::forms_contiguous_window;
use crate::order::lemma_order_tick_arrays;
use crate::order::order_tick_arrays;
use crate::order::spec_order_tick_arrays;
use crate::tick::TickArrayFacade;
use crate::tick::TickFacade;
use vstd::arithmetic::div_mod::lemma_div_multiples_vanish;
use vstd::arithmetic::div_mod::lemma_fundamental_div_mod_converse_mod;
use vstd::arithmetic::div_mod::lemma_small_mod;
use vstd::arithmetic::div_mod::lemma_div_pos_is_pos;
use vstd::arithmetic::div_mod::lemma_fundamental_div_mod;
use vstd::arithmetic::div_mod::lemma_fundamental_div_mod_converse;
use vstd::arithmetic::div_mod::lemma_mod_division_less_than_divisor;
use vstd::arithmetic::div_mod::lemma_mod_multiples_vanish;
use vstd::prelude::*;

verus! {

/// How a window construction or a query against it can fail. All variants are
/// caller-input-validation failures; none is transient or retriable.
#[derive(Clone, Copy, Debug, PartialEq, Eq, Structural)]
pub enum TickArrayError {
    /// The three supplied arrays do not tile one evenly-spaced, gapless
    /// window at the given tick spacing.
    NonContiguousWindow,
    /// The requested tick index lies before the window's start or at/after
    /// its end.
    IndexOutOfWindow,
    /// The requested tick index is not a multiple of the tick spacing.
    MisalignedIndex,
}

/// A validated, immutable window over three adjacent tick arrays, stored in
/// ascending order of `start_tick_index`, together with the tick spacing used
/// to interpret addresses.
#[derive(Clone, Copy, Debug, PartialEq, Eq)]
pub struct TickArraySequence {
    tick_arrays: [TickArrayFacade; 3],
    tick_spacing: u16,
}

impl TickArraySequence {
    /// The three owned arrays, in ascending start-index order.
    pub closed spec fn arrays(self) -> Seq<TickArrayFacade> {
        self.tick_arrays@
    }

    /// The tick spacing used to interpret addresses.
    pub closed spec fn spacing(self) -> int {
        self.tick_spacing as int
    }

    /// The number of absolute tick indices spanned by one array.
    pub open spec fn gap(self) -> int {
        TICK_ARRAY_SIZE * self.spacing()
    }

    /// The first tick index of the window.
    pub open spec fn start(self) -> int {
        self.arrays()[0].start_tick_index as int
    }

    /// The exclusive upper bound of the window.
    pub open spec fn end(self) -> int {
        self.start() + 3 * self.gap()
    }

    /// Well-formedness, established at construction and kept ever after: the
    /// spacing is positive, the three arrays tile one contiguous window, the
    /// window start sits on the grid, and the window end fits the index type.
    #[verifier::type_invariant]
    pub open spec fn wf(self) -> bool {
        &&& self.arrays().len() == 3
        &&& self.spacing() >= 1
        &&& self.arrays()[1].start_tick_index == self.start() + self.gap()
        &&& self.arrays()[2].start_tick_index == self.start() + 2 * self.gap()
        &&& self.start() % self.spacing() == 0
        &&& self.end() <= i32::MAX
    }

    /// Whether `index` lies inside the window's bounds.
    pub open spec fn in_window(self, index: int) -> bool {
        self.start() <= index < self.end()
    }

    /// Whether `index` addresses the grid exactly, i.e. is a multiple of the
    /// tick spacing.
    pub open spec fn aligned(self, index: int) -> bool {
        index % self.spacing() == 0
    }

    /// The tick stored at the aligned, in-window absolute index `index`.
    pub open spec fn tick_at(self, index: int) -> TickFacade
        recommends
            self.wf(),
            self.in_window(index),
            self.aligned(index),
    {
        let slot = (index - self.start()) / self.spacing();
        self.arrays()[slot / TICK_ARRAY_SIZE as int].ticks[slot % TICK_ARRAY_SIZE as int]
    }

    /// Build a validated window from three tick arrays supplied in any order.
    /// Succeeds exactly when the arrays tile one evenly-spaced, gapless,
    /// non-overlapping window at the given spacing; the result then holds
    /// them in ascending start-index order.
    pub fn new(
        one: TickArrayFacade,
        two: TickArrayFacade,
        three: TickArrayFacade,
        tick_spacing: u16,
    ) -> (r: Result<Self, TickArrayError>)
        requires
            tick_spacing >= 1,
            one.start_tick_index as int % tick_spacing as int == 0,
            two.start_tick_index as int % tick_spacing as int == 0,
            three.start_tick_index as int % tick_spacing as int == 0,
            forms_contiguous_window(one, two, three, tick_spacing)
                ==> spec_order_tick_arrays(one, two, three).0.start_tick_index + 3 * (
            TICK_ARRAY_SIZE * tick_spacing) <= i32::MAX,
        ensures
            r is Ok <==> forms_contiguous_window(one, two, three, tick_spacing),
            r matches Ok(s) ==> {
                &&& s.wf()
                &&& s.spacing() == tick_spacing
                &&& s.arrays() =~= seq![
                    spec_order_tick_arrays(one, two, three).0,
                    spec_order_tick_arrays(one, two, three).1,
                    spec_order_tick_arrays(one, two, three).2,
                ]
            },
            r is Err ==> r == Err::<Self, TickArrayError>(TickArrayError::NonContiguousWindow),
    {
        let (first, second, third) = order_tick_arrays(one, two, three);

        let required_diff: i64 = (TICK_ARRAY_SIZE as i64) * (tick_spacing as i64);
        let first_second_diff: i64 = (second.start_tick_index as i64) - (first.start_tick_index
            as i64);
        let second_third_diff: i64 = (third.start_tick_index as i64) - (second.start_tick_index
            as i64);
        if first_second_diff != required_diff || second_third_diff != required_diff {
            return Err(TickArrayError::NonContiguousWindow);
        }
        proof {
            lemma_order_tick_arrays(one, two, three);
        }
        Ok(TickArraySequence { tick_arrays: [first, second, third], tick_spacing })
    }

    /// The first tick index of the window.
    pub fn start_index(&self) -> (r: i32)
        ensures
            r == self.start(),
    {
        self.tick_arrays[0].start_tick_index
    }

    /// The exclusive upper bound of the window: the first tick index past it.
    pub fn end_index(&self) -> (r: i32)
        ensures
            r == self.end(),
    {
        proof {
            use_type_invariant(&*self);
        }
        // 264 = 3 arrays of TICK_ARRAY_SIZE ticks each
        let tick_span: i32 = 264 * (self.tick_spacing as i32);
        self.start_index() + tick_span
    }

    /// An absolute index sits on the grid exactly when its offset from the
    /// window start does, because the window start sits on the grid itself.
    proof fn lemma_offset_alignment(self, index: int)
        requires
            self.wf(),
        ensures
            self.aligned(index) <==> (index - self.start()) % self.spacing() == 0,
    {
        let s = self.spacing();
        let st = self.start();
        lemma_fundamental_div_mod(st, s);
        lemma_mod_multiples_vanish(st / s, index - st, s);
    }

    /// Decompose an aligned, in-window index into the containing array and
    /// the slot within it, and relate both to the window-wide slot number.
    pub(crate) proof fn lemma_locate(self, index: int)
        requires
            self.wf(),
            self.in_window(index),
            self.aligned(index),
        ensures
            ({
                let off = index - self.start();
                let slot = off / self.spacing();
                let ai = off / self.gap();
                &&& off % self.spacing() == 0
                &&& 0 <= slot < 264
                &&& 0 <= ai < 3
                &&& ai == slot / 88
                &&& 0 <= slot % 88 < 88
                &&& index - (self.start() + ai * self.gap()) == self.spacing() * (slot % 88)
                &&& 0 <= self.spacing() * (slot % 88) < self.gap()
                &&& self.spacing() * (slot % 88) / self.spacing() == slot % 88
            }),
    {
        let s = self.spacing();
        let st = self.start();
        let off = index - st;
        let g = self.gap();
        self.lemma_offset_alignment(index);
        lemma_fundamental_div_mod(off, s);
        let slot = off / s;
        lemma_div_pos_is_pos(off, s);
        assert(slot < 264) by (nonlinear_arith)
            requires
                off == s * slot,
                off < 264 * s,
                s >= 1,
        ;
        lemma_fundamental_div_mod(slot, 88);
        lemma_mod_division_less_than_divisor(slot, 88);
        lemma_div_pos_is_pos(slot, 88);
        let ai = slot / 88;
        let ri = slot % 88;
        assert(s * (88 * ai + ri) == (88 * s) * ai + s * ri) by (nonlinear_arith);
        assert(0 <= s * ri < 88 * s) by (nonlinear_arith)
            requires
                s >= 1,
                0 <= ri < 88,
        ;
        lemma_fundamental_div_mod_converse(off, g, ai, s * ri);
        lemma_div_multiples_vanish(ri, s);
    }

    /// Addressed lookup: the tick stored at absolute tick index `tick_index`.
    /// Fails with `IndexOutOfWindow` when the index lies outside
    /// `[start_index, end_index)`, and with `MisalignedIndex` when it is in
    /// bounds but not a multiple of the tick spacing.
    pub fn tick(&self, tick_index: i32) -> (r: Result<TickFacade, TickArrayError>)
        ensures
            self.in_window(tick_index as int) && self.aligned(tick_index as int) ==> r
                == Ok::<TickFacade, TickArrayError>(self.tick_at(tick_index as int)),
            !self.in_window(tick_index as int) ==> r == Err::<TickFacade, TickArrayError>(
                TickArrayError::IndexOutOfWindow,
            ),
            self.in_window(tick_index as int) && !self.aligned(tick_index as int) ==> r == Err::<
                TickFacade,
                TickArrayError,
            >(TickArrayError::MisalignedIndex),
    {
        proof {
            use_type_invariant(&*self);
        }
        let start = self.start_index();
        if tick_index < start || tick_index >= self.end_index() {
            return Err(TickArrayError::IndexOutOfWindow);
        }
        let spacing = self.tick_spacing as i32;
        let offset = tick_index - start;
        proof {
            self.lemma_offset_alignment(tick_index as int);
        }
        if offset % spacing != 0 {
            return Err(TickArrayError::MisalignedIndex);
        }
        proof {
            self.lemma_locate(tick_index as int);
        }
        let gap_ticks: i32 = 88 * spacing;
        let array_index = (offset / gap_ticks) as usize;
        let tick_array = self.tick_arrays[array_index];
        proof {
            let off = tick_index - self.start();
            let g = self.gap();
            let ai = off / g;
            assert(tick_array.start_tick_index == self.start() + ai * g) by {
                assert(0 * g == 0 && 1 * g == g) by (nonlinear_arith);
                if ai == 0 {
                    assert(ai * g == 0 * g);
                } else if ai == 1 {
                    assert(ai * g == 1 * g);
                } else {
                    assert(ai == 2);
                    assert(ai * g == 2 * g);
                }
            }
        }
        let index_in_array = ((tick_index - tick_array.start_tick_index) / spacing) as usize;
        Ok(tick_array.ticks[index_in_array])
    }

    /// Whether the window holds an initialized tick at the grid-aligned,
    /// in-window index `index`.
    pub open spec fn initialized_in_window(self, index: int) -> bool {
        &&& self.in_window(index)
        &&& self.aligned(index)
        &&& self.tick_at(index).initialized
    }

    /// Whether some initialized, aligned tick lies in the window strictly
    /// above `index`.
    pub open spec fn has_next_initialized(self, index: int) -> bool {
        exists|j: int| j > index && #[trigger] self.initialized_in_window(j)
    }

    /// Whether some initialized, aligned tick lies in the window strictly
    /// below `index`.
    pub open spec fn has_prev_initialized(self, index: int) -> bool {
        exists|j: int| j < index && #[trigger] self.initialized_in_window(j)
    }

    /// `j` is the nearest initialized, aligned, in-window tick strictly
    /// above `index`.
    pub open spec fn is_next_initialized(self, index: int, j: int) -> bool {
        &&& j > index
        &&& self.initialized_in_window(j)
        &&& forall|k: int| index < k < j ==> !(#[trigger] self.initialized_in_window(k))
    }

    /// `j` is the nearest initialized, aligned, in-window tick strictly
    /// below `index`.
    pub open spec fn is_prev_initialized(self, index: int, j: int) -> bool {
        &&& j < index
        &&& self.initialized_in_window(j)
        &&& forall|k: int| j < k < index ==> !(#[trigger] self.initialized_in_window(k))
    }

    /// Stepping one spacing up or down from an aligned index stays aligned.
    proof fn lemma_step_aligned(self, a: int)
        requires
            self.wf(),
            self.aligned(a),
        ensures
            self.aligned(a + self.spacing()),
            self.aligned(a - self.spacing()),
    {
        let s = self.spacing();
        lemma_fundamental_div_mod(a, s);
        assert(a + s == (a / s + 1) * s + 0) by (nonlinear_arith)
            requires
                a == s * (a / s),
        ;
        lemma_fundamental_div_mod_converse_mod(a + s, s, a / s + 1, 0);
        assert(a - s == (a / s - 1) * s + 0) by (nonlinear_arith)
            requires
                a == s * (a / s),
        ;
        lemma_fundamental_div_mod_converse_mod(a - s, s, a / s - 1, 0);
    }

    /// No index strictly between an aligned index and the aligned index one
    /// spacing above it sits on the grid.
    proof fn lemma_no_aligned_between(self, a: int, k: int)
        requires
            self.wf(),
            self.aligned(a),
            a < k < a + self.spacing(),
        ensures
            !self.aligned(k),
    {
        let s = self.spacing();
        let d = k - a;
        lemma_fundamental_div_mod(a, s);
        lemma_mod_multiples_vanish(a / s, d, s);
        lemma_small_mod(d as nat, s as nat);
    }

    /// The remainder of `index` on the grid lies in `[0, spacing)`; removing
    /// it lands on the grid, and it vanishes exactly on aligned indices.
    proof fn lemma_floor_aligned(self, index: int)
        requires
            self.wf(),
        ensures
            ({
                let s = self.spacing();
                let m = (index - self.start()) % s;
                &&& 0 <= m < s
                &&& self.aligned(index - m)
                &&& (m == 0 <==> self.aligned(index))
            }),
    {
        let s = self.spacing();
        let st = self.start();
        let off = index - st;
        lemma_fundamental_div_mod(off, s);
        lemma_mod_division_less_than_divisor(off, s);
        let q = off / s;
        let m = off % s;
        lemma_fundamental_div_mod(st, s);
        assert(index - m == (st / s + q) * s + 0) by (nonlinear_arith)
            requires
                st == s * (st / s),
                off == s * q + m,
                index == st + off,
        ;
        lemma_fundamental_div_mod_converse_mod(index - m, s, st / s + q, 0);
        self.lemma_offset_alignment(index);
    }

    /// Directional search, moving upward: from an arbitrary tick index, find
    /// the nearest strictly-greater, grid-aligned, initialized tick in the
    /// window and return its data and index. Fails with `IndexOutOfWindow`
    /// when the walk steps outside the window before finding one: when even
    /// the first candidate lies below the window, or when no initialized
    /// tick remains above `tick_index`.
    pub fn next_initialized_tick(&self, tick_index: i32) -> (r: Result<
        (TickFacade, i32),
        TickArrayError,
    >)
        ensures
            r is Ok <==> (tick_index + self.spacing() >= self.start()
                && self.has_next_initialized(tick_index as int)),
            r matches Ok(p) ==> self.is_next_initialized(tick_index as int, p.1 as int) && p.0
                == self.tick_at(p.1 as int),
            r is Err ==> r == Err::<(TickFacade, i32), TickArrayError>(
                TickArrayError::IndexOutOfWindow,
            ),
    {
        proof {
            use_type_invariant(&*self);
        }
        let spacing: i64 = self.tick_spacing as i64;
        let start: i64 = self.start_index() as i64;
        let end: i64 = start + 264 * spacing;
        let idx: i64 = tick_index as i64;
        let mut j: i64;
        if idx < start {
            if idx + spacing < start {
                return Err(TickArrayError::IndexOutOfWindow);
            }
            j = start;
        } else {
            let offset: i64 = idx - start;
            let m: i64 = offset % spacing;
            j = idx + (spacing - m);
            proof {
                self.lemma_floor_aligned(idx as int);
                self.lemma_step_aligned(idx - m);
                assert forall|k: int| idx < k < j implies !(#[trigger] self.initialized_in_window(
                    k,
                )) by {
                    self.lemma_no_aligned_between(idx - m, k);
                }
            }
        }
        while j < end
            invariant
                self.wf(),
                spacing == self.spacing(),
                start == self.start(),
                end == self.end(),
                idx == tick_index,
                idx + spacing >= start,
                self.aligned(j as int),
                j > idx,
                j >= start,
                forall|k: int| idx < k < j ==> !(#[trigger] self.initialized_in_window(k)),
            decreases end + spacing - j,
        {
            match self.tick(j as i32) {
                Ok(t) => {
                    if t.initialized {
                        proof {
                            assert(self.initialized_in_window(j as int));
                        }
                        return Ok((t, j as i32));
                    }
                },
                Err(_) => {
                    return Err(TickArrayError::IndexOutOfWindow);
                },
            }
            proof {
                self.lemma_step_aligned(j as int);
                assert forall|k: int| idx < k < j + spacing implies !(
                #[trigger] self.initialized_in_window(k)) by {
                    if j < k {
                        self.lemma_no_aligned_between(j as int, k);
                    }
                }
            }
            j = j + spacing;
        }
        proof {
            assert forall|k: int| k > idx implies !(#[trigger] self.initialized_in_window(k)) by {
                if k >= j {
                    assert(!self.in_window(k));
                }
            }
        }
        Err(TickArrayError::IndexOutOfWindow)
    }

    /// Directional search, moving downward: from an arbitrary tick index,
    /// find the nearest strictly-smaller, grid-aligned, initialized tick in
    /// the window and return its data and index. Fails with
    /// `IndexOutOfWindow` when the walk steps outside the window before
    /// finding one: when even the first candidate lies at or above the
    /// window end, or when no initialized tick remains below `tick_index`.
    pub fn prev_initialized_tick(&self, tick_index: i32) -> (r: Result<
        (TickFacade, i32),
        TickArrayError,
    >)
        ensures
            r is Ok <==> (tick_index <= self.end() && self.has_prev_initialized(
                tick_index as int,
            )),
            r matches Ok(p) ==> self.is_prev_initialized(tick_index as int, p.1 as int) && p.0
                == self.tick_at(p.1 as int),
            r is Err ==> r == Err::<(TickFacade, i32), TickArrayError>(
                TickArrayError::IndexOutOfWindow,
            ),
    {
        proof {
            use_type_invariant(&*self);
        }
        let spacing: i64 = self.tick_spacing as i64;
        let start: i64 = self.start_index() as i64;
        let end: i64 = start + 264 * spacing;
        let idx: i64 = tick_index as i64;
        if idx > end {
            return Err(TickArrayError::IndexOutOfWindow);
        }
        if idx <= start {
            proof {
                assert forall|k: int| k < idx implies !(#[trigger] self.initialized_in_window(
                    k,
                )) by {
                    assert(!self.in_window(k));
                }
            }
            return Err(TickArrayError::IndexOutOfWindow);
        }
        let offset: i64 = idx - start;
        let m: i64 = offset % spacing;
        let mut j: i64 = if m == 0 {
            idx - spacing
        } else {
            idx - m
        };
        proof {
            let s = self.spacing();
            let st = self.start();
            self.lemma_floor_aligned(idx as int);
            lemma_fundamental_div_mod(idx - st, s);
            lemma_div_pos_is_pos(idx - st, s);
            let q = (idx - st) / s;
            if m == 0 {
                self.lemma_step_aligned(idx as int);
                assert(idx - st >= s) by (nonlinear_arith)
                    requires
                        idx - st == s * q,
                        idx - st > 0,
                        s >= 1,
                        q >= 0,
                ;
            } else {
                assert(idx - m - st >= 0) by (nonlinear_arith)
                    requires
                        idx - m - st == s * q,
                        s >= 1,
                        q >= 0,
                ;
            }
            // the window end itself sits on the grid
            lemma_fundamental_div_mod(st, s);
            assert(self.end() == (st / s + 264) * s + 0) by (nonlinear_arith)
                requires
                    st == s * (st / s),
                    self.end() == st + 264 * s,
            ;
            lemma_fundamental_div_mod_converse_mod(self.end(), s, st / s + 264, 0);
            assert forall|k: int| j < k < idx implies !(#[trigger] self.initialized_in_window(
                k,
            )) by {
                self.lemma_no_aligned_between(j as int, k);
            }
        }
        while j >= start
            invariant
                self.wf(),
                spacing == self.spacing(),
                start == self.start(),
                end == self.end(),
                idx == tick_index,
                idx <= end,
                self.aligned(j as int),
                j < idx,
                j < end,
                forall|k: int| j < k < idx ==> !(#[trigger] self.initialized_in_window(k)),
            decreases j + spacing - start,
        {
            match self.tick(j as i32) {
                Ok(t) => {
                    if t.initialized {
                        proof {
                            assert(self.initialized_in_window(j as int));
                        }
                        return Ok((t, j as i32));
                    }
                },
                Err(_) => {
                    return Err(TickArrayError::IndexOutOfWindow);
                },
            }
            proof {
                self.lemma_step_aligned(j as int);
                assert forall|k: int| j - spacing < k < idx implies !(
                #[trigger] self.initialized_in_window(k)) by {
                    if k < j {
                        self.lemma_no_aligned_between(j - spacing, k);
                    }
                }
            }
            j = j - spacing;
        }
        proof {
            assert forall|k: int| k < idx implies !(#[trigger] self.initialized_in_window(k)) by {
                if k <= j {
                    assert(!self.in_window(k));
                }
            }
        }
        Err(TickArrayError::IndexOutOfWindow)
    }
}

} // verus!
