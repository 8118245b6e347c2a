use vstd::prelude::*;

verus! {

/// Columns of the emoji grid.
pub const COLS: usize = 7;

/// Rows of the emoji grid that fit on one page.
pub const VISIBLE_ROWS: usize = 5;

/// Emojis on one page of the grid.
pub const ITEMS_PER_PAGE: usize = 35;

/// Moving down a list wraps from the last item to the first.
pub open spec fn next_index(index: int, count: int) -> int {
    (index + 1) % count
}

/// Moving up a list wraps from the first item to the last.
pub open spec fn prev_index(index: int, count: int) -> int {
    if index == 0 {
        count - 1
    } else {
        index - 1
    }
}

pub fn select_next(index: usize, count: usize) -> (r: usize)
    requires
        count > 0,
    ensures
        r == next_index(index as int, count as int),
        r < count,
{
    proof {
        lemma_next_mod(index as int, count as int);
    }
    (index % count + 1) % count
}

pub fn select_prev(index: usize, count: usize) -> (r: usize)
    requires
        count > 0,
    ensures
        r == prev_index(index as int, count as int),
{
    if index == 0 {
        count - 1
    } else {
        index - 1
    }
}

proof fn lemma_next_mod(i: int, n: int)
    requires
        i >= 0,
        n > 0,
    ensures
        (i % n + 1) % n == (i + 1) % n,
{
    vstd::arithmetic::div_mod::lemma_add_mod_noop(i, 1, n);
    if n > 1 {
        vstd::arithmetic::div_mod::lemma_small_mod(1, n as nat);
    }
}

/// Position in the emoji grid: the selected emoji and the page shown.
pub open spec fn grid_next_spec(sel: int, len: int) -> (int, int) {
    let s = (sel + 1) % len;
    (s, s / ITEMS_PER_PAGE as int)
}

pub open spec fn grid_prev_spec(sel: int, len: int) -> (int, int) {
    let s = if sel == 0 {
        len - 1
    } else {
        sel - 1
    };
    (s, s / ITEMS_PER_PAGE as int)
}

/// One row down: the same column of the next row, or, past the end, the
/// position a full row further counted from the start again.
pub open spec fn grid_row_down_spec(sel: int, len: int) -> (int, int) {
    let s = if sel + COLS < len {
        sel + COLS
    } else {
        (sel + COLS) % len
    };
    (s, s / ITEMS_PER_PAGE as int)
}

/// One row up: the same column of the previous row; from the first row,
/// the same column of the last row that has it.
pub open spec fn grid_row_up_spec(sel: int, len: int) -> (int, int) {
    let s = if sel >= COLS {
        sel - COLS
    } else {
        let last_full = (len / COLS as int) * COLS as int;
        if last_full + sel < len {
            last_full + sel
        } else if last_full >= COLS {
            last_full - COLS + sel
        } else {
            sel
        }
    };
    (s, s / ITEMS_PER_PAGE as int)
}

pub open spec fn total_pages(len: int) -> int {
    (len + ITEMS_PER_PAGE - 1) / ITEMS_PER_PAGE as int
}

/// Next page, wrapping to the first; the selection jumps to the page's
/// first emoji.
pub open spec fn grid_next_page_spec(page: int, len: int) -> (int, int) {
    let p = (page + 1) % total_pages(len);
    (p * ITEMS_PER_PAGE, p)
}

pub open spec fn grid_prev_page_spec(page: int, len: int) -> (int, int) {
    let p = if page == 0 {
        total_pages(len) - 1
    } else {
        page - 1
    };
    (p * ITEMS_PER_PAGE, p)
}

/// The emoji grid's cursor: the selected emoji and the page shown.
#[derive(Clone, Copy, Debug, PartialEq, Eq, Structural)]
pub struct GridCursor {
    pub selected_index: usize,
    pub page: usize,
}

impl GridCursor {
    pub open spec fn new_spec() -> Self {
        GridCursor { selected_index: 0, page: 0 }
    }

    pub fn new() -> (r: Self)
        ensures
            r == Self::new_spec(),
    {
        GridCursor { selected_index: 0, page: 0 }
    }

    /// Next emoji, wrapping; nothing happens in an empty grid.
    pub fn select_next(&mut self, len: usize)
        ensures
            len == 0 ==> *final(self) == *old(self),
            len > 0 ==> (final(self).selected_index as int, final(self).page as int)
                == grid_next_spec(old(self).selected_index as int, len as int),
    {
        if len > 0 {
            self.selected_index = select_next(self.selected_index, len);
            self.page = self.selected_index / ITEMS_PER_PAGE;
        }
    }

    /// Previous emoji, wrapping; nothing happens in an empty grid.
    pub fn select_prev(&mut self, len: usize)
        ensures
            len == 0 ==> *final(self) == *old(self),
            len > 0 ==> (final(self).selected_index as int, final(self).page as int)
                == grid_prev_spec(old(self).selected_index as int, len as int),
    {
        if len > 0 {
            self.selected_index = select_prev(self.selected_index, len);
            self.page = self.selected_index / ITEMS_PER_PAGE;
        }
    }

    /// One row down.
    pub fn select_row_down(&mut self, len: usize)
        requires
            old(self).selected_index + COLS <= usize::MAX,
        ensures
            len == 0 ==> *final(self) == *old(self),
            len > 0 ==> (final(self).selected_index as int, final(self).page as int)
                == grid_row_down_spec(old(self).selected_index as int, len as int),
    {
        if len > 0 {
            if self.selected_index + COLS < len {
                self.selected_index = self.selected_index + COLS;
            } else {
                self.selected_index = (self.selected_index + COLS) % len;
            }
            self.page = self.selected_index / ITEMS_PER_PAGE;
        }
    }

    /// One row up.
    pub fn select_row_up(&mut self, len: usize)
        requires
            len + COLS <= usize::MAX,
        ensures
            len == 0 ==> *final(self) == *old(self),
            len > 0 ==> (final(self).selected_index as int, final(self).page as int)
                == grid_row_up_spec(old(self).selected_index as int, len as int),
    {
        if len > 0 {
            if self.selected_index >= COLS {
                self.selected_index = self.selected_index - COLS;
            } else {
                let remainder = self.selected_index;
                let last_full = (len / COLS) * COLS;
                proof {
                    vstd::arithmetic::div_mod::lemma_fundamental_div_mod(len as int, COLS as int);
                    vstd::arithmetic::div_mod::lemma_mod_bound(len as int, COLS as int);
                }
                if last_full + remainder < len {
                    self.selected_index = last_full + remainder;
                } else if last_full >= COLS {
                    self.selected_index = last_full - COLS + remainder;
                }
            }
            self.page = self.selected_index / ITEMS_PER_PAGE;
        }
    }

    /// Next page, wrapping.
    pub fn next_page(&mut self, len: usize)
        requires
            len + ITEMS_PER_PAGE <= usize::MAX,
            old(self).page < usize::MAX,
        ensures
            len == 0 ==> *final(self) == *old(self),
            len > 0 ==> (final(self).selected_index as int, final(self).page as int)
                == grid_next_page_spec(old(self).page as int, len as int),
    {
        let total = (len + ITEMS_PER_PAGE - 1) / ITEMS_PER_PAGE;
        if total > 0 {
            self.page = (self.page + 1) % total;
            proof {
                lemma_page_start_fits(self.page as int, total as int, len as int);
            }
            self.selected_index = self.page * ITEMS_PER_PAGE;
        }
    }

    /// Previous page, wrapping.
    pub fn prev_page(&mut self, len: usize)
        requires
            len + ITEMS_PER_PAGE <= usize::MAX,
            old(self).page * ITEMS_PER_PAGE <= usize::MAX,
        ensures
            len == 0 ==> *final(self) == *old(self),
            len > 0 ==> (final(self).selected_index as int, final(self).page as int)
                == grid_prev_page_spec(old(self).page as int, len as int),
    {
        let total = (len + ITEMS_PER_PAGE - 1) / ITEMS_PER_PAGE;
        let ghost page0 = self.page;
        if total > 0 {
            if self.page == 0 {
                self.page = total - 1;
            } else {
                self.page = self.page - 1;
            }
            proof {
                if self.page < total {
                    lemma_page_start_fits(self.page as int, total as int, len as int);
                } else {
                    assert(self.page * ITEMS_PER_PAGE <= usize::MAX) by (nonlinear_arith)
                        requires
                            self.page < page0,
                            page0 * 35 <= usize::MAX,
                            ITEMS_PER_PAGE == 35,
                    ;
                }
            }
            self.selected_index = self.page * ITEMS_PER_PAGE;
        }
    }
}

proof fn lemma_page_start_fits(page: int, total: int, len: int)
    requires
        0 <= page < total,
        total == (len + 34) / 35,
        0 <= len,
    ensures
        page * 35 < len,
{
    assert(page * 35 < len) by (nonlinear_arith)
        requires
            0 <= page < total,
            total == (len + 34) / 35,
            0 <= len,
    ;
}

// ---------------------------------------------------------------------
// Laws

/// Moving down then up returns to the same item of a list.
pub proof fn lemma_next_then_prev(index: int, count: int)
    requires
        0 <= index < count,
    ensures
        prev_index(next_index(index, count), count) == index,
        next_index(prev_index(index, count), count) == index,
{
    if index + 1 < count {
        assert((index + 1) % count == index + 1) by {
            vstd::arithmetic::div_mod::lemma_small_mod((index + 1) as nat, count as nat);
        }
    } else {
        assert((index + 1) % count == 0) by {
            vstd::arithmetic::div_mod::lemma_mod_self_0(count);
        }
    }
    if index == 0 {
        assert(count % count == 0) by {
            vstd::arithmetic::div_mod::lemma_mod_self_0(count);
        }
    } else {
        assert(index % count == index) by {
            vstd::arithmetic::div_mod::lemma_small_mod(index as nat, count as nat);
        }
    }
}

/// Every move of the grid cursor keeps a selection that was inside the
/// grid inside it, and keeps the page on the selection.
pub proof fn lemma_grid_moves_stay_inside(sel: int, len: int)
    requires
        0 <= sel < len,
    ensures
        0 <= grid_next_spec(sel, len).0 < len,
        0 <= grid_prev_spec(sel, len).0 < len,
        0 <= grid_row_down_spec(sel, len).0 < len,
        0 <= grid_row_up_spec(sel, len).0 < len,
{
    assert(0 <= (sel + 1) % len < len) by {
        vstd::arithmetic::div_mod::lemma_mod_bound(sel + 1, len);
    }
    assert(0 <= (sel + COLS) % len < len) by {
        vstd::arithmetic::div_mod::lemma_mod_bound(sel + COLS, len);
    }
    if sel < COLS {
        let last_full = (len / COLS as int) * COLS as int;
        assert(last_full <= len) by {
            vstd::arithmetic::div_mod::lemma_fundamental_div_mod(len, COLS as int);
            vstd::arithmetic::div_mod::lemma_mod_bound(len, COLS as int);
        }
        assert(0 <= last_full) by {
            vstd::arithmetic::div_mod::lemma_div_pos_is_pos(len, COLS as int);
            vstd::arithmetic::mul::lemma_mul_nonnegative(len / COLS as int, COLS as int);
        }
    }
}

/// Page jumps land on the first emoji of a page inside the grid.
pub proof fn lemma_page_moves_stay_inside(page: int, len: int)
    requires
        0 <= page,
        len > 0,
    ensures
        0 <= grid_next_page_spec(page, len).0 < len,
        grid_prev_page_spec(page, len).1 < total_pages(len) ==> 0 <= grid_prev_page_spec(
            page,
            len,
        ).0 < len,
{
    let t = total_pages(len);
    assert(t >= 1) by {
        vstd::arithmetic::div_mod::lemma_div_is_ordered(35, len + 34, 35);
        vstd::arithmetic::div_mod::lemma_div_by_self(35);
    }
    let p = (page + 1) % t;
    assert(0 <= p < t) by {
        vstd::arithmetic::div_mod::lemma_mod_bound(page + 1, t);
    }
    lemma_page_start_fits(p, t, len);
    let q = grid_prev_page_spec(page, len).1;
    if 0 <= q < t {
        lemma_page_start_fits(q, t, len);
    }
    assert(0 <= p * 35) by (nonlinear_arith)
        requires 0 <= p;
    assert(q >= 0 ==> 0 <= q * 35) by (nonlinear_arith);
}

/// Which theme or wallpaper the carousel moves to going left: only a
/// carousel of at least two items moves.
pub open spec fn carousel_prev_spec(sel: int, total: int) -> Option<int> {
    if total > 1 {
        Some(prev_index(sel, total) % total)
    } else {
        None
    }
}

pub open spec fn carousel_next_spec(sel: int, total: int) -> Option<int> {
    if total > 1 {
        Some(next_index(sel, total) % total)
    } else {
        None
    }
}

pub fn carousel_prev(sel: usize, total: usize) -> (r: Option<usize>)
    ensures
        match r {
            Some(i) => carousel_prev_spec(sel as int, total as int) == Some(i as int),
            None => carousel_prev_spec(sel as int, total as int) is None,
        },
{
    if total > 1 {
        let target = select_prev(sel, total);
        Some(target % total)
    } else {
        None
    }
}

pub fn carousel_next(sel: usize, total: usize) -> (r: Option<usize>)
    ensures
        match r {
            Some(i) => carousel_next_spec(sel as int, total as int) == Some(i as int),
            None => carousel_next_spec(sel as int, total as int) is None,
        },
{
    if total > 1 {
        let target = select_next(sel, total);
        Some(target % total)
    } else {
        None
    }
}

/// The item an "apply" acts on: the selection, or the last item when the
/// selection ran past the end.
pub fn clamp_to_last(sel: usize, total: usize) -> (r: usize)
    requires
        total > 0,
    ensures
        r == if sel < total {
            sel as int
        } else {
            total - 1
        },
{
    if sel < total - 1 {
        sel
    } else {
        total - 1
    }
}

/// The list index of the card `offset` places from the centre of a
/// carousel of `total` items, wrapping round both ends (`rem_euclid` of
/// `selected + offset` by `total`, computed in `i32`).
pub fn ring_index(selected: usize, offset: i32, total: usize) -> (r: usize)
    requires
        0 < total <= i32::MAX,
        selected <= i32::MAX,
        i32::MIN <= selected + offset <= i32::MAX,
    ensures
        r == (selected + offset) % (total as int),
{
    let v: i64 = selected as i64 + offset as i64;
    if v >= 0 {
        ((v as u64) % (total as u64)) as usize
    } else {
        let back: u64 = ((-v) as u64) % (total as u64);
        proof {
            lemma_negative_mod(v as int, total as int, back as int);
        }
        if back == 0 {
            0
        } else {
            total - back as usize
        }
    }
}

proof fn lemma_negative_mod(v: int, t: int, k: int)
    requires
        v < 0,
        t > 0,
        k == (-v) % t,
    ensures
        k == 0 ==> v % t == 0,
        k != 0 ==> v % t == t - k,
{
    let q = (-v) / t;
    vstd::arithmetic::div_mod::lemma_fundamental_div_mod(-v, t);
    vstd::arithmetic::div_mod::lemma_mod_bound(-v, t);
    assert(v == t * (-q) - k) by (nonlinear_arith)
        requires
            -v == t * q + k,
    ;
    if k == 0 {
        vstd::arithmetic::div_mod::lemma_mod_multiples_vanish(-q, 0, t);
        vstd::arithmetic::div_mod::lemma_small_mod(0, t as nat);
    } else {
        assert(v == t * (-q - 1) + (t - k)) by (nonlinear_arith)
            requires
                v == t * (-q) - k,
        ;
        vstd::arithmetic::div_mod::lemma_mod_multiples_vanish(-q - 1, t - k, t);
        vstd::arithmetic::div_mod::lemma_small_mod((t - k) as nat, t as nat);
    }
}

/// The "n/total" counter of a carousel: the selected item counted from
/// one, 0 for an empty carousel.
pub fn carousel_counter(selected: usize, total: usize) -> (r: usize)
    ensures
        r == if total == 0 {
            0
        } else {
            selected % total + 1
        },
{
    if total == 0 {
        0
    } else {
        selected % total + 1
    }
}

/// Moving through a list of `count` items stays inside it: down goes to
/// the next item and from the last back to the first, up goes to the
/// previous item and from the first to the last.
pub proof fn lemma_list_moves_wrap(index: int, count: int)
    requires
        0 <= index < count,
    ensures
        0 <= next_index(index, count) < count,
        0 <= prev_index(index, count) < count,
        index + 1 < count ==> next_index(index, count) == index + 1,
        index == count - 1 ==> next_index(index, count) == 0,
        index > 0 ==> prev_index(index, count) == index - 1,
        index == 0 ==> prev_index(index, count) == count - 1,
{
    if index + 1 < count {
        assert((index + 1) % count == index + 1) by {
            vstd::arithmetic::div_mod::lemma_small_mod((index + 1) as nat, count as nat);
        }
    } else {
        assert((index + 1) % count == 0) by {
            vstd::arithmetic::div_mod::lemma_mod_self_0(count);
        }
    }
}

/// In the emoji grid every move shows the page of the new selection; next
/// then previous comes back, a row down then a row up comes back when the
/// row below exists, a row up then a row down comes back from any row but
/// the first, and next page then previous page comes back to the page.
pub proof fn lemma_grid_moves_undo(sel: int, len: int, page: int)
    requires
        0 <= sel < len,
        0 <= page < total_pages(len),
    ensures
        grid_next_spec(sel, len).1 == grid_next_spec(sel, len).0 / ITEMS_PER_PAGE as int,
        grid_prev_spec(sel, len).1 == grid_prev_spec(sel, len).0 / ITEMS_PER_PAGE as int,
        grid_row_down_spec(sel, len).1 == grid_row_down_spec(sel, len).0 / ITEMS_PER_PAGE as int,
        grid_row_up_spec(sel, len).1 == grid_row_up_spec(sel, len).0 / ITEMS_PER_PAGE as int,
        grid_prev_spec(grid_next_spec(sel, len).0, len).0 == sel,
        grid_next_spec(grid_prev_spec(sel, len).0, len).0 == sel,
        sel + COLS < len ==> grid_row_up_spec(grid_row_down_spec(sel, len).0, len).0 == sel,
        sel >= COLS ==> grid_row_down_spec(grid_row_up_spec(sel, len).0, len).0 == sel,
        grid_prev_page_spec(grid_next_page_spec(page, len).1, len).1 == page,
        grid_next_page_spec(page, len).0 == grid_next_page_spec(page, len).1 * ITEMS_PER_PAGE as int,
{
    lemma_next_then_prev(sel, len);
    let t = total_pages(len);
    lemma_next_then_prev(page, t);
}

} // verus!
