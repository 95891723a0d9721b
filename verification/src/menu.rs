//! The input loop's state machine.
//!
//! The highlighted row is an explicit 1-based index in `[1, n]`, where `n`
//! is the number of menu items and row 0 is the header line. Each keyboard
//! event either moves the highlight (with wrap-around at both ends) or ends
//! the session with a selection or a cancellation. The caller performs the
//! terminal I/O; `step` decides every transition.

use vstd::prelude::*;

verus! {

/// A keyboard event, as the input loop classifies it.
#[derive(Clone, Copy, Debug, PartialEq, Eq, Structural)]
pub enum Key {
    Up,
    Down,
    Enter,
    Esc,
    Char(char),
    Other,
}

/// How an interactive session ends: the 1-based position of the chosen
/// item, or a cancellation that produces no position at all.
#[derive(Clone, Copy, Debug, PartialEq, Eq, Structural)]
pub enum Outcome {
    Selected(usize),
    Cancelled,
}

/// The state after one transition: still browsing at some row, or finished.
#[derive(Clone, Copy, Debug, PartialEq, Eq, Structural)]
pub enum StepResult {
    Browsing(usize),
    Finished(Outcome),
}

/// One row up, wrapping from the first item row to the last.
pub open spec fn wrap_up(n: int, row: int) -> int {
    if row > 1 {
        row - 1
    } else {
        n
    }
}

/// One row down, wrapping from the last item row to the first.
pub open spec fn wrap_down(n: int, row: int) -> int {
    if row < n {
        row + 1
    } else {
        1
    }
}

/// The keys that cancel the session.
pub open spec fn is_cancel_key(key: Key) -> bool {
    key == Key::Esc || key == Key::Char('q')
}

/// Where the highlight stands after `key`, for keys that do not end the
/// session; every non-navigation key leaves the row unchanged.
pub open spec fn nav_row(n: int, row: int, key: Key) -> int {
    match key {
        Key::Up => wrap_up(n, row),
        Key::Down => wrap_down(n, row),
        _ => row,
    }
}

/// One transition of the input loop: from the current highlighted row and
/// one keyboard event to the next state.
///
/// Enter selects the current row; Esc and 'q' cancel; Up and Down move the
/// highlight with wrap-around; every other key is ignored.
pub fn step(n: usize, row: usize, key: Key) -> (r: StepResult)
    requires
        1 <= row <= n,
    ensures
        key == Key::Enter ==> r == StepResult::Finished(Outcome::Selected(row)),
        is_cancel_key(key) ==> r == StepResult::Finished(Outcome::Cancelled),
        key != Key::Enter && !is_cancel_key(key) ==> r == StepResult::Browsing(
            nav_row(n as int, row as int, key) as usize,
        ),
        r matches StepResult::Browsing(next) ==> 1 <= next <= n,
{
    match key {
        Key::Up => {
            if row > 1 {
                StepResult::Browsing(row - 1)
            } else {
                StepResult::Browsing(n)
            }
        },
        Key::Down => {
            if row < n {
                StepResult::Browsing(row + 1)
            } else {
                StepResult::Browsing(1)
            }
        },
        Key::Enter => StepResult::Finished(Outcome::Selected(row)),
        Key::Esc => StepResult::Finished(Outcome::Cancelled),
        Key::Char(c) => {
            if c == 'q' {
                StepResult::Finished(Outcome::Cancelled)
            } else {
                StepResult::Browsing(row)
            }
        },
        Key::Other => StepResult::Browsing(row),
    }
}

/// Where the highlight stands after a whole sequence of keys, applied
/// front to back; keys that would end the session leave the row unchanged.
pub open spec fn rows_after(n: int, row: int, keys: Seq<Key>) -> int
    decreases keys.len(),
{
    if keys.len() == 0 {
        row
    } else {
        rows_after(n, nav_row(n, row, keys[0]), keys.subrange(1, keys.len() as int))
    }
}

/// A sequence of `k` presses of the same key.
pub open spec fn repeat_key(key: Key, k: nat) -> Seq<Key> {
    Seq::new(k, |i: int| key)
}

/// Wrap-around navigation is total: from a row in `[1, n]`, any sequence
/// of key presses leaves the highlight in `[1, n]`; it never reaches the
/// header row or leaves the list.
pub proof fn lemma_rows_after_in_bounds(n: int, row: int, keys: Seq<Key>)
    requires
        1 <= row <= n,
    ensures
        1 <= rows_after(n, row, keys) <= n,
    decreases keys.len(),
{
    if keys.len() > 0 {
        lemma_rows_after_in_bounds(
            n,
            nav_row(n, row, keys[0]),
            keys.subrange(1, keys.len() as int),
        );
    }
}

/// Key sequences compose: pressing `a` then `b` highlights the same row
/// as pressing `a`, reading off the row, and pressing `b` from there.
pub proof fn lemma_rows_after_concat(n: int, row: int, a: Seq<Key>, b: Seq<Key>)
    ensures
        rows_after(n, row, a + b) == rows_after(n, rows_after(n, row, a), b),
    decreases a.len(),
{
    if a.len() == 0 {
        assert(a + b =~= b);
    } else {
        let rest = a.subrange(1, a.len() as int);
        assert((a + b).subrange(1, (a + b).len() as int) =~= rest + b);
        lemma_rows_after_concat(n, nav_row(n, row, a[0]), rest, b);
    }
}

proof fn lemma_downs_no_wrap(n: int, row: int, k: nat)
    requires
        1 <= row,
        row + k <= n,
    ensures
        rows_after(n, row, repeat_key(Key::Down, k)) == row + k,
    decreases k,
{
    if k > 0 {
        let ks = repeat_key(Key::Down, k);
        assert(ks.subrange(1, k as int) =~= repeat_key(Key::Down, (k - 1) as nat));
        lemma_downs_no_wrap(n, row + 1, (k - 1) as nat);
    }
}

proof fn lemma_ups_no_wrap(n: int, row: int, k: nat)
    requires
        row - k >= 1,
        row <= n,
    ensures
        rows_after(n, row, repeat_key(Key::Up, k)) == row - k,
    decreases k,
{
    if k > 0 {
        let ks = repeat_key(Key::Up, k);
        assert(ks.subrange(1, k as int) =~= repeat_key(Key::Up, (k - 1) as nat));
        lemma_ups_no_wrap(n, row - 1, (k - 1) as nat);
    }
}

/// Full-cycle wrap, downward: pressing Down `n` times from row 1 returns
/// the highlight to row 1.
pub proof fn lemma_down_full_cycle(n: int)
    requires
        1 <= n,
    ensures
        rows_after(n, 1, repeat_key(Key::Down, n as nat)) == 1,
{
    let front = repeat_key(Key::Down, (n - 1) as nat);
    let last = seq![Key::Down];
    assert(repeat_key(Key::Down, n as nat) =~= front + last);
    lemma_rows_after_concat(n, 1, front, last);
    lemma_downs_no_wrap(n, 1, (n - 1) as nat);
    assert(last.subrange(1, 1) =~= Seq::<Key>::empty());
    assert(last[0] == Key::Down);
    assert(rows_after(n, n, last) == rows_after(n, 1, last.subrange(1, 1)));
}

/// Full-cycle wrap, upward: pressing Up `n` times from row 1 returns the
/// highlight to row 1.
pub proof fn lemma_up_full_cycle(n: int)
    requires
        1 <= n,
    ensures
        rows_after(n, 1, repeat_key(Key::Up, n as nat)) == 1,
{
    let ks = repeat_key(Key::Up, n as nat);
    assert(ks.subrange(1, n) =~= repeat_key(Key::Up, (n - 1) as nat));
    lemma_ups_no_wrap(n, n, (n - 1) as nat);
}

} // verus!
