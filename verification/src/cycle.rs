//! Walking round a cycle of places, numbered from zero.

use vstd::prelude::*;

verus! {

/// The successor of `place` on a cycle of `n` places: the first place
/// follows the last.
pub open spec fn next_on_cycle(place: int, n: int) -> int {
    if place + 1 < n {
        place + 1
    } else {
        0
    }
}

/// The predecessor of `place` on a cycle of `n` places: the last place
/// precedes the first.
pub open spec fn previous_on_cycle(place: int, n: int) -> int {
    if place == 0 {
        n - 1
    } else {
        place - 1
    }
}

/// The place that lies `count` steps after `place` on a cycle of `n` places,
/// for at most `n` steps.
pub open spec fn place_after(place: int, count: int, n: int) -> int {
    if place + count < n {
        place + count
    } else {
        place + count - n
    }
}

/// The successor of a place is the next number modulo the number of places.
pub proof fn lemma_next_on_cycle_is_modular(place: int, n: int)
    requires
        0 <= place < n,
    ensures
        next_on_cycle(place, n) == (place + 1) % n,
        0 <= next_on_cycle(place, n) < n,
{
    if place + 1 < n {
        vstd::arithmetic::div_mod::lemma_small_mod((place + 1) as nat, n as nat);
    } else {
        vstd::arithmetic::div_mod::lemma_mod_self_0(n);
    }
}

/// The predecessor of a place is the number before it modulo the number of
/// places.
pub proof fn lemma_previous_on_cycle_is_modular(place: int, n: int)
    requires
        0 <= place < n,
    ensures
        previous_on_cycle(place, n) == (place + n - 1) % n,
        0 <= previous_on_cycle(place, n) < n,
{
    if place == 0 {
        vstd::arithmetic::div_mod::lemma_small_mod((n - 1) as nat, n as nat);
    } else {
        vstd::arithmetic::div_mod::lemma_mod_add_multiples_vanish(place - 1, n);
        vstd::arithmetic::div_mod::lemma_small_mod((place - 1) as nat, n as nat);
    }
}

/// Going back undoes going on, and going on undoes going back.
pub proof fn lemma_previous_undoes_next(place: int, n: int)
    requires
        0 <= place < n,
    ensures
        previous_on_cycle(next_on_cycle(place, n), n) == place,
        next_on_cycle(previous_on_cycle(place, n), n) == place,
{
}

/// The successor of a place of the cycle is a place of the cycle again.
pub fn next_place(place: usize, n: usize) -> (next: usize)
    requires
        place < n,
    ensures
        next == next_on_cycle(place as int, n as int),
        next as int == (place as int + 1) % (n as int),
        next < n,
{
    proof {
        lemma_next_on_cycle_is_modular(place as int, n as int);
    }
    (place + 1) % n
}

/// The predecessor of a place of the cycle is a place of the cycle again.
pub fn previous_place(place: usize, n: usize) -> (previous: usize)
    requires
        place < n,
    ensures
        previous == previous_on_cycle(place as int, n as int),
        previous < n,
{
    if place == 0 {
        n - 1
    } else {
        place - 1
    }
}

} // verus!
