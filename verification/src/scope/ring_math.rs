//! Modular-arithmetic facts about ring-buffer slots.

use vstd::arithmetic::div_mod::lemma_fundamental_div_mod;
use vstd::prelude::*;

verus! {

/// Two positions fewer than `capacity` apart map to different ring slots.
pub proof fn lemma_recent_slots_distinct(i: int, t: int, capacity: int)
    requires
        0 <= i < t,
        t - i < capacity,
        0 < capacity,
    ensures
        i % capacity != t % capacity,
{
    lemma_fundamental_div_mod(i, capacity);
    lemma_fundamental_div_mod(t, capacity);
    if i % capacity == t % capacity {
        let k = t / capacity - i / capacity;
        assert(t - i == capacity * k) by (nonlinear_arith)
            requires
                i == capacity * (i / capacity) + i % capacity,
                t == capacity * (t / capacity) + t % capacity,
                i % capacity == t % capacity,
                k == t / capacity - i / capacity,
        ;
        if k >= 1 {
            assert(capacity * k >= capacity) by (nonlinear_arith)
                requires
                    k >= 1,
                    capacity > 0,
            ;
        } else {
            assert(capacity * k <= 0) by (nonlinear_arith)
                requires
                    k <= 0,
                    capacity > 0,
            ;
        }
    }
}

/// Advancing a position by one advances its slot by one, wrapping to zero
/// at the end of the ring.
pub proof fn lemma_next_slot(t: int, capacity: int)
    requires
        0 <= t,
        0 < capacity,
    ensures
        t % capacity + 1 < capacity ==> (t + 1) % capacity == t % capacity + 1,
        t % capacity + 1 >= capacity ==> (t + 1) % capacity == 0,
        0 <= t % capacity < capacity,
{
    lemma_fundamental_div_mod(t, capacity);
    lemma_fundamental_div_mod(t + 1, capacity);
    let q = t / capacity;
    let r = t % capacity;
    assert(0 <= r < capacity);
    if r + 1 < capacity {
        // t + 1 == capacity * q + (r + 1) with 0 <= r + 1 < capacity
        assert(t + 1 == q * capacity + (r + 1)) by (nonlinear_arith)
            requires
                t == capacity * q + r,
        ;
        assert((t + 1) % capacity == r + 1) by {
            vstd::arithmetic::div_mod::lemma_fundamental_div_mod_converse_mod(t + 1, capacity, q, r + 1);
        }
    } else {
        assert(t + 1 == (q + 1) * capacity + 0) by (nonlinear_arith)
            requires
                t == capacity * q + r,
                r + 1 == capacity,
        ;
        assert((t + 1) % capacity == 0) by {
            vstd::arithmetic::div_mod::lemma_fundamental_div_mod_converse_mod(t + 1, capacity, q + 1, 0);
        }
    }
}

} // verus!
