//! Index logic of the in-place radix-2 FFT used by the spectrum display: the
//! bit-reversal reordering that precedes the butterfly stages.
//!
//! The butterflies themselves compute on floating-point samples and are left
//! to the caller; the reordering only moves elements, so it is written for
//! any copyable element type.

use vstd::prelude::*;

use vstd::arithmetic::div_mod::lemma_div_denominator;
use vstd::arithmetic::div_mod::lemma_fundamental_div_mod_converse;
use vstd::arithmetic::div_mod::lemma_mod_breakdown;
use vstd::arithmetic::div_mod::lemma_mod_mod;

verus! {

/// 2 to the power `k`.
pub open spec fn two_pow(k: nat) -> nat
    decreases k,
{
    if k == 0 {
        1
    } else {
        2 * two_pow((k - 1) as nat)
    }
}

/// Whether `n` is a power of two.
pub open spec fn is_power_of_two(n: nat) -> bool {
    exists|k: nat| two_pow(k) == n
}

/// The exponent `k` with `two_pow(k) == n` (for a power of two `n`).
pub open spec fn log2_of(n: nat) -> nat {
    choose|k: nat| two_pow(k) == n
}

/// The number whose `k` low bits are those of `x` in reverse order.
pub open spec fn bit_reverse(x: nat, k: nat) -> nat
    decreases k,
{
    if k == 0 {
        0
    } else {
        (if x % 2 == 1 { two_pow((k - 1) as nat) } else { 0 }) + bit_reverse(x / 2, (k - 1) as nat)
    }
}

proof fn lemma_two_pow_pos(k: nat)
    ensures
        two_pow(k) >= 1,
    decreases k,
{
    if k > 0 {
        lemma_two_pow_pos((k - 1) as nat);
    }
}

proof fn lemma_bit_reverse_bound(x: nat, k: nat)
    ensures
        bit_reverse(x, k) < two_pow(k),
    decreases k,
{
    if k > 0 {
        lemma_bit_reverse_bound(x / 2, (k - 1) as nat);
    }
}

proof fn lemma_bit_reverse_zero(k: nat)
    ensures
        bit_reverse(0, k) == 0,
    decreases k,
{
    if k > 0 {
        lemma_bit_reverse_zero((k - 1) as nat);
    }
}

/// Reading the reversal from the top bit: the top bit of `x` becomes the
/// lowest bit of the result, and the other bits are reversed one level down.
proof fn lemma_bit_reverse_top(x: nat, k: nat)
    requires
        k >= 1,
        x < two_pow(k),
    ensures
        bit_reverse(x, k) == 2 * bit_reverse(x % two_pow((k - 1) as nat), (k - 1) as nat) + x / two_pow(
            (k - 1) as nat,
        ),
    decreases k,
{
    if k == 1 {
        assert(two_pow(0) == 1);
        assert(bit_reverse(x / 2, 0) == 0);
        assert(bit_reverse(x % 1, 0) == 0);
    } else {
        let c = two_pow((k - 2) as nat);
        lemma_two_pow_pos((k - 2) as nat);
        assert(two_pow((k - 1) as nat) == 2 * c);
        lemma_bit_reverse_top(x / 2, (k - 1) as nat);
        lemma_mod_mod(x as int, 2, c as int);
        lemma_mod_breakdown(x as int, 2, c as int);
        lemma_div_denominator(x as int, 2, c as int);
        let y = x % (2 * c);
        assert(y % 2 == x % 2);
        assert(y / 2 == (x / 2) % c);
        assert((x / 2) / c == x / (2 * c));
    }
}

/// Reversing the bits twice gives the number back.
pub proof fn lemma_bit_reverse_involution(x: nat, k: nat)
    requires
        x < two_pow(k),
    ensures
        bit_reverse(bit_reverse(x, k), k) == x,
    decreases k,
{
    if k == 0 {
        lemma_bit_reverse_zero(0);
    } else {
        let h = two_pow((k - 1) as nat);
        lemma_two_pow_pos((k - 1) as nat);
        let b: nat = if x % 2 == 1 { 1 } else { 0 };
        let r = bit_reverse(x / 2, (k - 1) as nat);
        lemma_bit_reverse_bound(x / 2, (k - 1) as nat);
        let q = bit_reverse(x, k);
        assert(q == b * h + r);
        lemma_bit_reverse_bound(x, k);
        lemma_bit_reverse_top(q, k);
        lemma_fundamental_div_mod_converse(q as int, h as int, b as int, r as int);
        lemma_bit_reverse_involution(x / 2, (k - 1) as nat);
    }
}

/// Position `p` after the first `i` steps of the reordering: positions
/// whose pair `(p, bit_reverse(p))` starts below `i` hold their partner.
pub open spec fn reorder_source(i: int, p: int, k: nat) -> int {
    let r = bit_reverse(p as nat, k) as int;
    if (if p <= r { p } else { r }) < i {
        r
    } else {
        p
    }
}

/// Reorders the real parts `re` and imaginary parts `im` (of the same power-of-two length `n`) so that
/// position `p` receives the element at `bit_reverse(p, log2(n))`.
pub fn bit_reverse_permute<T: Copy>(re: &mut Vec<T>, im: &mut Vec<T>)
    requires
        is_power_of_two(old(re)@.len()),
        old(im)@.len() == old(re)@.len(),
    ensures
        final(re)@.len() == old(re)@.len(),
        final(im)@.len() == old(im)@.len(),
        forall|p: int| 0 <= p < old(re)@.len() ==> #[trigger] final(re)@[p] == old(re)@[bit_reverse(
            p as nat,
            log2_of(old(re)@.len()),
        ) as int],
        forall|p: int| 0 <= p < old(im)@.len() ==> #[trigger] final(im)@[p] == old(im)@[bit_reverse(
            p as nat,
            log2_of(old(re)@.len()),
        ) as int],
{
    let n = re.len();
    let ghost k: nat = log2_of(n as nat);
    let ghost re0 = re@;
    let ghost im0 = im@;
    proof {
        lemma_bit_reverse_zero(k);
        lemma_two_pow_pos(k);
    }
    let mut j: usize = 0;
    let mut i: usize = 0;
    while i < n
        invariant
            two_pow(k) == n,
            i <= n,
            re@.len() == n,
            im@.len() == n,
            re0.len() == n,
            im0.len() == n,
            i < n ==> j == bit_reverse(i as nat, k),
            forall|p: int| 0 <= p < n ==> #[trigger] re@[p] == re0[reorder_source(i as int, p, k)],
            forall|p: int| 0 <= p < n ==> #[trigger] im@[p] == im0[reorder_source(i as int, p, k)],
        decreases n - i,
    {
        proof {
            lemma_bit_reverse_bound(i as nat, k);
            lemma_bit_reverse_involution(i as nat, k);
        }
        let ghost re_before = re@;
        let ghost im_before = im@;
        if i < j {
            let a = re[i];
            let b = re[j];
            re.set(i, b);
            re.set(j, a);
            let c = im[i];
            let d = im[j];
            im.set(i, d);
            im.set(j, c);
        }
        proof {
            assert forall|p: int| 0 <= p < n implies #[trigger] re@[p] == re0[reorder_source(i + 1, p, k)] by {
                lemma_reorder_step(i as int, j as int, p, k);
            }
            assert forall|p: int| 0 <= p < n implies #[trigger] im@[p] == im0[reorder_source(i + 1, p, k)] by {
                lemma_reorder_step(i as int, j as int, p, k);
            }
        }
        let mut m: usize = n / 2;
        let ghost mut t: nat = 0;
        let ghost mut x: nat = i as nat;
        let ghost mut y: nat = (i + 1) as nat;
        while m >= 1 && j >= m
            invariant
                two_pow(k) == n,
                i < n,
                t <= k,
                m == (if t < k { two_pow((k - t - 1) as nat) } else { 0 }),
                j == bit_reverse(x, (k - t) as nat),
                y == x + 1,
                bit_reverse((i + 1) as nat, k) == bit_reverse(y, (k - t) as nat),
            decreases m,
        {
            proof {
                lemma_bit_reverse_bound(x / 2, (k - t - 1) as nat);
                assert(x % 2 == 1);
                lemma_two_pow_pos((k - t - 1) as nat);
                if t + 1 < k {
                    assert(two_pow((k - t - 1) as nat) == 2 * two_pow((k - t - 2) as nat));
                } else {
                    assert(two_pow((k - t - 1) as nat) == 1);
                }
            }
            j = j - m;
            m = m / 2;
            proof {
                t = t + 1;
                x = x / 2;
                y = y / 2;
            }
        }
        proof {
            if m >= 1 {
                lemma_bit_reverse_bound(x / 2, (k - t - 1) as nat);
                assert(x % 2 == 0);
                assert(y / 2 == x / 2);
            }
            lemma_bit_reverse_bound(y, (k - t) as nat);
            assert(two_pow((k - t) as nat) <= two_pow(k)) by {
                lemma_two_pow_monotone((k - t) as nat, k);
            }
        }
        j = j + m;
        i = i + 1;
    }
    proof {
        assert forall|p: int| 0 <= p < n implies reorder_source(n as int, p, k) == bit_reverse(p as nat, k) by {}
    }
}

/// One step of the reordering swaps positions `i` and `j = bit_reverse(i)`
/// when `i < j` and leaves every other position's source unchanged.
proof fn lemma_reorder_step(i: int, j: int, p: int, k: nat)
    requires
        0 <= i < two_pow(k),
        0 <= p < two_pow(k),
        j == bit_reverse(i as nat, k),
    ensures
        i < j && p == i ==> reorder_source(i + 1, p, k) == reorder_source(i, j, k),
        i < j && p == j ==> reorder_source(i + 1, p, k) == reorder_source(i, i, k),
        !(i < j && (p == i || p == j)) ==> reorder_source(i + 1, p, k) == reorder_source(i, p, k),
{
    lemma_bit_reverse_bound(i as nat, k);
    lemma_bit_reverse_involution(i as nat, k);
    lemma_bit_reverse_involution(p as nat, k);
    let r = bit_reverse(p as nat, k) as int;
    if r == i {
        assert(p == j);
    }
}

proof fn lemma_two_pow_monotone(a: nat, b: nat)
    requires
        a <= b,
    ensures
        two_pow(a) <= two_pow(b),
    decreases b,
{
    if a < b {
        lemma_two_pow_monotone(a, (b - 1) as nat);
        lemma_two_pow_pos((b - 1) as nat);
    }
}

} // verus!
