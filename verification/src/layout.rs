//! Row pitch of a staging buffer: rounding a tightly packed row up to the
//! alignment that buffer-texture copies demand.

use vstd::prelude::*;

verus! {

/// Alignment, in bytes, that the row pitch of a buffer-texture copy must have.
pub const COPY_BYTES_PER_ROW_ALIGNMENT: u32 = 256;

/// `n` rounded up to a multiple of `align`.
pub open spec fn align_up(n: nat, align: nat) -> nat
    recommends
        align > 0,
{
    if n % align == 0 {
        n
    } else {
        (n - n % align + align) as nat
    }
}

/// `k` is a whole number of alignment units.
pub open spec fn is_multiple(k: nat, align: nat) -> bool {
    k % align == 0
}

/// `m` is the smallest multiple of `align` that is at least `n`.
pub open spec fn is_smallest_multiple_at_least(m: nat, align: nat, n: nat) -> bool {
    &&& is_multiple(m, align)
    &&& m >= n
    &&& forall|k: nat| #[trigger] is_multiple(k, align) && k >= n ==> k >= m
}

/// Rounding up yields the smallest multiple of the alignment that is not
/// below the input, and adds less than one alignment unit.
pub proof fn lemma_align_up_is_smallest_multiple(n: nat, align: nat)
    requires
        align > 0,
    ensures
        is_smallest_multiple_at_least(align_up(n, align), align, n),
        align_up(n, align) - n < align,
{
    let m = align_up(n, align);
    let a = align as int;
    assert(m % align == 0) by {
        if n % align != 0 {
            vstd::arithmetic::div_mod::lemma_fundamental_div_mod(n as int, a);
            let q = n as int / a;
            assert(m == a * q + a);
            assert(a * (q + 1) == a * q + a) by (nonlinear_arith);
            vstd::arithmetic::div_mod::lemma_mod_multiples_basic(q + 1, a);
            assert((q + 1) * a == a * (q + 1)) by (nonlinear_arith);
        }
    }
    assert forall|k: nat| #[trigger] is_multiple(k, align) && k >= n implies k >= m by {
        if n % align != 0 && k < m {
            // k and m are both multiples of align with n <= k < m < n + align.
            vstd::arithmetic::div_mod::lemma_fundamental_div_mod(k as int, a);
            vstd::arithmetic::div_mod::lemma_fundamental_div_mod(n as int, a);
            let qk = k as int / a;
            let qn = n as int / a;
            assert(k == a * qk);
            assert(m == a * qn + a);
            assert(a * qk > a * qn) by {
                assert(k > n - n % align);
            }
            assert(qk > qn) by (nonlinear_arith)
                requires
                    a * qk > a * qn,
                    a > 0,
            ;
            assert(a * qk >= a * qn + a) by (nonlinear_arith)
                requires
                    qk >= qn + 1,
                    a > 0,
            ;
        }
    }
}

/// Rounds a row size up to [`COPY_BYTES_PER_ROW_ALIGNMENT`]. `None` when the
/// padded size does not fit in 32 bits.
pub fn align_copy_bytes_per_row(row_bytes: u32) -> (padded: Option<u32>)
    ensures
        match padded {
            Some(p) => p == align_up(row_bytes as nat, COPY_BYTES_PER_ROW_ALIGNMENT as nat),
            None => align_up(row_bytes as nat, COPY_BYTES_PER_ROW_ALIGNMENT as nat) > u32::MAX,
        },
        padded matches Some(p) ==> is_smallest_multiple_at_least(
            p as nat,
            COPY_BYTES_PER_ROW_ALIGNMENT as nat,
            row_bytes as nat,
        ),
{
    proof {
        lemma_align_up_is_smallest_multiple(row_bytes as nat, COPY_BYTES_PER_ROW_ALIGNMENT as nat);
    }
    let align: u32 = COPY_BYTES_PER_ROW_ALIGNMENT;
    let padding: u32 = (align - row_bytes % align) % align;
    row_bytes.checked_add(padding)
}

} // verus!
