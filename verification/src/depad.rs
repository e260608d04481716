//! Row depadding: from a buffer whose rows are `padded_bytes_per_row` apart
//! to one whose rows are `bytes_per_row` apart, keeping the first
//! `bytes_per_row` bytes of every row.

use vstd::arithmetic::div_mod::{lemma_fundamental_div_mod, lemma_fundamental_div_mod_converse};
use vstd::prelude::*;
use vstd::slice::slice_subrange;

verus! {

/// Where byte `i` of the packed buffer lies in the padded buffer: same row,
/// same column, rows `padded_bytes_per_row` apart.
pub open spec fn padded_offset(i: int, bytes_per_row: nat, padded_bytes_per_row: nat) -> int {
    (i / bytes_per_row as int) * padded_bytes_per_row + i % (bytes_per_row as int)
}

/// The packed buffer: `height` rows of `bytes_per_row` bytes, each the head
/// of the corresponding row of `raw`.
pub open spec fn depadded(
    raw: Seq<u8>,
    bytes_per_row: nat,
    padded_bytes_per_row: nat,
    height: nat,
) -> Seq<u8> {
    Seq::new(
        bytes_per_row * height,
        |i: int| raw[padded_offset(i, bytes_per_row, padded_bytes_per_row)],
    )
}

/// A padded buffer: `height` rows of `padded_bytes_per_row` bytes, each
/// starting with a row of `tight` and ending with the bytes that `filler`
/// holds at the same positions.
pub open spec fn padded(
    tight: Seq<u8>,
    filler: Seq<u8>,
    bytes_per_row: nat,
    padded_bytes_per_row: nat,
    height: nat,
) -> Seq<u8> {
    Seq::new(
        padded_bytes_per_row * height,
        |j: int|
            if j % (padded_bytes_per_row as int) < bytes_per_row {
                tight[(j / padded_bytes_per_row as int) * bytes_per_row + j % (
                padded_bytes_per_row as int)]
            } else {
                filler[j]
            },
    )
}

/// Row and column of a packed byte, and the bounds of its padded offset.
proof fn lemma_padded_offset(i: int, bytes_per_row: nat, padded_bytes_per_row: nat, height: nat)
    requires
        bytes_per_row <= padded_bytes_per_row,
        0 <= i < bytes_per_row * height,
    ensures
        0 <= i / (bytes_per_row as int) < height,
        0 <= i % (bytes_per_row as int) < bytes_per_row,
        i == (i / bytes_per_row as int) * bytes_per_row + i % (bytes_per_row as int),
        0 <= padded_offset(i, bytes_per_row, padded_bytes_per_row) < padded_bytes_per_row * height,
        padded_offset(i, bytes_per_row, padded_bytes_per_row) / (padded_bytes_per_row as int) == i
            / (bytes_per_row as int),
        padded_offset(i, bytes_per_row, padded_bytes_per_row) % (padded_bytes_per_row as int) == i
            % (bytes_per_row as int),
{
    let b = bytes_per_row as int;
    let p = padded_bytes_per_row as int;
    let h = height as int;
    assert(b > 0) by (nonlinear_arith)
        requires
            0 <= i < b * h,
            b >= 0,
    ;
    let r = i / b;
    let c = i % b;
    lemma_fundamental_div_mod(i, b);
    assert(r * b == b * r) by (nonlinear_arith);
    assert(0 <= r < h) by (nonlinear_arith)
        requires
            i == b * r + c,
            0 <= c < b,
            0 <= i < b * h,
    ;
    assert(0 <= r * p && r * p + p <= p * h) by (nonlinear_arith)
        requires
            0 <= r < h,
            p >= 0,
    ;
    lemma_fundamental_div_mod_converse(r * p + c, p, r, c);
}

/// Depadding a buffer that was made by padding each row of `tight` gives
/// back `tight`, whatever the filler bytes are.
pub proof fn lemma_depad_round_trip(
    tight: Seq<u8>,
    filler: Seq<u8>,
    bytes_per_row: nat,
    padded_bytes_per_row: nat,
    height: nat,
)
    requires
        bytes_per_row <= padded_bytes_per_row,
        tight.len() == bytes_per_row * height,
    ensures
        depadded(
            padded(tight, filler, bytes_per_row, padded_bytes_per_row, height),
            bytes_per_row,
            padded_bytes_per_row,
            height,
        ) == tight,
{
    let raw = padded(tight, filler, bytes_per_row, padded_bytes_per_row, height);
    let out = depadded(raw, bytes_per_row, padded_bytes_per_row, height);
    assert forall|i: int| 0 <= i < out.len() implies out[i] == tight[i] by {
        lemma_padded_offset(i, bytes_per_row, padded_bytes_per_row, height);
    }
    assert(out =~= tight);
}

/// Where the rows carry no padding, depadding changes nothing.
pub proof fn lemma_depad_tight_is_identity(raw: Seq<u8>, bytes_per_row: nat, height: nat)
    requires
        raw.len() == bytes_per_row * height,
    ensures
        depadded(raw, bytes_per_row, bytes_per_row, height) == raw,
{
    let out = depadded(raw, bytes_per_row, bytes_per_row, height);
    assert forall|i: int| 0 <= i < out.len() implies out[i] == raw[i] by {
        lemma_padded_offset(i, bytes_per_row, bytes_per_row, height);
    }
    assert(out =~= raw);
}

/// Row `row` of the packed buffer is the head of row `row` of the padded
/// buffer: the padding that follows it, and nothing else, is left out.
pub proof fn lemma_depadded_row(
    raw: Seq<u8>,
    bytes_per_row: nat,
    padded_bytes_per_row: nat,
    height: nat,
    row: nat,
)
    requires
        bytes_per_row <= padded_bytes_per_row,
        raw.len() == padded_bytes_per_row * height,
        row < height,
    ensures
        (row + 1) * bytes_per_row <= bytes_per_row * height,
        row * padded_bytes_per_row + bytes_per_row <= raw.len(),
        depadded(raw, bytes_per_row, padded_bytes_per_row, height).subrange(
            (row * bytes_per_row) as int,
            ((row + 1) * bytes_per_row) as int,
        ) == raw.subrange(
            (row * padded_bytes_per_row) as int,
            (row * padded_bytes_per_row + bytes_per_row) as int,
        ),
{
    let b = bytes_per_row as int;
    let p = padded_bytes_per_row as int;
    let h = height as int;
    let r = row as int;
    assert((r + 1) * b == r * b + b && (r + 1) * b <= b * h && 0 <= r * b) by (nonlinear_arith)
        requires
            0 <= r < h,
            b >= 0,
    ;
    assert(0 <= r * p && r * p + p <= p * h) by (nonlinear_arith)
        requires
            0 <= r < h,
            p >= 0,
    ;
    let out = depadded(raw, bytes_per_row, padded_bytes_per_row, height);
    let packed_row = out.subrange(r * b, (r + 1) * b);
    let padded_row = raw.subrange(r * p, r * p + b);
    assert forall|c: int| 0 <= c < b implies packed_row[c] == padded_row[c] by {
        lemma_fundamental_div_mod_converse(r * b + c, b, r, c);
    }
    assert(packed_row =~= padded_row);
}

/// Strips the row padding from `raw`. A buffer without padding is handed
/// back as it came.
pub fn depad(raw: Vec<u8>, bytes_per_row: usize, padded_bytes_per_row: usize, height: usize) -> (out:
    Vec<u8>)
    requires
        bytes_per_row <= padded_bytes_per_row,
        raw@.len() == padded_bytes_per_row * height,
    ensures
        out@ == depadded(raw@, bytes_per_row as nat, padded_bytes_per_row as nat, height as nat),
        out@.len() == bytes_per_row * height,
        bytes_per_row == padded_bytes_per_row ==> out@ == raw@,
{
    if bytes_per_row == padded_bytes_per_row {
        proof {
            lemma_depad_tight_is_identity(raw@, bytes_per_row as nat, height as nat);
        }
        return raw;
    }
    let total: usize = raw.len();
    assert(height * bytes_per_row <= total) by (nonlinear_arith)
        requires
            bytes_per_row <= padded_bytes_per_row,
            total == padded_bytes_per_row * height,
            height >= 0,
    ;
    let mut unpadded: Vec<u8> = Vec::with_capacity(height * bytes_per_row);
    let mut row: usize = 0;
    while row < height
        invariant
            row <= height,
            bytes_per_row < padded_bytes_per_row,
            raw@.len() == padded_bytes_per_row * height,
            raw@.len() == total,
            unpadded@.len() == bytes_per_row * row,
            forall|i: int|
                0 <= i < unpadded@.len() ==> unpadded@[i] == raw@[padded_offset(
                    i,
                    bytes_per_row as nat,
                    padded_bytes_per_row as nat,
                )],
        decreases height - row,
    {
        assert(0 <= row * padded_bytes_per_row && row * padded_bytes_per_row + padded_bytes_per_row
            <= total) by (nonlinear_arith)
            requires
                0 <= row < height,
                padded_bytes_per_row >= 0,
                total == padded_bytes_per_row * height,
        ;
        let start: usize = row * padded_bytes_per_row;
        let padded_row = slice_subrange(raw.as_slice(), start, start + bytes_per_row);
        let ghost before = unpadded@;
        unpadded.extend_from_slice(padded_row);
        proof {
            assert(bytes_per_row * (row + 1) == bytes_per_row * row + bytes_per_row)
                by (nonlinear_arith);
            assert forall|i: int| 0 <= i < unpadded@.len() implies unpadded@[i] == raw@[padded_offset(
                i,
                bytes_per_row as nat,
                padded_bytes_per_row as nat,
            )] by {
                if i >= before.len() {
                    let c = i - before.len();
                    assert(row * bytes_per_row == bytes_per_row * row) by (nonlinear_arith);
                    lemma_fundamental_div_mod_converse(i, bytes_per_row as int, row as int, c);
                    assert(unpadded@[i] == padded_row@[c]);
                } else {
                    assert(unpadded@[i] == before[i]);
                }
            }
        }
        row += 1;
    }
    assert(unpadded@ =~= depadded(
        raw@,
        bytes_per_row as nat,
        padded_bytes_per_row as nat,
        height as nat,
    ));
    unpadded
}

} // verus!
