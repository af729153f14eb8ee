//! The mathematical model of the permutation: states are sequences of field
//! values (naturals below the modulus), tables are sequences of values, and
//! every round is a function on them.

use vstd::prelude::*;
use crate::field::p_modulus;

verus! {

/// The values held by a round-constant table for one state width: the flat
/// round constants `c`, the flat sparse partial-round rows `s` (one row of
/// `2t - 1` values per partial round), and the dense matrices `m` and `p` in
/// row-major order.
pub ghost struct TableModel {
    pub t: nat,
    pub n_p: nat,
    pub c: Seq<nat>,
    pub s: Seq<nat>,
    pub m: Seq<nat>,
    pub p: Seq<nat>,
}

/// The number of partial rounds in the schedule for state width `t`.
pub open spec fn partial_rounds(t: int) -> nat {
    if t == 2 { 56 } else if t == 3 { 57 } else if t == 4 { 56 } else if t == 5 { 60 }
    else if t == 6 { 60 } else if t == 7 { 63 } else if t == 8 { 64 } else if t == 9 { 63 }
    else if t == 10 { 60 } else if t == 11 { 66 } else if t == 12 { 60 } else if t == 13 { 65 }
    else if t == 14 { 70 } else if t == 15 { 60 } else if t == 16 { 64 } else { 68 }
}

/// A table has the shape the round schedule for width `t` consumes: the
/// constants cover the initial injection, seven full rounds and one scalar
/// per partial round; the sparse rows cover every partial round; the two
/// matrices are square.
pub open spec fn table_shape(tm: TableModel, t: nat) -> bool {
    &&& tm.t == t
    &&& 2 <= t <= 17
    &&& tm.n_p == partial_rounds(t as int)
    &&& tm.c.len() == 8 * t + tm.n_p
    &&& tm.s.len() == (2 * t - 1) * tm.n_p
    &&& tm.m.len() == t * t
    &&& tm.p.len() == t * t
}

/// Addition in the field.
pub open spec fn add_p(a: nat, b: nat) -> nat {
    (a + b) % p_modulus()
}

/// Multiplication in the field.
pub open spec fn mul_p(a: nat, b: nat) -> nat {
    (a * b) % p_modulus()
}

/// The S-box: the fifth power in the field.
pub open spec fn pow5_p(a: nat) -> nat {
    (a * a * a * a * a) % p_modulus()
}

/// The linear combination of the first `n` state elements against the row
/// slice beginning at `off`.
pub open spec fn lin_comb(row: Seq<nat>, off: int, s: Seq<nat>, n: int) -> nat
    decreases n,
{
    if n <= 0 {
        0
    } else {
        add_p(lin_comb(row, off, s, n - 1), mul_p(row[off + n - 1], s[n - 1]))
    }
}

/// Adds the block of round constants beginning at `off` element-wise.
pub open spec fn arc_spec(s: Seq<nat>, c: Seq<nat>, off: int) -> Seq<nat> {
    Seq::new(s.len(), |i: int| add_p(s[i], c[off + i]))
}

/// Applies the S-box to every state element.
pub open spec fn sbox_spec(s: Seq<nat>) -> Seq<nat> {
    Seq::new(s.len(), |i: int| pow5_p(s[i]))
}

/// The dense mix: every output element is the linear combination of the whole
/// state against one matrix row.
pub open spec fn mix_spec(s: Seq<nat>, m: Seq<nat>) -> Seq<nat> {
    Seq::new(s.len(), |i: int| lin_comb(m, i * s.len(), s, s.len() as int))
}

/// One full round: the S-box everywhere, the constant block at `off`, then
/// the dense mix with `m`.
pub open spec fn full_round_spec(s: Seq<nat>, c: Seq<nat>, off: int, m: Seq<nat>) -> Seq<nat> {
    mix_spec(arc_spec(sbox_spec(s), c, off), m)
}

/// One partial round: the S-box and the scalar constant `k` touch element 0
/// only; the sparse row at `off` then maps element 0 to a linear combination
/// of the whole state, while every other element gains the pre-update element
/// 0 times its sparse multiplier.
pub open spec fn partial_round_spec(s: Seq<nat>, k: nat, srows: Seq<nat>, off: int) -> Seq<nat> {
    let x = s.update(0, add_p(pow5_p(s[0]), k));
    Seq::new(
        s.len(),
        |i: int|
            if i == 0 {
                lin_comb(srows, off, x, s.len() as int)
            } else {
                add_p(x[i], mul_p(x[0], srows[off + s.len() + i - 1]))
            },
    )
}

/// The first `r` of the four leading full rounds (after the initial constant
/// injection); the fourth mixes with the transition matrix `p` instead of the
/// MDS matrix.
pub open spec fn first_full_rounds(s: Seq<nat>, tm: TableModel, r: int) -> Seq<nat>
    decreases r,
{
    if r <= 0 {
        s
    } else {
        full_round_spec(
            first_full_rounds(s, tm, r - 1),
            tm.c,
            r * tm.t,
            if r == 4 { tm.p } else { tm.m },
        )
    }
}

/// The first `r` partial rounds: round `r - 1` consumes the scalar constant
/// at `5t + r - 1` and the sparse row at `(2t - 1)(r - 1)`.
pub open spec fn partial_rounds_fold(s: Seq<nat>, tm: TableModel, r: int) -> Seq<nat>
    decreases r,
{
    if r <= 0 {
        s
    } else {
        partial_round_spec(
            partial_rounds_fold(s, tm, r - 1),
            tm.c[5 * tm.t + (r - 1)],
            tm.s,
            (2 * tm.t - 1) * (r - 1),
        )
    }
}

/// The first `r` of the three trailing full rounds that still add constants.
pub open spec fn last_full_rounds(s: Seq<nat>, tm: TableModel, r: int) -> Seq<nat>
    decreases r,
{
    if r <= 0 {
        s
    } else {
        full_round_spec(
            last_full_rounds(s, tm, r - 1),
            tm.c,
            5 * tm.t + tm.n_p + (r - 1) * tm.t,
            tm.m,
        )
    }
}

/// The whole permutation: the initial constant injection, four full rounds
/// (the last mixing with the transition matrix), the partial rounds, three
/// constant-adding full rounds, and a final S-box and mix without constants.
pub open spec fn permute_spec(s: Seq<nat>, tm: TableModel) -> Seq<nat> {
    mix_spec(
        sbox_spec(
            last_full_rounds(
                partial_rounds_fold(
                    first_full_rounds(arc_spec(s, tm.c, 0), tm, 4),
                    tm,
                    tm.n_p as int,
                ),
                tm,
                3,
            ),
        ),
        tm.m,
    )
}

/// The state a hash call permutes: one zero capacity element, then the inputs
/// in order.
pub open spec fn initial_state(inputs: Seq<nat>) -> Seq<nat> {
    seq![0nat] + inputs
}

/// The digest: the first element of the permuted initial state.
pub open spec fn hash_spec(inputs: Seq<nat>, tm: TableModel) -> nat {
    permute_spec(initial_state(inputs), tm)[0]
}

/// Determinism: the digest is a function of the input values and the table
/// values alone, so repeated hashes of equal inputs under equal tables yield
/// the identical digest.
pub proof fn lemma_hash_deterministic(
    inputs1: Seq<nat>,
    inputs2: Seq<nat>,
    tm1: TableModel,
    tm2: TableModel,
)
    requires
        inputs1 == inputs2,
        tm1 == tm2,
    ensures
        hash_spec(inputs1, tm1) == hash_spec(inputs2, tm2),
{
}

} // verus!
