//! The permutation engine: the executable rounds, each proved equal to its
//! model in `model`.

use vstd::prelude::*;
use crate::field::{Uint256, uint256, u_val, p_modulus, vals, fe_add, fe_mul, fe_pow5};
use crate::model::{
    add_p, mul_p, pow5_p, lin_comb, arc_spec, sbox_spec, mix_spec, partial_round_spec,
    first_full_rounds, partial_rounds_fold, last_full_rounds, permute_spec,
};
use crate::table::Table;

verus! {

/// Adds the block of `t` round constants beginning at `off` element-wise.
fn arc_vec(st: Vec<Uint256>, c: &Vec<Uint256>, off: usize) -> (r: Vec<Uint256>)
    requires
        off + st@.len() <= c@.len(),
    ensures
        r@.len() == st@.len(),
        vals(r@) == arc_spec(vals(st@), vals(c@), off as int),
{
    let t = st.len();
    let cl = c.len();
    let mut r: Vec<Uint256> = Vec::new();
    let mut i: usize = 0;
    while i < t
        invariant
            i <= t,
            t == st@.len(),
            cl == c@.len(),
            off + t <= cl,
            r@.len() == i,
            forall|j: int| 0 <= j < i ==> u_val(r@[j]) == add_p(u_val(st@[j]), u_val(c@[off + j])),
        decreases t - i,
    {
        r.push(fe_add(st[i], c[off + i]));
        i += 1;
    }
    proof {
        assert(vals(r@) =~= arc_spec(vals(st@), vals(c@), off as int));
    }
    r
}

/// Applies the S-box to every state element.
fn sbox_vec(st: Vec<Uint256>) -> (r: Vec<Uint256>)
    ensures
        r@.len() == st@.len(),
        vals(r@) == sbox_spec(vals(st@)),
{
    let t = st.len();
    let mut r: Vec<Uint256> = Vec::new();
    let mut i: usize = 0;
    while i < t
        invariant
            i <= t,
            t == st@.len(),
            r@.len() == i,
            forall|j: int| 0 <= j < i ==> u_val(r@[j]) == pow5_p(u_val(st@[j])),
        decreases t - i,
    {
        r.push(fe_pow5(st[i]));
        i += 1;
    }
    proof {
        assert(vals(r@) =~= sbox_spec(vals(st@)));
    }
    r
}

/// The dense mix: every output element is the linear combination of the state
/// against one row of the flat row-major matrix.
fn mix(st: &Vec<Uint256>, m: &Vec<Uint256>) -> (r: Vec<Uint256>)
    requires
        m@.len() == st@.len() * st@.len(),
    ensures
        r@.len() == st@.len(),
        vals(r@) == mix_spec(vals(st@), vals(m@)),
        forall|j: int| 0 <= j < r@.len() ==> u_val(r@[j]) < p_modulus(),
{
    let t = st.len();
    let ml = m.len();
    let mut r: Vec<Uint256> = Vec::new();
    let mut i: usize = 0;
    while i < t
        invariant
            i <= t,
            t == st@.len(),
            ml == m@.len(),
            ml == t * t,
            r@.len() == i,
            forall|x: int| 0 <= x < i ==> u_val(r@[x]) == lin_comb(
                vals(m@), x * t, vals(st@), t as int),
            forall|x: int| 0 <= x < i ==> u_val(r@[x]) < p_modulus(),
        decreases t - i,
    {
        proof {
            assert(i * t + t <= t * t) by (nonlinear_arith)
                requires i < t;
            assert(i * t + t <= ml);
        }
        let base = i * t;
        let mut acc = uint256(0, 0, 0, 0);
        let mut j: usize = 0;
        while j < t
            invariant
                j <= t,
                i < t,
                t == st@.len(),
                ml == m@.len(),
                ml == t * t,
                base == i * t,
                base + t <= ml,
                u_val(acc) == lin_comb(vals(m@), base as int, vals(st@), j as int),
            decreases t - j,
        {
            acc = fe_add(acc, fe_mul(m[base + j], st[j]));
            j += 1;
        }
        proof {
            assert(u_val(acc) < p_modulus()) by {
                assert(t >= 1);
                assert(lin_comb(vals(m@), base as int, vals(st@), t as int) == add_p(
                    lin_comb(vals(m@), base as int, vals(st@), t - 1),
                    mul_p(vals(m@)[base + t - 1], vals(st@)[t - 1])));
                assert(add_p(
                    lin_comb(vals(m@), base as int, vals(st@), t - 1),
                    mul_p(vals(m@)[base + t - 1], vals(st@)[t - 1])) < p_modulus()) by (nonlinear_arith);
            }
        }
        r.push(acc);
        i += 1;
    }
    proof {
        assert(vals(r@) =~= mix_spec(vals(st@), vals(m@)));
    }
    r
}

/// One partial round: the S-box and one scalar constant on element 0, then
/// the sparse mix given by the `2t - 1` row beginning at `off`.
fn partial_round(st: Vec<Uint256>, k: Uint256, srows: &Vec<Uint256>, off: usize) -> (r: Vec<
    Uint256>)
    requires
        st@.len() >= 1,
        off + 2 * st@.len() - 1 <= srows@.len(),
    ensures
        r@.len() == st@.len(),
        vals(r@) == partial_round_spec(vals(st@), u_val(k), vals(srows@), off as int),
{
    let t = st.len();
    let sl = srows.len();
    let x0 = fe_add(fe_pow5(st[0]), k);
    let mut x: Vec<Uint256> = Vec::new();
    x.push(x0);
    let mut i: usize = 1;
    while i < t
        invariant
            1 <= i <= t,
            t == st@.len(),
            x@.len() == i,
            x@[0] == x0,
            forall|j: int| 1 <= j < i ==> x@[j] == st@[j],
        decreases t - i,
    {
        x.push(st[i]);
        i += 1;
    }
    proof {
        assert(vals(x@) =~= vals(st@).update(0, add_p(pow5_p(u_val(st@[0])), u_val(k))));
    }
    let mut acc = uint256(0, 0, 0, 0);
    let mut j: usize = 0;
    while j < t
        invariant
            j <= t,
            t == x@.len(),
            sl == srows@.len(),
            off + 2 * t - 1 <= sl,
            u_val(acc) == lin_comb(vals(srows@), off as int, vals(x@), j as int),
        decreases t - j,
    {
        acc = fe_add(acc, fe_mul(srows[off + j], x[j]));
        j += 1;
    }
    let mut r: Vec<Uint256> = Vec::new();
    r.push(acc);
    let mut q: usize = 1;
    while q < t
        invariant
            1 <= q <= t,
            t == x@.len(),
            t == st@.len(),
            x@[0] == x0,
            sl == srows@.len(),
            off + 2 * t - 1 <= sl,
            r@.len() == q,
            r@[0] == acc,
            forall|w: int| 1 <= w < q ==> u_val(r@[w]) == add_p(
                u_val(x@[w]), mul_p(u_val(x@[0]), u_val(srows@[off + t + w - 1]))),
        decreases t - q,
    {
        r.push(fe_add(x[q], fe_mul(x0, srows[off + t + q - 1])));
        q += 1;
    }
    proof {
        assert(vals(r@) =~= partial_round_spec(vals(st@), u_val(k), vals(srows@), off as int));
    }
    r
}

/// Runs the whole permutation on a state of the table's width and returns the
/// transformed state; every element of the result is canonical.
pub fn permute(st: Vec<Uint256>, tab: &Table) -> (r: Vec<Uint256>)
    requires
        tab.wf(),
        st@.len() == tab.t,
    ensures
        r@.len() == st@.len(),
        vals(r@) == permute_spec(vals(st@), tab@),
        forall|j: int| 0 <= j < r@.len() ==> u_val(r@[j]) < p_modulus(),
{
    let t = tab.t;
    let n_p = tab.n_p;
    let ghost s0 = vals(st@);
    let mut cur = arc_vec(st, &tab.c, 0);
    let ghost s1 = vals(cur@);
    proof {
        assert(s1 == arc_spec(s0, tab@.c, 0));
    }
    let mut r: usize = 0;
    while r < 4
        invariant
            r <= 4,
            tab.wf(),
            t == tab.t,
            cur@.len() == t,
            vals(cur@) == first_full_rounds(s1, tab@, r as int),
        decreases 4 - r,
    {
        proof {
            assert((r + 1) * t + t <= 8 * t) by (nonlinear_arith)
                requires r < 4, t >= 2;
        }
        cur = sbox_vec(cur);
        cur = arc_vec(cur, &tab.c, (r + 1) * t);
        if r == 3 {
            cur = mix(&cur, &tab.p);
        } else {
            cur = mix(&cur, &tab.m);
        }
        r += 1;
    }
    let ghost s2 = vals(cur@);
    let mut r2: usize = 0;
    while r2 < n_p
        invariant
            r2 <= n_p,
            tab.wf(),
            t == tab.t,
            n_p == tab.n_p,
            cur@.len() == t,
            s2 == first_full_rounds(s1, tab@, 4),
            vals(cur@) == partial_rounds_fold(s2, tab@, r2 as int),
        decreases n_p - r2,
    {
        proof {
            assert((2 * t - 1) * r2 + (2 * t - 1) <= (2 * t - 1) * n_p) by (nonlinear_arith)
                requires r2 < n_p, t >= 2;
        }
        let off = (2 * t - 1) * r2;
        cur = partial_round(cur, tab.c[5 * t + r2], &tab.s, off);
        r2 += 1;
    }
    let ghost s3 = vals(cur@);
    let mut r3: usize = 0;
    while r3 < 3
        invariant
            r3 <= 3,
            tab.wf(),
            t == tab.t,
            n_p == tab.n_p,
            cur@.len() == t,
            s3 == partial_rounds_fold(s2, tab@, n_p as int),
            s2 == first_full_rounds(s1, tab@, 4),
            vals(cur@) == last_full_rounds(s3, tab@, r3 as int),
        decreases 3 - r3,
    {
        proof {
            assert(5 * t + n_p + r3 * t + t <= 8 * t + n_p) by (nonlinear_arith)
                requires r3 < 3, t >= 2;
        }
        cur = sbox_vec(cur);
        cur = arc_vec(cur, &tab.c, 5 * t + n_p + r3 * t);
        cur = mix(&cur, &tab.m);
        r3 += 1;
    }
    cur = sbox_vec(cur);
    cur = mix(&cur, &tab.m);
    proof {
        assert(vals(cur@) == permute_spec(s0, tab@));
    }
    cur
}

} // verus!
