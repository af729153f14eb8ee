//! The per-width round-constant table: its shape invariant and the explicit
//! lookup by state width.

use vstd::prelude::*;
use crate::field::{Uint256, vals};
use crate::model::{TableModel, partial_rounds, table_shape};
use crate::tables::{w2, w3, w4, w5, w6, w7, w8, w9, w10, w11, w12, w13, w14, w15, w16, w17};

verus! {

/// One width's round-constant table: the flat round constants `c`, the flat
/// sparse partial-round rows `s`, and the dense MDS matrix `m` and transition
/// matrix `p`, both flat in row-major order.
pub struct Table {
    pub t: usize,
    pub n_p: usize,
    pub c: Vec<Uint256>,
    pub s: Vec<Uint256>,
    pub m: Vec<Uint256>,
    pub p: Vec<Uint256>,
}

impl View for Table {
    type V = TableModel;

    open spec fn view(&self) -> TableModel {
        TableModel {
            t: self.t as nat,
            n_p: self.n_p as nat,
            c: vals(self.c@),
            s: vals(self.s@),
            m: vals(self.m@),
            p: vals(self.p@),
        }
    }
}

impl Table {
    /// The table has the shape the round schedule for its width consumes.
    pub open spec fn wf(&self) -> bool {
        table_shape(self@, self.t as nat)
    }
}

/// The values of the round-constant table for width `t`: the constant data of
/// the matching width module.
pub open spec fn table_model(t: nat) -> TableModel {
    if t == 2 { TableModel { t: 2, n_p: 56, c: w2::c_vals(), s: w2::s_vals(), m: w2::m_vals(), p: w2::p_vals() } }
    else if t == 3 { TableModel { t: 3, n_p: 57, c: w3::c_vals(), s: w3::s_vals(), m: w3::m_vals(), p: w3::p_vals() } }
    else if t == 4 { TableModel { t: 4, n_p: 56, c: w4::c_vals(), s: w4::s_vals(), m: w4::m_vals(), p: w4::p_vals() } }
    else if t == 5 { TableModel { t: 5, n_p: 60, c: w5::c_vals(), s: w5::s_vals(), m: w5::m_vals(), p: w5::p_vals() } }
    else if t == 6 { TableModel { t: 6, n_p: 60, c: w6::c_vals(), s: w6::s_vals(), m: w6::m_vals(), p: w6::p_vals() } }
    else if t == 7 { TableModel { t: 7, n_p: 63, c: w7::c_vals(), s: w7::s_vals(), m: w7::m_vals(), p: w7::p_vals() } }
    else if t == 8 { TableModel { t: 8, n_p: 64, c: w8::c_vals(), s: w8::s_vals(), m: w8::m_vals(), p: w8::p_vals() } }
    else if t == 9 { TableModel { t: 9, n_p: 63, c: w9::c_vals(), s: w9::s_vals(), m: w9::m_vals(), p: w9::p_vals() } }
    else if t == 10 { TableModel { t: 10, n_p: 60, c: w10::c_vals(), s: w10::s_vals(), m: w10::m_vals(), p: w10::p_vals() } }
    else if t == 11 { TableModel { t: 11, n_p: 66, c: w11::c_vals(), s: w11::s_vals(), m: w11::m_vals(), p: w11::p_vals() } }
    else if t == 12 { TableModel { t: 12, n_p: 60, c: w12::c_vals(), s: w12::s_vals(), m: w12::m_vals(), p: w12::p_vals() } }
    else if t == 13 { TableModel { t: 13, n_p: 65, c: w13::c_vals(), s: w13::s_vals(), m: w13::m_vals(), p: w13::p_vals() } }
    else if t == 14 { TableModel { t: 14, n_p: 70, c: w14::c_vals(), s: w14::s_vals(), m: w14::m_vals(), p: w14::p_vals() } }
    else if t == 15 { TableModel { t: 15, n_p: 60, c: w15::c_vals(), s: w15::s_vals(), m: w15::m_vals(), p: w15::p_vals() } }
    else if t == 16 { TableModel { t: 16, n_p: 64, c: w16::c_vals(), s: w16::s_vals(), m: w16::m_vals(), p: w16::p_vals() } }
    else { TableModel { t: 17, n_p: 68, c: w17::c_vals(), s: w17::s_vals(), m: w17::m_vals(), p: w17::p_vals() } }
}

/// The number of partial rounds scheduled for state width `t`.
pub fn partial_rounds_for(t: usize) -> (r: usize)
    requires
        2 <= t <= 17,
    ensures
        r == partial_rounds(t as int),
{
    if t == 2 { 56 } else if t == 3 { 57 } else if t == 4 { 56 } else if t == 5 { 60 }
    else if t == 6 { 60 } else if t == 7 { 63 } else if t == 8 { 64 } else if t == 9 { 63 }
    else if t == 10 { 60 } else if t == 11 { 66 } else if t == 12 { 60 } else if t == 13 { 65 }
    else if t == 14 { 70 } else if t == 15 { 60 } else if t == 16 { 64 } else { 68 }
}

/// Assembles a table from parts whose sizes the caller has established to
/// match the round schedule for width `t`.
fn build(t: usize, n_p: usize, c: Vec<Uint256>, s: Vec<Uint256>, m: Vec<Uint256>, p: Vec<
    Uint256>) -> (r: Table)
    requires
        2 <= t <= 17,
        n_p == partial_rounds(t as int),
        c@.len() == 8 * t + n_p,
        s@.len() == (2 * t - 1) * n_p,
        m@.len() == t * t,
        p@.len() == t * t,
        vals(c@) == table_model(t as nat).c,
        vals(s@) == table_model(t as nat).s,
        vals(m@) == table_model(t as nat).m,
        vals(p@) == table_model(t as nat).p,
    ensures
        r.wf(),
        r.t == t,
        r@ == table_model(t as nat),
{
    Table { t, n_p, c, s, m, p }
}

/// Looks up the round-constant table for a state width. Exactly the widths
/// `2..=17` have one; every other width is unsupported.
pub fn table_for_width(t: usize) -> (r: Option<Table>)
    ensures
        r is Some <==> 2 <= t <= 17,
        r matches Some(tab) ==> tab.wf() && tab.t == t && tab@ == table_model(t as nat),
{
    if t < 2 || t > 17 {
        return None;
    }
    let n_p = partial_rounds_for(t);
    let tab = if t == 2 {
        build(t, n_p, w2::c_table(), w2::s_table(), w2::m_table(), w2::p_table())
    } else if t == 3 {
        build(t, n_p, w3::c_table(), w3::s_table(), w3::m_table(), w3::p_table())
    } else if t == 4 {
        build(t, n_p, w4::c_table(), w4::s_table(), w4::m_table(), w4::p_table())
    } else if t == 5 {
        build(t, n_p, w5::c_table(), w5::s_table(), w5::m_table(), w5::p_table())
    } else if t == 6 {
        build(t, n_p, w6::c_table(), w6::s_table(), w6::m_table(), w6::p_table())
    } else if t == 7 {
        build(t, n_p, w7::c_table(), w7::s_table(), w7::m_table(), w7::p_table())
    } else if t == 8 {
        build(t, n_p, w8::c_table(), w8::s_table(), w8::m_table(), w8::p_table())
    } else if t == 9 {
        build(t, n_p, w9::c_table(), w9::s_table(), w9::m_table(), w9::p_table())
    } else if t == 10 {
        build(t, n_p, w10::c_table(), w10::s_table(), w10::m_table(), w10::p_table())
    } else if t == 11 {
        build(t, n_p, w11::c_table(), w11::s_table(), w11::m_table(), w11::p_table())
    } else if t == 12 {
        build(t, n_p, w12::c_table(), w12::s_table(), w12::m_table(), w12::p_table())
    } else if t == 13 {
        build(t, n_p, w13::c_table(), w13::s_table(), w13::m_table(), w13::p_table())
    } else if t == 14 {
        build(t, n_p, w14::c_table(), w14::s_table(), w14::m_table(), w14::p_table())
    } else if t == 15 {
        build(t, n_p, w15::c_table(), w15::s_table(), w15::m_table(), w15::p_table())
    } else if t == 16 {
        build(t, n_p, w16::c_table(), w16::s_table(), w16::m_table(), w16::p_table())
    } else {
        proof {
            assert(t == 17);
        }
        build(t, n_p, w17::c_table(), w17::s_table(), w17::m_table(), w17::p_table())
    };
    Some(tab)
}

} // verus!
