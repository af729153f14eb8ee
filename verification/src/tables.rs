//! Per-width round-constant table data: the constant arrays, their
//! value sequences, and the vector builders proved equal to them.

pub mod w2;
pub mod w3;
pub mod w4;
pub mod w5;
pub mod w6;
pub mod w7;
pub mod w8;
pub mod w9;
pub mod w10;
pub mod w11;
pub mod w12;
pub mod w13;
pub mod w14;
pub mod w15;
pub mod w16;
pub mod w17;
