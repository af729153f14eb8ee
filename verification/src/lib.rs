//! A Poseidon hash over the BN254 scalar field, in the optimized form: eight
//! full rounds mix the whole state with the dense MDS matrix, while the
//! width-dependent partial rounds apply the S-box to one element and mix with
//! a sparse factoring of the same matrix. The digest of one to sixteen inputs
//! is the first state element after the permutation. The per-width
//! round-constant tables are static data; their values are pinned by
//! known-answer tests.

pub mod engine;
pub mod field;
pub mod model;
pub mod table;
pub mod tables;

use vstd::prelude::*;
use crate::engine::permute;
use crate::field::{Uint256, uint256, u_val, p_modulus, vals, is_canonical, lemma_u_val_injective};
use crate::model::{TableModel, initial_state, hash_spec};
use crate::table::{Table, table_for_width, table_model};

verus! {

/// Why a hash call was rejected: no inputs at all, more inputs than the
/// constant tables cover, or an input that is not a canonical encoding of a
/// field element. An inconsistent constant table is a latent error class this
/// library trusts its static data not to exhibit; it is not detected at run
/// time.
#[derive(Clone, Copy, Debug, PartialEq, Eq, Structural)]
pub enum PoseidonError {
    EmptyInput,
    UnsupportedArity,
    InvalidFieldEncoding,
}

/// Every element of the sequence is a canonical field-element encoding.
pub open spec fn all_canonical(s: Seq<Uint256>) -> bool {
    forall|i: int| 0 <= i < s.len() ==> u_val(s[i]) < p_modulus()
}

/// Hashes the inputs with the given round-constant table, whose width must
/// match: the state is a zero capacity element followed by the inputs, the
/// permutation runs to completion, and the digest is the first state element.
/// Exactly the calls whose every input is below the field modulus succeed.
pub fn hash_with_table(inputs: &[Uint256], tab: &Table) -> (r: Result<Uint256, PoseidonError>)
    requires
        tab.wf(),
        tab.t == inputs@.len() + 1,
    ensures
        r is Ok <==> all_canonical(inputs@),
        r is Err ==> r == Err::<Uint256, PoseidonError>(PoseidonError::InvalidFieldEncoding),
        r matches Ok(d) ==> u_val(d) == hash_spec(vals(inputs@), tab@) && u_val(d) < p_modulus(),
{
    let n = inputs.len();
    let mut i: usize = 0;
    while i < n
        invariant
            i <= n,
            n == inputs@.len(),
            forall|j: int| 0 <= j < i ==> u_val(inputs@[j]) < p_modulus(),
        decreases n - i,
    {
        if !is_canonical(inputs[i]) {
            return Err(PoseidonError::InvalidFieldEncoding);
        }
        i += 1;
    }
    let mut st: Vec<Uint256> = Vec::new();
    st.push(uint256(0, 0, 0, 0));
    let mut j: usize = 0;
    while j < n
        invariant
            j <= n,
            n == inputs@.len(),
            st@.len() == j + 1,
            u_val(st@[0]) == 0,
            forall|w: int| 0 <= w < j ==> st@[w + 1] == inputs@[w],
        decreases n - j,
    {
        st.push(inputs[j]);
        j += 1;
    }
    proof {
        assert(vals(st@) =~= initial_state(vals(inputs@)));
    }
    let out = permute(st, tab);
    let d = out[0];
    Ok(d)
}

/// Computes the Poseidon digest of the inputs. An empty input sequence, more
/// than sixteen inputs, and any input at or above the field modulus are
/// rejected, in that order of checks; every other call returns the digest,
/// a canonical encoding determined by the input values alone.
pub fn hash(inputs: &[Uint256]) -> (r: Result<Uint256, PoseidonError>)
    ensures
        r is Ok <==> (1 <= inputs@.len() <= 16 && all_canonical(inputs@)),
        (r == Err::<Uint256, PoseidonError>(PoseidonError::EmptyInput)) <==> inputs@.len() == 0,
        (r == Err::<Uint256, PoseidonError>(PoseidonError::UnsupportedArity)) <==> inputs@.len()
            > 16,
        (r == Err::<Uint256, PoseidonError>(PoseidonError::InvalidFieldEncoding)) <==> (1
            <= inputs@.len() <= 16 && !all_canonical(inputs@)),
        r matches Ok(d) ==> u_val(d) < p_modulus() && u_val(d) == hash_spec(
            vals(inputs@), table_model((inputs@.len() + 1) as nat)),
{
    if inputs.len() == 0 {
        return Err(PoseidonError::EmptyInput);
    }
    if inputs.len() > 16 {
        return Err(PoseidonError::UnsupportedArity);
    }
    match table_for_width(inputs.len() + 1) {
        Some(tab) => hash_with_table(inputs, &tab),
        None => {
            // The lookup covers every width in 2..=17, so this branch cannot
            // be reached.
            proof {
                assert(false);
            }
            Err(PoseidonError::UnsupportedArity)
        },
    }
}

/// Determinism: a digest is determined by the input values and the table
/// values alone, down to the encoding. The hash contract ties every
/// successful digest to the table of the input's width, so repeated hashes
/// of equal inputs yield the identical digest.
pub proof fn lemma_digest_deterministic(
    d1: Uint256,
    d2: Uint256,
    inputs: Seq<nat>,
    tm: TableModel,
)
    requires
        u_val(d1) == hash_spec(inputs, tm),
        u_val(d2) == hash_spec(inputs, tm),
    ensures
        d1 == d2,
{
    lemma_u_val_injective(d1, d2);
}

} // verus!
