//! The mathematical model of a transaction: what the contracts of the
//! digest, assembly and serialization operations speak about.

use vstd::prelude::*;
use crate::types::{TxInput, TxOutput};

verus! {

/// Model of one transaction input: the outpoint it spends, its sequence
/// number, and the signing material spliced in during assembly.
pub struct TxInData {
    pub txid: Seq<u8>,
    pub vout: u32,
    pub sequence: u32,
    pub script_sig: Seq<u8>,
    pub witness: Seq<Seq<u8>>,
}

/// Model of one transaction output: value and locking script.
pub struct TxOutData {
    pub value: u64,
    pub script_pubkey: Seq<u8>,
}

/// Model of a whole transaction.
pub struct TxData {
    pub version: i32,
    pub lock_time: u32,
    pub inputs: Seq<TxInData>,
    pub outputs: Seq<TxOutData>,
}

/// The skeleton entry an accumulated input contributes to the unsigned
/// transaction: outpoint and sequence carried over, script and witness empty.
pub open spec fn input_skeleton_data(i: TxInput) -> TxInData {
    TxInData {
        txid: i.ctx_spec().previous_output.txid@,
        vout: i.ctx_spec().previous_output.index,
        sequence: i.ctx_spec().sequence,
        script_sig: Seq::empty(),
        witness: Seq::empty(),
    }
}

pub open spec fn output_data(o: TxOutput) -> TxOutData {
    TxOutData { value: o.satoshis, script_pubkey: o.script_pubkey@ }
}

/// The (value, script) pair an input contributes to the taproot prevout set.
pub open spec fn prevout_data(i: TxInput) -> TxOutData {
    TxOutData {
        value: i.ctx_spec().value->Some_0,
        script_pubkey: i.ctx_spec().script_pubkey@,
    }
}

/// Whether every accumulated input exposes its value, as the balance check
/// and the witness and taproot sighash algorithms require.
pub open spec fn all_values_present(inputs: Seq<TxInput>) -> bool {
    forall|i: int| 0 <= i < inputs.len() ==> (#[trigger] inputs[i]).ctx_spec().value is Some
}

/// Sum of the input values, counting a missing value as zero; only used
/// under [`all_values_present`].
pub open spec fn sum_input_values(inputs: Seq<TxInput>) -> int
    decreases inputs.len(),
{
    if inputs.len() == 0 {
        0
    } else {
        sum_input_values(inputs.drop_last()) + match inputs.last().ctx_spec().value {
            Some(v) => v as int,
            None => 0,
        }
    }
}

/// Sum of the output values.
pub open spec fn sum_output_values(outputs: Seq<TxOutput>) -> int
    decreases outputs.len(),
{
    if outputs.len() == 0 {
        0
    } else {
        sum_output_values(outputs.drop_last()) + outputs.last().satoshis as int
    }
}

/// Each value is at most `u64::MAX`, so the sum is bounded by the count
/// times `u64::MAX`.
pub proof fn lemma_sum_input_values_bound(inputs: Seq<TxInput>)
    ensures
        0 <= sum_input_values(inputs) <= inputs.len() * u64::MAX,
    decreases inputs.len(),
{
    if inputs.len() == 0 {
    } else {
        lemma_sum_input_values_bound(inputs.drop_last());
        assert((inputs.len() - 1) * u64::MAX + u64::MAX == inputs.len() * u64::MAX)
            by (nonlinear_arith);
    }
}

pub proof fn lemma_sum_output_values_bound(outputs: Seq<TxOutput>)
    ensures
        0 <= sum_output_values(outputs) <= outputs.len() * u64::MAX,
    decreases outputs.len(),
{
    if outputs.len() == 0 {
    } else {
        lemma_sum_output_values_bound(outputs.drop_last());
        assert((outputs.len() - 1) * u64::MAX + u64::MAX == outputs.len() * u64::MAX)
            by (nonlinear_arith);
    }
}

} // verus!
