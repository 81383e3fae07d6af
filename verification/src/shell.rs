//! The bridge to the consensus transaction machinery of the `bitcoin` crate:
//! an opaque transaction shell together with the digest and encoding
//! operations the signing flow needs. Every function here is trusted; its
//! contract states what the named `bitcoin` function computes, over the
//! [`TxData`] model of the shell's contents.

use vstd::prelude::*;
use crate::model::{TxData, TxInData, TxOutData};

verus! {

/// The transaction held inside a [`TxShell`], as a [`TxData`] model.
pub uninterp spec fn shell_data(s: TxShell) -> TxData;

/// The legacy (pre-segwit) signature hash of the transaction, for the given
/// input index and claimed script code, with the "sign all outputs" type.
pub uninterp spec fn legacy_sighash_of(tx: TxData, index: int, script_code: Seq<u8>) -> Seq<u8>;

/// The BIP143 segwit v0 signature hash for the given input index, script
/// code and spent value, with the "sign all outputs" type.
pub uninterp spec fn segwit_sighash_of(
    tx: TxData,
    index: int,
    script_code: Seq<u8>,
    value: u64,
) -> Seq<u8>;

/// The BIP341 key-path signature hash for the given input index over the
/// full prevout set, with the default sighash type.
pub uninterp spec fn taproot_key_sighash_of(
    tx: TxData,
    index: int,
    prevouts: Seq<TxOutData>,
) -> Seq<u8>;

/// The BIP341 script-path signature hash: as the key-path hash, but
/// additionally committing to the given leaf hash.
pub uninterp spec fn taproot_script_sighash_of(
    tx: TxData,
    index: int,
    prevouts: Seq<TxOutData>,
    leaf_hash: Seq<u8>,
) -> Seq<u8>;

/// The tagged hash of a revealed taproot leaf script under the standard
/// tapscript leaf version.
pub uninterp spec fn tap_leaf_hash_of(script: Seq<u8>) -> Seq<u8>;

/// The canonical consensus byte encoding of the transaction.
pub uninterp spec fn consensus_encoding_of(tx: TxData) -> Seq<u8>;

/// The prevout set model of a vector of (value, script) pairs.
pub open spec fn prevouts_data(p: Seq<(u64, Vec<u8>)>) -> Seq<TxOutData> {
    p.map_values(|q: (u64, Vec<u8>)| TxOutData { value: q.0, script_pubkey: q.1@ })
}

/// An opaque consensus transaction, grown input by input and output by
/// output. Its contents are visible to contracts only through
/// [`shell_data`].
#[verifier::external_body]
pub struct TxShell {
    inner: bitcoin::Transaction,
}

impl TxShell {
    /// Relies on `bitcoin::Transaction` construction and
    /// `bitcoin::absolute::LockTime::from_consensus`: an empty transaction
    /// with the given version and lock time.
    #[verifier::external_body]
    pub fn new(version: i32, lock_time: u32) -> (r: TxShell)
        ensures
            shell_data(r) == (TxData {
                version,
                lock_time,
                inputs: Seq::empty(),
                outputs: Seq::empty(),
            }),
    {
        TxShell {
            inner: bitcoin::Transaction {
                version,
                lock_time: bitcoin::absolute::LockTime::from_consensus(lock_time),
                input: Vec::new(),
                output: Vec::new(),
            },
        }
    }

    /// Relies on `bitcoin::TxIn` construction: appends an input with the
    /// given outpoint and sequence, and empty script signature and witness.
    #[verifier::external_body]
    pub fn push_input(&mut self, txid: &Vec<u8>, vout: u32, sequence: u32)
        requires
            txid@.len() == 32,
        ensures
            shell_data(*final(self)) == (TxData {
                inputs: shell_data(*old(self)).inputs.push(TxInData {
                    txid: txid@,
                    vout,
                    sequence,
                    script_sig: Seq::empty(),
                    witness: Seq::empty(),
                }),
                ..shell_data(*old(self))
            }),
    {
        let id: [u8; 32] = txid.clone().try_into().expect("txid is 32 bytes");
        self.inner.input.push(bitcoin::TxIn {
            previous_output: bitcoin::OutPoint::new(<bitcoin::Txid as bitcoin::hashes::Hash>::from_byte_array(id), vout),
            script_sig: bitcoin::ScriptBuf::new(),
            sequence: bitcoin::Sequence(sequence),
            witness: bitcoin::Witness::new(),
        });
    }

    /// Relies on `bitcoin::TxIn` construction, `bitcoin::ScriptBuf::from_bytes`
    /// and `bitcoin::Witness::from_slice`: appends an input carrying the
    /// given script signature and witness stack.
    #[verifier::external_body]
    pub fn push_signed_input(
        &mut self,
        txid: &Vec<u8>,
        vout: u32,
        sequence: u32,
        script_sig: &Vec<u8>,
        witness: &Vec<Vec<u8>>,
    )
        requires
            txid@.len() == 32,
        ensures
            shell_data(*final(self)) == (TxData {
                inputs: shell_data(*old(self)).inputs.push(TxInData {
                    txid: txid@,
                    vout,
                    sequence,
                    script_sig: script_sig@,
                    witness: witness@.map_values(|w: Vec<u8>| w@),
                }),
                ..shell_data(*old(self))
            }),
    {
        let id: [u8; 32] = txid.clone().try_into().expect("txid is 32 bytes");
        self.inner.input.push(bitcoin::TxIn {
            previous_output: bitcoin::OutPoint::new(<bitcoin::Txid as bitcoin::hashes::Hash>::from_byte_array(id), vout),
            script_sig: bitcoin::ScriptBuf::from_bytes(script_sig.clone()),
            sequence: bitcoin::Sequence(sequence),
            witness: bitcoin::Witness::from_slice(witness),
        });
    }

    /// Relies on `bitcoin::TxOut` construction: appends an output with the
    /// given value and script pubkey.
    #[verifier::external_body]
    pub fn push_output(&mut self, value: u64, script_pubkey: &Vec<u8>)
        ensures
            shell_data(*final(self)) == (TxData {
                outputs: shell_data(*old(self)).outputs.push(TxOutData {
                    value,
                    script_pubkey: script_pubkey@,
                }),
                ..shell_data(*old(self))
            }),
    {
        self.inner.output.push(bitcoin::TxOut {
            value,
            script_pubkey: bitcoin::ScriptBuf::from_bytes(script_pubkey.clone()),
        });
    }

    /// Relies on `bitcoin::sighash::SighashCache::legacy_signature_hash` with
    /// the "sign all outputs" type: the 32-byte legacy digest, which fails
    /// only for an input index out of bounds.
    #[verifier::external_body]
    pub fn legacy_sighash(&self, index: usize, script_code: &Vec<u8>) -> (r: Option<Vec<u8>>)
        ensures
            r matches Some(d) ==> d@ == legacy_sighash_of(
                shell_data(*self),
                index as int,
                script_code@,
            ) && d@.len() == 32,
            index < shell_data(*self).inputs.len() ==> r is Some,
    {
        let cache = bitcoin::sighash::SighashCache::new(&self.inner);
        let ty = bitcoin::sighash::EcdsaSighashType::All.to_u32();
        cache
            .legacy_signature_hash(index, bitcoin::Script::from_bytes(script_code), ty)
            .ok()
            .map(|h| bitcoin::hashes::Hash::to_byte_array(h).to_vec())
    }

    /// Relies on `bitcoin::sighash::SighashCache::segwit_signature_hash` with
    /// the "sign all outputs" type: the 32-byte BIP143 digest, which fails
    /// only for an input index out of bounds.
    #[verifier::external_body]
    pub fn segwit_sighash(&self, index: usize, script_code: &Vec<u8>, value: u64) -> (r: Option<
        Vec<u8>,
    >)
        ensures
            r matches Some(d) ==> d@ == segwit_sighash_of(
                shell_data(*self),
                index as int,
                script_code@,
                value,
            ) && d@.len() == 32,
            index < shell_data(*self).inputs.len() ==> r is Some,
    {
        let mut cache = bitcoin::sighash::SighashCache::new(&self.inner);
        let ty = bitcoin::sighash::EcdsaSighashType::All;
        cache
            .segwit_signature_hash(index, bitcoin::Script::from_bytes(script_code), value, ty)
            .ok()
            .map(|h| bitcoin::hashes::Hash::to_byte_array(h).to_vec())
    }

    /// Relies on `bitcoin::sighash::SighashCache::taproot_key_spend_signature_hash`
    /// with the default sighash type over the full prevout set: the 32-byte
    /// BIP341 key-path digest, which fails only for an index out of bounds or
    /// a prevout set whose length differs from the input count.
    #[verifier::external_body]
    pub fn taproot_key_sighash(&self, index: usize, prevouts: &Vec<(u64, Vec<u8>)>) -> (r: Option<
        Vec<u8>,
    >)
        ensures
            r matches Some(d) ==> d@ == taproot_key_sighash_of(
                shell_data(*self),
                index as int,
                prevouts_data(prevouts@),
            ) && d@.len() == 32,
            index < shell_data(*self).inputs.len() && prevouts@.len() == shell_data(
                *self,
            ).inputs.len() ==> r is Some,
    {
        let pv: Vec<bitcoin::TxOut> = prevouts.iter().map(
            |p: &(u64, Vec<u8>)| bitcoin::TxOut {
                value: p.0,
                script_pubkey: bitcoin::ScriptBuf::from_bytes(p.1.clone()),
            },
        ).collect();
        let mut cache = bitcoin::sighash::SighashCache::new(&self.inner);
        let ty = bitcoin::sighash::TapSighashType::Default;
        cache.taproot_key_spend_signature_hash(index, &bitcoin::sighash::Prevouts::All(&pv), ty)
            .ok()
            .map(|h| bitcoin::hashes::Hash::to_byte_array(h).to_vec())
    }

    /// Relies on `bitcoin::sighash::SighashCache::taproot_script_spend_signature_hash`
    /// with the default sighash type over the full prevout set, committing to
    /// the given 32-byte leaf hash; fails only for an index out of bounds or
    /// a prevout set whose length differs from the input count.
    #[verifier::external_body]
    pub fn taproot_script_sighash(
        &self,
        index: usize,
        prevouts: &Vec<(u64, Vec<u8>)>,
        leaf_hash: &Vec<u8>,
    ) -> (r: Option<Vec<u8>>)
        requires
            leaf_hash@.len() == 32,
        ensures
            r matches Some(d) ==> d@ == taproot_script_sighash_of(
                shell_data(*self),
                index as int,
                prevouts_data(prevouts@),
                leaf_hash@,
            ) && d@.len() == 32,
            index < shell_data(*self).inputs.len() && prevouts@.len() == shell_data(
                *self,
            ).inputs.len() ==> r is Some,
    {
        let pv: Vec<bitcoin::TxOut> = prevouts.iter().map(|p: &(u64, Vec<u8>)| bitcoin::TxOut {
            value: p.0,
            script_pubkey: bitcoin::ScriptBuf::from_bytes(p.1.clone()),
        }).collect();
        let lh: [u8; 32] = leaf_hash.clone().try_into().expect("leaf hash is 32 bytes");
        let leaf = <bitcoin::taproot::TapLeafHash as bitcoin::hashes::Hash>::from_byte_array(lh);
        let mut cache = bitcoin::sighash::SighashCache::new(&self.inner);
        let ty = bitcoin::sighash::TapSighashType::Default;
        cache.taproot_script_spend_signature_hash(index, &bitcoin::sighash::Prevouts::All(&pv), leaf, ty)
            .ok().map(|h| bitcoin::hashes::Hash::to_byte_array(h).to_vec())
    }

    /// Relies on `bitcoin::consensus::Encodable::consensus_encode` for
    /// `bitcoin::Transaction`: the canonical consensus byte encoding.
    /// Writing into a byte vector cannot fail.
    #[verifier::external_body]
    pub fn encode(&self) -> (r: Vec<u8>)
        ensures
            r@ == consensus_encoding_of(shell_data(*self)),
    {
        let mut buf: Vec<u8> = Vec::new();
        bitcoin::consensus::Encodable::consensus_encode(&self.inner, &mut buf)
            .expect("writing to a vector cannot fail");
        buf
    }
}

/// Relies on `bitcoin::taproot::TapLeafHash::from_script` under the standard
/// tapscript leaf version: the 32-byte tagged leaf hash of the script.
#[verifier::external_body]
pub fn tap_leaf_hash(script: &Vec<u8>) -> (r: Vec<u8>)
    ensures
        r@ == tap_leaf_hash_of(script@),
        r@.len() == 32,
{
    let leaf = bitcoin::taproot::TapLeafHash::from_script(
        bitcoin::Script::from_bytes(script),
        bitcoin::taproot::LeafVersion::TapScript,
    );
    bitcoin::hashes::Hash::to_byte_array(leaf).to_vec()
}

} // verus!
