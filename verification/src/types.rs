//! The plain data types of the library: inputs, outputs, digests, claims
//! and the error kinds of the signing operation.

use vstd::prelude::*;

verus! {

/// The errors the signing operation can surface. Every failure aborts the
/// whole operation; no partially signed transaction is ever returned.
#[derive(Debug, Clone, Copy, PartialEq, Eq, Structural)]
pub enum Error {
    /// Output total plus fee exceeds the input total.
    InsufficientFunds,
    /// An input lacks the value that the balance check and the witness and
    /// taproot sighash algorithms require.
    MissingInputValue,
    /// No miner fee was configured before signing.
    MissingMinerFee,
    /// A segwit input's script pubkey is not of the pay-to-witness-pubkey-hash
    /// form, so no script code can be derived from it.
    ScriptCodeDerivationFailure,
    /// The digest algorithm rejected the transaction shape.
    SighashComputationFailure,
    /// The external signer declined or failed to produce claim data.
    SignerFailure,
    /// An input variant reached a code path that cannot handle it.
    UnsupportedInputVariant,
}

/// Network selector handed to address derivation; never stored by the core.
#[derive(Debug, Clone, Copy, PartialEq, Eq, Structural)]
pub enum Network {
    Mainnet,
    Testnet,
    Signet,
    Regtest,
}

/// Sighash-type selector handed to the external signer. Only the
/// "sign all outputs" type (legacy and segwit) and the taproot default
/// type are supported.
#[derive(Debug, Clone, Copy, PartialEq, Eq, Structural)]
pub enum SighashType {
    /// Sign all outputs (legacy and segwit v0 signing).
    All,
    /// The taproot default type (sign all outputs, no anyone-can-pay).
    DefaultTaproot,
}

/// Reference to the output being spent: the 32-byte id of the transaction
/// that created it and the index of the output within that transaction.
#[derive(Debug, Clone)]
pub struct OutPoint {
    /// The 32 bytes of the funding transaction's id.
    pub txid: Vec<u8>,
    /// Index of the spent output within the funding transaction.
    pub index: u32,
}

impl OutPoint {
    pub open spec fn wf(&self) -> bool {
        self.txid@.len() == 32
    }

    pub fn new(txid: Vec<u8>, index: u32) -> (r: OutPoint)
        requires
            txid@.len() == 32,
        ensures
            r.wf(),
            r.txid@ == txid@,
            r.index == index,
    {
        OutPoint { txid, index }
    }
}

/// A 32-byte signature digest, handed to the external signer.
#[derive(Debug, Clone)]
pub struct TransactionHash {
    bytes: Vec<u8>,
}

impl TransactionHash {
    pub closed spec fn view(&self) -> Seq<u8> {
        self.bytes@
    }

    pub open spec fn wf(&self) -> bool {
        self@.len() == 32
    }

    pub fn from_bytes(bytes: Vec<u8>) -> (r: TransactionHash)
        requires
            bytes@.len() == 32,
        ensures
            r@ == bytes@,
            r.wf(),
    {
        TransactionHash { bytes }
    }

    pub fn as_bytes(&self) -> (r: &Vec<u8>)
        ensures
            r@ == self@,
    {
        &self.bytes
    }
}

/// What a created output holds: its amount in minimal currency units and the
/// script that locks it.
#[derive(Debug, Clone)]
pub struct TxOutput {
    /// Amount in minimal currency units.
    pub satoshis: u64,
    /// The locking script of the new output.
    pub script_pubkey: Vec<u8>,
}

impl TxOutput {
    pub fn new(satoshis: u64, script_pubkey: Vec<u8>) -> (r: TxOutput)
        ensures
            r.satoshis == satoshis,
            r.script_pubkey@ == script_pubkey@,
    {
        TxOutput { satoshis, script_pubkey }
    }

    pub fn satoshis(&self) -> (r: u64)
        ensures
            r == self.satoshis,
    {
        self.satoshis
    }
}

/// The fields every spendable input carries: the previous output it spends,
/// its value (required before a witness or taproot sighash can be computed),
/// the script being satisfied, the relative sequence number, and a witness
/// placeholder that stays empty until signing.
#[derive(Debug, Clone)]
pub struct InputContext {
    /// The output being spent.
    pub previous_output: OutPoint,
    /// Value of the spent output in minimal units, if known.
    pub value: Option<u64>,
    /// The locking script of the spent output.
    pub script_pubkey: Vec<u8>,
    /// Relative sequence number; the default opts out of relative timelocks
    /// and replace-by-fee signaling.
    pub sequence: u32,
    /// Witness placeholder, empty until the input is signed.
    pub witness: Vec<Vec<u8>>,
}

/// The default sequence number: no relative timelock, no replace-by-fee.
pub const SEQUENCE_FINAL: u32 = 0xFFFF_FFFF;

impl InputContext {
    pub open spec fn wf(&self) -> bool {
        self.previous_output.wf()
    }

    /// Builds the context for spending `utxo`, which sits at `point`.
    pub fn new(utxo: TxOutput, point: OutPoint) -> (r: InputContext)
        requires
            point.wf(),
        ensures
            r.wf(),
            r.previous_output.txid@ == point.txid@,
            r.previous_output.index == point.index,
            r.value == Some(utxo.satoshis),
            r.script_pubkey@ == utxo.script_pubkey@,
            r.sequence == SEQUENCE_FINAL,
            r.witness@.len() == 0,
    {
        InputContext {
            previous_output: point,
            value: Some(utxo.satoshis),
            script_pubkey: utxo.script_pubkey,
            sequence: SEQUENCE_FINAL,
            witness: Vec::new(),
        }
    }
}

/// The closed set of spendable input variants. Each owns one [`InputContext`];
/// the taproot script-path variant additionally carries the revealed script
/// and its control-block bytes.
#[derive(Debug, Clone)]
pub enum TxInput {
    P2PKH { ctx: InputContext },
    P2WPKH { ctx: InputContext },
    P2TRKeyPath { ctx: InputContext },
    P2TRScriptPath { ctx: InputContext, script: Vec<u8>, control_block: Vec<u8> },
    /// Opaque passthrough: excluded from digest computation and signing.
    NonStandard { ctx: InputContext },
}

impl TxInput {
    /// The context of the input, whatever its variant.
    pub open spec fn ctx_spec(&self) -> InputContext {
        match self {
            TxInput::P2PKH { ctx } => *ctx,
            TxInput::P2WPKH { ctx } => *ctx,
            TxInput::P2TRKeyPath { ctx } => *ctx,
            TxInput::P2TRScriptPath { ctx, .. } => *ctx,
            TxInput::NonStandard { ctx } => *ctx,
        }
    }

    pub open spec fn wf(&self) -> bool {
        self.ctx_spec().wf()
    }

    /// Whether the input spends by one of the two taproot conditions.
    pub open spec fn is_taproot(&self) -> bool {
        self is P2TRKeyPath || self is P2TRScriptPath
    }

    pub fn ctx(&self) -> (r: &InputContext)
        ensures
            *r == self.ctx_spec(),
    {
        match self {
            TxInput::P2PKH { ctx } => ctx,
            TxInput::P2WPKH { ctx } => ctx,
            TxInput::P2TRKeyPath { ctx } => ctx,
            TxInput::P2TRScriptPath { ctx, .. } => ctx,
            TxInput::NonStandard { ctx } => ctx,
        }
    }

    /// The value of the spent output, if it was set.
    pub fn satoshis(&self) -> (r: Option<u64>)
        ensures
            r == self.ctx_spec().value,
    {
        self.ctx().value
    }
}

/// Where produced signing material is written: the legacy script-signature
/// field or the witness stack. Produced once per signable input by the
/// external signer, consumed exactly once during assembly.
#[derive(Debug, Clone)]
pub enum ClaimLocation {
    /// Script-signature bytes for a legacy input.
    Script(Vec<u8>),
    /// Witness stack items for a segwit or taproot input.
    Witness(Vec<Vec<u8>>),
}

/// A pairing of accumulated inputs and outputs.
pub struct TxInputsOuputs {
    pub inputs: Vec<TxInput>,
    pub outputs: Vec<TxOutput>,
}

} // verus!
