//! Building and signing of Bitcoin-style transactions across the four
//! standard spending conditions (legacy pay-to-pubkey-hash, segwit v0
//! pay-to-witness-pubkey-hash, and taproot key-path and script-path).
//!
//! The builder accumulates inputs, outputs and a miner fee, checks the
//! balance, derives for every input the signature digest its spending
//! condition calls for, hands each digest to a caller-supplied signer, and
//! splices the returned claim material into the right place of the final
//! transaction (script-signature field or witness stack).

pub mod types;
pub mod model;
pub mod script;
pub mod shell;
pub mod recipient;
pub mod builder;

pub use types::{
    ClaimLocation, Error, InputContext, Network, OutPoint, SighashType, TransactionHash, TxInput,
    TxInputsOuputs, TxOutput, SEQUENCE_FINAL,
};
pub use builder::{
    SignedTxIn, TransactionBuilder, TransactionSigned, TransactionSigner, DEFAULT_VERSION,
    LOCK_TIME_THRESHOLD,
};
pub use recipient::{Address, AddressPayload, PublicKey, Recipient, TaprootScript};
