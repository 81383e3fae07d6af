//! End-to-end signing flows: the scenarios, error cases, digest checks
//! against the consensus library, and the serialization round trip.

use std::cell::RefCell;

use tw_bitcoin::{
    ClaimLocation, Error, InputContext, OutPoint, TransactionBuilder, TransactionHash,
    TransactionSigner, SighashType, TxInput, TxOutput,
};

fn txid_bytes(fill: u8) -> Vec<u8> {
    vec![fill; 32]
}

/// A pay-to-witness-pubkey-hash script pubkey: OP_0 PUSH20 <hash>.
fn p2wpkh_spk(hash_fill: u8) -> Vec<u8> {
    let mut s = vec![0x00, 0x14];
    s.extend(vec![hash_fill; 20]);
    s
}

/// A pay-to-pubkey-hash script pubkey.
fn p2pkh_spk(hash_fill: u8) -> Vec<u8> {
    let mut s = vec![0x76, 0xa9, 0x14];
    s.extend(vec![hash_fill; 20]);
    s.extend(vec![0x88, 0xac]);
    s
}

/// A taproot script pubkey: OP_1 PUSH32 <output key>.
fn p2tr_spk(fill: u8) -> Vec<u8> {
    let mut s = vec![0x51, 0x20];
    s.extend(vec![fill; 32]);
    s
}

fn input_with_value(variant: &str, txid_fill: u8, value: u64, spk: Vec<u8>) -> TxInput {
    let point = OutPoint::new(txid_bytes(txid_fill), 0);
    let utxo = TxOutput::new(value, spk);
    let ctx = InputContext::new(utxo, point);
    match variant {
        "p2pkh" => TxInput::P2PKH { ctx },
        "p2wpkh" => TxInput::P2WPKH { ctx },
        "p2tr_key" => TxInput::P2TRKeyPath { ctx },
        "nonstandard" => TxInput::NonStandard { ctx },
        _ => panic!("unknown variant"),
    }
}

fn witness_signer(inp: &TxInput, _h: &TransactionHash) -> Result<ClaimLocation, Error> {
    match inp {
        TxInput::P2PKH { .. } => Ok(ClaimLocation::Script(vec![0xAA; 107])),
        _ => Ok(ClaimLocation::Witness(vec![vec![0xBB; 72], vec![0xCC; 33]])),
    }
}

#[test]
fn scenario_one_p2wpkh_succeeds() {
    let builder = TransactionBuilder::new()
        .miner_fee(1_000)
        .add_input(input_with_value("p2wpkh", 1, 100_000, p2wpkh_spk(7)))
        .add_output(TxOutput::new(90_000, p2pkh_spk(9)));
    let signed = builder.sign_inputs_fn(witness_signer).expect("signing succeeds");
    assert_eq!(signed.inputs.len(), 1);
    assert_eq!(signed.outputs.len(), 1);
    assert!(!signed.inputs[0].witness.is_empty());
    assert!(signed.inputs[0].script_sig.is_empty());
}

#[test]
fn scenario_insufficient_funds() {
    let builder = TransactionBuilder::new()
        .miner_fee(0)
        .add_input(input_with_value("p2pkh", 2, 50_000, p2pkh_spk(7)))
        .add_output(TxOutput::new(60_000, p2pkh_spk(9)));
    let err = builder.sign_inputs_fn(witness_signer).unwrap_err();
    assert_eq!(err, Error::InsufficientFunds);
}

#[test]
fn scenario_two_taproot_inputs() {
    let script = vec![0x51u8]; // OP_TRUE leaf script
    let control = vec![0xC0; 33];
    let point = OutPoint::new(txid_bytes(3), 1);
    let ctx = InputContext::new(TxOutput::new(50_000, p2tr_spk(4)), point);
    let script_path = TxInput::P2TRScriptPath { ctx, script, control_block: control };

    let calls = RefCell::new(0u32);
    let builder = TransactionBuilder::new()
        .miner_fee(5_000)
        .add_input(input_with_value("p2tr_key", 3, 100_000, p2tr_spk(5)))
        .add_input(script_path)
        .add_output(TxOutput::new(140_000, p2tr_spk(6)));
    let signed = builder
        .sign_inputs_fn(|_inp: &TxInput, _h: &TransactionHash| {
            *calls.borrow_mut() += 1;
            Ok(ClaimLocation::Witness(vec![vec![0xDD; 64]]))
        })
        .expect("signing succeeds");
    assert_eq!(*calls.borrow(), 2);
    assert_eq!(signed.inputs.len(), 2);
    assert!(signed.inputs[0].script_sig.is_empty());
    assert!(signed.inputs[1].script_sig.is_empty());
    assert!(!signed.inputs[0].witness.is_empty());
    assert!(!signed.inputs[1].witness.is_empty());
}

#[test]
fn scenario_missing_value_fails_before_signer() {
    let ctx = InputContext {
        previous_output: OutPoint::new(txid_bytes(4), 0),
        value: None,
        script_pubkey: p2wpkh_spk(7),
        sequence: 0xFFFF_FFFF,
        witness: Vec::new(),
    };
    let calls = RefCell::new(0u32);
    let builder = TransactionBuilder::new()
        .miner_fee(1_000)
        .add_input(TxInput::P2WPKH { ctx })
        .add_output(TxOutput::new(1_000, p2pkh_spk(9)));
    let err = builder
        .sign_inputs_fn(|_inp: &TxInput, _h: &TransactionHash| {
            *calls.borrow_mut() += 1;
            Ok(ClaimLocation::Witness(vec![vec![1]]))
        })
        .unwrap_err();
    assert_eq!(err, Error::MissingInputValue);
    assert_eq!(*calls.borrow(), 0);
}

#[test]
fn missing_miner_fee() {
    let builder = TransactionBuilder::new()
        .add_input(input_with_value("p2pkh", 5, 10_000, p2pkh_spk(7)))
        .add_output(TxOutput::new(1_000, p2pkh_spk(9)));
    let err = builder.sign_inputs_fn(witness_signer).unwrap_err();
    assert_eq!(err, Error::MissingMinerFee);
}

#[test]
fn malformed_segwit_script_fails() {
    // A P2WPKH input whose script pubkey is not of the v0 witness form.
    let builder = TransactionBuilder::new()
        .miner_fee(100)
        .add_input(input_with_value("p2wpkh", 6, 10_000, p2pkh_spk(7)))
        .add_output(TxOutput::new(1_000, p2pkh_spk(9)));
    let err = builder.sign_inputs_fn(witness_signer).unwrap_err();
    assert_eq!(err, Error::ScriptCodeDerivationFailure);
}

#[test]
fn signer_failure_aborts() {
    let builder = TransactionBuilder::new()
        .miner_fee(100)
        .add_input(input_with_value("p2pkh", 7, 10_000, p2pkh_spk(7)))
        .add_output(TxOutput::new(1_000, p2pkh_spk(9)));
    let err = builder
        .sign_inputs_fn(|_inp: &TxInput, _h: &TransactionHash| Err(Error::SignerFailure))
        .unwrap_err();
    assert_eq!(err, Error::SignerFailure);
}

#[test]
fn placement_mixed_variants() {
    let builder = TransactionBuilder::new()
        .miner_fee(500)
        .add_input(input_with_value("p2pkh", 8, 40_000, p2pkh_spk(1)))
        .add_input(input_with_value("p2wpkh", 9, 40_000, p2wpkh_spk(2)))
        .add_input(input_with_value("nonstandard", 10, 40_000, vec![0x6a]))
        .add_output(TxOutput::new(100_000, p2pkh_spk(9)));
    let signed = builder.sign_inputs_fn(witness_signer).expect("signing succeeds");
    assert_eq!(signed.inputs.len(), 3);
    // Legacy input: script claim, witness untouched.
    assert!(!signed.inputs[0].script_sig.is_empty());
    assert!(signed.inputs[0].witness.is_empty());
    // Segwit input: witness claim, script untouched.
    assert!(signed.inputs[1].script_sig.is_empty());
    assert!(!signed.inputs[1].witness.is_empty());
    // Non-standard input: both untouched.
    assert!(signed.inputs[2].script_sig.is_empty());
    assert!(signed.inputs[2].witness.is_empty());
    // Outpoints and sequences carried over in order.
    assert_eq!(signed.inputs[0].previous_output.txid, txid_bytes(8));
    assert_eq!(signed.inputs[1].previous_output.txid, txid_bytes(9));
    assert_eq!(signed.inputs[2].previous_output.txid, txid_bytes(10));
}

#[test]
fn digest_determinism_across_runs() {
    let collect = |sink: &RefCell<Vec<Vec<u8>>>| {
        let builder = TransactionBuilder::new()
            .miner_fee(1_000)
            .add_input(input_with_value("p2wpkh", 11, 100_000, p2wpkh_spk(7)))
            .add_input(input_with_value("p2pkh", 12, 100_000, p2pkh_spk(8)))
            .add_output(TxOutput::new(150_000, p2pkh_spk(9)));
        builder
            .sign_inputs_fn(|_inp: &TxInput, h: &TransactionHash| {
                sink.borrow_mut().push(h.as_bytes().clone());
                Ok(ClaimLocation::Witness(vec![vec![1]]))
            })
            .expect("signing succeeds");
    };
    let first = RefCell::new(Vec::new());
    let second = RefCell::new(Vec::new());
    collect(&first);
    collect(&second);
    assert_eq!(*first.borrow(), *second.borrow());
    assert_eq!(first.borrow().len(), 2);
    for d in first.borrow().iter() {
        assert_eq!(d.len(), 32);
    }
}

#[test]
fn legacy_digest_matches_consensus_library() {
    let spk = p2pkh_spk(7);
    let digests = RefCell::new(Vec::new());
    TransactionBuilder::new()
        .miner_fee(1_000)
        .add_input(input_with_value("p2pkh", 13, 100_000, spk.clone()))
        .add_output(TxOutput::new(90_000, p2pkh_spk(9)))
        .sign_inputs_fn(|_inp: &TxInput, h: &TransactionHash| {
            digests.borrow_mut().push(h.as_bytes().clone());
            Ok(ClaimLocation::Script(vec![1]))
        })
        .expect("signing succeeds");

    let tx = bitcoin::Transaction {
        version: 2,
        lock_time: bitcoin::absolute::LockTime::from_consensus(0),
        input: vec![bitcoin::TxIn {
            previous_output: bitcoin::OutPoint::new(
                <bitcoin::Txid as bitcoin::hashes::Hash>::from_byte_array([13u8; 32]),
                0,
            ),
            script_sig: bitcoin::ScriptBuf::new(),
            sequence: bitcoin::Sequence(0xFFFF_FFFF),
            witness: bitcoin::Witness::new(),
        }],
        output: vec![bitcoin::TxOut {
            value: 90_000,
            script_pubkey: bitcoin::ScriptBuf::from_bytes(p2pkh_spk(9)),
        }],
    };
    let cache = bitcoin::sighash::SighashCache::new(&tx);
    let expected = cache
        .legacy_signature_hash(0, bitcoin::Script::from_bytes(&spk), 1)
        .unwrap();
    assert_eq!(digests.borrow()[0], bitcoin::hashes::Hash::to_byte_array(expected).to_vec());
}

#[test]
fn segwit_digest_matches_consensus_library() {
    let spk = p2wpkh_spk(7);
    let digests = RefCell::new(Vec::new());
    TransactionBuilder::new()
        .miner_fee(1_000)
        .add_input(input_with_value("p2wpkh", 14, 100_000, spk.clone()))
        .add_output(TxOutput::new(90_000, p2pkh_spk(9)))
        .sign_inputs_fn(|_inp: &TxInput, h: &TransactionHash| {
            digests.borrow_mut().push(h.as_bytes().clone());
            Ok(ClaimLocation::Witness(vec![vec![1]]))
        })
        .expect("signing succeeds");

    let tx = bitcoin::Transaction {
        version: 2,
        lock_time: bitcoin::absolute::LockTime::from_consensus(0),
        input: vec![bitcoin::TxIn {
            previous_output: bitcoin::OutPoint::new(
                <bitcoin::Txid as bitcoin::hashes::Hash>::from_byte_array([14u8; 32]),
                0,
            ),
            script_sig: bitcoin::ScriptBuf::new(),
            sequence: bitcoin::Sequence(0xFFFF_FFFF),
            witness: bitcoin::Witness::new(),
        }],
        output: vec![bitcoin::TxOut {
            value: 90_000,
            script_pubkey: bitcoin::ScriptBuf::from_bytes(p2pkh_spk(9)),
        }],
    };
    // Derive the script code independently through the consensus library.
    let code = bitcoin::ScriptBuf::from_bytes(spk).p2wpkh_script_code().unwrap();
    let mut cache = bitcoin::sighash::SighashCache::new(&tx);
    let expected = cache
        .segwit_signature_hash(0, &code, 100_000, bitcoin::sighash::EcdsaSighashType::All)
        .unwrap();
    assert_eq!(digests.borrow()[0], bitcoin::hashes::Hash::to_byte_array(expected).to_vec());
}

#[test]
fn taproot_digests_match_consensus_library() {
    let spk_a = p2tr_spk(5);
    let spk_b = p2tr_spk(4);
    let leaf_script = vec![0x51u8];
    let digests = RefCell::new(Vec::new());
    let point = OutPoint::new(txid_bytes(15), 1);
    let ctx = InputContext::new(TxOutput::new(50_000, spk_b.clone()), point);
    TransactionBuilder::new()
        .miner_fee(5_000)
        .add_input(input_with_value("p2tr_key", 15, 100_000, spk_a.clone()))
        .add_input(TxInput::P2TRScriptPath {
            ctx,
            script: leaf_script.clone(),
            control_block: vec![0xC0; 33],
        })
        .add_output(TxOutput::new(140_000, p2tr_spk(6)))
        .sign_inputs_fn(|_inp: &TxInput, h: &TransactionHash| {
            digests.borrow_mut().push(h.as_bytes().clone());
            Ok(ClaimLocation::Witness(vec![vec![1]]))
        })
        .expect("signing succeeds");

    let mk_in = |fill: u8, vout: u32| bitcoin::TxIn {
        previous_output: bitcoin::OutPoint::new(
            <bitcoin::Txid as bitcoin::hashes::Hash>::from_byte_array([fill; 32]),
            vout,
        ),
        script_sig: bitcoin::ScriptBuf::new(),
        sequence: bitcoin::Sequence(0xFFFF_FFFF),
        witness: bitcoin::Witness::new(),
    };
    let tx = bitcoin::Transaction {
        version: 2,
        lock_time: bitcoin::absolute::LockTime::from_consensus(0),
        input: vec![mk_in(15, 0), mk_in(15, 1)],
        output: vec![bitcoin::TxOut {
            value: 140_000,
            script_pubkey: bitcoin::ScriptBuf::from_bytes(p2tr_spk(6)),
        }],
    };
    let prevouts = vec![
        bitcoin::TxOut { value: 100_000, script_pubkey: bitcoin::ScriptBuf::from_bytes(spk_a) },
        bitcoin::TxOut { value: 50_000, script_pubkey: bitcoin::ScriptBuf::from_bytes(spk_b) },
    ];
    let mut cache = bitcoin::sighash::SighashCache::new(&tx);
    let expected_key = cache
        .taproot_key_spend_signature_hash(
            0,
            &bitcoin::sighash::Prevouts::All(&prevouts),
            bitcoin::sighash::TapSighashType::Default,
        )
        .unwrap();
    let leaf = bitcoin::taproot::TapLeafHash::from_script(
        bitcoin::Script::from_bytes(&leaf_script),
        bitcoin::taproot::LeafVersion::TapScript,
    );
    let expected_script = cache
        .taproot_script_spend_signature_hash(
            1,
            &bitcoin::sighash::Prevouts::All(&prevouts),
            leaf,
            bitcoin::sighash::TapSighashType::Default,
        )
        .unwrap();
    assert_eq!(digests.borrow()[0], bitcoin::hashes::Hash::to_byte_array(expected_key).to_vec());
    assert_eq!(digests.borrow()[1], bitcoin::hashes::Hash::to_byte_array(expected_script).to_vec());
}

#[test]
fn serialization_round_trip() {
    let signed = TransactionBuilder::new()
        .miner_fee(1_000)
        .add_input(input_with_value("p2wpkh", 16, 100_000, p2wpkh_spk(7)))
        .add_input(input_with_value("p2pkh", 17, 50_000, p2pkh_spk(8)))
        .add_output(TxOutput::new(90_000, p2pkh_spk(9)))
        .add_output(TxOutput::new(50_000, p2wpkh_spk(10)))
        .sign_inputs_fn(witness_signer)
        .expect("signing succeeds");
    let bytes = signed.serialize().expect("serialization succeeds");

    let parsed: bitcoin::Transaction =
        bitcoin::consensus::deserialize(&bytes).expect("standard consensus decoding");
    assert_eq!(parsed.version, 2);
    assert_eq!(parsed.lock_time.to_consensus_u32(), 0);
    assert_eq!(parsed.input.len(), 2);
    assert_eq!(parsed.output.len(), 2);
    for (i, pin) in parsed.input.iter().enumerate() {
            assert_eq!(
            bitcoin::hashes::Hash::to_byte_array(pin.previous_output.txid).to_vec(),
            signed.inputs[i].previous_output.txid
        );
        assert_eq!(pin.previous_output.vout, signed.inputs[i].previous_output.index);
        assert_eq!(pin.sequence.0, signed.inputs[i].sequence);
        assert_eq!(pin.script_sig.as_bytes().to_vec(), signed.inputs[i].script_sig);
        let wit: Vec<Vec<u8>> = pin.witness.iter().map(|w| w.to_vec()).collect();
        assert_eq!(wit, signed.inputs[i].witness);
    }
    for (i, pout) in parsed.output.iter().enumerate() {
        assert_eq!(pout.value, signed.outputs[i].satoshis);
        assert_eq!(pout.script_pubkey.as_bytes().to_vec(), signed.outputs[i].script_pubkey);
    }
    // Re-serializing the parsed transaction gives back the same bytes.
    assert_eq!(bitcoin::consensus::serialize(&parsed), bytes);
}

struct FixedSigner;

impl TransactionSigner for FixedSigner {
    fn claim_p2pkh(
        &self,
        _ctx: &InputContext,
        _sighash: &TransactionHash,
        sighash_type: SighashType,
    ) -> Result<Vec<u8>, Error> {
        assert_eq!(sighash_type, SighashType::All);
        Ok(vec![0xAA; 107])
    }

    fn claim_p2wpkh(
        &self,
        _ctx: &InputContext,
        _sighash: &TransactionHash,
        sighash_type: SighashType,
    ) -> Result<Vec<Vec<u8>>, Error> {
        assert_eq!(sighash_type, SighashType::All);
        Ok(vec![vec![0xBB; 72], vec![0xCC; 33]])
    }

    fn claim_p2tr_key_path(
        &self,
        _ctx: &InputContext,
        _sighash: &TransactionHash,
        sighash_type: SighashType,
    ) -> Result<Vec<Vec<u8>>, Error> {
        assert_eq!(sighash_type, SighashType::DefaultTaproot);
        Ok(vec![vec![0xDD; 64]])
    }

    fn claim_p2tr_script_path(
        &self,
        _ctx: &InputContext,
        script: &Vec<u8>,
        control_block: &Vec<u8>,
        _sighash: &TransactionHash,
        sighash_type: SighashType,
    ) -> Result<Vec<Vec<u8>>, Error> {
        assert_eq!(sighash_type, SighashType::DefaultTaproot);
        Ok(vec![vec![0xEE; 64], script.clone(), control_block.clone()])
    }
}

#[test]
fn trait_signer_places_claims_by_variant() {
    let point = OutPoint::new(txid_bytes(18), 2);
    let ctx = InputContext::new(TxOutput::new(30_000, p2tr_spk(4)), point);
    let signed = TransactionBuilder::new()
        .miner_fee(500)
        .add_input(input_with_value("p2pkh", 18, 40_000, p2pkh_spk(1)))
        .add_input(input_with_value("p2wpkh", 19, 40_000, p2wpkh_spk(2)))
        .add_input(input_with_value("p2tr_key", 20, 40_000, p2tr_spk(3)))
        .add_input(TxInput::P2TRScriptPath {
            ctx,
            script: vec![0x51],
            control_block: vec![0xC0; 33],
        })
        .add_output(TxOutput::new(100_000, p2pkh_spk(9)))
        .sign_inputs(FixedSigner)
        .expect("signing succeeds");
    assert_eq!(signed.inputs.len(), 4);
    assert!(!signed.inputs[0].script_sig.is_empty());
    assert!(signed.inputs[0].witness.is_empty());
    for i in 1..4 {
        assert!(signed.inputs[i].script_sig.is_empty());
        assert!(!signed.inputs[i].witness.is_empty());
    }
    assert_eq!(signed.inputs[3].witness.len(), 3);
}

struct RefusingSigner;

impl TransactionSigner for RefusingSigner {
    fn claim_p2pkh(
        &self,
        _ctx: &InputContext,
        _sighash: &TransactionHash,
        _sighash_type: SighashType,
    ) -> Result<Vec<u8>, Error> {
        Err(Error::SignerFailure)
    }

    fn claim_p2wpkh(
        &self,
        _ctx: &InputContext,
        _sighash: &TransactionHash,
        _sighash_type: SighashType,
    ) -> Result<Vec<Vec<u8>>, Error> {
        Err(Error::SignerFailure)
    }

    fn claim_p2tr_key_path(
        &self,
        _ctx: &InputContext,
        _sighash: &TransactionHash,
        _sighash_type: SighashType,
    ) -> Result<Vec<Vec<u8>>, Error> {
        Err(Error::SignerFailure)
    }

    fn claim_p2tr_script_path(
        &self,
        _ctx: &InputContext,
        _script: &Vec<u8>,
        _control_block: &Vec<u8>,
        _sighash: &TransactionHash,
        _sighash_type: SighashType,
    ) -> Result<Vec<Vec<u8>>, Error> {
        Err(Error::SignerFailure)
    }
}

#[test]
fn all_nonstandard_inputs_sign_without_signer() {
    // No input is signable, so signing succeeds whatever the signer would do.
    let calls = RefCell::new(0u32);
    let signed = TransactionBuilder::new()
        .miner_fee(100)
        .add_input(input_with_value("nonstandard", 23, 10_000, vec![0x6a]))
        .add_output(TxOutput::new(9_000, p2pkh_spk(9)))
        .sign_inputs_fn(|_inp: &TxInput, _h: &TransactionHash| {
            *calls.borrow_mut() += 1;
            Err(Error::SignerFailure)
        })
        .expect("no signable input, so signing succeeds");
    assert_eq!(*calls.borrow(), 0);
    assert!(signed.inputs[0].script_sig.is_empty());
    assert!(signed.inputs[0].witness.is_empty());
}

#[test]
fn all_nonstandard_inputs_sign_with_refusing_trait_signer() {
    let signed = TransactionBuilder::new()
        .miner_fee(100)
        .add_input(input_with_value("nonstandard", 24, 10_000, vec![0x6a]))
        .add_output(TxOutput::new(9_000, p2pkh_spk(9)))
        .sign_inputs(RefusingSigner)
        .expect("no signable input, so signing succeeds");
    assert!(signed.inputs[0].script_sig.is_empty());
    assert!(signed.inputs[0].witness.is_empty());
}

#[test]
fn refusing_trait_signer_fails_on_signable_input() {
    let err = TransactionBuilder::new()
        .miner_fee(100)
        .add_input(input_with_value("p2pkh", 25, 10_000, p2pkh_spk(7)))
        .add_output(TxOutput::new(9_000, p2pkh_spk(9)))
        .sign_inputs(RefusingSigner)
        .unwrap_err();
    assert_eq!(err, Error::SignerFailure);
}

#[test]
fn builder_configuration_is_carried_over() {
    let signed = TransactionBuilder::new()
        .version(1)
        .lock_time(500)
        .miner_fee(100)
        .add_input(input_with_value("p2pkh", 21, 10_000, p2pkh_spk(1)))
        .add_output(TxOutput::new(9_000, p2pkh_spk(9)))
        .sign_inputs_fn(witness_signer)
        .expect("signing succeeds");
    assert_eq!(signed.version, 1);
    assert_eq!(signed.lock_time, 500);
    let bytes = signed.serialize().unwrap();
    let parsed: bitcoin::Transaction = bitcoin::consensus::deserialize(&bytes).unwrap();
    assert_eq!(parsed.version, 1);
    assert_eq!(parsed.lock_time.to_consensus_u32(), 500);
}

#[test]
fn script_code_derivation_exact_value() {
    let spk = p2wpkh_spk(0x42);
    let code = tw_bitcoin::script::p2wpkh_script_code(&spk).expect("well-formed script");
    let mut expected = vec![0x76, 0xa9, 0x14];
    expected.extend(vec![0x42u8; 20]);
    expected.extend(vec![0x88, 0xac]);
    assert_eq!(code, expected);
    // The consensus library derives the same code.
    let lib_code = bitcoin::ScriptBuf::from_bytes(spk).p2wpkh_script_code().unwrap();
    assert_eq!(code, lib_code.into_bytes());

    assert!(tw_bitcoin::script::p2wpkh_script_code(&p2pkh_spk(1)).is_none());
    assert!(tw_bitcoin::script::p2wpkh_script_code(&vec![0x00, 0x13]).is_none());
}

#[test]
fn input_context_from_utxo() {
    let point = OutPoint::new(txid_bytes(22), 5);
    let ctx = InputContext::new(TxOutput::new(12_345, p2pkh_spk(3)), point);
    assert_eq!(ctx.previous_output.txid, txid_bytes(22));
    assert_eq!(ctx.previous_output.index, 5);
    assert_eq!(ctx.value, Some(12_345));
    assert_eq!(ctx.script_pubkey, p2pkh_spk(3));
    assert_eq!(ctx.sequence, 0xFFFF_FFFF);
    assert!(ctx.witness.is_empty());
    let input = TxInput::P2PKH { ctx };
    assert_eq!(input.satoshis(), Some(12_345));
    assert_eq!(input.ctx().previous_output.index, 5);
}
