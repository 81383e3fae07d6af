//! The transaction builder: accumulates inputs, outputs and a fee, checks the
//! balance, derives the per-input signature digest, hands each digest to the
//! external signer, and splices the returned claims into the signed
//! transaction.

use vstd::prelude::*;
use crate::types::{ClaimLocation, Error, InputContext, OutPoint, SighashType, TransactionHash, TxInput, TxOutput};
use crate::model::{
    all_values_present, input_skeleton_data, lemma_sum_input_values_bound,
    lemma_sum_output_values_bound, output_data, prevout_data, sum_input_values,
    sum_output_values, TxData, TxInData, TxOutData,
};
use crate::script::{is_p2wpkh_script, p2wpkh_script_code, p2wpkh_script_code_spec};
use crate::shell::{
    consensus_encoding_of, legacy_sighash_of, prevouts_data, segwit_sighash_of, shell_data,
    tap_leaf_hash, tap_leaf_hash_of, taproot_key_sighash_of, taproot_script_sighash_of, TxShell,
};
use crate::recipient::Address;

verus! {

/// The signer capability: one operation per spending-condition variant. The
/// core decides what must be signed and where the result goes; the signer
/// produces the claim material (a script signature for legacy spends, a
/// fully assembled witness stack for segwit and taproot spends).
pub trait TransactionSigner {
    /// Claim material for a legacy pay-to-pubkey-hash input: the script
    /// signature to place in the input's script-signature field.
    fn claim_p2pkh(&self, ctx: &InputContext, sighash: &TransactionHash, sighash_type: SighashType) -> Result<Vec<u8>, Error>;

    /// Claim material for a segwit pay-to-witness-pubkey-hash input: the
    /// witness stack (signature and public key).
    fn claim_p2wpkh(&self, ctx: &InputContext, sighash: &TransactionHash, sighash_type: SighashType) -> Result<Vec<Vec<u8>>, Error>;

    /// Claim material for a taproot key-path input: the witness stack.
    fn claim_p2tr_key_path(&self, ctx: &InputContext, sighash: &TransactionHash, sighash_type: SighashType) -> Result<Vec<Vec<u8>>, Error>;

    /// Claim material for a taproot script-path input: the witness stack,
    /// control block included.
    fn claim_p2tr_script_path(&self, ctx: &InputContext, script: &Vec<u8>, control_block: &Vec<u8>, sighash: &TransactionHash, sighash_type: SighashType) -> Result<Vec<Vec<u8>>, Error>;
}

/// The accumulated state of a builder, as contracts see it.
pub struct BuilderData {
    pub version: i32,
    pub lock_time: u32,
    pub inputs: Seq<TxInput>,
    pub outputs: Seq<TxOutput>,
    pub miner_fee: Option<u64>,
    pub return_address: Option<Address>,
    pub contains_taproot: bool,
}

/// The sequence of output models of the accumulated outputs.
pub open spec fn outputs_data(outputs: Seq<TxOutput>) -> Seq<TxOutData> {
    outputs.map_values(|o: TxOutput| output_data(o))
}

/// The unsigned transaction skeleton of the accumulated state: one entry per
/// input (outpoint and sequence, empty script and witness) and one per
/// output.
pub open spec fn skeleton_of(
    version: i32,
    lock_time: u32,
    inputs: Seq<TxInput>,
    outputs: Seq<TxOutput>,
) -> TxData {
    TxData {
        version,
        lock_time,
        inputs: inputs.map_values(|i: TxInput| input_skeleton_data(i)),
        outputs: outputs_data(outputs),
    }
}

/// The taproot prevout set of the accumulated inputs: the (value, script)
/// pair of every input, in input order.
pub open spec fn prevouts_of(inputs: Seq<TxInput>) -> Seq<TxOutData> {
    inputs.map_values(|i: TxInput| prevout_data(i))
}

/// Whether an input is a segwit input whose script pubkey yields no script
/// code.
pub open spec fn bad_segwit_script(inp: TxInput) -> bool {
    inp matches TxInput::P2WPKH { ctx } && !is_p2wpkh_script(ctx.script_pubkey@)
}

pub open spec fn has_bad_segwit_script(inputs: Seq<TxInput>) -> bool {
    exists|i: int| 0 <= i < inputs.len() && bad_segwit_script(#[trigger] inputs[i])
}

/// The error the signing operation owes for the accumulated state before any
/// signer is invoked, or `None` where every pre-signing check passes: every
/// input must expose a value, a fee must be set, the outputs plus fee must
/// not exceed the inputs, and every segwit input must yield a script code.
pub open spec fn validation_error(
    inputs: Seq<TxInput>,
    outputs: Seq<TxOutput>,
    fee: Option<u64>,
) -> Option<Error> {
    if !all_values_present(inputs) {
        Some(Error::MissingInputValue)
    } else if fee is None {
        Some(Error::MissingMinerFee)
    } else if sum_output_values(outputs) + fee->Some_0 > sum_input_values(inputs) {
        Some(Error::InsufficientFunds)
    } else if has_bad_segwit_script(inputs) {
        Some(Error::ScriptCodeDerivationFailure)
    } else {
        None
    }
}

/// The digest owed to the input at `index`, as a pure function of the
/// transaction skeleton, the input's variant and the prevout set; `None` for
/// a non-standard input, which is excluded from signing.
pub open spec fn expected_digest(
    version: i32,
    lock_time: u32,
    inputs: Seq<TxInput>,
    outputs: Seq<TxOutput>,
    index: int,
) -> Option<Seq<u8>> {
    let tx = skeleton_of(version, lock_time, inputs, outputs);
    match inputs[index] {
        TxInput::P2PKH { ctx } => Some(legacy_sighash_of(tx, index, ctx.script_pubkey@)),
        TxInput::P2WPKH { ctx } => Some(
            segwit_sighash_of(
                tx,
                index,
                p2wpkh_script_code_spec(ctx.script_pubkey@),
                ctx.value->Some_0,
            ),
        ),
        TxInput::P2TRKeyPath { .. } => Some(
            taproot_key_sighash_of(tx, index, prevouts_of(inputs)),
        ),
        TxInput::P2TRScriptPath { script, .. } => Some(
            taproot_script_sighash_of(tx, index, prevouts_of(inputs), tap_leaf_hash_of(script@)),
        ),
        TxInput::NonStandard { .. } => None,
    }
}

/// What assembly owes the input at a position: outpoint and sequence carried
/// over unchanged, and the claim written to the place its variant names —
/// script-signature field for a script claim, witness stack for a witness
/// claim — with the other location left empty.
pub open spec fn claim_applied(inp: TxInput, claim: ClaimLocation, out: TxInData) -> bool {
    &&& out.txid == inp.ctx_spec().previous_output.txid@
    &&& out.vout == inp.ctx_spec().previous_output.index
    &&& out.sequence == inp.ctx_spec().sequence
    &&& match claim {
        ClaimLocation::Script(s) => out.script_sig == s@ && out.witness.len() == 0,
        ClaimLocation::Witness(w) => out.script_sig.len() == 0 && out.witness == w@.map_values(
            |x: Vec<u8>| x@,
        ),
    }
}

/// What assembly owes an input that received no claim (a non-standard
/// input): carried over untouched, script and witness both empty.
pub open spec fn untouched(inp: TxInput, out: TxInData) -> bool {
    &&& out.txid == inp.ctx_spec().previous_output.txid@
    &&& out.vout == inp.ctx_spec().previous_output.index
    &&& out.sequence == inp.ctx_spec().sequence
    &&& out.script_sig.len() == 0
    &&& out.witness.len() == 0
}

/// Law (balance invariant): once every input exposes a value and a fee is
/// set, the pre-signing checks report insufficient funds exactly on the
/// states whose output total plus fee exceeds the input total.
pub proof fn lemma_balance_invariant(inputs: Seq<TxInput>, outputs: Seq<TxOutput>, fee: u64)
    requires
        all_values_present(inputs),
    ensures
        validation_error(inputs, outputs, Some(fee)) == Some(Error::InsufficientFunds)
            <==> sum_output_values(outputs) + fee > sum_input_values(inputs),
{
}

/// Law (digest determinism): the digest owed to an input is a pure function
/// of the transaction shape (version, lock time, inputs, outputs), the
/// input's variant and the prevout set alone — two states that agree on the
/// shape owe every input the same digest, whatever else differs, and
/// computing it twice yields identical bytes.
pub proof fn lemma_digest_determinism(a: BuilderData, b: BuilderData, index: int)
    requires
        a.version == b.version,
        a.lock_time == b.lock_time,
        a.inputs == b.inputs,
        a.outputs == b.outputs,
    ensures
        expected_digest(a.version, a.lock_time, a.inputs, a.outputs, index) == expected_digest(
            b.version,
            b.lock_time,
            b.inputs,
            b.outputs,
            index,
        ),
{
}

/// Law (taproot prevout completeness): the prevout set handed to every
/// taproot digest has exactly one entry per accumulated input, in input
/// order, whatever the inputs' variants.
pub proof fn lemma_prevout_completeness(inputs: Seq<TxInput>)
    ensures
        prevouts_of(inputs).len() == inputs.len(),
        forall|i: int| 0 <= i < inputs.len() ==> prevouts_of(inputs)[i] == prevout_data(
            #[trigger] inputs[i],
        ),
{
}

/// Law (placement correctness): an applied claim with non-empty material
/// leaves exactly one of the two locations non-empty — the one its variant
/// names.
pub proof fn lemma_placement_exclusive(inp: TxInput, claim: ClaimLocation, out: TxInData)
    requires
        claim_applied(inp, claim, out),
    ensures
        (claim matches ClaimLocation::Script(s) && s@.len() > 0) ==> out.script_sig.len() > 0
            && out.witness.len() == 0,
        (claim matches ClaimLocation::Witness(w) && w@.len() > 0) ==> out.witness.len() > 0
            && out.script_sig.len() == 0,
{
}

/// Whether the claim carries any material: a non-empty script signature or a
/// non-empty witness stack. A signer that hands back claims in final
/// placement form returns only such claims.
pub open spec fn claim_nonempty(c: ClaimLocation) -> bool {
    match c {
        ClaimLocation::Script(s) => s@.len() > 0,
        ClaimLocation::Witness(w) => w@.len() > 0,
    }
}

/// Law (placement correctness, per signed entry): under a signer that only
/// returns non-empty claim material, every signed entry of an input that is
/// not non-standard has exactly one of the script-signature field and the
/// witness stack non-empty — the one the signer's claim named — and every
/// non-standard input keeps both empty.
pub proof fn lemma_signed_placement_exclusive<F: Fn(&TxInput, &TransactionHash) -> Result<
    ClaimLocation,
    Error,
>>(
    signer: F,
    version: i32,
    lock_time: u32,
    inputs: Seq<TxInput>,
    outputs: Seq<TxOutput>,
    index: int,
    out: TxInData,
)
    requires
        0 <= index < inputs.len(),
        signed_entry_fn(signer, version, lock_time, inputs, outputs, index, out),
        forall|inp: &TxInput, h: &TransactionHash, c: ClaimLocation| #[trigger] call_ensures(
            signer,
            (inp, h),
            Ok::<ClaimLocation, Error>(c),
        ) ==> claim_nonempty(c),
    ensures
        inputs[index] is NonStandard ==> out.script_sig.len() == 0 && out.witness.len() == 0,
        !(inputs[index] is NonStandard) ==> ((out.script_sig.len() > 0 && out.witness.len() == 0)
            || (out.witness.len() > 0 && out.script_sig.len() == 0)),
{
    match expected_digest(version, lock_time, inputs, outputs, index) {
        None => {
        },
        Some(dbytes) => {
            let (h, c) = choose|h: TransactionHash, c: ClaimLocation|
                h@ == dbytes && #[trigger] call_ensures(
                    signer,
                    (&inputs[index], &h),
                    Ok::<ClaimLocation, Error>(c),
                ) && claim_applied(inputs[index], c, out);
            assert(claim_nonempty(c));
            lemma_placement_exclusive(inputs[index], c, out);
        },
    }
}

/// One signed input of the final transaction.
#[derive(Debug, Clone)]
pub struct SignedTxIn {
    pub previous_output: OutPoint,
    pub sequence: u32,
    pub script_sig: Vec<u8>,
    pub witness: Vec<Vec<u8>>,
}

pub open spec fn signed_txin_data(s: SignedTxIn) -> TxInData {
    TxInData {
        txid: s.previous_output.txid@,
        vout: s.previous_output.index,
        sequence: s.sequence,
        script_sig: s.script_sig@,
        witness: s.witness@.map_values(|w: Vec<u8>| w@),
    }
}

/// The immutable result of a successful signing operation. Its only
/// operation is canonical byte serialization.
#[derive(Debug, Clone)]
pub struct TransactionSigned {
    pub version: i32,
    pub lock_time: u32,
    pub inputs: Vec<SignedTxIn>,
    pub outputs: Vec<TxOutput>,
}

impl View for TransactionSigned {
    type V = TxData;

    open spec fn view(&self) -> TxData {
        TxData {
            version: self.version,
            lock_time: self.lock_time,
            inputs: self.inputs@.map_values(|i: SignedTxIn| signed_txin_data(i)),
            outputs: outputs_data(self.outputs@),
        }
    }
}

impl TransactionSigned {
    pub open spec fn wf(&self) -> bool {
        forall|i: int| 0 <= i < self.inputs@.len() ==> (
        #[trigger] self.inputs@[i]).previous_output.wf()
    }

    /// Serializes to the canonical consensus byte encoding: the same logical
    /// transaction always serializes identically.
    pub fn serialize(&self) -> (r: Result<Vec<u8>, Error>)
        requires
            self.wf(),
        ensures
            r matches Ok(b) && b@ == consensus_encoding_of(self@),
    {
        let mut shell = TxShell::new(self.version, self.lock_time);
        let ghost ins = self@.inputs;
        let ghost outs = self@.outputs;
        proof {
            assert(ins.subrange(0, 0) =~= Seq::<TxInData>::empty());
        }
        let mut i: usize = 0;
        while i < self.inputs.len()
            invariant
                0 <= i <= self.inputs@.len(),
                self.wf(),
                ins == self@.inputs,
                outs == self@.outputs,
                ins.len() == self.inputs@.len(),
                shell_data(shell) == (TxData {
                    version: self.version,
                    lock_time: self.lock_time,
                    inputs: ins.subrange(0, i as int),
                    outputs: Seq::empty(),
                }),
            decreases self.inputs@.len() - i,
        {
            let sin = &self.inputs[i];
            shell.push_signed_input(
                &sin.previous_output.txid,
                sin.previous_output.index,
                sin.sequence,
                &sin.script_sig,
                &sin.witness,
            );
            proof {
                assert(ins[i as int] == signed_txin_data(self.inputs@[i as int]));
                assert(ins.subrange(0, i + 1) =~= ins.subrange(0, i as int).push(ins[i as int]));
            }
            i = i + 1;
        }
        proof {
            assert(ins.subrange(0, ins.len() as int) =~= ins);
            assert(outs.subrange(0, 0) =~= Seq::<TxOutData>::empty());
        }
        let mut j: usize = 0;
        while j < self.outputs.len()
            invariant
                0 <= j <= self.outputs@.len(),
                ins == self@.inputs,
                outs == self@.outputs,
                outs.len() == self.outputs@.len(),
                shell_data(shell) == (TxData {
                    version: self.version,
                    lock_time: self.lock_time,
                    inputs: ins,
                    outputs: outs.subrange(0, j as int),
                }),
            decreases self.outputs@.len() - j,
        {
            let o = &self.outputs[j];
            shell.push_output(o.satoshis, &o.script_pubkey);
            proof {
                assert(outs[j as int] == output_data(self.outputs@[j as int]));
                assert(outs.subrange(0, j + 1) =~= outs.subrange(0, j as int).push(outs[j as int]));
            }
            j = j + 1;
        }
        proof {
            assert(outs.subrange(0, outs.len() as int) =~= outs);
            assert(shell_data(shell) == self@);
        }
        Ok(shell.encode())
    }
}

/// The mutable accumulator: version, lock time, ordered inputs and outputs,
/// optional fee and return address, and a derived flag recording whether any
/// taproot input is present. Consumed exactly once by the signing operation.
#[derive(Debug, Clone)]
pub struct TransactionBuilder {
    version: i32,
    lock_time: u32,
    inputs: Vec<TxInput>,
    outputs: Vec<TxOutput>,
    miner_fee: Option<u64>,
    return_address: Option<Address>,
    contains_taproot: bool,
}

impl View for TransactionBuilder {
    type V = BuilderData;

    closed spec fn view(&self) -> BuilderData {
        BuilderData {
            version: self.version,
            lock_time: self.lock_time,
            inputs: self.inputs@,
            outputs: self.outputs@,
            miner_fee: self.miner_fee,
            return_address: self.return_address,
            contains_taproot: self.contains_taproot,
        }
    }
}

/// The builder's invariant: the taproot flag records exactly whether a
/// taproot input was accumulated, and every input is well-formed.
pub open spec fn builder_wf(b: BuilderData) -> bool {
    &&& (b.contains_taproot <==> exists|i: int|
        0 <= i < b.inputs.len() && (#[trigger] b.inputs[i]).is_taproot())
    &&& forall|i: int| 0 <= i < b.inputs.len() ==> (#[trigger] b.inputs[i]).wf()
}

/// The default protocol version.
pub const DEFAULT_VERSION: i32 = 2;

/// Lock times at or above this threshold are time-based, which the builder
/// does not support.
pub const LOCK_TIME_THRESHOLD: u32 = 500_000_000;

impl Default for TransactionBuilder {
    /// The same fresh state as [`TransactionBuilder::new`].
    fn default() -> (r: Self)
        ensures
            r.wf(),
            r@ == (BuilderData {
                version: DEFAULT_VERSION,
                lock_time: 0,
                inputs: Seq::empty(),
                outputs: Seq::empty(),
                miner_fee: None,
                return_address: None,
                contains_taproot: false,
            }),
    {
        TransactionBuilder::new()
    }
}

impl TransactionBuilder {
    pub open spec fn wf(&self) -> bool {
        builder_wf(self@)
    }

    /// A fresh builder: version 2, no lock time (immediately spendable), no
    /// inputs, outputs, fee or return address.
    pub fn new() -> (r: Self)
        ensures
            r.wf(),
            r@ == (BuilderData {
                version: DEFAULT_VERSION,
                lock_time: 0,
                inputs: Seq::empty(),
                outputs: Seq::empty(),
                miner_fee: None,
                return_address: None,
                contains_taproot: false,
            }),
    {
        TransactionBuilder {
            version: DEFAULT_VERSION,
            lock_time: 0,
            inputs: Vec::new(),
            outputs: Vec::new(),
            miner_fee: None,
            return_address: None,
            contains_taproot: false,
        }
    }

    /// Sets the protocol version.
    pub fn version(self, version: i32) -> (r: Self)
        ensures
            r@ == (BuilderData { version, ..self@ }),
    {
        TransactionBuilder { version, ..self }
    }

    /// Sets the lock time from a block height. Time-based lock times are
    /// unsupported, a deliberate narrowing: the height must lie below the
    /// time threshold.
    pub fn lock_time(self, height: u32) -> (r: Self)
        requires
            height < LOCK_TIME_THRESHOLD,
        ensures
            r@ == (BuilderData { lock_time: height, ..self@ }),
    {
        TransactionBuilder { lock_time: height, ..self }
    }

    /// Sets the designated return/change address.
    pub fn return_address(self, address: Address) -> (r: Self)
        ensures
            r@ == (BuilderData { return_address: Some(address), ..self@ }),
    {
        TransactionBuilder { return_address: Some(address), ..self }
    }

    /// Sets the miner fee in minimal units.
    pub fn miner_fee(self, satoshis: u64) -> (r: Self)
        ensures
            r@ == (BuilderData { miner_fee: Some(satoshis), ..self@ }),
    {
        TransactionBuilder { miner_fee: Some(satoshis), ..self }
    }

    /// Appends an input, marking the taproot flag where the input spends by
    /// a taproot condition.
    pub fn add_input(self, input: TxInput) -> (r: Self)
        requires
            self.wf(),
            input.wf(),
        ensures
            r.wf(),
            r@.inputs == self@.inputs.push(input),
            r@.version == self@.version,
            r@.lock_time == self@.lock_time,
            r@.outputs == self@.outputs,
            r@.miner_fee == self@.miner_fee,
            r@.return_address == self@.return_address,
    {
        let ghost pre = self@;
        let ghost newinp = input;
        let is_tr = match &input {
            TxInput::P2TRKeyPath { .. } => true,
            TxInput::P2TRScriptPath { .. } => true,
            _ => false,
        };
        let mut b = self;
        b.contains_taproot = b.contains_taproot || is_tr;
        b.inputs.push(input);
        proof {
            let olds = pre.inputs;
            let s2 = b.inputs@;
            assert(s2 == olds.push(newinp));
            assert(is_tr == newinp.is_taproot());
            if b.contains_taproot {
                if pre.contains_taproot {
                    let i = choose|i: int|
                        0 <= i < olds.len() && (#[trigger] olds[i]).is_taproot();
                    assert(s2[i] == olds[i]);
                    assert(s2[i].is_taproot());
                } else {
                    assert(s2[olds.len() as int] == newinp);
                    assert(s2[olds.len() as int].is_taproot());
                }
            }
            assert forall|i: int|
                0 <= i < s2.len() && (#[trigger] s2[i]).is_taproot() implies b.contains_taproot by {
                if i < olds.len() {
                    assert(s2[i] == olds[i]);
                    assert(olds[i].is_taproot());
                    assert(pre.contains_taproot);
                }
            }
            assert forall|i: int| 0 <= i < s2.len() implies (#[trigger] s2[i]).wf() by {
                if i < olds.len() {
                    assert(s2[i] == olds[i]);
                    assert(olds[i].wf());
                }
            }
            assert(b@.inputs == s2);
            assert(b@.contains_taproot == b.contains_taproot);
            assert(builder_wf(b@));
        }
        b
    }

    /// Appends an output.
    pub fn add_output(self, output: TxOutput) -> (r: Self)
        requires
            self.wf(),
        ensures
            r.wf(),
            r@ == (BuilderData { outputs: self@.outputs.push(output), ..self@ }),
    {
        let mut b = self;
        b.outputs.push(output);
        b
    }
}

/// What a digest-vector entry owes the input at its position: the expected
/// digest where the variant is signable, nothing where it is non-standard.
pub open spec fn digest_entry(
    version: i32,
    lock_time: u32,
    inputs: Seq<TxInput>,
    outputs: Seq<TxOutput>,
    index: int,
    d: Option<TransactionHash>,
) -> bool {
    match expected_digest(version, lock_time, inputs, outputs, index) {
        Some(bytes) => d matches Some(h) && h@ == bytes && h@.len() == 32,
        None => d is None,
    }
}

/// A verified byte-for-byte copy.
fn copy_bytes(v: &Vec<u8>) -> (r: Vec<u8>)
    ensures
        r@ == v@,
{
    let mut out: Vec<u8> = Vec::new();
    let mut i: usize = 0;
    while i < v.len()
        invariant
            0 <= i <= v@.len(),
            out@ == v@.subrange(0, i as int),
        decreases v@.len() - i,
    {
        out.push(v[i]);
        proof {
            assert(v@.subrange(0, i + 1) =~= v@.subrange(0, i as int).push(v@[i as int]));
        }
        i = i + 1;
    }
    proof {
        assert(v@.subrange(0, v@.len() as int) =~= v@);
    }
    out
}

/// Computes the digest owed to the input at `index` against the skeleton in
/// `shell`: the digest algorithm its variant names, or nothing for a
/// non-standard input.
fn compute_digest(
    shell: &TxShell,
    inputs: &Vec<TxInput>,
    prevouts: &Vec<(u64, Vec<u8>)>,
    index: usize,
) -> (r: Result<Option<TransactionHash>, Error>)
    requires
        shell_data(*shell).inputs.len() == inputs@.len(),
        index < inputs@.len(),
        inputs@[index as int].ctx_spec().value is Some,
        inputs@[index as int].is_taproot() ==> prevouts@.len() == inputs@.len(),
    ensures
        ({
            let tx = shell_data(*shell);
            let pv = prevouts_data(prevouts@);
            match inputs@[index as int] {
                TxInput::NonStandard { .. } => r matches Ok(d) && d is None,
                TxInput::P2PKH { ctx } => r matches Ok(d) && (d matches Some(h) && h@
                    == legacy_sighash_of(tx, index as int, ctx.script_pubkey@) && h@.len() == 32),
                TxInput::P2WPKH { ctx } => if is_p2wpkh_script(ctx.script_pubkey@) {
                    r matches Ok(d) && (d matches Some(h) && h@ == segwit_sighash_of(
                        tx,
                        index as int,
                        p2wpkh_script_code_spec(ctx.script_pubkey@),
                        ctx.value->Some_0,
                    ) && h@.len() == 32)
                } else {
                    r matches Err(e) && e == Error::ScriptCodeDerivationFailure
                },
                TxInput::P2TRKeyPath { .. } => r matches Ok(d) && (d matches Some(h) && h@
                    == taproot_key_sighash_of(tx, index as int, pv) && h@.len() == 32),
                TxInput::P2TRScriptPath { script, .. } => r matches Ok(d) && (d matches Some(h)
                    && h@ == taproot_script_sighash_of(
                    tx,
                    index as int,
                    pv,
                    tap_leaf_hash_of(script@),
                ) && h@.len() == 32),
            }
        }),
{
    let inp = &inputs[index];
    match inp {
        TxInput::P2PKH { ctx } => {
            match shell.legacy_sighash(index, &ctx.script_pubkey) {
                Some(d) => Ok(Some(TransactionHash::from_bytes(d))),
                None => Err(Error::SighashComputationFailure),
            }
        },
        TxInput::P2WPKH { ctx } => {
            match p2wpkh_script_code(&ctx.script_pubkey) {
                Some(code) => {
                    let value = match ctx.value {
                        Some(v) => v,
                        None => {
                            return Err(Error::MissingInputValue);
                        },
                    };
                    match shell.segwit_sighash(index, &code, value) {
                        Some(d) => Ok(Some(TransactionHash::from_bytes(d))),
                        None => Err(Error::SighashComputationFailure),
                    }
                },
                None => Err(Error::ScriptCodeDerivationFailure),
            }
        },
        TxInput::P2TRKeyPath { .. } => {
            match shell.taproot_key_sighash(index, prevouts) {
                Some(d) => Ok(Some(TransactionHash::from_bytes(d))),
                None => Err(Error::SighashComputationFailure),
            }
        },
        TxInput::P2TRScriptPath { script, .. } => {
            let leaf = tap_leaf_hash(script);
            match shell.taproot_script_sighash(index, prevouts, &leaf) {
                Some(d) => Ok(Some(TransactionHash::from_bytes(d))),
                None => Err(Error::SighashComputationFailure),
            }
        },
        TxInput::NonStandard { .. } => Ok(None),
    }
}

/// Runs every pre-signing check and, where they all pass, computes the
/// digest of every input against the common skeleton and, where any input is
/// a taproot variant, the full prevout set.
fn compute_all_digests(
    version: i32,
    lock_time: u32,
    inputs: &Vec<TxInput>,
    outputs: &Vec<TxOutput>,
    miner_fee: &Option<u64>,
    contains_taproot: bool,
) -> (r: Result<Vec<Option<TransactionHash>>, Error>)
    requires
        contains_taproot <==> exists|i: int|
            0 <= i < inputs@.len() && (#[trigger] inputs@[i]).is_taproot(),
        forall|i: int| 0 <= i < inputs@.len() ==> (#[trigger] inputs@[i]).wf(),
    ensures
        r matches Err(e) ==> validation_error(inputs@, outputs@, *miner_fee) == Some(e),
        r is Ok ==> validation_error(inputs@, outputs@, *miner_fee) is None,
        r matches Ok(ds) ==> ds@.len() == inputs@.len() && forall|i: int|
            0 <= i < inputs@.len() ==> digest_entry(
                version,
                lock_time,
                inputs@,
                outputs@,
                i,
                #[trigger] ds@[i],
            ),
{
    let n = inputs.len();

    // Every input must expose its value.
    let mut k: usize = 0;
    while k < n
        invariant
            0 <= k <= n,
            n == inputs@.len(),
            forall|j: int| 0 <= j < k ==> (#[trigger] inputs@[j]).ctx_spec().value is Some,
        decreases n - k,
    {
        if inputs[k].ctx().value.is_none() {
            return Err(Error::MissingInputValue);
        }
        k = k + 1;
    }
    assert(all_values_present(inputs@));

    // A fee must have been configured.
    let fee: u64 = match miner_fee {
        Some(f) => *f,
        None => {
            return Err(Error::MissingMinerFee);
        },
    };

    // Balance check: outputs plus fee must not exceed inputs. The sums are
    // carried in a wider type, which cannot overflow.
    let mut total_in: u128 = 0;
    let mut k: usize = 0;
    while k < n
        invariant
            0 <= k <= n,
            n == inputs@.len(),
            all_values_present(inputs@),
            total_in == sum_input_values(inputs@.subrange(0, k as int)),
        decreases n - k,
    {
        let v = match inputs[k].ctx().value {
            Some(v) => v,
            None => {
                return Err(Error::MissingInputValue);
            },
        };
        proof {
            assert(inputs@.subrange(0, k + 1).drop_last() =~= inputs@.subrange(0, k as int));
            assert(inputs@.subrange(0, k + 1).last() == inputs@[k as int]);
            lemma_sum_input_values_bound(inputs@.subrange(0, k + 1));
            assert((k as int + 1) * (u64::MAX as int) < 0x100000000000000000000000000000000)
                by (nonlinear_arith)
                requires
                    0 <= k as int + 1 <= 0x10000000000000000,
            ;
        }
        total_in = total_in + (v as u128);
        k = k + 1;
    }
    proof {
        assert(inputs@.subrange(0, n as int) =~= inputs@);
    }

    let m = outputs.len();
    let mut total_out: u128 = 0;
    let mut k: usize = 0;
    while k < m
        invariant
            0 <= k <= m,
            m == outputs@.len(),
            total_out == sum_output_values(outputs@.subrange(0, k as int)),
        decreases m - k,
    {
        let v = outputs[k].satoshis;
        proof {
            assert(outputs@.subrange(0, k + 1).drop_last() =~= outputs@.subrange(0, k as int));
            assert(outputs@.subrange(0, k + 1).last() == outputs@[k as int]);
            lemma_sum_output_values_bound(outputs@.subrange(0, k + 1));
            assert((k as int + 1) * (u64::MAX as int) < 0x100000000000000000000000000000000)
                by (nonlinear_arith)
                requires
                    0 <= k as int + 1 <= 0x10000000000000000,
            ;
        }
        total_out = total_out + (v as u128);
        k = k + 1;
    }
    proof {
        assert(outputs@.subrange(0, m as int) =~= outputs@);
    }
    proof {
        lemma_sum_output_values_bound(outputs@);
        assert((m as int) * (u64::MAX as int) + (u64::MAX as int)
            < 0x100000000000000000000000000000000) by (nonlinear_arith)
            requires
                0 <= m as int <= 0x10000000000000000,
        ;
    }
    if total_out + (fee as u128) > total_in {
        return Err(Error::InsufficientFunds);
    }

    // The common skeleton every digest is computed against.
    let mut shell = TxShell::new(version, lock_time);
    proof {
        assert(inputs@.subrange(0, 0).map_values(|i: TxInput| input_skeleton_data(i)) =~= Seq::<
            TxInData,
        >::empty());
    }
    let mut k: usize = 0;
    while k < n
        invariant
            0 <= k <= n,
            n == inputs@.len(),
            forall|j: int| 0 <= j < inputs@.len() ==> (#[trigger] inputs@[j]).wf(),
            shell_data(shell) == (TxData {
                version,
                lock_time,
                inputs: inputs@.subrange(0, k as int).map_values(
                    |i: TxInput| input_skeleton_data(i),
                ),
                outputs: Seq::empty(),
            }),
        decreases n - k,
    {
        let c = inputs[k].ctx();
        shell.push_input(&c.previous_output.txid, c.previous_output.index, c.sequence);
        proof {
            assert(inputs@.subrange(0, k + 1).map_values(|i: TxInput| input_skeleton_data(i))
                =~= inputs@.subrange(0, k as int).map_values(
                |i: TxInput| input_skeleton_data(i),
            ).push(input_skeleton_data(inputs@[k as int])));
        }
        k = k + 1;
    }
    proof {
        assert(inputs@.subrange(0, n as int) =~= inputs@);
        assert(outputs@.subrange(0, 0).map_values(|o: TxOutput| output_data(o)) =~= Seq::<
            TxOutData,
        >::empty());
    }
    let mut k: usize = 0;
    while k < m
        invariant
            0 <= k <= m,
            m == outputs@.len(),
            n == inputs@.len(),
            shell_data(shell) == (TxData {
                version,
                lock_time,
                inputs: inputs@.map_values(|i: TxInput| input_skeleton_data(i)),
                outputs: outputs@.subrange(0, k as int).map_values(|o: TxOutput| output_data(o)),
            }),
        decreases m - k,
    {
        let o = &outputs[k];
        shell.push_output(o.satoshis, &o.script_pubkey);
        proof {
            assert(outputs@.subrange(0, k + 1).map_values(|o: TxOutput| output_data(o))
                =~= outputs@.subrange(0, k as int).map_values(|o: TxOutput| output_data(o)).push(
                output_data(outputs@[k as int]),
            ));
        }
        k = k + 1;
    }
    proof {
        assert(outputs@.subrange(0, m as int) =~= outputs@);
        assert(shell_data(shell) == skeleton_of(version, lock_time, inputs@, outputs@));
    }

    // The taproot prevout set: every input's (value, script) pair, in input
    // order, built once and shared by every taproot digest.
    let mut prevouts: Vec<(u64, Vec<u8>)> = Vec::new();
    if contains_taproot {
        proof {
            assert(prevouts_data(prevouts@) =~= prevouts_of(inputs@.subrange(0, 0)));
        }
        let mut k: usize = 0;
        while k < n
            invariant
                0 <= k <= n,
                n == inputs@.len(),
                all_values_present(inputs@),
                prevouts@.len() == k,
                prevouts_data(prevouts@) == prevouts_of(inputs@.subrange(0, k as int)),
            decreases n - k,
        {
            let c = inputs[k].ctx();
            let v = match c.value {
                Some(v) => v,
                None => {
                    return Err(Error::MissingInputValue);
                },
            };
            let script = copy_bytes(&c.script_pubkey);
            prevouts.push((v, script));
            proof {
                assert(prevouts_data(prevouts@) =~= prevouts_of(
                    inputs@.subrange(0, k as int),
                ).push(prevout_data(inputs@[k as int])));
                assert(prevouts_of(inputs@.subrange(0, k + 1)) =~= prevouts_of(
                    inputs@.subrange(0, k as int),
                ).push(prevout_data(inputs@[k as int])));
            }
            k = k + 1;
        }
        proof {
            assert(inputs@.subrange(0, n as int) =~= inputs@);
        }
    }

    // One digest per input, in ascending input order.
    let mut digests: Vec<Option<TransactionHash>> = Vec::new();
    let mut k: usize = 0;
    while k < n
        invariant
            0 <= k <= n,
            n == inputs@.len(),
            all_values_present(inputs@),
            contains_taproot <==> exists|i: int|
                0 <= i < inputs@.len() && (#[trigger] inputs@[i]).is_taproot(),
            contains_taproot ==> prevouts@.len() == inputs@.len() && prevouts_data(prevouts@)
                == prevouts_of(inputs@),
            shell_data(shell) == skeleton_of(version, lock_time, inputs@, outputs@),
            *miner_fee == Some(fee),
            sum_output_values(outputs@) + fee <= sum_input_values(inputs@),
            digests@.len() == k,
            forall|j: int| 0 <= j < k ==> digest_entry(
                version,
                lock_time,
                inputs@,
                outputs@,
                j,
                #[trigger] digests@[j],
            ),
            forall|j: int| 0 <= j < k ==> !bad_segwit_script(#[trigger] inputs@[j]),
        decreases n - k,
    {
        proof {
            if inputs@[k as int].is_taproot() {
                assert(contains_taproot);
            }
            assert(skeleton_of(version, lock_time, inputs@, outputs@).inputs.len()
                == inputs@.len());
        }
        match compute_digest(&shell, inputs, &prevouts, k) {
            Ok(d) => {
                digests.push(d);
            },
            Err(e) => {
                proof {
                    assert(bad_segwit_script(inputs@[k as int]));
                    assert(has_bad_segwit_script(inputs@));
                }
                return Err(e);
            },
        }
        k = k + 1;
    }
    proof {
        assert(!has_bad_segwit_script(inputs@));
    }
    Ok(digests)
}


/// What the signed transaction owes the input at a position under the
/// closure-based signer: an untouched entry for a non-standard input;
/// otherwise a claim the signer returned for exactly the digest owed to this
/// input, spliced into the location the claim names.
pub open spec fn signed_entry_fn<F: Fn(&TxInput, &TransactionHash) -> Result<
    ClaimLocation,
    Error,
>>(
    signer: F,
    version: i32,
    lock_time: u32,
    inputs: Seq<TxInput>,
    outputs: Seq<TxOutput>,
    index: int,
    out: TxInData,
) -> bool {
    match expected_digest(version, lock_time, inputs, outputs, index) {
        None => untouched(inputs[index], out),
        Some(dbytes) => exists|h: TransactionHash, c: ClaimLocation|
            h@ == dbytes && #[trigger] call_ensures(
                signer,
                (&inputs[index], &h),
                Ok::<ClaimLocation, Error>(c),
            ) && claim_applied(inputs[index], c, out),
    }
}

/// What the signed transaction owes the input at a position under the
/// per-variant signer: outpoint and sequence carried over, and the claim
/// placed where the variant dictates — the script-signature field for a
/// legacy input, the witness stack for segwit and taproot inputs — while a
/// non-standard input stays untouched.
pub open spec fn variant_placement(inp: TxInput, out: TxInData) -> bool {
    &&& out.txid == inp.ctx_spec().previous_output.txid@
    &&& out.vout == inp.ctx_spec().previous_output.index
    &&& out.sequence == inp.ctx_spec().sequence
    &&& (inp is NonStandard ==> out.script_sig.len() == 0 && out.witness.len() == 0)
    &&& (inp is P2PKH ==> out.witness.len() == 0)
    &&& ((inp is P2WPKH || inp is P2TRKeyPath || inp is P2TRScriptPath) ==> out.script_sig.len()
        == 0)
}

impl TransactionBuilder {
    /// Signs every accumulated input with the given claim-producing
    /// function, consuming the builder: checks the balance, computes each
    /// input's digest, hands it to `signer`, and splices each returned claim
    /// into the location it names. Fails as a whole on the first error; no
    /// partially signed transaction is ever returned.
    pub fn sign_inputs_fn<F: Fn(&TxInput, &TransactionHash) -> Result<ClaimLocation, Error>>(
        self,
        signer: F,
    ) -> (r: Result<TransactionSigned, Error>)
        requires
            self.wf(),
            forall|inp: &TxInput, h: &TransactionHash| #[trigger] call_requires(
                signer,
                (inp, h),
            ),
        ensures
            validation_error(self@.inputs, self@.outputs, self@.miner_fee) matches Some(e) ==> r
                == Err::<TransactionSigned, Error>(e),
            r matches Err(e) ==> validation_error(self@.inputs, self@.outputs, self@.miner_fee)
                == Some(e) || e == Error::SignerFailure,
            (validation_error(self@.inputs, self@.outputs, self@.miner_fee) is None && (forall|
                inp: &TxInput,
                h: &TransactionHash,
                e: Error,
            |
                !call_ensures(signer, (inp, h), Err::<ClaimLocation, Error>(e)))) ==> r is Ok,
            (validation_error(self@.inputs, self@.outputs, self@.miner_fee) is None && (forall|
                i: int,
            |
                0 <= i < self@.inputs.len() ==> (#[trigger] self@.inputs[i]) is NonStandard))
                ==> r is Ok,
            r matches Ok(t) ==> ({
                &&& validation_error(self@.inputs, self@.outputs, self@.miner_fee) is None
                &&& t.wf()
                &&& t@.version == self@.version
                &&& t@.lock_time == self@.lock_time
                &&& t@.outputs == outputs_data(self@.outputs)
                &&& t@.inputs.len() == self@.inputs.len()
                &&& forall|i: int| 0 <= i < self@.inputs.len() ==> signed_entry_fn(
                    signer,
                    self@.version,
                    self@.lock_time,
                    self@.inputs,
                    self@.outputs,
                    i,
                    #[trigger] t@.inputs[i],
                )
            }),
    {
        let ghost bd = self@;
        let TransactionBuilder {
            version,
            lock_time,
            inputs,
            outputs,
            miner_fee,
            return_address: _,
            contains_taproot,
        } = self;
        let digests = match compute_all_digests(
            version,
            lock_time,
            &inputs,
            &outputs,
            &miner_fee,
            contains_taproot,
        ) {
            Ok(d) => d,
            Err(e) => {
                return Err(e);
            },
        };
        let n = inputs.len();
        let mut signed_inputs: Vec<SignedTxIn> = Vec::new();
        let mut i: usize = 0;
        while i < n
            invariant
                0 <= i <= n,
                n == inputs@.len(),
                digests@.len() == n,
                bd == self@,
                bd.inputs == inputs@,
                bd.outputs == outputs@,
                bd.version == version,
                bd.lock_time == lock_time,
                bd.miner_fee == miner_fee,
                validation_error(inputs@, outputs@, miner_fee) is None,
                forall|j: int| 0 <= j < inputs@.len() ==> (#[trigger] inputs@[j]).wf(),
                forall|j: int| 0 <= j < n ==> digest_entry(
                    version,
                    lock_time,
                    inputs@,
                    outputs@,
                    j,
                    #[trigger] digests@[j],
                ),
                forall|inp: &TxInput, h: &TransactionHash| #[trigger] call_requires(
                    signer,
                    (inp, h),
                ),
                signed_inputs@.len() == i,
                forall|j: int| 0 <= j < i ==> signed_entry_fn(
                    signer,
                    version,
                    lock_time,
                    inputs@,
                    outputs@,
                    j,
                    signed_txin_data(#[trigger] signed_inputs@[j]),
                ),
                forall|j: int| 0 <= j < i ==> (
                #[trigger] signed_inputs@[j]).previous_output.wf(),
            decreases n - i,
        {
            let inp = &inputs[i];
            let dref = &digests[i];
            let claim: Option<ClaimLocation> = match dref {
                Some(h) => {
                    match signer(inp, h) {
                        Ok(c) => Some(c),
                        Err(se) => {
                            proof {
                                assert(call_ensures(
                                    signer,
                                    (inp, h),
                                    Err::<ClaimLocation, Error>(se),
                                ));
                                assert(digests@[i as int] is Some);
                                assert(expected_digest(
                                    version,
                                    lock_time,
                                    inputs@,
                                    outputs@,
                                    i as int,
                                ) is Some);
                                assert(!(self@.inputs[i as int] is NonStandard));
                            }
                            return Err(Error::SignerFailure);
                        },
                    }
                },
                None => None,
            };
            let ghost gclaim = claim;
            let ctx = inp.ctx();
            let po = OutPoint {
                txid: copy_bytes(&ctx.previous_output.txid),
                index: ctx.previous_output.index,
            };
            let (script_sig, witness): (Vec<u8>, Vec<Vec<u8>>) = match claim {
                Some(ClaimLocation::Script(s)) => (s, Vec::new()),
                Some(ClaimLocation::Witness(w)) => (Vec::new(), w),
                None => (Vec::new(), Vec::new()),
            };
            let sin = SignedTxIn {
                previous_output: po,
                sequence: ctx.sequence,
                script_sig,
                witness,
            };
            signed_inputs.push(sin);
            proof {
                let out = signed_txin_data(signed_inputs@[i as int]);
                assert(out.witness.len() == signed_inputs@[i as int].witness@.len());
                match expected_digest(version, lock_time, inputs@, outputs@, i as int) {
                    None => {
                        assert(untouched(inputs@[i as int], out));
                    },
                    Some(dbytes) => {
                        let hval = digests@[i as int]->Some_0;
                        let cval = gclaim->Some_0;
                        assert(hval@ == dbytes);
                        assert(call_ensures(
                            signer,
                            (&inputs@[i as int], &hval),
                            Ok::<ClaimLocation, Error>(cval),
                        ));
                        assert(claim_applied(inputs@[i as int], cval, out));
                        assert(signed_entry_fn(
                            signer,
                            version,
                            lock_time,
                            inputs@,
                            outputs@,
                            i as int,
                            out,
                        ));
                    },
                }
            }
            i = i + 1;
        }
        let t = TransactionSigned { version, lock_time, inputs: signed_inputs, outputs };
        proof {
            assert(t@.outputs == outputs_data(bd.outputs));
            assert(t@.inputs.len() == bd.inputs.len());
            assert forall|j: int| 0 <= j < bd.inputs.len() implies signed_entry_fn(
                signer,
                bd.version,
                bd.lock_time,
                bd.inputs,
                bd.outputs,
                j,
                #[trigger] t@.inputs[j],
            ) by {
                assert(t@.inputs[j] == signed_txin_data(t.inputs@[j]));
            }
            assert(t.wf());
        }
        Ok(t)
    }

    /// Signs every accumulated input with the given per-variant signer,
    /// consuming the builder. Legacy inputs receive a script claim, segwit
    /// and taproot inputs a witness claim, non-standard inputs are skipped
    /// and stay untouched. Fails as a whole on the first error.
    pub fn sign_inputs<S: TransactionSigner>(self, signer: S) -> (r: Result<
        TransactionSigned,
        Error,
    >)
        requires
            self.wf(),
        ensures
            validation_error(self@.inputs, self@.outputs, self@.miner_fee) matches Some(e) ==> r
                == Err::<TransactionSigned, Error>(e),
            r matches Err(e) ==> validation_error(self@.inputs, self@.outputs, self@.miner_fee)
                == Some(e) || e == Error::SignerFailure,
            (validation_error(self@.inputs, self@.outputs, self@.miner_fee) is None && (forall|
                i: int,
            |
                0 <= i < self@.inputs.len() ==> (#[trigger] self@.inputs[i]) is NonStandard))
                ==> r is Ok,
            r matches Ok(t) ==> ({
                &&& validation_error(self@.inputs, self@.outputs, self@.miner_fee) is None
                &&& t.wf()
                &&& t@.version == self@.version
                &&& t@.lock_time == self@.lock_time
                &&& t@.outputs == outputs_data(self@.outputs)
                &&& t@.inputs.len() == self@.inputs.len()
                &&& forall|i: int| 0 <= i < self@.inputs.len() ==> variant_placement(
                    self@.inputs[i],
                    #[trigger] t@.inputs[i],
                )
            }),
    {
        let ghost bd = self@;
        let TransactionBuilder {
            version,
            lock_time,
            inputs,
            outputs,
            miner_fee,
            return_address: _,
            contains_taproot,
        } = self;
        let digests = match compute_all_digests(
            version,
            lock_time,
            &inputs,
            &outputs,
            &miner_fee,
            contains_taproot,
        ) {
            Ok(d) => d,
            Err(e) => {
                return Err(e);
            },
        };
        let n = inputs.len();
        let mut signed_inputs: Vec<SignedTxIn> = Vec::new();
        let mut i: usize = 0;
        while i < n
            invariant
                0 <= i <= n,
                n == inputs@.len(),
                digests@.len() == n,
                bd == self@,
                bd.inputs == inputs@,
                bd.outputs == outputs@,
                bd.version == version,
                bd.lock_time == lock_time,
                bd.miner_fee == miner_fee,
                validation_error(inputs@, outputs@, miner_fee) is None,
                forall|j: int| 0 <= j < inputs@.len() ==> (#[trigger] inputs@[j]).wf(),
                forall|j: int| 0 <= j < n ==> digest_entry(
                    version,
                    lock_time,
                    inputs@,
                    outputs@,
                    j,
                    #[trigger] digests@[j],
                ),
                signed_inputs@.len() == i,
                forall|j: int| 0 <= j < i ==> variant_placement(
                    inputs@[j],
                    signed_txin_data(#[trigger] signed_inputs@[j]),
                ),
                forall|j: int| 0 <= j < i ==> (
                #[trigger] signed_inputs@[j]).previous_output.wf(),
            decreases n - i,
        {
            let inp = &inputs[i];
            let dref = &digests[i];
            let (script_sig, witness): (Vec<u8>, Vec<Vec<u8>>) = match inp {
                TxInput::P2PKH { ctx } => {
                    let h = match dref {
                        Some(h) => h,
                        None => {
                            return Err(Error::SighashComputationFailure);
                        },
                    };
                    match signer.claim_p2pkh(ctx, h, SighashType::All) {
                        Ok(s) => (s, Vec::new()),
                        Err(_) => {
                            return Err(Error::SignerFailure);
                        },
                    }
                },
                TxInput::P2WPKH { ctx } => {
                    let h = match dref {
                        Some(h) => h,
                        None => {
                            return Err(Error::SighashComputationFailure);
                        },
                    };
                    match signer.claim_p2wpkh(ctx, h, SighashType::All) {
                        Ok(w) => (Vec::new(), w),
                        Err(_) => {
                            return Err(Error::SignerFailure);
                        },
                    }
                },
                TxInput::P2TRKeyPath { ctx } => {
                    let h = match dref {
                        Some(h) => h,
                        None => {
                            return Err(Error::SighashComputationFailure);
                        },
                    };
                    match signer.claim_p2tr_key_path(ctx, h, SighashType::DefaultTaproot) {
                        Ok(w) => (Vec::new(), w),
                        Err(_) => {
                            return Err(Error::SignerFailure);
                        },
                    }
                },
                TxInput::P2TRScriptPath { ctx, script, control_block } => {
                    let h = match dref {
                        Some(h) => h,
                        None => {
                            return Err(Error::SighashComputationFailure);
                        },
                    };
                    match signer.claim_p2tr_script_path(
                        ctx,
                        script,
                        control_block,
                        h,
                        SighashType::DefaultTaproot,
                    ) {
                        Ok(w) => (Vec::new(), w),
                        Err(_) => {
                            return Err(Error::SignerFailure);
                        },
                    }
                },
                TxInput::NonStandard { .. } => (Vec::new(), Vec::new()),
            };
            let ctx = inp.ctx();
            let po = OutPoint {
                txid: copy_bytes(&ctx.previous_output.txid),
                index: ctx.previous_output.index,
            };
            let sin = SignedTxIn {
                previous_output: po,
                sequence: ctx.sequence,
                script_sig,
                witness,
            };
            signed_inputs.push(sin);
            proof {
                let out = signed_txin_data(signed_inputs@[i as int]);
                assert(out.witness.len() == signed_inputs@[i as int].witness@.len());
                assert(variant_placement(inputs@[i as int], out));
            }
            i = i + 1;
        }
        let t = TransactionSigned { version, lock_time, inputs: signed_inputs, outputs };
        proof {
            assert(t@.outputs == outputs_data(bd.outputs));
            assert(t@.inputs.len() == bd.inputs.len());
            assert forall|j: int| 0 <= j < bd.inputs.len() implies variant_placement(
                bd.inputs[j],
                #[trigger] t@.inputs[j],
            ) by {
                assert(t@.inputs[j] == signed_txin_data(t.inputs@[j]));
            }
            assert(t.wf());
        }
        Ok(t)
    }
}



} // verus!
