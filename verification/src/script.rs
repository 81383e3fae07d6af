//! Script-code derivation for segwit v0 signing (the BIP143 script code of a
//! pay-to-witness-pubkey-hash output).

use vstd::prelude::*;

verus! {

/// `OP_0`: witness version 0.
pub const OP_PUSHBYTES_0: u8 = 0x00;
/// Push of 20 bytes.
pub const OP_PUSHBYTES_20: u8 = 0x14;
pub const OP_DUP: u8 = 0x76;
pub const OP_HASH160: u8 = 0xa9;
pub const OP_EQUALVERIFY: u8 = 0x88;
pub const OP_CHECKSIG: u8 = 0xac;

/// Whether a script pubkey is of the pay-to-witness-pubkey-hash form:
/// `OP_0 PUSH20 <20-byte key hash>`.
pub open spec fn is_p2wpkh_script(s: Seq<u8>) -> bool {
    s.len() == 22 && s[0] == OP_PUSHBYTES_0 && s[1] == OP_PUSHBYTES_20
}

/// The BIP143 script code of a pay-to-witness-pubkey-hash script pubkey:
/// `OP_DUP OP_HASH160 PUSH20 <key hash> OP_EQUALVERIFY OP_CHECKSIG`.
pub open spec fn p2wpkh_script_code_spec(s: Seq<u8>) -> Seq<u8> {
    seq![OP_DUP, OP_HASH160, OP_PUSHBYTES_20] + s.subrange(2, 22) + seq![
        OP_EQUALVERIFY,
        OP_CHECKSIG,
    ]
}

/// Derives the segwit v0 script code from a script pubkey, or `None` where
/// the script is not of the pay-to-witness-pubkey-hash form.
pub fn p2wpkh_script_code(s: &Vec<u8>) -> (r: Option<Vec<u8>>)
    ensures
        r is Some <==> is_p2wpkh_script(s@),
        r matches Some(code) ==> code@ == p2wpkh_script_code_spec(s@),
{
    if s.len() == 22 && s[0] == OP_PUSHBYTES_0 && s[1] == OP_PUSHBYTES_20 {
        let mut code: Vec<u8> = Vec::new();
        code.push(OP_DUP);
        code.push(OP_HASH160);
        code.push(OP_PUSHBYTES_20);
        let mut i: usize = 2;
        while i < 22
            invariant
                2 <= i <= 22,
                s@.len() == 22,
                code@ == seq![OP_DUP, OP_HASH160, OP_PUSHBYTES_20] + s@.subrange(2, i as int),
            decreases 22 - i,
        {
            code.push(s[i]);
            assert(s@.subrange(2, i + 1) == s@.subrange(2, i as int).push(s@[i as int]));
            i = i + 1;
        }
        code.push(OP_EQUALVERIFY);
        code.push(OP_CHECKSIG);
        assert(code@ == p2wpkh_script_code_spec(s@));
        Some(code)
    } else {
        None
    }
}

} // verus!
