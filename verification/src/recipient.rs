//! Key-material holders and address derivation: from a compressed public key
//! to its legacy, segwit and taproot address forms.

use vstd::prelude::*;
use crate::types::Network;

verus! {

/// The 20-byte RIPEMD160-of-SHA256 digest of the given bytes.
pub uninterp spec fn hash160_of(data: Seq<u8>) -> Seq<u8>;

/// The x-only taproot output key obtained by tweaking the given compressed
/// public key with the given Merkle-root commitment (or none).
pub uninterp spec fn tweaked_key_of(pubkey: Seq<u8>, merkle_root: Option<Seq<u8>>) -> Seq<u8>;

/// Whether the bytes encode a point on the curve, i.e. parse as a public key.
pub uninterp spec fn is_valid_pubkey(bytes: Seq<u8>) -> bool;

/// The base58check form of a legacy pay-to-pubkey-hash address.
pub uninterp spec fn p2pkh_address_chars_of(hash: Seq<u8>, network: Network) -> Seq<char>;

/// The bech32 form of a segwit v0 pay-to-witness-pubkey-hash address.
pub uninterp spec fn p2wpkh_address_chars_of(hash: Seq<u8>, network: Network) -> Seq<char>;

/// The bech32m form of a taproot address for the given output key.
pub uninterp spec fn p2tr_address_chars_of(output_key: Seq<u8>, network: Network) -> Seq<char>;

/// The view of an optional byte vector.
pub open spec fn opt_bytes(m: Option<Vec<u8>>) -> Option<Seq<u8>> {
    match m {
        Some(v) => Some(v@),
        None => None,
    }
}

#[verifier::external_type_specification]
#[verifier::external_body]
pub struct ExKeyPair(bitcoin::key::KeyPair);

/// A compressed public key: 33 bytes whose first byte is 0x02 or 0x03.
#[derive(Debug, Clone)]
pub struct PublicKey {
    /// The compressed 33-byte encoding.
    pub bytes: Vec<u8>,
}

impl PublicKey {
    /// The key is in compressed form (uncompressed keys are out of scope:
    /// witness and taproot derivation require compression).
    pub open spec fn wf(&self) -> bool {
        self.bytes@.len() == 33 && (self.bytes@[0] == 2 || self.bytes@[0] == 3)
    }
}

/// Key material for a taproot script-path recipient: the inner key and the
/// 32-byte Merkle-root commitment of the script tree.
#[derive(Debug, Clone)]
pub struct TaprootScript {
    pub pubkey: PublicKey,
    pub merkle_root: Vec<u8>,
}

impl TaprootScript {
    pub open spec fn wf(&self) -> bool {
        self.pubkey.wf() && self.merkle_root@.len() == 32
    }
}

/// A derived address: the network it is for and the payload that the
/// spending condition commits to.
#[derive(Debug, Clone)]
pub enum AddressPayload {
    /// Legacy pay-to-pubkey-hash: a 20-byte key hash.
    PubkeyHash(Vec<u8>),
    /// Segwit v0 pay-to-witness-pubkey-hash: a 20-byte key hash.
    WitnessPubkeyHash(Vec<u8>),
    /// Taproot: a 32-byte tweaked output key.
    TaprootKey(Vec<u8>),
}

/// An address object: network selector plus payload.
#[derive(Debug, Clone)]
pub struct Address {
    pub network: Network,
    pub payload: AddressPayload,
}

/// A key-material holder parameterized by spending-condition variant.
/// Constructed once from key material and immutable thereafter.
#[derive(Debug, Clone)]
pub struct Recipient<T> {
    t: T,
}

/// Relies on `bitcoin::key::KeyPair::public_key` and
/// `bitcoin::PublicKey::new`/`to_bytes`: the compressed 33-byte encoding of
/// the keypair's public key, which always parses back as a valid key.
#[verifier::external_body]
fn keypair_pubkey_bytes(keypair: &bitcoin::key::KeyPair) -> (r: Vec<u8>)
    ensures
        r@.len() == 33,
        r@[0] == 2 || r@[0] == 3,
        is_valid_pubkey(r@),
{
    bitcoin::PublicKey::new(keypair.public_key()).to_bytes()
}

/// Relies on `bitcoin::hashes::hash160::Hash::hash`: the 20-byte
/// RIPEMD160-of-SHA256 digest.
#[verifier::external_body]
fn hash160(data: &Vec<u8>) -> (r: Vec<u8>)
    ensures
        r@ == hash160_of(data@),
        r@.len() == 20,
{
    let h = <bitcoin::hashes::hash160::Hash as bitcoin::hashes::Hash>::hash(data);
    bitcoin::hashes::Hash::to_byte_array(h).to_vec()
}

/// Relies on `bitcoin::key::XOnlyPublicKey::from_slice` and
/// `bitcoin::key::TapTweak::tap_tweak`: the x-only taproot output key for the
/// given compressed key and optional Merkle root; fails only where the key
/// bytes do not encode a curve point.
#[verifier::external_body]
fn tap_tweak_key(pubkey: &Vec<u8>, merkle_root: &Option<Vec<u8>>) -> (r: Option<Vec<u8>>)
    requires
        pubkey@.len() == 33,
        merkle_root matches Some(m) ==> m@.len() == 32,
    ensures
        r matches Some(k) ==> k@ == tweaked_key_of(pubkey@, opt_bytes(*merkle_root)) && k@.len()
            == 32,
        is_valid_pubkey(pubkey@) ==> r is Some,
{
    let x = match bitcoin::key::XOnlyPublicKey::from_slice(&pubkey[1..33]) {
        Ok(x) => x,
        Err(_) => return None,
    };
    let mr = merkle_root.as_ref().map(|m| {
        let arr: [u8; 32] = m.clone().try_into().expect("merkle root is 32 bytes");
        <bitcoin::taproot::TapNodeHash as bitcoin::hashes::Hash>::from_byte_array(arr)
    });
    let secp = bitcoin::secp256k1::Secp256k1::new();
    let (tweaked, _parity) = bitcoin::key::TapTweak::tap_tweak(x, &secp, mr);
    Some(tweaked.to_inner().serialize().to_vec())
}

/// Relies on `bitcoin::Address::new` with a `PubkeyHash` payload and its
/// string form: the base58check encoding of a legacy address.
#[verifier::external_body]
fn p2pkh_address_string(hash: &Vec<u8>, network: &Network) -> (r: String)
    requires
        hash@.len() == 20,
    ensures
        r@ == p2pkh_address_chars_of(hash@, *network),
{
    let h = <bitcoin::PubkeyHash as bitcoin::hashes::Hash>::from_slice(hash)
        .expect("hash is 20 bytes");
    let n = match network {
        Network::Mainnet => bitcoin::Network::Bitcoin,
        Network::Testnet => bitcoin::Network::Testnet,
        Network::Signet => bitcoin::Network::Signet,
        Network::Regtest => bitcoin::Network::Regtest,
    };
    let a: bitcoin::Address = bitcoin::Address::new(n, bitcoin::address::Payload::PubkeyHash(h));
    a.to_string()
}

/// Relies on `bitcoin::Address::new` with a v0 witness program of the 20-byte
/// key hash and its string form: the bech32 encoding of a segwit address.
#[verifier::external_body]
fn p2wpkh_address_string(hash: &Vec<u8>, network: &Network) -> (r: String)
    requires
        hash@.len() == 20,
    ensures
        r@ == p2wpkh_address_chars_of(hash@, *network),
{
    let program = bitcoin::address::WitnessProgram::new(
        bitcoin::address::WitnessVersion::V0,
        hash.clone(),
    ).expect("a 20-byte v0 program is well-formed");
    let n = match network {
        Network::Mainnet => bitcoin::Network::Bitcoin,
        Network::Testnet => bitcoin::Network::Testnet,
        Network::Signet => bitcoin::Network::Signet,
        Network::Regtest => bitcoin::Network::Regtest,
    };
    let a: bitcoin::Address = bitcoin::Address::new(n,
        bitcoin::address::Payload::WitnessProgram(program));
    a.to_string()
}

/// Relies on `bitcoin::Address::new` with a v1 witness program of the 32-byte
/// output key and its string form: the bech32m encoding of a taproot address.
#[verifier::external_body]
fn p2tr_address_string(output_key: &Vec<u8>, network: &Network) -> (r: String)
    requires
        output_key@.len() == 32,
    ensures
        r@ == p2tr_address_chars_of(output_key@, *network),
{
    let program = bitcoin::address::WitnessProgram::new(
        bitcoin::address::WitnessVersion::V1,
        output_key.clone(),
    ).expect("a 32-byte v1 program is well-formed");
    let n = match network {
        Network::Mainnet => bitcoin::Network::Bitcoin,
        Network::Testnet => bitcoin::Network::Testnet,
        Network::Signet => bitcoin::Network::Signet,
        Network::Regtest => bitcoin::Network::Regtest,
    };
    let a: bitcoin::Address = bitcoin::Address::new(n,
        bitcoin::address::Payload::WitnessProgram(program));
    a.to_string()
}

impl Recipient<PublicKey> {
    /// The compressed key bytes held by this recipient.
    pub closed spec fn key_spec(&self) -> Seq<u8> {
        self.t.bytes@
    }

    pub closed spec fn wf(&self) -> bool {
        self.t.wf()
    }

    /// Derives the recipient from a keypair; the held key is always the
    /// compressed, valid encoding of the keypair's public key.
    pub fn from_keypair(keypair: &bitcoin::key::KeyPair) -> (r: Self)
        ensures
            r.wf(),
            is_valid_pubkey(r.key_spec()),
    {
        Recipient { t: PublicKey { bytes: keypair_pubkey_bytes(keypair) } }
    }

    pub fn public_key(&self) -> (r: &PublicKey)
        ensures
            r.bytes@ == self.key_spec(),
    {
        &self.t
    }

    /// The 20-byte legacy pubkey hash of the held key.
    pub fn pubkey_hash(&self) -> (r: Vec<u8>)
        ensures
            r@ == hash160_of(self.key_spec()),
            r@.len() == 20,
    {
        hash160(&self.t.bytes)
    }

    /// The 20-byte witness pubkey hash; the same digest, defined because the
    /// held key is always compressed.
    pub fn wpubkey_hash(&self) -> (r: Vec<u8>)
        requires
            self.wf(),
        ensures
            r@ == hash160_of(self.key_spec()),
            r@.len() == 20,
    {
        hash160(&self.t.bytes)
    }

    /// The taproot output key: the held key tweaked with no script
    /// commitment. Returns `None` only where the key bytes do not encode a
    /// curve point, which construction from a keypair rules out.
    pub fn tweaked_pubkey(&self) -> (r: Option<Vec<u8>>)
        requires
            self.wf(),
        ensures
            r matches Some(k) ==> k@ == tweaked_key_of(self.key_spec(), None) && k@.len() == 32,
            is_valid_pubkey(self.key_spec()) ==> r is Some,
    {
        tap_tweak_key(&self.t.bytes, &None)
    }

    /// The untweaked x-only key: the x coordinate of the compressed key,
    /// i.e. its encoding with the parity byte dropped.
    pub fn untweaked_pubkey(&self) -> (r: Vec<u8>)
        requires
            self.wf(),
        ensures
            r@ == self.key_spec().subrange(1, 33),
    {
        let mut out: Vec<u8> = Vec::new();
        let mut i: usize = 1;
        while i < 33
            invariant
                1 <= i <= 33,
                self.t.bytes@.len() == 33,
                out@ == self.t.bytes@.subrange(1, i as int),
            decreases 33 - i,
        {
            out.push(self.t.bytes[i]);
            assert(self.t.bytes@.subrange(1, i + 1) == self.t.bytes@.subrange(1, i as int).push(
                self.t.bytes@[i as int],
            ));
            i = i + 1;
        }
        out
    }

    /// The legacy pay-to-pubkey-hash address of the held key.
    pub fn legacy_address(&self, network: Network) -> (r: Address)
        ensures
            r.network == network,
            r.payload matches AddressPayload::PubkeyHash(h) && h@ == hash160_of(self.key_spec()),
    {
        Address { network, payload: AddressPayload::PubkeyHash(self.pubkey_hash()) }
    }

    /// The segwit pay-to-witness-pubkey-hash address of the held key.
    pub fn segwit_address(&self, network: Network) -> (r: Address)
        requires
            self.wf(),
        ensures
            r.network == network,
            r.payload matches AddressPayload::WitnessPubkeyHash(h) && h@ == hash160_of(
                self.key_spec(),
            ),
    {
        Address { network, payload: AddressPayload::WitnessPubkeyHash(self.wpubkey_hash()) }
    }

    /// The taproot address of the held key, tweaked with no script
    /// commitment. `None` only for key bytes that encode no curve point.
    pub fn taproot_address(&self, network: Network) -> (r: Option<Address>)
        requires
            self.wf(),
        ensures
            r matches Some(a) ==> a.network == network && (a.payload matches
                AddressPayload::TaprootKey(k) && k@ == tweaked_key_of(self.key_spec(), None)),
            is_valid_pubkey(self.key_spec()) ==> r is Some,
    {
        match self.tweaked_pubkey() {
            Some(k) => Some(Address { network, payload: AddressPayload::TaprootKey(k) }),
            None => None,
        }
    }

    /// The base58check string form of the legacy address.
    pub fn legacy_address_string(&self, network: Network) -> (r: String)
        ensures
            r@ == p2pkh_address_chars_of(hash160_of(self.key_spec()), network),
    {
        let h = self.pubkey_hash();
        p2pkh_address_string(&h, &network)
    }

    /// The bech32 string form of the segwit address.
    pub fn segwit_address_string(&self, network: Network) -> (r: String)
        requires
            self.wf(),
        ensures
            r@ == p2wpkh_address_chars_of(hash160_of(self.key_spec()), network),
    {
        let h = self.wpubkey_hash();
        p2wpkh_address_string(&h, &network)
    }

    /// The bech32m string form of the taproot address. `None` only for key
    /// bytes that encode no curve point.
    pub fn taproot_address_string(&self, network: Network) -> (r: Option<String>)
        requires
            self.wf(),
        ensures
            r matches Some(s) ==> s@ == p2tr_address_chars_of(
                tweaked_key_of(self.key_spec(), None),
                network,
            ),
            is_valid_pubkey(self.key_spec()) ==> r is Some,
    {
        match self.tweaked_pubkey() {
            Some(k) => Some(p2tr_address_string(&k, &network)),
            None => None,
        }
    }
}

impl Recipient<TaprootScript> {
    pub closed spec fn key_spec(&self) -> Seq<u8> {
        self.t.pubkey.bytes@
    }

    pub closed spec fn merkle_root_spec(&self) -> Seq<u8> {
        self.t.merkle_root@
    }

    pub closed spec fn wf(&self) -> bool {
        self.t.wf()
    }

    /// Derives the recipient from a keypair and the 32-byte Merkle root the
    /// script tree commits to.
    pub fn from_keypair(keypair: &bitcoin::key::KeyPair, merkle_root: Vec<u8>) -> (r: Self)
        requires
            merkle_root@.len() == 32,
        ensures
            r.wf(),
            r.merkle_root_spec() == merkle_root@,
            is_valid_pubkey(r.key_spec()),
    {
        Recipient {
            t: TaprootScript { pubkey: PublicKey { bytes: keypair_pubkey_bytes(keypair) }, merkle_root },
        }
    }

    /// Reuses a plain-key recipient's key material, adding the Merkle root.
    pub fn from_pubkey_recipient(recipient: Recipient<PublicKey>, merkle_root: Vec<u8>) -> (r:
        Self)
        requires
            recipient.wf(),
            merkle_root@.len() == 32,
        ensures
            r.wf(),
            r.key_spec() == recipient.key_spec(),
            r.merkle_root_spec() == merkle_root@,
    {
        Recipient { t: TaprootScript { pubkey: recipient.t, merkle_root } }
    }

    /// The untweaked x-only key: the compressed key with its parity byte
    /// dropped.
    pub fn untweaked_pubkey(&self) -> (r: Vec<u8>)
        requires
            self.wf(),
        ensures
            r@ == self.key_spec().subrange(1, 33),
    {
        let mut out: Vec<u8> = Vec::new();
        let mut i: usize = 1;
        while i < 33
            invariant
                1 <= i <= 33,
                self.t.pubkey.bytes@.len() == 33,
                out@ == self.t.pubkey.bytes@.subrange(1, i as int),
            decreases 33 - i,
        {
            out.push(self.t.pubkey.bytes[i]);
            assert(self.t.pubkey.bytes@.subrange(1, i + 1) == self.t.pubkey.bytes@.subrange(
                1,
                i as int,
            ).push(self.t.pubkey.bytes@[i as int]));
            i = i + 1;
        }
        out
    }

    /// The committed Merkle root.
    pub fn merkle_root(&self) -> (r: &Vec<u8>)
        ensures
            r@ == self.merkle_root_spec(),
    {
        &self.t.merkle_root
    }
}

} // verus!
