//! The node's network key: a secp256k1 secret key, loaded from the key file
//! when that file holds a valid one, generated afresh otherwise.

use vstd::prelude::*;

use libp2p::noise::Config as NoiseConfig;

verus! {

/// The error libp2p gives for bytes that do not decode as a key.
#[verifier::external_type_specification]
#[verifier::external_body]
pub struct ExDecodingError(libp2p::identity::DecodingError);

/// An identity key pair of libp2p.
#[verifier::external_type_specification]
#[verifier::external_body]
pub struct ExKeypair(libp2p::identity::Keypair);

/// A peer id of libp2p.
#[verifier::external_type_specification]
#[verifier::external_body]
pub struct ExPeerId(libp2p::PeerId);

/// The value of a byte string read as a big-endian unsigned integer.
pub open spec fn big_endian_value(s: Seq<u8>) -> nat
    decreases s.len(),
{
    if s.len() == 0 {
        0
    } else {
        big_endian_value(s.drop_last()) * 256 + s.last() as nat
    }
}

/// The order of the secp256k1 group.
pub open spec fn secp256k1_order() -> nat {
    0xFFFFFFFFFFFFFFFFFFFFFFFFFFFFFFFEBAAEDCE6AF48A03BBFD25E8CD0364141nat
}

/// 32 bytes are a secp256k1 secret key when, read as a big-endian integer,
/// they lie strictly between 0 and the group order.
pub open spec fn is_secret_key(s: Seq<u8>) -> bool {
    &&& s.len() == 32
    &&& 0 < big_endian_value(s)
    &&& big_endian_value(s) < secp256k1_order()
}

/// The identity key pair of libp2p for the secp256k1 secret key whose
/// big-endian bytes are `secret` (its public key is derived from it).
pub uninterp spec fn secp256k1_keypair(secret: Seq<u8>) -> libp2p::identity::Keypair;

/// The peer id of the identity key pair `secp256k1_keypair(secret)`: a hash
/// of its encoded public key.
pub uninterp spec fn secp256k1_peer_id(secret: Seq<u8>) -> libp2p::PeerId;

/// `secp256k1::SecretKey::try_from_bytes`, its key turned into an identity key
/// pair (`secp256k1::Keypair::from`, `identity::Keypair::from`). libp2p
/// accepts exactly the big-endian scalars in `1 .. n` (k256's
/// `SecretKey::from_bytes`); the key pair is the one of that secret key.
#[verifier::external_body]
fn secp256k1_keypair_from_bytes(
    bytes: [u8; 32],
) -> (r: Result<libp2p::identity::Keypair, libp2p::identity::DecodingError>)
    ensures
        r is Ok <==> is_secret_key(bytes@),
        r matches Ok(keypair) ==> keypair == secp256k1_keypair(bytes@),
{
    let mut buffer = bytes;
    match libp2p::identity::secp256k1::SecretKey::try_from_bytes(&mut buffer) {
        Ok(secret) => Ok(
            libp2p::identity::Keypair::from(libp2p::identity::secp256k1::Keypair::from(secret)),
        ),
        Err(e) => Err(e),
    }
}

/// `secp256k1::SecretKey::generate`, then `SecretKey::to_bytes`: a random
/// secret key as its big-endian bytes. The key is a non-zero scalar below the
/// group order (k256's `NonZeroScalar`); which one it is, chance decides.
#[verifier::external_body]
fn generate_secret_key_bytes() -> (r: [u8; 32])
    ensures
        is_secret_key(r@),
{
    libp2p::identity::secp256k1::SecretKey::generate().to_bytes()
}

/// `PeerId::from(keypair.public())`: the peer id depends on the key pair
/// alone, so the peer id of the key pair of a secret key is that secret key's
/// peer id. A secp256k1 public key is encoded in 37 bytes, which libp2p puts
/// into the peer id as they are (an identity multihash, for encodings of at
/// most 42 bytes); distinct secret keys have distinct public keys, so the
/// peer id of a secret key is that of no other.
#[verifier::external_body]
fn peer_id_of_keypair(keypair: &libp2p::identity::Keypair) -> (id: libp2p::PeerId)
    ensures
        forall|secret: Seq<u8>|
            #[trigger] secp256k1_keypair(secret) == *keypair ==> id == secp256k1_peer_id(secret),
        forall|secret: Seq<u8>, other: Seq<u8>|
            #[trigger] secp256k1_keypair(secret) == *keypair && is_secret_key(secret)
                && is_secret_key(other) && other != secret ==> id != #[trigger] secp256k1_peer_id(other),
{
    libp2p::PeerId::from(keypair.public())
}

/// The node's network key: the 32 big-endian bytes of a secp256k1 secret key,
/// and whether those bytes are the ones the secp256k1 generator drew for it
/// (rather than bytes read back, e.g. from the key file).
pub struct NetworkKey {
    secret: [u8; 32],
    drawn: Ghost<bool>,
}

impl View for NetworkKey {
    type V = Seq<u8>;

    closed spec fn view(&self) -> Seq<u8> {
        self.secret@
    }
}

impl NetworkKey {
    #[verifier::type_invariant]
    spec fn holds_secret_key(self) -> bool {
        is_secret_key(self.secret@)
    }

    /// The key's bytes were drawn by the secp256k1 generator when the key was
    /// made (only `generate` makes such a key).
    pub closed spec fn was_generated(&self) -> bool {
        self.drawn@
    }

    /// A fresh random key: the bytes the secp256k1 generator draws.
    pub fn generate() -> (key: NetworkKey)
        ensures
            is_secret_key(key@),
            key.was_generated(),
    {
        NetworkKey { secret: generate_secret_key_bytes(), drawn: Ghost(true) }
    }

    /// The key whose bytes are `bytes`, if they are a secp256k1 secret key;
    /// libp2p decides.
    pub fn from_bytes(bytes: [u8; 32]) -> (key: Option<NetworkKey>)
        ensures
            key is Some <==> is_secret_key(bytes@),
            key matches Some(k) ==> k@ == bytes@ && !k.was_generated(),
    {
        match secp256k1_keypair_from_bytes(bytes) {
            Ok(_) => Some(NetworkKey { secret: bytes, drawn: Ghost(false) }),
            Err(_) => None,
        }
    }

    /// The bytes of the key, as the key file stores them.
    pub fn to_bytes(&self) -> (bytes: [u8; 32])
        ensures
            bytes@ == self@,
            is_secret_key(bytes@),
    {
        proof {
            use_type_invariant(self);
        }
        self.secret
    }

    /// The libp2p identity key pair of this key.
    pub fn to_keypair(&self) -> (keypair: libp2p::identity::Keypair)
        ensures
            keypair == secp256k1_keypair(self@),
    {
        proof {
            use_type_invariant(self);
        }
        secp256k1_keypair_from_bytes(self.secret).unwrap()
    }
}

/// What reading the key file gave.
pub enum StoredKey {
    /// The file could not be opened.
    Unavailable,
    /// The file was opened, but reading it failed.
    Unreadable,
    /// The first bytes of the file, padded with zeros to 32 when the read
    /// gave fewer.
    Read([u8; 32]),
}

/// The key that the key file holds, if it holds one.
pub open spec fn stored_secret(stored: StoredKey) -> Option<Seq<u8>> {
    match stored {
        StoredKey::Read(bytes) => if is_secret_key(bytes@) {
            Some(bytes@)
        } else {
            None
        },
        _ => None,
    }
}

/// The key chosen for the node, and whether it is new (and so is to be
/// written to the key file).
pub struct KeyChoice {
    pub key: NetworkKey,
    pub generated: bool,
}

/// The key chosen for what the key file holds: the stored key, taken as it is
/// and not generated, when the file holds a valid one; otherwise a key the
/// secp256k1 generator drew, marked as new.
pub open spec fn is_key_choice(stored: StoredKey, choice: KeyChoice) -> bool {
    &&& is_secret_key(choice.key@)
    &&& match stored_secret(stored) {
        Some(secret) => choice.key@ == secret && !choice.generated && !choice.key.was_generated(),
        None => choice.generated && choice.key.was_generated(),
    }
}

/// Takes the key from the key file when the file holds a valid secp256k1
/// secret key; otherwise generates a new key, to be saved to the key file.
pub fn create_or_load_private_key(stored: StoredKey) -> (choice: KeyChoice)
    ensures
        is_secret_key(choice.key@),
        stored_secret(stored) matches Some(secret) ==> choice.key@ == secret && !choice.generated
            && !choice.key.was_generated(),
        stored_secret(stored) is None ==> choice.generated && choice.key.was_generated(),
        is_key_choice(stored, choice),
{
    if let StoredKey::Read(bytes) = stored {
        if let Some(key) = NetworkKey::from_bytes(bytes) {
            return KeyChoice { key, generated: false };
        }
    }
    KeyChoice { key: NetworkKey::generate(), generated: true }
}

/// A key is marked as new exactly when the generator drew it, which happens
/// exactly when the key file holds no valid key; a key taken from the file is
/// the stored one, and two choices for the same valid stored key agree.
pub proof fn chosen_key_origin(stored: StoredKey, first: KeyChoice, second: KeyChoice)
    requires
        is_key_choice(stored, first),
        is_key_choice(stored, second),
    ensures
        first.generated == first.key.was_generated(),
        first.generated <==> !(stored_secret(stored) is Some),
        !first.generated ==> first.key@ == second.key@ && !second.generated,
        first.generated ==> second.generated && second.key.was_generated(),
{
}

/// A saved key loads back as the same key: the bytes `to_bytes` gives, once
/// read back from the key file, are taken as they are and nothing new is
/// generated.
pub proof fn saved_key_loads_back(saved: [u8; 32])
    requires
        is_secret_key(saved@),
    ensures
        stored_secret(StoredKey::Read(saved)) == Some(saved@),
{
}

/// The peer id of the node with this key: no other key has it.
pub fn create_peer_id(key: &NetworkKey) -> (id: libp2p::PeerId)
    ensures
        id == secp256k1_peer_id(key@),
        forall|other: Seq<u8>|
            is_secret_key(other) && other != key@ ==> id != #[trigger] secp256k1_peer_id(other),
{
    proof {
        use_type_invariant(key);
    }
    let keypair = key.to_keypair();
    peer_id_of_keypair(&keypair)
}

/// libp2p's noise handshake configuration.
#[verifier::external_type_specification]
#[verifier::external_body]
pub struct ExNoiseConfig(NoiseConfig);

/// The error of libp2p's noise handshake.
#[verifier::external_type_specification]
#[verifier::external_body]
pub struct ExNoiseError(libp2p::noise::Error);

/// The identity key pair that signed a noise configuration's static DH key:
/// the key pair the configuration authenticates with.
pub uninterp spec fn noise_identity_keypair(config: NoiseConfig) -> libp2p::identity::Keypair;

/// The peer id a noise configuration authenticates as: that of its identity
/// key pair's public key.
pub uninterp spec fn noise_identity_peer_id(config: NoiseConfig) -> libp2p::PeerId;

/// `noise::Config::new`: an XX handshake with fresh X25519 keys, whose static
/// DH key is signed by the identity key pair, so that the configuration
/// authenticates as that key pair's peer id. The DH keys are random, so
/// nothing more is stated of them. Signing with a secp256k1 key pair cannot
/// fail (`identity::Keypair::sign` gives `Ok` for it), so for one the call
/// succeeds.
#[verifier::external_body]
fn noise_config_for_keypair(
    keypair: &libp2p::identity::Keypair,
) -> (r: Result<NoiseConfig, libp2p::noise::Error>)
    ensures
        (exists|secret: Seq<u8>|
            is_secret_key(secret) && #[trigger] secp256k1_keypair(secret) == *keypair) ==> r is Ok,
        r matches Ok(config) ==> noise_identity_keypair(config) == *keypair,
        r matches Ok(config) ==> forall|secret: Seq<u8>|
            #[trigger] secp256k1_keypair(secret) == *keypair ==> noise_identity_peer_id(config)
                == secp256k1_peer_id(secret),
{
    NoiseConfig::new(keypair)
}

/// The authenticated noise configuration for the node with this key: signed
/// with the node's key pair, it authenticates as the node's peer id. Signing
/// with the node's secp256k1 key always succeeds.
pub fn generate_noise_config(key: &NetworkKey) -> (r: Result<NoiseConfig, libp2p::noise::Error>)
    ensures
        r is Ok,
        r matches Ok(config) ==> noise_identity_keypair(config) == secp256k1_keypair(key@),
        r matches Ok(config) ==> noise_identity_peer_id(config) == secp256k1_peer_id(key@),
{
    proof {
        use_type_invariant(key);
    }
    let keypair = key.to_keypair();
    assert(is_secret_key(key@) && secp256k1_keypair(key@) == keypair);
    noise_config_for_keypair(&keypair)
}

} // verus!
