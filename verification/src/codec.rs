use vstd::prelude::*;

use crate::error::EscrowError;

verus! {

broadcast use vstd::array::group_array_axioms;

/// Width of an encrypted balance: a twisted ElGamal ciphertext.
pub const ENCRYPTED_BALANCE_LEN: usize = 64;

/// Width of a decryptable balance: an authenticated-encryption ciphertext
/// that only its owner can decrypt locally.
pub const DECRYPTABLE_BALANCE_LEN: usize = 36;

/// Width of an ElGamal public key.
pub const ELGAMAL_KEY_LEN: usize = 32;

/// Width of a transfer proof payload: the context data (an ElGamal public
/// key, a ciphertext and a Pedersen commitment) followed by the
/// ciphertext-commitment equality proof itself.
pub const TRANSFER_PROOF_LEN: usize = 320;

/// Copy a slice of exactly `N` bytes into a fresh array.
fn array_from_slice<const N: usize>(data: &[u8]) -> (r: [u8; N])
    requires
        data@.len() == N,
    ensures
        r@ == data@,
{
    let mut out = [0u8; N];
    let mut i: usize = 0;
    while i < N
        invariant
            i <= N,
            data@.len() == N,
            forall|j: int| 0 <= j < i ==> out@[j] == data@[j],
        decreases N - i,
    {
        out[i] = data[i];
        i += 1;
    }
    proof {
        assert(out@ =~= data@);
    }
    out
}

/// Copy an array of `N` bytes into a fresh vector.
fn bytes_to_vec<const N: usize>(bytes: &[u8; N]) -> (r: Vec<u8>)
    ensures
        r@ == bytes@,
{
    let mut out: Vec<u8> = Vec::new();
    let mut i: usize = 0;
    while i < N
        invariant
            i <= N,
            out@.len() == i,
            forall|j: int| 0 <= j < i ==> out@[j] == bytes@[j],
        decreases N - i,
    {
        out.push(bytes[i]);
        i += 1;
    }
    proof {
        assert(out@ =~= bytes@);
    }
    out
}

/// An opaque ciphertext of the homomorphic balance bookkeeping. The escrow
/// never decodes or mutates its contents.
#[derive(Clone, Copy, Debug)]
#[verifier::ext_equal]
pub struct EncryptedBalance {
    bytes: [u8; ENCRYPTED_BALANCE_LEN],
}

impl View for EncryptedBalance {
    type V = Seq<u8>;

    closed spec fn view(&self) -> Seq<u8> {
        self.bytes@
    }
}

impl PartialEq for EncryptedBalance {
    fn eq(&self, other: &EncryptedBalance) -> (r: bool) {
        crate::address::bytes_eq(&self.bytes, &other.bytes)
    }
}

impl vstd::std_specs::cmp::PartialEqSpecImpl for EncryptedBalance {
    open spec fn obeys_eq_spec() -> bool {
        true
    }

    open spec fn eq_spec(&self, other: &EncryptedBalance) -> bool {
        self@ == other@
    }
}

impl EncryptedBalance {
    /// Wrap raw ciphertext bytes.
    pub fn new(bytes: [u8; ENCRYPTED_BALANCE_LEN]) -> (r: EncryptedBalance)
        ensures
            r@ == bytes@,
    {
        EncryptedBalance { bytes }
    }

    /// Serialize: a raw fixed-width byte copy of the opaque payload.
    pub fn encode(&self) -> (r: Vec<u8>)
        ensures
            r@ == self@,
            r@.len() == ENCRYPTED_BALANCE_LEN,
    {
        bytes_to_vec(&self.bytes)
    }

    /// Deserialize: succeeds exactly on inputs of the expected width and
    /// returns their byte-for-byte copy.
    pub fn decode(data: &[u8]) -> (r: Result<EncryptedBalance, EscrowError>)
        ensures
            match r {
                Ok(y) => data@.len() == ENCRYPTED_BALANCE_LEN && y@ == data@,
                Err(e) => data@.len() != ENCRYPTED_BALANCE_LEN && e == EscrowError::MalformedCiphertext,
            },
    {
        if data.len() != ENCRYPTED_BALANCE_LEN {
            return Err(EscrowError::MalformedCiphertext);
        }
        Ok(EncryptedBalance { bytes: array_from_slice(data) })
    }
}

/// Decoding an encoded encrypted balance gives back the same value.
pub proof fn lemma_encrypted_balance_round_trip(x: EncryptedBalance, encoded: Seq<u8>, decoded: EncryptedBalance)
    requires
        encoded == x@,
        decoded@ == encoded,
    ensures
        decoded == x,
{
    assert(decoded.bytes =~= x.bytes);
    assert(decoded =~= x);
}

/// An opaque ciphertext that only its owner can decrypt locally. The escrow
/// never decodes or mutates its contents.
#[derive(Clone, Copy, Debug)]
#[verifier::ext_equal]
pub struct DecryptableBalance {
    bytes: [u8; DECRYPTABLE_BALANCE_LEN],
}

impl View for DecryptableBalance {
    type V = Seq<u8>;

    closed spec fn view(&self) -> Seq<u8> {
        self.bytes@
    }
}

impl PartialEq for DecryptableBalance {
    fn eq(&self, other: &DecryptableBalance) -> (r: bool) {
        crate::address::bytes_eq(&self.bytes, &other.bytes)
    }
}

impl vstd::std_specs::cmp::PartialEqSpecImpl for DecryptableBalance {
    open spec fn obeys_eq_spec() -> bool {
        true
    }

    open spec fn eq_spec(&self, other: &DecryptableBalance) -> bool {
        self@ == other@
    }
}

impl DecryptableBalance {
    /// Wrap raw ciphertext bytes.
    pub fn new(bytes: [u8; DECRYPTABLE_BALANCE_LEN]) -> (r: DecryptableBalance)
        ensures
            r@ == bytes@,
    {
        DecryptableBalance { bytes }
    }

    /// Serialize: a raw fixed-width byte copy of the opaque payload.
    pub fn encode(&self) -> (r: Vec<u8>)
        ensures
            r@ == self@,
            r@.len() == DECRYPTABLE_BALANCE_LEN,
    {
        bytes_to_vec(&self.bytes)
    }

    /// Deserialize: succeeds exactly on inputs of the expected width and
    /// returns their byte-for-byte copy.
    pub fn decode(data: &[u8]) -> (r: Result<DecryptableBalance, EscrowError>)
        ensures
            match r {
                Ok(y) => data@.len() == DECRYPTABLE_BALANCE_LEN && y@ == data@,
                Err(e) => data@.len() != DECRYPTABLE_BALANCE_LEN && e == EscrowError::MalformedCiphertext,
            },
    {
        if data.len() != DECRYPTABLE_BALANCE_LEN {
            return Err(EscrowError::MalformedCiphertext);
        }
        Ok(DecryptableBalance { bytes: array_from_slice(data) })
    }
}

/// Decoding an encoded decryptable balance gives back the same value.
pub proof fn lemma_decryptable_balance_round_trip(x: DecryptableBalance, encoded: Seq<u8>, decoded: DecryptableBalance)
    requires
        encoded == x@,
        decoded@ == encoded,
    ensures
        decoded == x,
{
    assert(decoded.bytes =~= x.bytes);
    assert(decoded =~= x);
}

/// An ElGamal public key, kept only as opaque bytes.
#[derive(Clone, Copy, Debug)]
#[verifier::ext_equal]
pub struct ElGamalKey {
    bytes: [u8; ELGAMAL_KEY_LEN],
}

impl View for ElGamalKey {
    type V = Seq<u8>;

    closed spec fn view(&self) -> Seq<u8> {
        self.bytes@
    }
}

impl PartialEq for ElGamalKey {
    fn eq(&self, other: &ElGamalKey) -> (r: bool) {
        crate::address::bytes_eq(&self.bytes, &other.bytes)
    }
}

impl vstd::std_specs::cmp::PartialEqSpecImpl for ElGamalKey {
    open spec fn obeys_eq_spec() -> bool {
        true
    }

    open spec fn eq_spec(&self, other: &ElGamalKey) -> bool {
        self@ == other@
    }
}

impl ElGamalKey {
    /// Wrap raw key bytes.
    pub fn new(bytes: [u8; ELGAMAL_KEY_LEN]) -> (r: ElGamalKey)
        ensures
            r@ == bytes@,
    {
        ElGamalKey { bytes }
    }

    /// The raw key bytes.
    pub fn to_bytes(&self) -> (r: [u8; ELGAMAL_KEY_LEN])
        ensures
            r@ == self@,
    {
        self.bytes
    }
}

/// An externally produced transfer proof payload, kept as an opaque
/// fixed-width blob. Only the external verifier interprets it.
#[derive(Clone, Copy, Debug)]
#[verifier::ext_equal]
pub struct Transferdata {
    bytes: [u8; TRANSFER_PROOF_LEN],
}

impl View for Transferdata {
    type V = Seq<u8>;

    closed spec fn view(&self) -> Seq<u8> {
        self.bytes@
    }
}

impl PartialEq for Transferdata {
    fn eq(&self, other: &Transferdata) -> (r: bool) {
        crate::address::bytes_eq(&self.bytes, &other.bytes)
    }
}

impl vstd::std_specs::cmp::PartialEqSpecImpl for Transferdata {
    open spec fn obeys_eq_spec() -> bool {
        true
    }

    open spec fn eq_spec(&self, other: &Transferdata) -> bool {
        self@ == other@
    }
}

impl Transferdata {
    /// Wrap raw proof bytes.
    pub fn new(bytes: [u8; TRANSFER_PROOF_LEN]) -> (r: Transferdata)
        ensures
            r@ == bytes@,
    {
        Transferdata { bytes }
    }

    /// The raw proof bytes, for handing to the external verifier.
    pub fn raw_bytes(&self) -> (r: &[u8; TRANSFER_PROOF_LEN])
        ensures
            r@ == self@,
    {
        &self.bytes
    }

    /// Serialize: a raw fixed-width byte copy of the opaque payload.
    pub fn encode(&self) -> (r: Vec<u8>)
        ensures
            r@ == self@,
            r@.len() == TRANSFER_PROOF_LEN,
    {
        bytes_to_vec(&self.bytes)
    }

    /// Deserialize: succeeds exactly on inputs of the expected width and
    /// returns their byte-for-byte copy.
    pub fn decode(data: &[u8]) -> (r: Result<Transferdata, EscrowError>)
        ensures
            match r {
                Ok(y) => data@.len() == TRANSFER_PROOF_LEN && y@ == data@,
                Err(e) => data@.len() != TRANSFER_PROOF_LEN && e == EscrowError::MalformedCiphertext,
            },
    {
        if data.len() != TRANSFER_PROOF_LEN {
            return Err(EscrowError::MalformedCiphertext);
        }
        Ok(Transferdata { bytes: array_from_slice(data) })
    }
}

/// Decoding an encoded transfer proof payload gives back the same value.
pub proof fn lemma_transferdata_round_trip(x: Transferdata, encoded: Seq<u8>, decoded: Transferdata)
    requires
        encoded == x@,
        decoded@ == encoded,
    ensures
        decoded == x,
{
    assert(decoded.bytes =~= x.bytes);
    assert(decoded =~= x);
}

} // verus!
