//! Decoding wallet text into signing identities.
//!
//! A wallet entry is the base58 text of a 64-byte keypair: the 32-byte secret
//! half followed by the 32-byte public half. Decoding rejects text that is not
//! base58 or does not denote exactly 64 bytes (`Malformed`), and byte strings
//! whose public half does not belong to the secret half (`InvalidKey`).

use vstd::prelude::*;

verus! {

/// Errors from decoding wallet text into a signing identity.
#[derive(Clone, Copy, PartialEq, Eq, Structural, Debug)]
pub enum DecodeError {
    /// The text is not valid base58, or decodes to the wrong number of bytes.
    Malformed,
    /// The bytes have the right length but do not form a valid keypair.
    InvalidKey,
}

/// The bytes a base58 text denotes, or `None` where the text is not base58.
pub uninterp spec fn base58_decoded(s: Seq<char>) -> Option<Seq<u8>>;

/// Whether a byte string forms a structurally valid keypair: 64 bytes whose
/// public half matches the one derived from the secret half.
pub uninterp spec fn keypair_bytes_valid(b: Seq<u8>) -> bool;

/// Relies on `bs58::decode(..).into_vec()`: the bytes the base58 text denotes,
/// or an error exactly when some character of the text is not a base58 digit.
/// The result depends on the text alone.
#[verifier::external_body]
fn base58_decode(s: &str) -> (r: Option<Vec<u8>>)
    ensures
        (match r {
            Some(v) => base58_decoded(s@) == Some(v@),
            None => base58_decoded(s@) is None,
        }),
{
    bs58::decode(s).into_vec().ok()
}

/// Relies on `bs58::encode(..).into_string()`: the canonical base58 text of
/// the bytes, which `bs58::decode` reads back to the same bytes.
#[verifier::external_body]
fn base58_encode(b: &Vec<u8>) -> (r: String)
    ensures
        base58_decoded(r@) == Some(b@),
{
    bs58::encode(b.as_slice()).into_string()
}

/// Relies on `solana_sdk::signer::keypair::Keypair::try_from(&[u8])`: accepts
/// exactly the 64-byte strings whose public half (the last 32 bytes) equals
/// the public key derived from the secret half (the first 32 bytes). The
/// result depends on the bytes alone.
#[verifier::external_body]
fn keypair_bytes_ok(b: &Vec<u8>) -> (r: bool)
    ensures
        r == keypair_bytes_valid(b@),
{
    solana_sdk::signer::keypair::Keypair::try_from(b.as_slice()).is_ok()
}

/// A 32-byte account address.
pub struct Pubkey {
    bytes: Vec<u8>,
}

impl View for Pubkey {
    type V = Seq<u8>;

    closed spec fn view(&self) -> Seq<u8> {
        self.bytes@
    }
}

impl Pubkey {
    /// A well-formed address holds exactly 32 bytes.
    pub open spec fn wf(&self) -> bool {
        self@.len() == 32
    }

    /// The raw bytes of the address.
    pub fn as_bytes(&self) -> (r: &Vec<u8>)
        ensures
            r@ == self@,
    {
        &self.bytes
    }

    /// A fresh copy of the address.
    pub fn duplicate(&self) -> (r: Pubkey)
        ensures
            r@ == self@,
    {
        Pubkey { bytes: copy_bytes(&self.bytes) }
    }

    /// Whether two addresses hold the same bytes.
    pub fn eq_key(&self, other: &Pubkey) -> (r: bool)
        ensures
            r == (self@ == other@),
    {
        bytes_eq(&self.bytes, &other.bytes)
    }
}

/// Makes an address from raw bytes: exactly 32 of them.
pub fn pubkey_from_bytes(bytes: Vec<u8>) -> (r: Option<Pubkey>)
    ensures
        (match r {
            Option::Some(p) => p@ == bytes@ && p.wf(),
            Option::None => bytes@.len() != 32,
        }),
{
    if bytes.len() == 32 {
        Option::Some(Pubkey { bytes })
    } else {
        Option::None
    }
}

/// A fresh byte-for-byte copy of a byte vector.
fn copy_bytes(v: &Vec<u8>) -> (r: Vec<u8>)
    ensures
        r@ == v@,
{
    let mut out: Vec<u8> = Vec::new();
    let mut i: usize = 0;
    while i < v.len()
        invariant
            i <= v@.len(),
            out@ == v@.take(i as int),
        decreases v@.len() - i,
    {
        out.push(v[i]);
        proof {
            assert(out@ =~= v@.take(i + 1 as int));
        }
        i = i + 1;
    }
    proof {
        assert(v@.take(v@.len() as int) =~= v@);
    }
    out
}

/// Whether two byte vectors hold the same bytes.
fn bytes_eq(a: &Vec<u8>, b: &Vec<u8>) -> (r: bool)
    ensures
        r == (a@ == b@),
{
    if a.len() != b.len() {
        proof {
            assert(a@ != b@);
        }
        return false;
    }
    let mut i: usize = 0;
    while i < a.len()
        invariant
            i <= a@.len(),
            a@.len() == b@.len(),
            forall|j: int| 0 <= j < i ==> a@[j] == b@[j],
        decreases a@.len() - i,
    {
        if a[i] != b[i] {
            proof {
                assert(a@[i as int] != b@[i as int]);
            }
            return false;
        }
        i = i + 1;
    }
    proof {
        assert(a@ =~= b@);
    }
    true
}

/// A signing identity: a decoded 64-byte keypair. The public half addresses
/// the identity's account; the secret half authorizes its transfers.
pub struct SigningIdentity {
    bytes: Vec<u8>,
}

impl View for SigningIdentity {
    type V = Seq<u8>;

    closed spec fn view(&self) -> Seq<u8> {
        self.bytes@
    }
}

impl SigningIdentity {
    /// A well-formed identity holds exactly the 64 bytes of a valid keypair.
    pub open spec fn wf(&self) -> bool {
        self@.len() == 64 && keypair_bytes_valid(self@)
    }

    /// The public half of the keypair: its last 32 bytes.
    pub open spec fn pubkey_spec(&self) -> Seq<u8> {
        self@.skip(32)
    }

    /// The identity's address: the public half of the keypair.
    pub fn pubkey(&self) -> (r: Pubkey)
        requires
            self.wf(),
        ensures
            r@ == self.pubkey_spec(),
            r.wf(),
    {
        let mut out: Vec<u8> = Vec::new();
        let mut i: usize = 32;
        while i < 64
            invariant
                32 <= i <= 64,
                self@.len() == 64,
                out@ == self@.subrange(32, i as int),
            decreases 64 - i,
        {
            out.push(self.bytes[i]);
            proof {
                assert(out@ =~= self@.subrange(32, i + 1 as int));
            }
            i = i + 1;
        }
        proof {
            assert(out@ =~= self@.skip(32));
        }
        Pubkey { bytes: out }
    }

    /// The identity's raw 64 bytes.
    pub fn as_bytes(&self) -> (r: &Vec<u8>)
        ensures
            r@ == self@,
    {
        &self.bytes
    }
}

/// Every identity in the sequence is well formed.
pub open spec fn ids_wf(ids: Seq<SigningIdentity>) -> bool {
    forall|i: int| 0 <= i < ids.len() ==> (#[trigger] ids[i]).wf()
}

/// Decodes one wallet entry into a signing identity.
///
/// Fails with `Malformed` exactly when the text is not base58 or denotes a
/// byte string of a length other than 64, and with `InvalidKey` exactly when
/// the 64 bytes do not form a structurally valid keypair.
pub fn decode(text: &str) -> (r: Result<SigningIdentity, DecodeError>)
    ensures
        (match base58_decoded(text@) {
            Option::None => r == Err::<SigningIdentity, DecodeError>(DecodeError::Malformed),
            Option::Some(b) => {
                if b.len() != 64 {
                    r == Err::<SigningIdentity, DecodeError>(DecodeError::Malformed)
                } else if !keypair_bytes_valid(b) {
                    r == Err::<SigningIdentity, DecodeError>(DecodeError::InvalidKey)
                } else {
                    r matches Ok(id) && id@ == b && id.wf()
                }
            },
        }),
{
    let decoded = base58_decode(text);
    match decoded {
        Option::None => Err(DecodeError::Malformed),
        Option::Some(bytes) => {
            if bytes.len() != 64 {
                Err(DecodeError::Malformed)
            } else if !keypair_bytes_ok(&bytes) {
                Err(DecodeError::InvalidKey)
            } else {
                Ok(SigningIdentity { bytes })
            }
        },
    }
}

/// Decodes a destination address: base58 text denoting exactly 32 bytes.
///
/// Returns the address exactly when the text is base58 and denotes 32 bytes.
pub fn decode_pubkey(text: &str) -> (r: Option<Pubkey>)
    ensures
        (match r {
            Option::Some(p) => base58_decoded(text@) == Some(p@) && p.wf(),
            Option::None => !(base58_decoded(text@) matches Some(b) && b.len() == 32),
        }),
{
    let decoded = base58_decode(text);
    match decoded {
        Option::None => Option::None,
        Option::Some(bytes) => {
            if bytes.len() == 32 {
                Option::Some(Pubkey { bytes })
            } else {
                Option::None
            }
        },
    }
}

/// Encodes a signing identity back into wallet text.
///
/// The text decodes to exactly the identity's 64 bytes.
pub fn encode(id: &SigningIdentity) -> (r: String)
    ensures
        base58_decoded(r@) == Some(id@),
{
    base58_encode(&id.bytes)
}

/// The codec round trip: re-decoding the encoding of a well-formed identity
/// always succeeds and yields an identity with the same bytes.
pub fn encode_then_decode(id: &SigningIdentity) -> (r: Result<SigningIdentity, DecodeError>)
    requires
        id.wf(),
    ensures
        r matches Ok(back) && back@ == id@,
{
    let text = encode(id);
    decode(text.as_str())
}

} // verus!
