use grim_bundle::keys::decode;
use grim_bundle::keys::decode_pubkey;
use grim_bundle::keys::encode;
use grim_bundle::keys::encode_then_decode;
use grim_bundle::keys::DecodeError;
use solana_sdk::signer::keypair::Keypair;
use solana_sdk::signer::Signer;

fn fresh_wallet_text() -> (Keypair, String) {
    let kp = Keypair::new();
    let text = bs58::encode(kp.to_bytes()).into_string();
    (kp, text)
}

#[test]
fn decode_valid_wallet_text() {
    let (kp, text) = fresh_wallet_text();
    let id = decode(&text).expect("a freshly generated keypair must decode");
    assert_eq!(id.as_bytes().as_slice(), &kp.to_bytes()[..]);
    assert_eq!(id.pubkey().as_bytes().as_slice(), kp.pubkey().as_ref());
}

#[test]
fn decode_encode_round_trip() {
    let (kp, text) = fresh_wallet_text();
    let id = decode(&text).unwrap();
    let re_encoded = encode(&id);
    assert_eq!(re_encoded, text);
    let back = decode(&re_encoded).unwrap();
    assert_eq!(back.as_bytes(), id.as_bytes());
    let round = encode_then_decode(&id).unwrap();
    assert_eq!(round.as_bytes().as_slice(), &kp.to_bytes()[..]);
}

#[test]
fn decode_wrong_length_is_malformed() {
    // Decodes to far fewer than 64 bytes.
    assert!(matches!(decode("abc"), Err(DecodeError::Malformed)));
    // Empty text decodes to zero bytes.
    assert!(matches!(decode(""), Err(DecodeError::Malformed)));
    // 63 and 65 bytes are rejected too.
    let short = bs58::encode([7u8; 63]).into_string();
    assert!(matches!(decode(&short), Err(DecodeError::Malformed)));
    let long = bs58::encode([7u8; 65]).into_string();
    assert!(matches!(decode(&long), Err(DecodeError::Malformed)));
}

#[test]
fn decode_non_base58_is_malformed() {
    // '0', 'O', 'I' and 'l' are not base58 digits.
    assert!(matches!(decode("0OIl"), Err(DecodeError::Malformed)));
    assert!(matches!(decode("not a wallet!"), Err(DecodeError::Malformed)));
}

#[test]
fn decode_corrupted_public_half_is_invalid_key() {
    let (kp, _) = fresh_wallet_text();
    let mut bytes = kp.to_bytes();
    // Corrupt the public half so it no longer belongs to the secret half.
    bytes[63] ^= 0x01;
    let text = bs58::encode(bytes).into_string();
    assert!(matches!(decode(&text), Err(DecodeError::InvalidKey)));
}

#[test]
fn decode_pubkey_accepts_32_bytes() {
    let (kp, _) = fresh_wallet_text();
    let text = bs58::encode(kp.pubkey().as_ref()).into_string();
    let pk = decode_pubkey(&text).expect("a 32-byte address must decode");
    assert_eq!(pk.as_bytes().as_slice(), kp.pubkey().as_ref());
}

#[test]
fn decode_pubkey_rejects_other_lengths_and_bad_text() {
    let short = bs58::encode([9u8; 31]).into_string();
    assert!(decode_pubkey(&short).is_none());
    let long = bs58::encode([9u8; 33]).into_string();
    assert!(decode_pubkey(&long).is_none());
    assert!(decode_pubkey("I am no address").is_none());
}
