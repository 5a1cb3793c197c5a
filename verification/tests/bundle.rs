use grim_bundle::builder::build;
use grim_bundle::builder::Outcome;
use grim_bundle::builder::SkipReason;
use grim_bundle::builder::TransferRequest;
use grim_bundle::bundle::assemble;
use grim_bundle::bundle::block_ref_from_bytes;
use grim_bundle::bundle::bundle_trades;
use grim_bundle::bundle::resign;
use grim_bundle::bundle::BuildError;
use grim_bundle::keys::decode;
use grim_bundle::keys::SigningIdentity;
use solana_sdk::signer::keypair::Keypair;
use solana_sdk::signer::Signer;

fn fresh_identity() -> (Keypair, SigningIdentity) {
    let kp = Keypair::new();
    let text = bs58::encode(kp.to_bytes()).into_string();
    let id = decode(&text).unwrap();
    (kp, id)
}

fn address_text(kp: &Keypair) -> String {
    bs58::encode(kp.pubkey().as_ref()).into_string()
}

#[test]
fn build_skips_out_of_bounds_source_and_keeps_the_rest() {
    let (dest, _) = fresh_identity();
    let identities: Vec<SigningIdentity> = vec![fresh_identity().1, fresh_identity().1];
    let requests = vec![
        TransferRequest { from: 0, to_pubkey: address_text(&dest), lamports: 10 },
        TransferRequest { from: 5, to_pubkey: address_text(&dest), lamports: 20 },
        TransferRequest { from: 1, to_pubkey: address_text(&dest), lamports: 30 },
    ];
    let (ixs, outcomes) = build(&requests, &identities);
    assert_eq!(
        outcomes,
        vec![
            Outcome::Built,
            Outcome::Skipped(SkipReason::InvalidSourceIndex),
            Outcome::Built,
        ]
    );
    assert_eq!(ixs.len(), 2);
    assert_eq!(ixs[0].from.as_bytes().as_slice(), identities[0].pubkey().as_bytes().as_slice());
    assert_eq!(ixs[0].to.as_bytes().as_slice(), dest.pubkey().as_ref());
    assert_eq!(ixs[0].lamports, 10);
    assert_eq!(ixs[1].from.as_bytes().as_slice(), identities[1].pubkey().as_bytes().as_slice());
    assert_eq!(ixs[1].lamports, 30);
}

#[test]
fn build_skips_invalid_destination_and_keeps_the_rest() {
    let (dest, _) = fresh_identity();
    let identities: Vec<SigningIdentity> = vec![fresh_identity().1];
    let requests = vec![
        TransferRequest { from: 0, to_pubkey: String::from("not an address"), lamports: 1 },
        TransferRequest { from: 0, to_pubkey: address_text(&dest), lamports: 2 },
    ];
    let (ixs, outcomes) = build(&requests, &identities);
    assert_eq!(
        outcomes,
        vec![Outcome::Skipped(SkipReason::InvalidDestination), Outcome::Built]
    );
    assert_eq!(ixs.len(), 1);
    assert_eq!(ixs[0].lamports, 2);
}

#[test]
fn build_of_empty_request_list_is_empty() {
    let identities: Vec<SigningIdentity> = vec![fresh_identity().1];
    let (ixs, outcomes) = build(&Vec::new(), &identities);
    assert!(ixs.is_empty());
    assert!(outcomes.is_empty());
}

#[test]
fn fee_payer_is_always_the_first_identity() {
    let (kp_a, id_a) = fresh_identity();
    let (kp_b, id_b) = fresh_identity();
    let (kp_c, id_c) = fresh_identity();

    let msg = assemble(&vec![id_a, id_b, id_c], Vec::new()).unwrap();
    assert_eq!(msg.fee_payer.as_bytes().as_slice(), kp_a.pubkey().as_ref());

    // Any other order: still the first of the list.
    let (_, id_b2) = fresh_identity_from(&kp_b);
    let (_, id_a2) = fresh_identity_from(&kp_a);
    let (_, id_c2) = fresh_identity_from(&kp_c);
    let msg2 = assemble(&vec![id_c2, id_a2, id_b2], Vec::new()).unwrap();
    assert_eq!(msg2.fee_payer.as_bytes().as_slice(), kp_c.pubkey().as_ref());
}

fn fresh_identity_from(kp: &Keypair) -> (Vec<u8>, SigningIdentity) {
    let bytes = kp.to_bytes().to_vec();
    let text = bs58::encode(&bytes).into_string();
    (bytes, decode(&text).unwrap())
}

#[test]
fn assemble_with_no_identities_fails() {
    assert!(matches!(
        assemble(&Vec::new(), Vec::new()),
        Err(BuildError::NoIdentities)
    ));
    assert!(matches!(
        bundle_trades(&Vec::new(), Vec::new()),
        Err(BuildError::NoIdentities)
    ));
}

#[test]
fn bundle_end_to_end_two_wallets_three_requests_one_skip() {
    let (dest, _) = fresh_identity();
    let (kp_a, id_a) = fresh_identity();
    let (_kp_b, id_b) = fresh_identity();
    let identities = vec![id_a, id_b];
    let requests = vec![
        TransferRequest { from: 0, to_pubkey: address_text(&dest), lamports: 100 },
        TransferRequest { from: 9, to_pubkey: address_text(&dest), lamports: 200 },
        TransferRequest { from: 1, to_pubkey: address_text(&dest), lamports: 300 },
    ];
    let (ixs, outcomes) = build(&requests, &identities);
    let skips = outcomes.iter().filter(|o| matches!(o, Outcome::Skipped(_))).count();
    assert_eq!(skips, 1);
    assert_eq!(ixs.len(), 2);

    let tx = bundle_trades(&identities, ixs).unwrap();
    assert_eq!(tx.message.instructions.len(), 2);
    assert_eq!(tx.signatures.len(), 2);
    assert_eq!(tx.message.fee_payer.as_bytes().as_slice(), kp_a.pubkey().as_ref());
    assert_eq!(tx.block_ref.as_bytes().len(), 32);
}

#[test]
fn signatures_match_the_ledger_sdk() {
    // Signing through the library must put on the wire exactly what the
    // ledger SDK itself would sign: same message bytes, same signatures.
    let (dest, _) = fresh_identity();
    let (kp_a, id_a) = fresh_identity();
    let (kp_b, id_b) = fresh_identity();
    let identities = vec![id_a, id_b];
    let requests = vec![
        TransferRequest { from: 0, to_pubkey: address_text(&dest), lamports: 7 },
        TransferRequest { from: 1, to_pubkey: address_text(&dest), lamports: 8 },
    ];
    let (ixs, _) = build(&requests, &identities);
    let mut tx = bundle_trades(&identities, ixs).unwrap();

    let ref_bytes = [42u8; 32];
    let block_ref = block_ref_from_bytes(ref_bytes.to_vec()).unwrap();
    resign(&mut tx, &identities, block_ref);

    let sdk_ixs = vec![
        solana_sdk::system_instruction::transfer(&kp_a.pubkey(), &dest.pubkey(), 7),
        solana_sdk::system_instruction::transfer(&kp_b.pubkey(), &dest.pubkey(), 8),
    ];
    let sdk_msg = solana_sdk::message::Message::new_with_blockhash(
        &sdk_ixs,
        Some(&kp_a.pubkey()),
        &solana_sdk::hash::Hash::from(ref_bytes),
    );
    let msg_bytes = sdk_msg.serialize();
    let expected_a: [u8; 64] = kp_a.sign_message(&msg_bytes).into();
    let expected_b: [u8; 64] = kp_b.sign_message(&msg_bytes).into();
    assert_eq!(tx.signatures[0].as_slice(), &expected_a[..]);
    assert_eq!(tx.signatures[1].as_slice(), &expected_b[..]);
}

#[test]
fn resign_carries_only_the_new_references_signatures() {
    let (dest, _) = fresh_identity();
    let identities = vec![fresh_identity().1, fresh_identity().1];
    let requests = vec![TransferRequest {
        from: 0,
        to_pubkey: address_text(&dest),
        lamports: 5,
    }];
    let (ixs, _) = build(&requests, &identities);
    let mut tx = bundle_trades(&identities, ixs).unwrap();

    let r1 = block_ref_from_bytes(vec![1u8; 32]).unwrap();
    resign(&mut tx, &identities, r1);
    let sigs_r1 = tx.signatures.clone();

    let r2 = block_ref_from_bytes(vec![2u8; 32]).unwrap();
    resign(&mut tx, &identities, r2);
    let sigs_r2 = tx.signatures.clone();
    assert_eq!(tx.block_ref.as_bytes().as_slice(), &[2u8; 32][..]);

    // No signature of the old reference survives: the sets are disjoint.
    assert_eq!(sigs_r2.len(), identities.len());
    for old_sig in &sigs_r1 {
        assert!(!sigs_r2.contains(old_sig));
    }

    // Re-signing against the first reference again restores exactly its set:
    // the signature set is a function of the reference alone.
    let r1_again = block_ref_from_bytes(vec![1u8; 32]).unwrap();
    resign(&mut tx, &identities, r1_again);
    assert_eq!(tx.signatures, sigs_r1);
}

#[test]
fn block_ref_needs_exactly_32_bytes() {
    assert!(block_ref_from_bytes(vec![0u8; 31]).is_none());
    assert!(block_ref_from_bytes(vec![0u8; 33]).is_none());
    assert!(block_ref_from_bytes(vec![0u8; 32]).is_some());
}
