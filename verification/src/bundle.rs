//! Assembling and signing one atomic transaction.
//!
//! An unsigned message fixes the fee payer — always the first loaded identity
//! — and the instructions in their given order. Signing binds the message to
//! a recent block reference and produces one signature per loaded identity,
//! in order; re-signing against a fresh reference discards every earlier
//! signature and yields exactly the new reference's signature set.

use vstd::prelude::*;

use crate::builder::ix_views;
use crate::builder::ixs_wf;
use crate::builder::TransferIx;
use crate::keys::ids_wf;
use crate::keys::Pubkey;
use crate::keys::SigningIdentity;

verus! {

/// Errors that abort the whole bundling run.
#[derive(Clone, Copy, PartialEq, Eq, Structural, Debug)]
pub enum BuildError {
    /// No identity was loaded, so there is no possible fee payer.
    NoIdentities,
}

/// A recent block reference: the 32-byte token that anchors a transaction to
/// a recent network state and bounds its validity window.
pub struct BlockRef {
    bytes: Vec<u8>,
}

impl View for BlockRef {
    type V = Seq<u8>;

    closed spec fn view(&self) -> Seq<u8> {
        self.bytes@
    }
}

impl BlockRef {
    /// A well-formed reference holds exactly 32 bytes.
    pub open spec fn wf(&self) -> bool {
        self@.len() == 32
    }

    /// The raw bytes of the reference.
    pub fn as_bytes(&self) -> (r: &Vec<u8>)
        ensures
            r@ == self@,
    {
        &self.bytes
    }
}

/// Makes a block reference from raw bytes: exactly 32 of them.
pub fn block_ref_from_bytes(bytes: Vec<u8>) -> (r: Option<BlockRef>)
    ensures
        (match r {
            Option::Some(b) => b@ == bytes@ && b.wf(),
            Option::None => bytes@.len() != 32,
        }),
{
    if bytes.len() == 32 {
        Option::Some(BlockRef { bytes })
    } else {
        Option::None
    }
}

/// The serialized bytes of the ledger message that holds the given transfer
/// triples in order, names the given fee payer, and carries the given block
/// reference.
pub uninterp spec fn compiled_message_bytes(
    payer: Seq<u8>,
    ixs: Seq<(Seq<u8>, Seq<u8>, u64)>,
    block_ref: Seq<u8>,
) -> Seq<u8>;

/// The signature the keypair with the given 64 bytes puts on the given
/// message bytes.
pub uninterp spec fn ed25519_signature(keypair: Seq<u8>, msg: Seq<u8>) -> Seq<u8>;

/// An unsigned message: the designated fee payer and the instructions in
/// their given order, awaiting a block reference.
pub struct UnsignedMessage {
    pub fee_payer: Pubkey,
    pub instructions: Vec<TransferIx>,
}

impl UnsignedMessage {
    /// A well-formed message holds a 32-byte fee payer, well-formed
    /// instructions, and few enough of them for the ledger's account table.
    pub open spec fn wf(&self) -> bool {
        self.fee_payer.wf() && ixs_wf(self.instructions@) && self.instructions@.len() <= 126
    }
}

/// The bytes signing binds to: the message compiled against one block
/// reference.
pub open spec fn message_digest(m: UnsignedMessage, block_ref: Seq<u8>) -> Seq<u8> {
    compiled_message_bytes(m.fee_payer@, ix_views(m.instructions@), block_ref)
}

/// A signed transaction: the message, the block reference it was signed
/// against, and one signature per signing identity, in identity order.
pub struct Transaction {
    pub message: UnsignedMessage,
    pub block_ref: BlockRef,
    pub signatures: Vec<Vec<u8>>,
}

/// Relies on `solana_sdk::message::Message::new_with_blockhash` and
/// `Message::serialize`: the serialized ledger message for these transfer
/// instructions, fee payer and block reference, built with
/// `solana_sdk::system_instruction::transfer` for each triple. The result
/// depends on the arguments alone; at most 126 instructions keep the
/// message's account table within its bounds.
#[verifier::external_body]
fn compile_message(payer: &Pubkey, ixs: &Vec<TransferIx>, block_ref: &BlockRef) -> (r: Vec<u8>)
    requires
        payer.wf(),
        ixs_wf(ixs@),
        ixs@.len() <= 126,
        block_ref.wf(),
    ensures
        r@ == compiled_message_bytes(payer@, ix_views(ixs@), block_ref@),
{
    let mut sdk_ixs: Vec<solana_sdk::instruction::Instruction> = Vec::new();
    for ix in ixs.iter() {
        sdk_ixs.push(solana_sdk::system_instruction::transfer(
            &solana_sdk::pubkey::Pubkey::try_from(ix.from.as_bytes().as_slice()).unwrap(),
            &solana_sdk::pubkey::Pubkey::try_from(ix.to.as_bytes().as_slice()).unwrap(),
            ix.lamports,
        ));
    }
    let payer_key = solana_sdk::pubkey::Pubkey::try_from(payer.as_bytes().as_slice()).unwrap();
    let hash = solana_sdk::hash::Hash::from(<[u8; 32]>::try_from(block_ref.as_bytes().as_slice()).unwrap());
    solana_sdk::message::Message::new_with_blockhash(&sdk_ixs, Some(&payer_key), &hash).serialize()
}

/// Relies on `solana_sdk::signer::Signer::sign_message` for
/// `solana_sdk::signer::keypair::Keypair`: the Ed25519 signature the keypair
/// puts on the message bytes, which depends on the keypair and the bytes
/// alone.
#[verifier::external_body]
fn sign_bytes(id: &SigningIdentity, msg: &Vec<u8>) -> (r: Vec<u8>)
    requires
        id.wf(),
    ensures
        r@ == ed25519_signature(id@, msg@),
{
    let kp = solana_sdk::signer::keypair::Keypair::try_from(id.as_bytes().as_slice()).unwrap();
    let sig = solana_sdk::signer::Signer::sign_message(&kp, msg.as_slice());
    <[u8; 64]>::from(sig).to_vec()
}

/// Relies on `solana_sdk::hash::Hash::new_unique`: a fresh 32-byte
/// placeholder reference. Nothing more is promised of its value.
#[verifier::external_body]
fn placeholder_block_ref() -> (r: BlockRef)
    ensures
        r.wf(),
{
    BlockRef { bytes: solana_sdk::hash::Hash::new_unique().to_bytes().to_vec() }
}

/// One signature per identity, in order, over the given message bytes.
fn signature_set(identities: &Vec<SigningIdentity>, msg_bytes: &Vec<u8>) -> (r: Vec<Vec<u8>>)
    requires
        ids_wf(identities@),
    ensures
        r@.len() == identities@.len(),
        forall|i: int|
            0 <= i < identities@.len() ==> (#[trigger] r@[i])@ == ed25519_signature(
                identities@[i]@,
                msg_bytes@,
            ),
{
    let mut sigs: Vec<Vec<u8>> = Vec::new();
    let mut i: usize = 0;
    while i < identities.len()
        invariant
            i <= identities@.len(),
            ids_wf(identities@),
            sigs@.len() == i,
            forall|j: int|
                0 <= j < i ==> (#[trigger] sigs@[j])@ == ed25519_signature(
                    identities@[j]@,
                    msg_bytes@,
                ),
        decreases identities@.len() - i,
    {
        sigs.push(sign_bytes(&identities[i], msg_bytes));
        i = i + 1;
    }
    sigs
}

/// Packages the instructions, in their given order, into one unsigned
/// message whose fee payer is always the first loaded identity.
///
/// Fails with `NoIdentities` exactly when the identity list is empty: there
/// is then no possible fee payer.
pub fn assemble(identities: &Vec<SigningIdentity>, instructions: Vec<TransferIx>) -> (r: Result<
    UnsignedMessage,
    BuildError,
>)
    requires
        ids_wf(identities@),
        ixs_wf(instructions@),
        instructions@.len() <= 126,
    ensures
        identities@.len() == 0 <==> r == Err::<UnsignedMessage, BuildError>(
            BuildError::NoIdentities,
        ),
        identities@.len() > 0 ==> (r matches Ok(m) && m.fee_payer@
            == identities@[0].pubkey_spec() && m.instructions == instructions && m.wf()),
{
    if identities.len() == 0 {
        return Err(BuildError::NoIdentities);
    }
    let fee_payer = identities[0].pubkey();
    Ok(UnsignedMessage { fee_payer, instructions })
}

/// Signs the message over the given block reference with every loaded
/// identity: one signature per identity, in identity order, each over the
/// message as compiled against that reference.
pub fn sign(
    message: UnsignedMessage,
    identities: &Vec<SigningIdentity>,
    block_ref: BlockRef,
) -> (r: Transaction)
    requires
        ids_wf(identities@),
        message.wf(),
        block_ref.wf(),
    ensures
        r.message == message,
        r.block_ref == block_ref,
        r.signatures@.len() == identities@.len(),
        forall|i: int|
            0 <= i < identities@.len() ==> (#[trigger] r.signatures@[i])@ == ed25519_signature(
                identities@[i]@,
                message_digest(message, block_ref@),
            ),
{
    let msg_bytes = compile_message(&message.fee_payer, &message.instructions, &block_ref);
    let signatures = signature_set(identities, &msg_bytes);
    Transaction { message, block_ref, signatures }
}

/// Re-signs the transaction against a fresh block reference.
///
/// Every earlier signature is discarded: afterwards the transaction carries
/// exactly the new reference's signature set — one signature per identity
/// over the message as compiled against the new reference — and never a mix
/// of signatures from two references.
pub fn resign(tx: &mut Transaction, identities: &Vec<SigningIdentity>, block_ref: BlockRef)
    requires
        ids_wf(identities@),
        old(tx).message.wf(),
        block_ref.wf(),
    ensures
        final(tx).message == old(tx).message,
        final(tx).block_ref == block_ref,
        final(tx).signatures@.len() == identities@.len(),
        forall|i: int|
            0 <= i < identities@.len() ==> (#[trigger] final(tx).signatures@[i])@
                == ed25519_signature(
                identities@[i]@,
                message_digest(old(tx).message, block_ref@),
            ),
{
    let msg_bytes = compile_message(&tx.message.fee_payer, &tx.message.instructions, &block_ref);
    let signatures = signature_set(identities, &msg_bytes);
    tx.signatures = signatures;
    tx.block_ref = block_ref;
}

/// Bundles the instructions into one transaction: assembles the message with
/// the first loaded identity as fee payer, then signs it with every loaded
/// identity over a fresh placeholder block reference.
///
/// Fails with `NoIdentities` exactly when the identity list is empty.
pub fn bundle_trades(identities: &Vec<SigningIdentity>, instructions: Vec<TransferIx>) -> (r:
    Result<Transaction, BuildError>)
    requires
        ids_wf(identities@),
        ixs_wf(instructions@),
        instructions@.len() <= 126,
    ensures
        identities@.len() == 0 <==> r == Err::<Transaction, BuildError>(BuildError::NoIdentities),
        identities@.len() > 0 ==> (r matches Ok(tx) && tx.message.fee_payer@
            == identities@[0].pubkey_spec() && tx.message.instructions == instructions
            && tx.message.wf() && tx.block_ref.wf() && tx.signatures@.len() == identities@.len()
            && (forall|i: int|
            0 <= i < identities@.len() ==> (#[trigger] tx.signatures@[i])@ == ed25519_signature(
                identities@[i]@,
                message_digest(tx.message, tx.block_ref@),
            ))),
{
    let message = match assemble(identities, instructions) {
        Ok(m) => m,
        Err(e) => {
            return Err(e);
        },
    };
    let block_ref = placeholder_block_ref();
    Ok(sign(message, identities, block_ref))
}

} // verus!
