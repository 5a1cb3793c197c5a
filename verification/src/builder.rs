//! Building transfer instructions from parsed requests.
//!
//! Each request is handled independently: a bad source index or an invalid
//! destination skips that one request and is reported, while every other
//! request still produces its instruction, in input order.

use vstd::prelude::*;

use crate::keys::base58_decoded;
use crate::keys::ids_wf;
use crate::keys::Pubkey;
use crate::keys::SigningIdentity;

verus! {

/// One parsed transfer request: the index of the paying identity in the
/// loaded wallet list, the destination address as base58 text, and the
/// amount in the smallest unit.
pub struct TransferRequest {
    pub from: usize,
    pub to_pubkey: String,
    pub lamports: u64,
}

/// Why a request was skipped.
#[derive(Clone, Copy, PartialEq, Eq, Structural, Debug)]
pub enum SkipReason {
    /// The source index is not an index into the loaded identity list.
    InvalidSourceIndex,
    /// The destination text does not denote a 32-byte address.
    InvalidDestination,
}

/// The outcome recorded for one request.
#[derive(Clone, Copy, PartialEq, Eq, Structural, Debug)]
pub enum Outcome {
    /// The request produced an instruction.
    Built,
    /// The request was dropped, for the given reason.
    Skipped(SkipReason),
}

/// One transfer instruction: move `lamports` from the account at `from` to
/// the account at `to`.
pub struct TransferIx {
    pub from: Pubkey,
    pub to: Pubkey,
    pub lamports: u64,
}

impl View for TransferIx {
    type V = (Seq<u8>, Seq<u8>, u64);

    open spec fn view(&self) -> (Seq<u8>, Seq<u8>, u64) {
        (self.from@, self.to@, self.lamports)
    }
}

impl TransferIx {
    /// A well-formed instruction holds two 32-byte addresses.
    pub open spec fn wf(&self) -> bool {
        self.from.wf() && self.to.wf()
    }
}

/// The plain triples behind a sequence of transfer instructions.
pub open spec fn ix_views(s: Seq<TransferIx>) -> Seq<(Seq<u8>, Seq<u8>, u64)> {
    s.map_values(|x: TransferIx| x@)
}

/// Every instruction in the sequence is well formed.
pub open spec fn ixs_wf(s: Seq<TransferIx>) -> bool {
    forall|i: int| 0 <= i < s.len() ==> (#[trigger] s[i]).wf()
}

/// Whether a destination text denotes a 32-byte address.
pub open spec fn dest_valid(s: Seq<char>) -> bool {
    base58_decoded(s) matches Some(b) && b.len() == 32
}

/// The outcome one request gets against a list of `n_ids` identities.
pub open spec fn outcome_of(req: TransferRequest, n_ids: nat) -> Outcome {
    if req.from >= n_ids {
        Outcome::Skipped(SkipReason::InvalidSourceIndex)
    } else if !dest_valid(req.to_pubkey@) {
        Outcome::Skipped(SkipReason::InvalidDestination)
    } else {
        Outcome::Built
    }
}

/// The triple the instruction of one buildable request holds.
pub open spec fn built_ix_of(req: TransferRequest, ids: Seq<SigningIdentity>) -> (
    Seq<u8>,
    Seq<u8>,
    u64,
) {
    (ids[req.from as int].pubkey_spec(), base58_decoded(req.to_pubkey@)->Some_0, req.lamports)
}

/// The triples of the instructions a request list builds, in input order,
/// with each skipped request contributing nothing.
pub open spec fn built_ixs(reqs: Seq<TransferRequest>, ids: Seq<SigningIdentity>) -> Seq<
    (Seq<u8>, Seq<u8>, u64),
>
    decreases reqs.len(),
{
    if reqs.len() == 0 {
        Seq::empty()
    } else {
        built_ixs(reqs.drop_last(), ids) + (if outcome_of(reqs.last(), ids.len())
            == Outcome::Built {
            seq![built_ix_of(reqs.last(), ids)]
        } else {
            Seq::empty()
        })
    }
}

/// Builds one instruction per buildable request, in input order, and records
/// one outcome per request.
///
/// A request whose source index is out of bounds is skipped with
/// `InvalidSourceIndex`; one whose destination does not denote a 32-byte
/// address is skipped with `InvalidDestination`; every other request yields
/// a transfer from its source identity's address to the destination. A skip
/// never aborts the batch: the instruction list is exactly the buildable
/// requests' instructions, and may be shorter than the input, including empty.
pub fn build(requests: &Vec<TransferRequest>, identities: &Vec<SigningIdentity>) -> (r: (
    Vec<TransferIx>,
    Vec<Outcome>,
))
    requires
        ids_wf(identities@),
    ensures
        r.1@.len() == requests@.len(),
        forall|i: int|
            0 <= i < requests@.len() ==> r.1@[i] == outcome_of(requests@[i], identities@.len()),
        ix_views(r.0@) == built_ixs(requests@, identities@),
        ixs_wf(r.0@),
{
    let mut ixs: Vec<TransferIx> = Vec::new();
    let mut outcomes: Vec<Outcome> = Vec::new();
    let mut i: usize = 0;
    while i < requests.len()
        invariant
            i <= requests@.len(),
            ids_wf(identities@),
            outcomes@.len() == i,
            forall|j: int| 0 <= j < i ==> outcomes@[j] == outcome_of(requests@[j], identities@.len()),
            ix_views(ixs@) == built_ixs(requests@.take(i as int), identities@),
            ixs_wf(ixs@),
        decreases requests@.len() - i,
    {
        let req = &requests[i];
        let ghost prev = ixs@;
        if req.from >= identities.len() {
            outcomes.push(Outcome::Skipped(SkipReason::InvalidSourceIndex));
        } else {
            let dest = crate::keys::decode_pubkey(req.to_pubkey.as_str());
            match dest {
                Option::None => {
                    outcomes.push(Outcome::Skipped(SkipReason::InvalidDestination));
                },
                Option::Some(to) => {
                    let from = identities[req.from].pubkey();
                    let ix = TransferIx { from, to, lamports: req.lamports };
                    proof {
                        assert(ix@ == built_ix_of(requests@[i as int], identities@));
                    }
                    ixs.push(ix);
                    outcomes.push(Outcome::Built);
                    proof {
                        assert(ix_views(ixs@) =~= ix_views(prev).push(ix@));
                    }
                },
            }
        }
        proof {
            let k = i as int;
            assert(requests@.take(k + 1).drop_last() =~= requests@.take(k));
            assert(requests@.take(k + 1).last() == requests@[k]);
            if outcome_of(requests@[k], identities@.len()) == Outcome::Built {
                assert(ix_views(ixs@) =~= built_ixs(requests@.take(k + 1), identities@));
            } else {
                assert(ix_views(ixs@) =~= built_ixs(requests@.take(k + 1), identities@));
            }
        }
        i = i + 1;
    }
    proof {
        assert(requests@.take(requests@.len() as int) =~= requests@);
    }
    (ixs, outcomes)
}

} // verus!
