use vstd::prelude::*;

use crate::errors::DiceError;
use crate::fairness::blake3_of;
use crate::fairness::outcome_of_signature;
use crate::fairness::outcome_spec;
use crate::payout::BPS_DENOMINATOR;
use crate::payout::payout_amount;
use crate::payout::payout_spec;
use crate::record::SignatureEntry;
use crate::record::SignatureEntryView;
use crate::record::parse_verification_record;
use crate::record::record_entries_spec;
use crate::record::record_wf;
use crate::record::views_of;
use crate::sigcheck::verify_ed25519_signature;
use crate::sigcheck::verify_spec;

verus! {

/// One open wager: a persisted record created by an external "place bet"
/// operation and destroyed by its one settlement.
pub struct Bet {
    /// The player who placed the bet; never changes.
    pub owner: Vec<u8>,
    /// The funds-holding account backing this bet, derived from the house
    /// authority; never changes.
    pub escrow_key: Vec<u8>,
    /// Unique numeric discriminator of this bet under its escrow, from
    /// which the record's own storage address is derived.
    pub sequence_id: u64,
    /// The wagered quantity, in the smallest currency unit.
    pub amount: u64,
    /// The player wins when the derived outcome lies strictly below this.
    pub target_roll: u8,
    /// Salt with which the record's storage address is re-derived.
    pub storage_bump: u8,
}

impl Bet {
    /// The record's invariant: a positive wager on a target in [1, 100].
    pub open spec fn wf(self) -> bool {
        &&& self.amount > 0
        &&& 1 <= self.target_roll <= 100
    }
}

/// What one settlement reports back to the caller.
#[derive(Clone, Copy, Debug, PartialEq, Eq, Structural)]
pub struct Resolution {
    /// The roll derived from the house's signature, in [1, 100].
    pub outcome: u8,
    /// Whether the outcome lay strictly below the bet's target roll.
    pub won: bool,
    /// What the escrow paid the player: zero on a loss.
    pub payout: u64,
}

/// Whether some open bet carries this sequence id.
pub open spec fn has_bet(bets: Seq<Bet>, sequence_id: u64) -> bool {
    exists|i: int| 0 <= i < bets.len() && bets[i].sequence_id == sequence_id
}

/// The position of the open bet carrying this sequence id.
pub open spec fn bet_index(bets: Seq<Bet>, sequence_id: u64) -> int
    recommends
        has_bet(bets, sequence_id),
{
    choose|i: int| 0 <= i < bets.len() && bets[i].sequence_id == sequence_id
}

/// The settlement engine for one house authority: its escrow and the open
/// bet records drawing from it, plus the configured house edge.
pub struct SettlementEngine {
    /// The house authority's public key.
    pub house_key: Vec<u8>,
    /// The house's cut of a winning payout, in basis points; configuration.
    pub house_edge_bps: u16,
    /// Funds pooled in the escrow, in the smallest currency unit.
    pub escrow_balance: u64,
    /// The open bet records, each to be settled exactly once.
    pub bets: Vec<Bet>,
}

impl SettlementEngine {
    /// The engine's invariant: every open record is well formed and no two
    /// records share a sequence id.
    pub open spec fn wf(self) -> bool {
        &&& forall|i: int| 0 <= i < self.bets@.len() ==> (#[trigger] self.bets@[i]).wf()
        &&& forall|i: int, j: int|
            0 <= i < j < self.bets@.len() ==> self.bets@[i].sequence_id != self.bets@[
                j
            ].sequence_id
    }

    /// The open bet carrying this sequence id.
    pub open spec fn bet_for(self, sequence_id: u64) -> Bet
        recommends
            has_bet(self.bets@, sequence_id),
    {
        self.bets@[bet_index(self.bets@, sequence_id)]
    }

    /// Why a resolution request against this engine aborts, or `None` where
    /// it settles: no record at the address; a violated signature check; a
    /// payout the arithmetic cannot price; or an escrow too poor to pay.
    pub open spec fn resolve_err_spec(
        self,
        sequence_id: u64,
        entries: Seq<SignatureEntryView>,
        sig: Seq<u8>,
    ) -> Option<DiceError> {
        if !has_bet(self.bets@, sequence_id) {
            Some(DiceError::BetNotFound)
        } else {
            match verify_spec(entries, self.house_key@, sig) {
                Err(e) => Some(e),
                Ok(()) => {
                    let bet = self.bet_for(sequence_id);
                    let won = outcome_spec(blake3_of(sig)) < bet.target_roll;
                    if won && self.house_edge_bps > BPS_DENOMINATOR {
                        Some(DiceError::ArithmeticOverflow)
                    } else {
                        let payout = if won {
                            payout_spec(bet.amount, self.house_edge_bps)
                        } else {
                            0
                        };
                        if payout > self.escrow_balance {
                            Some(DiceError::InsufficientEscrow)
                        } else {
                            None
                        }
                    }
                },
            }
        }
    }

    /// How a settlement changes the engine: the outcome is derived from the
    /// signature alone; the player wins exactly when it lies strictly below
    /// the bet's target; the escrow is debited by the payout, zero on a
    /// loss; and the bet record is destroyed either way, so no record with
    /// its sequence id remains.
    pub open spec fn settle_spec(
        pre: SettlementEngine,
        post: SettlementEngine,
        sequence_id: u64,
        sig: Seq<u8>,
        res: Resolution,
    ) -> bool {
        &&& has_bet(pre.bets@, sequence_id)
        &&& res.outcome == outcome_spec(blake3_of(sig))
        &&& res.won == (outcome_spec(blake3_of(sig)) < pre.bet_for(sequence_id).target_roll)
        &&& res.payout == if res.won {
            payout_spec(pre.bet_for(sequence_id).amount, pre.house_edge_bps)
        } else {
            0
        }
        &&& post.bets@ == pre.bets@.remove(bet_index(pre.bets@, sequence_id))
        &&& !has_bet(post.bets@, sequence_id)
        &&& post.escrow_balance == pre.escrow_balance - res.payout
        &&& post.house_key == pre.house_key
        &&& post.house_edge_bps == pre.house_edge_bps
    }

    /// A fresh engine with no open bets.
    pub fn new(house_key: Vec<u8>, house_edge_bps: u16, escrow_balance: u64) -> (r:
        SettlementEngine)
        ensures
            r.wf(),
            r.house_key == house_key,
            r.house_edge_bps == house_edge_bps,
            r.escrow_balance == escrow_balance,
            r.bets@.len() == 0,
    {
        SettlementEngine { house_key, house_edge_bps, escrow_balance, bets: Vec::new() }
    }

    /// Records an externally placed bet. Placement itself is out of scope:
    /// the external collaborator hands over a well-formed record whose
    /// sequence id is not in use.
    pub fn open_bet(&mut self, bet: Bet)
        requires
            old(self).wf(),
            bet.wf(),
            !has_bet(old(self).bets@, bet.sequence_id),
        ensures
            final(self).wf(),
            final(self).bets@ == old(self).bets@.push(bet),
            final(self).house_key == old(self).house_key,
            final(self).house_edge_bps == old(self).house_edge_bps,
            final(self).escrow_balance == old(self).escrow_balance,
    {
        proof {
            assert(forall|i: int|
                0 <= i < self.bets@.len() ==> (#[trigger] self.bets@[i]).sequence_id
                    != bet.sequence_id);
        }
        self.bets.push(bet);
    }

    /// Finds the open bet carrying this sequence id.
    fn find_bet(&self, sequence_id: u64) -> (r: Option<usize>)
        ensures
            match r {
                Some(i) => i < self.bets@.len() && self.bets@[i as int].sequence_id == sequence_id,
                None => !has_bet(self.bets@, sequence_id),
            },
    {
        let mut i: usize = 0;
        while i < self.bets.len()
            invariant
                i <= self.bets@.len(),
                forall|j: int| 0 <= j < i ==> self.bets@[j].sequence_id != sequence_id,
            decreases self.bets@.len() - i,
        {
            if self.bets[i].sequence_id == sequence_id {
                return Some(i);
            }
            i = i + 1;
        }
        None
    }

    /// Resolves one bet against an already parsed verification record: the
    /// record must vouch for the supplied signature, the outcome is derived
    /// from that signature, the winner is paid from the escrow, and the bet
    /// record is destroyed — exactly once, for afterwards no record with
    /// its sequence id exists. Any failure leaves the engine unchanged.
    pub fn resolve_bet(
        &mut self,
        sequence_id: u64,
        signature: &Vec<u8>,
        entries: &Vec<SignatureEntry>,
    ) -> (r: Result<Resolution, DiceError>)
        requires
            old(self).wf(),
        ensures
            final(self).wf(),
            match r {
                Ok(res) => {
                    &&& old(self).resolve_err_spec(
                        sequence_id,
                        views_of(entries@),
                        signature@,
                    ) is None
                    &&& Self::settle_spec(*old(self), *final(self), sequence_id, signature@, res)
                },
                Err(e) => {
                    &&& *final(self) == *old(self)
                    &&& old(self).resolve_err_spec(sequence_id, views_of(entries@), signature@)
                        == Some(e)
                },
            },
    {
        let idx = match self.find_bet(sequence_id) {
            None => {
                return Err(DiceError::BetNotFound);
            },
            Some(i) => i,
        };
        proof {
            assert(has_bet(self.bets@, sequence_id));
            let k = bet_index(self.bets@, sequence_id);
            assert(0 <= k < self.bets@.len() && self.bets@[k].sequence_id == sequence_id);
            assert(k == idx as int);
        }
        match verify_ed25519_signature(entries, &self.house_key, signature) {
            Err(e) => {
                return Err(e);
            },
            Ok(()) => {},
        }
        let outcome = outcome_of_signature(signature);
        let target_roll = self.bets[idx].target_roll;
        let amount = self.bets[idx].amount;
        let won = outcome < target_roll;
        let payout: u64 = if won {
            match payout_amount(amount, self.house_edge_bps) {
                Err(e) => {
                    return Err(e);
                },
                Ok(p) => p,
            }
        } else {
            0
        };
        if payout > self.escrow_balance {
            return Err(DiceError::InsufficientEscrow);
        }
        self.escrow_balance = self.escrow_balance - payout;
        self.bets.remove(idx);
        proof {
            assert(!has_bet(self.bets@, sequence_id)) by {
                let pre = old(self).bets@;
                assert forall|i: int| 0 <= i < self.bets@.len() implies self.bets@[
                    i
                ].sequence_id != sequence_id by {
                    if i < idx as int {
                        assert(self.bets@[i] == pre[i]);
                    } else {
                        assert(self.bets@[i] == pre[i + 1]);
                    }
                }
            }
        }
        Ok(Resolution { outcome, won, payout })
    }

    /// Resolves one bet from the raw bytes of the co-submitted verification
    /// record, as the resolution request carries them: the record is parsed
    /// first and a malformed one aborts the resolution with the record
    /// reported unavailable, before any other check.
    pub fn resolve_with_record(
        &mut self,
        sequence_id: u64,
        signature: &Vec<u8>,
        record_data: &Vec<u8>,
    ) -> (r: Result<Resolution, DiceError>)
        requires
            old(self).wf(),
        ensures
            final(self).wf(),
            match r {
                Ok(res) => {
                    &&& record_wf(record_data@)
                    &&& old(self).resolve_err_spec(
                        sequence_id,
                        record_entries_spec(record_data@),
                        signature@,
                    ) is None
                    &&& Self::settle_spec(*old(self), *final(self), sequence_id, signature@, res)
                },
                Err(e) => {
                    &&& *final(self) == *old(self)
                    &&& if !record_wf(record_data@) {
                        e == DiceError::VerificationRecordUnavailable
                    } else {
                        old(self).resolve_err_spec(
                            sequence_id,
                            record_entries_spec(record_data@),
                            signature@,
                        ) == Some(e)
                    }
                },
            },
    {
        let entries = match parse_verification_record(record_data) {
            Err(e) => {
                return Err(e);
            },
            Ok(entries) => entries,
        };
        self.resolve_bet(sequence_id, signature, &entries)
    }
}

/// A bet on a target roll of one can never pay out: no derivable outcome
/// lies below one, so any settlement of such a bet is a loss, and the
/// escrow keeps its balance.
pub proof fn lemma_target_one_always_loses(
    pre: SettlementEngine,
    post: SettlementEngine,
    sequence_id: u64,
    sig: Seq<u8>,
    res: Resolution,
)
    requires
        SettlementEngine::settle_spec(pre, post, sequence_id, sig, res),
        pre.bet_for(sequence_id).target_roll == 1,
    ensures
        !res.won,
        res.payout == 0,
        post.escrow_balance == pre.escrow_balance,
{
    crate::fairness::lemma_target_one_never_wins(blake3_of(sig));
}

/// A settled bet stays settled: once no record carries the sequence id, a
/// new resolution against that address aborts reporting the record not
/// found, whatever signature and verification record it submits.
pub proof fn lemma_settled_bet_stays_settled(
    engine: SettlementEngine,
    sequence_id: u64,
    entries: Seq<SignatureEntryView>,
    sig: Seq<u8>,
)
    requires
        !has_bet(engine.bets@, sequence_id),
    ensures
        engine.resolve_err_spec(sequence_id, entries, sig) == Some(DiceError::BetNotFound),
{
}

} // verus!
