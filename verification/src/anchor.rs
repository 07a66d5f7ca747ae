//! Anchoring of ground-station pass events.
//!
//! A pass is identified by a hash computed off-chain; the contract records
//! the first submission of each hash with the ledger time it was made at and
//! refuses every later one, so a record, once written, never changes.
use vstd::prelude::*;

verus! {

/// Why a request to the pass registry is refused.
#[derive(Clone, Copy, Debug, PartialEq, Eq, Structural)]
pub enum AnchorError {
    PassAlreadyAnchored,
}

impl AnchorError {
    /// The message the contract aborts with for this refusal.
    pub open spec fn text(self) -> Seq<char> {
        match self {
            AnchorError::PassAlreadyAnchored => "pass already anchored"@,
        }
    }

    pub fn message(&self) -> (s: &'static str)
        ensures
            s@ == self.text(),
    {
        match self {
            AnchorError::PassAlreadyAnchored => "pass already anchored",
        }
    }
}

/// The proof that a pass happened: when it was anchored, by whom, and for
/// which satellite. `A` is the type of account addresses and `S` that of
/// satellite names; the registry carries both without reading them.
#[derive(Clone, Debug, PartialEq, Eq)]
pub struct PassAnchorRecord<A, S> {
    pub anchored_at: u64,
    pub submitter: A,
    pub satellite: S,
}

/// The marker type of the pass registry contract.
pub struct PassAnchorContract;

/// The rule of `anchor_pass`.
pub open spec fn anchor_pass_rule<A, S>(
    already_anchored: bool,
    submitter: A,
    satellite: S,
    now: u64,
) -> Result<PassAnchorRecord<A, S>, AnchorError> {
    if already_anchored {
        Err(AnchorError::PassAlreadyAnchored)
    } else {
        Ok(PassAnchorRecord { anchored_at: now, submitter, satellite })
    }
}

/// A pass is anchored exactly when its hash is not anchored yet; the record
/// holds the ledger time of the request, the submitter and the satellite.
/// An anchored hash is refused, so its record is never replaced.
pub proof fn anchor_pass_answers<A, S>(already_anchored: bool, submitter: A, satellite: S, now: u64)
    ensures
        already_anchored ==> anchor_pass_rule(already_anchored, submitter, satellite, now)
            == Err::<PassAnchorRecord<A, S>, AnchorError>(AnchorError::PassAlreadyAnchored),
        !already_anchored ==> anchor_pass_rule(already_anchored, submitter, satellite, now)
            == Ok::<PassAnchorRecord<A, S>, AnchorError>(
            PassAnchorRecord { anchored_at: now, submitter, satellite },
        ),
        AnchorError::PassAlreadyAnchored.text() == "pass already anchored"@,
{
}

impl PassAnchorContract {
    /// Anchors a pass whose hash has not been anchored yet, at ledger time
    /// `now`; a hash that is anchored already is refused, so its record
    /// stays as it is.
    pub fn anchor_pass<A, S>(already_anchored: bool, submitter: A, satellite: S, now: u64) -> (r:
        Result<PassAnchorRecord<A, S>, AnchorError>)
        ensures
            r == anchor_pass_rule(already_anchored, submitter, satellite, now),
            r is Err <==> already_anchored,
            r is Ok ==> r->Ok_0.anchored_at == now,
    {
        if already_anchored {
            return Err(AnchorError::PassAlreadyAnchored);
        }
        Ok(PassAnchorRecord { anchored_at: now, submitter, satellite })
    }
}

} // verus!
