use vstd::prelude::*;

use crate::call::Failure;
use crate::error::HPError;
use crate::word::U256;

verus! {

/// The terminal verdict of a simulation.
#[derive(Clone, Copy, Debug, PartialEq, Eq)]
pub enum Verdict {
    /// Both legs went through; what each leg paid out.
    Success { leg1_out: U256, leg2_out: U256 },
    /// The token could be bought but not sold back.
    LikelyHoneypot { failing_leg: u8, reason: Failure },
    /// The run could not tell.
    InconclusiveError { reason: Failure },
}

/// True of the failures that a call into the token or its pool causes
/// (as opposed to missing data or a missing pool).
pub open spec fn blames_call(reason: Failure) -> bool {
    ||| reason == Failure::Reverted
    ||| reason == Failure::Halted
    ||| reason == Failure::Malformed
    ||| reason == Failure::TransferRefused
}

/// The verdict for a failure in leg `leg` (0 before the first leg): only a
/// failing call of the selling leg marks a honeypot.
pub open spec fn classify_spec(leg: u8, reason: Failure) -> Verdict {
    if leg == 2 && blames_call(reason) {
        Verdict::LikelyHoneypot { failing_leg: 2, reason }
    } else {
        Verdict::InconclusiveError { reason }
    }
}

/// Classifies a failure that occurred in leg `leg`.
pub fn classify(leg: u8, reason: Failure) -> (r: Verdict)
    ensures
        r == classify_spec(leg, reason),
{
    let blamed = match reason {
        Failure::Reverted | Failure::Halted | Failure::Malformed | Failure::TransferRefused => true,
        _ => false,
    };
    if leg == 2 && blamed {
        Verdict::LikelyHoneypot { failing_leg: 2, reason }
    } else {
        Verdict::InconclusiveError { reason }
    }
}

impl Verdict {
    /// The error a run with this verdict ends in, if any: a honeypot verdict
    /// is marked as such, an inconclusive one says nothing about the token.
    pub fn into_error(&self) -> (r: Option<HPError>)
        ensures
            (self is Success) <==> r is None,
            self is LikelyHoneypot ==> (r matches Some(e) && e.is_honeypot == Some(true)),
            self is InconclusiveError ==> (r matches Some(e) && e.is_honeypot == None::<bool>),
    {
        match self {
            Verdict::Success { .. } => None,
            Verdict::LikelyHoneypot { reason, .. } => {
                Some(HPError::new(reason.describe().to_string(), Some(true)))
            },
            Verdict::InconclusiveError { reason } => {
                Some(HPError::new(reason.describe().to_string(), None))
            },
        }
    }
}

} // verus!
