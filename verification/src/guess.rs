//! Submitting a guess: verification against the commitment and settlement.

use vstd::prelude::*;
use crate::accounts::{ChallengeAccountView, GuesserAccountView, SubmitGuess, SubmitGuessView};
use crate::address::{challenge_address, derive_challenge_address, located, ChallengeRef};
use crate::compare::full_width_eq;
use crate::digest::{sha256, sha256_digest};
use crate::error::CtfError;
use crate::record::{ChallengeData, ChallengeRecord};

verus! {

/// How a guess that was not refused ended.
#[derive(Clone, Copy, Debug, PartialEq, Eq)]
pub enum Outcome {
    /// The guess matched: the challenge is solved and `released_amount`
    /// lamports went to the guesser.
    Solved { released_amount: u64 },
    /// The guess did not match; nothing changed.
    Rejected,
}

/// The mathematical content of an [`Outcome`].
pub enum OutcomeView {
    Solved { released_amount: nat },
    Rejected,
}

impl View for Outcome {
    type V = OutcomeView;

    open spec fn view(&self) -> OutcomeView {
        match *self {
            Outcome::Solved { released_amount } => OutcomeView::Solved {
                released_amount: released_amount as nat,
            },
            Outcome::Rejected => OutcomeView::Rejected,
        }
    }
}

/// What a submission's result stands for.
pub open spec fn verdict(result: Result<Outcome, CtfError>) -> Result<OutcomeView, CtfError> {
    match result {
        Ok(outcome) => Ok(outcome@),
        Err(e) => Err(e),
    }
}

/// What may leave an account that holds `balance` and must keep `reserve`:
/// the excess, and nothing where there is none.
pub open spec fn releasable(balance: nat, reserve: nat) -> nat {
    if balance > reserve {
        (balance - reserve) as nat
    } else {
        0
    }
}

/// Why a guess is refused, if it is.
///
/// `derived` is the address that the stored creator and id derive. The
/// reasons are tried in this order: no record in the account, a record that
/// is solved, an account or bump seed other than the derived ones.
pub open spec fn guess_error(
    pre: SubmitGuessView,
    derived: Option<(Seq<u8>, u8)>,
    bump: u8,
) -> Option<CtfError> {
    if pre.challenge.data is None {
        Some(CtfError::InvalidAccountState)
    } else if pre.challenge.data.unwrap().is_solved {
        Some(CtfError::AlreadySolved)
    } else if derived != Some((pre.challenge.key, bump)) {
        Some(CtfError::InvalidAccountState)
    } else {
        None
    }
}

/// The accounts after a matching guess: the record is marked solved and
/// everything above the reserve has moved to the guesser.
pub open spec fn settled(pre: SubmitGuessView) -> SubmitGuessView
    recommends
        pre.challenge.data is Some,
{
    let released = releasable(pre.challenge.lamports, pre.rent_exempt_minimum);
    let record = pre.challenge.data.unwrap();
    SubmitGuessView {
        challenge: ChallengeAccountView {
            key: pre.challenge.key,
            lamports: (pre.challenge.lamports - released) as nat,
            data: Some(
                ChallengeRecord {
                    challenge_id: record.challenge_id,
                    flag_hash: record.flag_hash,
                    creator: record.creator,
                    is_solved: true,
                },
            ),
        },
        guesser: GuesserAccountView {
            key: pre.guesser.key,
            lamports: pre.guesser.lamports + released,
        },
        rent_exempt_minimum: pre.rent_exempt_minimum,
    }
}

/// Submitting a guess whose digest is `guess_digest`, as one transition: the
/// accounts afterwards and what is returned. Only a matching guess on an
/// unsolved, rightly addressed challenge changes anything.
pub open spec fn guess_step(
    pre: SubmitGuessView,
    derived: Option<(Seq<u8>, u8)>,
    guess_digest: Seq<u8>,
    bump: u8,
) -> (SubmitGuessView, Result<OutcomeView, CtfError>) {
    match guess_error(pre, derived, bump) {
        Some(e) => (pre, Err(e)),
        None => if guess_digest == pre.challenge.data.unwrap().flag_hash {
            (
                settled(pre),
                Ok(
                    OutcomeView::Solved {
                        released_amount: releasable(pre.challenge.lamports, pre.rent_exempt_minimum),
                    },
                ),
            )
        } else {
            (pre, Ok(OutcomeView::Rejected))
        },
    }
}

/// Judges a guess whose digest and whose challenge's derived address are
/// already at hand, and settles it if it matches.
///
/// `derived` is what the derivation gave for the creator and id stored in the
/// challenge account, `guess_digest` the SHA-256 digest of the guess; see
/// [`submit_guess`], which computes both.
pub fn settle_guess(
    ctx: &mut SubmitGuess,
    derived: Option<ChallengeRef>,
    guess_digest: &[u8; 32],
    bump: u8,
) -> (result: Result<Outcome, CtfError>)
    requires
        old(ctx)@.funds_fit(),
    ensures
        (final(ctx)@, verdict(result)) == guess_step(old(ctx)@, located(derived), guess_digest@, bump),
        !(result matches Ok(Outcome::Solved { .. })) ==> *final(ctx) == *old(ctx),
        final(ctx)@.total_lamports() == old(ctx)@.total_lamports(),
{
    let record = match ctx.challenge.data {
        Some(r) => r,
        None => {
            return Err(CtfError::InvalidAccountState);
        },
    };
    if record.is_solved {
        return Err(CtfError::AlreadySolved);
    }
    let handle = match derived {
        Some(r) => r,
        None => {
            return Err(CtfError::InvalidAccountState);
        },
    };
    let same_address = full_width_eq(&handle.address, &ctx.challenge.key);
    if !same_address || handle.bump != bump {
        return Err(CtfError::InvalidAccountState);
    }
    if !full_width_eq(guess_digest, &record.flag_hash) {
        return Ok(Outcome::Rejected);
    }
    let released: u64 = ctx.challenge.lamports.saturating_sub(ctx.rent_exempt_minimum);
    ctx.challenge.lamports = ctx.challenge.lamports - released;
    ctx.guesser.lamports = ctx.guesser.lamports + released;
    ctx.challenge.data = Some(
        ChallengeData {
            challenge_id: record.challenge_id,
            flag_hash: record.flag_hash,
            creator: record.creator,
            is_solved: true,
        },
    );
    Ok(Outcome::Solved { released_amount: released })
}

/// The address that the record stored in `challenge` derives, if the account
/// stores a record and the derivation finds an address.
pub open spec fn expected_address(challenge: ChallengeAccountView) -> Option<(Seq<u8>, u8)> {
    match challenge.data {
        Some(record) => challenge_address(record.creator, record.challenge_id),
        None => None,
    }
}

/// Submitting the guess `guess_plain` as one transition.
pub open spec fn submit_guess_step(
    pre: SubmitGuessView,
    guess_plain: Seq<u8>,
    bump: u8,
) -> (SubmitGuessView, Result<OutcomeView, CtfError>) {
    guess_step(pre, expected_address(pre.challenge), sha256(guess_plain), bump)
}

/// Submits a guess at the challenge's secret.
///
/// If the SHA-256 digest of `guess_plain` equals the stored commitment in
/// every byte, the challenge becomes solved for good, the guesser receives
/// what the challenge account holds above its reserve, and
/// `Outcome::Solved` reports the amount. Otherwise `Outcome::Rejected` is
/// returned and nothing has changed. The guess is refused, and nothing has
/// changed, with `AlreadySolved` if the challenge was solved before, and
/// with `InvalidAccountState` if the account stores no record or if account
/// and `bump` are not what the stored creator and id derive.
pub fn submit_guess(ctx: &mut SubmitGuess, guess_plain: &[u8], bump: u8) -> (result: Result<
    Outcome,
    CtfError,
>)
    requires
        old(ctx)@.funds_fit(),
    ensures
        (final(ctx)@, verdict(result)) == submit_guess_step(old(ctx)@, guess_plain@, bump),
        !(result matches Ok(Outcome::Solved { .. })) ==> *final(ctx) == *old(ctx),
        final(ctx)@.total_lamports() == old(ctx)@.total_lamports(),
{
    let record = match ctx.challenge.data {
        Some(r) => r,
        None => {
            return Err(CtfError::InvalidAccountState);
        },
    };
    if record.is_solved {
        return Err(CtfError::AlreadySolved);
    }
    let derived = derive_challenge_address(&record.creator, record.challenge_id);
    let digest = sha256_digest(guess_plain);
    settle_guess(ctx, derived, &digest, bump)
}

} // verus!
