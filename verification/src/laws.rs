//! What holds of every challenge, whatever is created and guessed.
//!
//! Each law is stated over the transitions that `create_challenge` and
//! `submit_guess` are proved to follow.

use vstd::prelude::*;
use crate::accounts::{CreateChallengeView, GuesserAccountView, SubmitGuessView};
use crate::address::challenge_address;
use crate::create::create_challenge_step;
use crate::digest::sha256;
use crate::error::CtfError;
use crate::guess::{expected_address, guess_error, releasable, submit_guess_step, OutcomeView};
use crate::record::ChallengeRecord;

verus! {

/// The accounts that a guess works on when it follows a creation: the
/// challenge account as the creation left it, any guesser, and the reserve
/// that the host asks for at that time.
pub open spec fn guess_after_create(
    made: CreateChallengeView,
    guesser: GuesserAccountView,
    reserve: nat,
) -> SubmitGuessView {
    SubmitGuessView { challenge: made.challenge, guesser, rent_exempt_minimum: reserve }
}

/// Creation succeeds whenever it can: if the creator signed, the challenge
/// account is at the address that creator and id derive, no record is stored
/// there and the creator holds the deposit and the reserve, then the account
/// stores a new record, unsolved, with the given id and commitment, and has
/// received exactly the deposit from the creator. At an address that held
/// nothing, the record's balance is the deposit.
pub proof fn lemma_create_succeeds(
    pre: CreateChallengeView,
    challenge_id: u64,
    flag_hash: Seq<u8>,
    deposit: nat,
)
    requires
        pre.creator.is_signer,
        challenge_address(pre.creator.key, challenge_id) is Some,
        challenge_address(pre.creator.key, challenge_id).unwrap().0 == pre.challenge.key,
        pre.challenge.data is None,
        pre.creator.lamports >= deposit + pre.rent_exempt_minimum,
    ensures
        ({
            let (post, result) = create_challenge_step(pre, challenge_id, flag_hash, deposit);
            &&& result == Ok::<(Seq<u8>, u8), CtfError>(
                challenge_address(pre.creator.key, challenge_id).unwrap(),
            )
            &&& post.challenge.key == pre.challenge.key
            &&& post.challenge.data == Some(
                ChallengeRecord { challenge_id, flag_hash, creator: pre.creator.key, is_solved: false },
            )
            &&& post.challenge.lamports == pre.challenge.lamports + deposit
            &&& pre.challenge.lamports == 0 ==> post.challenge.lamports == deposit
            &&& post.creator.lamports + deposit == pre.creator.lamports
            &&& post.creator.lamports >= pre.rent_exempt_minimum
        }),
{
}

/// Creation moves funds and makes none: both balances are the same sum
/// before and after, the challenge account never holds less than before, and
/// a refused creation changes nothing.
pub proof fn lemma_create_conserves_funds(
    pre: CreateChallengeView,
    challenge_id: u64,
    flag_hash: Seq<u8>,
    deposit: nat,
)
    ensures
        ({
            let (post, result) = create_challenge_step(pre, challenge_id, flag_hash, deposit);
            &&& post.total_lamports() == pre.total_lamports()
            &&& post.challenge.lamports >= pre.challenge.lamports
            &&& post.rent_exempt_minimum == pre.rent_exempt_minimum
            &&& result is Err ==> post == pre
        }),
{
}

/// A challenge is created once: after a creation succeeded, creating again
/// for the same creator and id fails with `DuplicateChallenge` and changes
/// nothing, whatever commitment and deposit the second attempt names and
/// whatever the creator then holds.
pub proof fn lemma_second_create_is_duplicate(
    first: CreateChallengeView,
    again: CreateChallengeView,
    challenge_id: u64,
    first_hash: Seq<u8>,
    first_deposit: nat,
    second_hash: Seq<u8>,
    second_deposit: nat,
)
    requires
        create_challenge_step(first, challenge_id, first_hash, first_deposit).1 is Ok,
        again.challenge == create_challenge_step(
            first,
            challenge_id,
            first_hash,
            first_deposit,
        ).0.challenge,
        again.creator.key == first.creator.key,
        again.creator.is_signer,
    ensures
        create_challenge_step(again, challenge_id, second_hash, second_deposit) == (
            again,
            Err::<(Seq<u8>, u8), CtfError>(CtfError::DuplicateChallenge),
        ),
{
}

/// A guess at an unsolved, rightly addressed challenge solves it exactly when
/// its SHA-256 digest is the stored commitment; any other guess is rejected
/// and leaves the accounts as they were.
pub proof fn lemma_solved_iff_digest_matches(pre: SubmitGuessView, guess: Seq<u8>, bump: u8)
    requires
        guess_error(pre, expected_address(pre.challenge), bump) is None,
    ensures
        ({
            let (post, result) = submit_guess_step(pre, guess, bump);
            let commitment = pre.challenge.data.unwrap().flag_hash;
            &&& result is Ok
            &&& post.challenge.data is Some
            &&& post.challenge.data.unwrap().is_solved <==> sha256(guess) == commitment
            &&& result.unwrap() is Solved <==> sha256(guess) == commitment
            &&& result.unwrap() is Rejected <==> sha256(guess) != commitment
            &&& sha256(guess) != commitment ==> post == pre
        }),
{
}

/// A guess that does not solve leaves no trace: whatever is submitted next
/// ends as it would have ended without that guess. So the same guesses,
/// repeated or in another order, are judged the same while the challenge is
/// unsolved.
pub proof fn lemma_unsolving_guess_leaves_no_trace(
    pre: SubmitGuessView,
    guess: Seq<u8>,
    bump: u8,
    next_guess: Seq<u8>,
    next_bump: u8,
)
    requires
        !(submit_guess_step(pre, guess, bump).1 matches Ok(OutcomeView::Solved { .. })),
    ensures
        submit_guess_step(pre, guess, bump).0 == pre,
        submit_guess_step(submit_guess_step(pre, guess, bump).0, next_guess, next_bump)
            == submit_guess_step(pre, next_guess, next_bump),
{
}

/// A solved challenge stays solved: every guess at it, matching or not,
/// fails with `AlreadySolved` and changes neither balance nor record.
pub proof fn lemma_solved_is_terminal(pre: SubmitGuessView, guess: Seq<u8>, bump: u8)
    requires
        pre.challenge.data is Some,
        pre.challenge.data.unwrap().is_solved,
    ensures
        submit_guess_step(pre, guess, bump) == (
            pre,
            Err::<OutcomeView, CtfError>(CtfError::AlreadySolved),
        ),
{
}

/// A challenge is solved once: after a guess solved it, the next guess fails
/// with `AlreadySolved`, whoever submits it and whatever it holds.
pub proof fn lemma_second_solve_fails(
    pre: SubmitGuessView,
    guess: Seq<u8>,
    bump: u8,
    next: SubmitGuessView,
    next_guess: Seq<u8>,
    next_bump: u8,
)
    requires
        submit_guess_step(pre, guess, bump).1 matches Ok(OutcomeView::Solved { .. }),
        next.challenge == submit_guess_step(pre, guess, bump).0.challenge,
    ensures
        submit_guess_step(next, next_guess, next_bump) == (
            next,
            Err::<OutcomeView, CtfError>(CtfError::AlreadySolved),
        ),
{
}

/// Settlement pays out everything above the reserve and nothing of it: after
/// a guess solved a challenge whose account held at least its reserve, the
/// account holds exactly the reserve, and the guesser has gained exactly what
/// the account held above it, which is the amount reported.
pub proof fn lemma_solve_leaves_reserve(pre: SubmitGuessView, guess: Seq<u8>, bump: u8)
    requires
        submit_guess_step(pre, guess, bump).1 matches Ok(OutcomeView::Solved { .. }),
        pre.challenge.lamports >= pre.rent_exempt_minimum,
    ensures
        ({
            let (post, result) = submit_guess_step(pre, guess, bump);
            let gain = pre.challenge.lamports - pre.rent_exempt_minimum;
            &&& post.challenge.lamports == pre.rent_exempt_minimum
            &&& post.guesser.lamports == pre.guesser.lamports + gain
            &&& result == Ok::<OutcomeView, CtfError>(
                OutcomeView::Solved { released_amount: gain as nat },
            )
        }),
{
}

/// No guess takes a challenge account below its reserve, moves funds from the
/// guesser, or makes or destroys funds; an account that holds less than the
/// reserve pays out nothing.
pub proof fn lemma_guess_preserves_reserve(pre: SubmitGuessView, guess: Seq<u8>, bump: u8)
    ensures
        ({
            let post = submit_guess_step(pre, guess, bump).0;
            &&& post.total_lamports() == pre.total_lamports()
            &&& post.guesser.lamports >= pre.guesser.lamports
            &&& post.rent_exempt_minimum == pre.rent_exempt_minimum
            &&& pre.challenge.lamports >= pre.rent_exempt_minimum ==> post.challenge.lamports
                >= pre.rent_exempt_minimum
            &&& pre.challenge.lamports <= pre.rent_exempt_minimum ==> post.challenge.lamports
                == pre.challenge.lamports
        }),
{
}

/// No guess changes what a record commits to, moves it, removes it or
/// unsolves it: key, id, commitment and creator stay, a stored record stays
/// stored, and the solved flag only ever goes from unset to set.
pub proof fn lemma_guess_preserves_record(pre: SubmitGuessView, guess: Seq<u8>, bump: u8)
    ensures
        ({
            let post = submit_guess_step(pre, guess, bump).0;
            &&& post.challenge.key == pre.challenge.key
            &&& post.guesser.key == pre.guesser.key
            &&& post.challenge.data is Some <==> pre.challenge.data is Some
            &&& pre.challenge.data is Some ==> {
                let before = pre.challenge.data.unwrap();
                let after = post.challenge.data.unwrap();
                &&& after.challenge_id == before.challenge_id
                &&& after.flag_hash == before.flag_hash
                &&& after.creator == before.creator
                &&& before.is_solved ==> after.is_solved
            }
        }),
{
}

/// The round trip: a challenge created with the digest of a secret as its
/// commitment is solved by the secret, submitted with the bump seed that the
/// creation returned, and pays the guesser what the account then holds above
/// the reserve. A guess with another digest is rejected and changes nothing.
pub proof fn lemma_round_trip(
    start: CreateChallengeView,
    challenge_id: u64,
    secret: Seq<u8>,
    deposit: nat,
    guesser: GuesserAccountView,
    reserve: nat,
    other: Seq<u8>,
)
    requires
        create_challenge_step(start, challenge_id, sha256(secret), deposit).1 is Ok,
    ensures
        ({
            let (made, handle) = create_challenge_step(start, challenge_id, sha256(secret), deposit);
            let ctx = guess_after_create(made, guesser, reserve);
            let bump = handle.unwrap().1;
            &&& submit_guess_step(ctx, secret, bump).1 == Ok::<OutcomeView, CtfError>(
                OutcomeView::Solved { released_amount: releasable(made.challenge.lamports, reserve) },
            )
            &&& submit_guess_step(ctx, secret, bump).0.challenge.data.unwrap().is_solved
            &&& made.challenge.lamports == start.challenge.lamports + deposit
            &&& made.challenge.lamports >= reserve ==> submit_guess_step(
                ctx,
                secret,
                bump,
            ).0.challenge.lamports == reserve
            &&& sha256(other) != sha256(secret) ==> submit_guess_step(ctx, other, bump) == (
                ctx,
                Ok::<OutcomeView, CtfError>(OutcomeView::Rejected),
            )
        }),
{
}

} // verus!
