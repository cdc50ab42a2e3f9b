//! The accounts an operation touches, as plain values.
//!
//! The host ledger hands each operation the accounts it may read and change.
//! Here an account is its key, its balance in lamports and, for a challenge
//! account, the record it stores.

use vstd::prelude::*;
use crate::record::{ChallengeData, ChallengeRecord};

verus! {

/// The account at a challenge's derived address.
#[derive(Clone, Copy, Debug, PartialEq, Eq)]
pub struct ChallengeAccount {
    /// The address of the account.
    pub key: [u8; 32],
    /// The funds the account holds.
    pub lamports: u64,
    /// The stored record; `None` while nothing is allocated at the address.
    pub data: Option<ChallengeData>,
}

/// The mathematical content of a [`ChallengeAccount`].
pub struct ChallengeAccountView {
    pub key: Seq<u8>,
    pub lamports: nat,
    pub data: Option<ChallengeRecord>,
}

impl View for ChallengeAccount {
    type V = ChallengeAccountView;

    open spec fn view(&self) -> ChallengeAccountView {
        ChallengeAccountView {
            key: self.key@,
            lamports: self.lamports as nat,
            data: match self.data {
                Some(record) => Some(record@),
                None => None,
            },
        }
    }
}

/// The account that creates and funds a challenge.
#[derive(Clone, Copy, Debug, PartialEq, Eq)]
pub struct CreatorAccount {
    pub key: [u8; 32],
    pub lamports: u64,
    /// Whether the host found the creator's signature on the request.
    pub is_signer: bool,
}

/// The mathematical content of a [`CreatorAccount`].
pub struct CreatorAccountView {
    pub key: Seq<u8>,
    pub lamports: nat,
    pub is_signer: bool,
}

impl View for CreatorAccount {
    type V = CreatorAccountView;

    open spec fn view(&self) -> CreatorAccountView {
        CreatorAccountView { key: self.key@, lamports: self.lamports as nat, is_signer: self.is_signer }
    }
}

/// The account that submits a guess and is paid if it matches.
#[derive(Clone, Copy, Debug, PartialEq, Eq)]
pub struct GuesserAccount {
    pub key: [u8; 32],
    pub lamports: u64,
}

/// The mathematical content of a [`GuesserAccount`].
pub struct GuesserAccountView {
    pub key: Seq<u8>,
    pub lamports: nat,
}

impl View for GuesserAccount {
    type V = GuesserAccountView;

    open spec fn view(&self) -> GuesserAccountView {
        GuesserAccountView { key: self.key@, lamports: self.lamports as nat }
    }
}

/// What creating a challenge works on.
#[derive(Clone, Copy, Debug, PartialEq, Eq)]
pub struct CreateChallenge {
    /// The account at the address derived from the creator and the id.
    pub challenge: ChallengeAccount,
    pub creator: CreatorAccount,
    /// The host's minimum balance for an allocation of `CHALLENGE_SPACE` bytes.
    pub rent_exempt_minimum: u64,
}

/// The mathematical content of a [`CreateChallenge`].
pub struct CreateChallengeView {
    pub challenge: ChallengeAccountView,
    pub creator: CreatorAccountView,
    pub rent_exempt_minimum: nat,
}

impl View for CreateChallenge {
    type V = CreateChallengeView;

    open spec fn view(&self) -> CreateChallengeView {
        CreateChallengeView {
            challenge: self.challenge@,
            creator: self.creator@,
            rent_exempt_minimum: self.rent_exempt_minimum as nat,
        }
    }
}

impl CreateChallengeView {
    /// The lamports of both accounts together.
    pub open spec fn total_lamports(self) -> nat {
        self.challenge.lamports + self.creator.lamports
    }

    /// Both balances together fit in 64 bits, as any two balances of one
    /// ledger do.
    pub open spec fn funds_fit(self) -> bool {
        self.total_lamports() <= u64::MAX
    }
}

impl CreateChallenge {
    /// Whether both balances together fit in 64 bits.
    pub fn funds_fit(&self) -> (fit: bool)
        ensures
            fit == self@.funds_fit(),
    {
        self.challenge.lamports.checked_add(self.creator.lamports).is_some()
    }
}

/// What submitting a guess works on.
#[derive(Clone, Copy, Debug, PartialEq, Eq)]
pub struct SubmitGuess {
    /// The account that the guesser says holds the challenge.
    pub challenge: ChallengeAccount,
    pub guesser: GuesserAccount,
    /// The host's minimum balance for the challenge account's allocation.
    pub rent_exempt_minimum: u64,
}

/// The mathematical content of a [`SubmitGuess`].
pub struct SubmitGuessView {
    pub challenge: ChallengeAccountView,
    pub guesser: GuesserAccountView,
    pub rent_exempt_minimum: nat,
}

impl View for SubmitGuess {
    type V = SubmitGuessView;

    open spec fn view(&self) -> SubmitGuessView {
        SubmitGuessView {
            challenge: self.challenge@,
            guesser: self.guesser@,
            rent_exempt_minimum: self.rent_exempt_minimum as nat,
        }
    }
}

impl SubmitGuessView {
    /// The lamports of both accounts together.
    pub open spec fn total_lamports(self) -> nat {
        self.challenge.lamports + self.guesser.lamports
    }

    /// Both balances together fit in 64 bits, as any two balances of one
    /// ledger do.
    pub open spec fn funds_fit(self) -> bool {
        self.total_lamports() <= u64::MAX
    }
}

impl SubmitGuess {
    /// Whether both balances together fit in 64 bits.
    pub fn funds_fit(&self) -> (fit: bool)
        ensures
            fit == self@.funds_fit(),
    {
        self.challenge.lamports.checked_add(self.guesser.lamports).is_some()
    }
}

} // verus!
